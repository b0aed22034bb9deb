use vstd::prelude::*;

use crate::error::AppError;
use crate::surface::{initial, step, step_fails, Event, Surface, SurfaceView};

verus! {

/// A non-owning reference to a surface held by a `Registry`: it does not keep
/// the surface alive, and every use resolves it anew.
#[derive(Clone, Copy, Debug, PartialEq, Eq, Structural)]
pub struct WeakHandle {
    pub slot: usize,
}

/// Owns the live surfaces. A destroyed surface leaves an empty slot behind,
/// so a handle to it keeps failing to resolve instead of reaching another
/// surface.
pub struct Registry {
    slots: Vec<Option<Surface>>,
}

/// The surface that `h` leads to in `slots`, if it is still alive.
pub open spec fn live(slots: Seq<Option<SurfaceView>>, h: WeakHandle) -> Option<SurfaceView> {
    if h.slot < slots.len() {
        slots[h.slot as int]
    } else {
        None
    }
}

impl View for Registry {
    type V = Seq<Option<SurfaceView>>;

    closed spec fn view(&self) -> Seq<Option<SurfaceView>> {
        self.slots@.map_values(|o: Option<Surface>|
            match o {
                Some(s) => Some(s@),
                None => None,
            }
        )
    }
}

impl Registry {
    /// A registry with no surfaces.
    pub fn new() -> (r: Registry)
        ensures
            r@ == Seq::<Option<SurfaceView>>::empty(),
    {
        let r = Registry { slots: Vec::new() };
        assert(r@ =~= Seq::<Option<SurfaceView>>::empty());
        r
    }

    /// Constructs a surface in a new slot and returns a weak handle to it.
    pub fn create(&mut self) -> (h: WeakHandle)
        requires
            old(self)@.len() < usize::MAX,
        ensures
            h.slot == old(self)@.len(),
            final(self)@ == old(self)@.push(Some(initial())),
            live(final(self)@, h) == Some(initial()),
    {
        let h = WeakHandle { slot: self.slots.len() };
        self.slots.push(Some(Surface::new()));
        assert(self@ =~= old(self)@.push(Some(initial())));
        h
    }

    /// Destroys the surface that `h` leads to, if it is alive; any handle to
    /// it then fails to resolve.
    pub fn destroy(&mut self, h: WeakHandle)
        ensures
            h.slot < old(self)@.len() ==> final(self)@ == old(self)@.update(h.slot as int, None),
            h.slot >= old(self)@.len() ==> final(self)@ == old(self)@,
            live(final(self)@, h) is None,
    {
        if h.slot < self.slots.len() {
            self.slots.set(h.slot, None);
            assert(self@ =~= old(self)@.update(h.slot as int, None));
        }
    }

    /// Whether `h` still leads to a live surface.
    pub fn is_live(&self, h: WeakHandle) -> (r: bool)
        ensures
            r == live(self@, h) is Some,
    {
        if h.slot < self.slots.len() {
            self.slots[h.slot].is_some()
        } else {
            false
        }
    }

    /// Resolves `h` and reads the counter of the surface it leads to.
    pub fn get_counter(&self, h: WeakHandle) -> (r: Result<i32, AppError>)
        ensures
            live(self@, h) is Some <==> r is Ok,
            r is Ok ==> r->Ok_0 as int == live(self@, h)->Some_0.counter,
            r is Err ==> r->Err_0 == AppError::InstanceGone,
    {
        if h.slot < self.slots.len() {
            match self.slots[h.slot] {
                Some(s) => Ok(s.get_counter()),
                None => Err(AppError::InstanceGone),
            }
        } else {
            Err(AppError::InstanceGone)
        }
    }

    /// Delivers `e` through the weak handle `h`: resolves it, then lets the
    /// surface handle the event. Fails with `InstanceGone`, touching nothing,
    /// when the surface no longer exists; otherwise as `Surface::handle`.
    pub fn dispatch(&mut self, h: WeakHandle, e: Event) -> (r: Result<(), AppError>)
        ensures
            live(old(self)@, h) is None ==> r == Err::<(), AppError>(AppError::InstanceGone)
                && final(self)@ == old(self)@,
            live(old(self)@, h) is Some ==> {
                let s = live(old(self)@, h)->Some_0;
                &&& final(self)@ == old(self)@.update(h.slot as int, Some(step(s, e)))
                &&& (r is Err <==> step_fails(s, e))
                &&& (r is Err ==> r->Err_0 == AppError::CounterOverflow)
            },
    {
        if h.slot >= self.slots.len() {
            return Err(AppError::InstanceGone);
        }
        match self.slots[h.slot] {
            None => Err(AppError::InstanceGone),
            Some(s) => {
                let mut s = s;
                let r = s.handle(e);
                self.slots.set(h.slot, Some(s));
                assert(self@ =~= old(self)@.update(h.slot as int, Some(s@)));
                r
            },
        }
    }
}

} // verus!
