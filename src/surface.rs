use vstd::prelude::*;

use crate::counter::{can_increment, increment, next_value};
use crate::error::AppError;

verus! {

/// Where the surface is in its life: built and waiting, or inside its event
/// loop. There is no way back from `Running`.
#[derive(Clone, Copy, Debug, PartialEq, Eq, Structural)]
pub enum Phase {
    Idle,
    Running,
}

/// What the event loop hands to the application.
#[derive(Clone, Copy, Debug, PartialEq, Eq, Structural)]
pub enum Event {
    /// Control passes to the event loop.
    Run,
    /// The user activated the button.
    ButtonPressed,
}

/// The mathematical state of a surface.
pub struct SurfaceView {
    pub counter: int,
    pub phase: Phase,
    /// The counter changed since the display last showed it.
    pub redraw_pending: bool,
}

/// A freshly constructed surface: counter zero, idle, nothing to redraw.
pub open spec fn initial() -> SurfaceView {
    SurfaceView { counter: 0, phase: Phase::Idle, redraw_pending: false }
}

/// The state after a property set of the counter: the value is stored and a
/// redraw is due.
pub open spec fn with_counter(s: SurfaceView, v: int) -> SurfaceView {
    SurfaceView { counter: v, redraw_pending: true, ..s }
}

/// The state after one event. A button activation raises the counter by one
/// when that still fits and leaves the state as it was otherwise.
pub open spec fn step(s: SurfaceView, e: Event) -> SurfaceView {
    match e {
        Event::Run => SurfaceView { phase: Phase::Running, ..s },
        Event::ButtonPressed => if s.counter < i32::MAX {
            with_counter(s, next_value(s.counter))
        } else {
            s
        },
    }
}

/// Whether handling `e` in state `s` fails.
pub open spec fn step_fails(s: SurfaceView, e: Event) -> bool {
    e == Event::ButtonPressed && s.counter >= i32::MAX
}

/// The UI surface's state store: one counter and the life-cycle phase.
#[derive(Clone, Copy, Debug)]
pub struct Surface {
    counter: i32,
    phase: Phase,
    redraw_pending: bool,
}

impl View for Surface {
    type V = SurfaceView;

    closed spec fn view(&self) -> SurfaceView {
        SurfaceView {
            counter: self.counter as int,
            phase: self.phase,
            redraw_pending: self.redraw_pending,
        }
    }
}

impl Surface {
    /// Constructs a surface in its initial state.
    pub fn new() -> (s: Surface)
        ensures
            s@ == initial(),
    {
        Surface { counter: 0, phase: Phase::Idle, redraw_pending: false }
    }

    /// Reads the counter.
    pub fn get_counter(&self) -> (r: i32)
        ensures
            r as int == self@.counter,
    {
        self.counter
    }

    /// Writes the counter; the display is then due for a redraw.
    pub fn set_counter(&mut self, v: i32)
        ensures
            final(self)@ == with_counter(old(self)@, v as int),
    {
        self.counter = v;
        self.redraw_pending = true;
    }

    /// The current life-cycle phase.
    pub fn phase(&self) -> (r: Phase)
        ensures
            r == self@.phase,
    {
        self.phase
    }

    /// Whether the display is due for a redraw.
    pub fn redraw_pending(&self) -> (r: bool)
        ensures
            r == self@.redraw_pending,
    {
        self.redraw_pending
    }

    /// Enters the event loop's phase.
    pub fn run(&mut self)
        ensures
            final(self)@ == step(old(self)@, Event::Run),
    {
        self.phase = Phase::Running;
    }

    /// The button callback: reads the counter and writes it back raised by
    /// one. Returns the new value, or `CounterOverflow` with the state
    /// untouched when the counter is already at its largest value.
    pub fn press(&mut self) -> (r: Result<i32, AppError>)
        ensures
            final(self)@ == step(old(self)@, Event::ButtonPressed),
            r is Err <==> step_fails(old(self)@, Event::ButtonPressed),
            r is Ok ==> r->Ok_0 as int == old(self)@.counter + 1,
            r is Err ==> r->Err_0 == AppError::CounterOverflow,
    {
        let current = self.get_counter();
        match increment(current) {
            Ok(v) => {
                self.set_counter(v);
                Ok(v)
            },
            Err(e) => Err(e),
        }
    }

    /// Handles one event from the event loop.
    pub fn handle(&mut self, e: Event) -> (r: Result<(), AppError>)
        ensures
            final(self)@ == step(old(self)@, e),
            r is Err <==> step_fails(old(self)@, e),
            r is Err ==> r->Err_0 == AppError::CounterOverflow,
    {
        match e {
            Event::Run => {
                self.run();
                Ok(())
            },
            Event::ButtonPressed => match self.press() {
                Ok(_) => Ok(()),
                Err(err) => Err(err),
            },
        }
    }

    /// The explicit publish step: when the counter changed since the last
    /// render, clears the pending flag and returns the value to display.
    pub fn take_redraw(&mut self) -> (r: Option<i32>)
        ensures
            old(self)@.redraw_pending ==> r == Some(old(self)@.counter as i32),
            !old(self)@.redraw_pending ==> r is None,
            final(self)@ == (SurfaceView { redraw_pending: false, ..old(self)@ }),
    {
        if self.redraw_pending {
            self.redraw_pending = false;
            Some(self.counter)
        } else {
            None
        }
    }
}

} // verus!
