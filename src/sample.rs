//! Sample states that show how the driver is used.
use crate::state::{IntoState, NextState, State};
use vstd::prelude::*;

verus! {

/// Shared context of the counting machine: the number of events so far.
pub struct AppShared {
    pub count: u64,
}

impl View for AppShared {
    type V = u64;

    open spec fn view(&self) -> u64 {
        self.count
    }
}

/// States of the counting machine. Each event bumps the count; `Run` goes to
/// `Exit` and `Resize` in turn, and both go back to `Run`.
#[derive(Clone, Copy, Debug, PartialEq, Eq, Structural)]
pub enum AppState {
    Run,
    Exit,
    Resize,
}

impl IntoState<AppState> for AppState {
    open spec fn into_state(&self, next: AppState) -> bool {
        match (*self, next) {
            (AppState::Run, AppState::Exit) => true,
            (AppState::Exit, AppState::Run) => true,
            (AppState::Run, AppState::Resize) => true,
            (AppState::Resize, AppState::Run) => true,
            _ => false,
        }
    }
}

impl State<AppShared> for AppState {
    open spec fn enter_spec(&self, shared: u64) -> u64 {
        shared
    }

    open spec fn exit_spec(&self, shared: u64) -> u64 {
        shared
    }

    open spec fn event_spec(&self, shared: u64) -> u64 {
        shared.wrapping_add(1)
    }

    open spec fn next_spec(&self, shared: u64) -> Option<AppState> {
        match *self {
            AppState::Run => if shared % 4 == 1 {
                Some(AppState::Exit)
            } else {
                Some(AppState::Resize)
            },
            AppState::Exit => Some(AppState::Run),
            AppState::Resize => Some(AppState::Run),
        }
    }

    proof fn lemma_next_declared(&self, shared: u64) {
    }

    fn on_enter(&self, shared: &mut AppShared) {
    }

    fn on_exit(&self, shared: &mut AppShared) {
    }

    fn on_event(&self, shared: &mut AppShared) -> (r: Option<NextState<AppShared, AppState>>) {
        shared.count = shared.count.wrapping_add(1);
        match *self {
            AppState::Run => if shared.count % 4 == 1 {
                Some(self.transition(AppState::Exit, shared))
            } else {
                Some(self.transition(AppState::Resize, shared))
            },
            AppState::Exit => Some(self.transition(AppState::Run, shared)),
            AppState::Resize => Some(self.transition(AppState::Run, shared)),
        }
    }
}

/// States of a switch that flips between `On` and `Off` on each event, and
/// that stays put once `Jammed`.
#[derive(Clone, Copy, Debug, PartialEq, Eq, Structural)]
pub enum Switch {
    On,
    Off,
    Jammed,
}

/// One lifecycle hook that ran, and on which state.
#[derive(Clone, Copy, Debug, PartialEq, Eq, Structural)]
pub enum Hook {
    Enter(Switch),
    Exit(Switch),
}

/// Shared context of the switch: the hooks that ran, in order, and the number
/// of events handled.
pub struct Journal {
    pub hooks: Vec<Hook>,
    pub events: u64,
}

impl View for Journal {
    type V = (Seq<Hook>, u64);

    open spec fn view(&self) -> (Seq<Hook>, u64) {
        (self.hooks@, self.events)
    }
}

impl IntoState<Switch> for Switch {
    open spec fn into_state(&self, next: Switch) -> bool {
        match (*self, next) {
            (Switch::On, Switch::Off) => true,
            (Switch::Off, Switch::On) => true,
            _ => false,
        }
    }
}

impl State<Journal> for Switch {
    open spec fn enter_spec(&self, shared: (Seq<Hook>, u64)) -> (Seq<Hook>, u64) {
        (shared.0.push(Hook::Enter(*self)), shared.1)
    }

    open spec fn exit_spec(&self, shared: (Seq<Hook>, u64)) -> (Seq<Hook>, u64) {
        (shared.0.push(Hook::Exit(*self)), shared.1)
    }

    open spec fn event_spec(&self, shared: (Seq<Hook>, u64)) -> (Seq<Hook>, u64) {
        (shared.0, shared.1.wrapping_add(1))
    }

    open spec fn next_spec(&self, shared: (Seq<Hook>, u64)) -> Option<Switch> {
        match *self {
            Switch::On => Some(Switch::Off),
            Switch::Off => Some(Switch::On),
            Switch::Jammed => None,
        }
    }

    proof fn lemma_next_declared(&self, shared: (Seq<Hook>, u64)) {
    }

    fn on_enter(&self, shared: &mut Journal) {
        shared.hooks.push(Hook::Enter(*self));
    }

    fn on_exit(&self, shared: &mut Journal) {
        shared.hooks.push(Hook::Exit(*self));
    }

    fn on_event(&self, shared: &mut Journal) -> (r: Option<NextState<Journal, Switch>>) {
        shared.events = shared.events.wrapping_add(1);
        match *self {
            Switch::On => Some(self.transition(Switch::Off, shared)),
            Switch::Off => Some(self.transition(Switch::On, shared)),
            Switch::Jammed => None,
        }
    }
}

} // verus!
