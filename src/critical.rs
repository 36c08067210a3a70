//! When the keyboard handler may run on a core whose mainline code shares the
//! display lock with it.
//!
//! Mainline code masks interrupts before it takes the lock and unmasks them
//! after it lets go. A keyboard interrupt raised meanwhile waits at the
//! controller, and its handler runs once interrupts are unmasked again; the
//! handler takes the lock itself and releases it before it returns.
use vstd::prelude::*;

verus! {

/// The state of one core as far as the shared lock is concerned.
#[derive(Debug, Clone, Copy, PartialEq, Eq, Structural)]
pub struct CoreState {
    pub interrupts_enabled: bool,
    /// Mainline code holds the lock.
    pub lock_held: bool,
    /// A keyboard interrupt was raised while interrupts were masked.
    pub keyboard_pending: bool,
}

/// What happens on the core.
#[derive(Debug, Clone, Copy, PartialEq, Eq, Structural)]
pub enum CoreEvent {
    /// Mainline masks interrupts, then takes the lock.
    EnterCritical,
    /// Mainline lets go of the lock, then unmasks interrupts.
    LeaveCritical,
    /// The keyboard raises its interrupt line.
    KeyboardIrq,
}

/// What the core does in answer.
#[derive(Debug, Clone, Copy, PartialEq, Eq, Structural)]
pub enum CoreAction {
    Nothing,
    /// The keyboard handler runs to its end.
    RunKeyboardHandler,
}

/// The lock is never held with interrupts unmasked.
pub open spec fn lock_masks_interrupts(s: CoreState) -> bool {
    s.lock_held ==> !s.interrupts_enabled
}

/// Mainline takes the lock only when it does not hold it, and lets go of it
/// only when it does.
pub open spec fn event_allowed(s: CoreState, e: CoreEvent) -> bool {
    match e {
        CoreEvent::EnterCritical => !s.lock_held,
        CoreEvent::LeaveCritical => s.lock_held,
        CoreEvent::KeyboardIrq => true,
    }
}

/// The next state and the action for an event.
pub open spec fn core_next(s: CoreState, e: CoreEvent) -> (CoreState, CoreAction) {
    match e {
        CoreEvent::EnterCritical => (
            CoreState { interrupts_enabled: false, lock_held: true, ..s },
            CoreAction::Nothing,
        ),
        CoreEvent::LeaveCritical => (
            CoreState { interrupts_enabled: true, lock_held: false, keyboard_pending: false },
            if s.keyboard_pending {
                CoreAction::RunKeyboardHandler
            } else {
                CoreAction::Nothing
            },
        ),
        CoreEvent::KeyboardIrq => if s.interrupts_enabled {
            (s, CoreAction::RunKeyboardHandler)
        } else {
            (CoreState { keyboard_pending: true, ..s }, CoreAction::Nothing)
        },
    }
}

/// A core that has just enabled interrupts, with the lock free.
pub fn core_start() -> (r: CoreState)
    ensures
        lock_masks_interrupts(r),
        r == (CoreState { interrupts_enabled: true, lock_held: false, keyboard_pending: false }),
{
    CoreState { interrupts_enabled: true, lock_held: false, keyboard_pending: false }
}

/// Decides what the core does on `e`. The keyboard handler runs only with
/// the lock free and interrupts unmasked; an interrupt that comes while the
/// lock is held waits and runs when the lock is let go.
pub fn core_step(s: CoreState, e: CoreEvent) -> (r: (CoreState, CoreAction))
    requires
        lock_masks_interrupts(s),
        event_allowed(s, e),
    ensures
        r == core_next(s, e),
        lock_masks_interrupts(r.0),
        r.1 == CoreAction::RunKeyboardHandler ==> !r.0.lock_held && r.0.interrupts_enabled,
{
    match e {
        CoreEvent::EnterCritical => (
            CoreState { interrupts_enabled: false, lock_held: true, keyboard_pending: s.keyboard_pending },
            CoreAction::Nothing,
        ),
        CoreEvent::LeaveCritical => {
            let action = if s.keyboard_pending {
                CoreAction::RunKeyboardHandler
            } else {
                CoreAction::Nothing
            };
            (CoreState { interrupts_enabled: true, lock_held: false, keyboard_pending: false }, action)
        },
        CoreEvent::KeyboardIrq => {
            if s.interrupts_enabled {
                (s, CoreAction::RunKeyboardHandler)
            } else {
                (
                    CoreState { interrupts_enabled: s.interrupts_enabled, lock_held: s.lock_held, keyboard_pending: true },
                    CoreAction::Nothing,
                )
            }
        },
    }
}

/// Every event of a run is allowed in the state it comes to.
pub open spec fn run_allowed(s: CoreState, events: Seq<CoreEvent>) -> bool
    decreases events.len(),
{
    events.len() == 0 || (event_allowed(s, events[0]) && run_allowed(
        core_next(s, events[0]).0,
        events.drop_first(),
    ))
}

/// Along a run from `s`, the handler never runs while the lock is held.
pub open spec fn handler_never_under_lock(s: CoreState, events: Seq<CoreEvent>) -> bool
    decreases events.len(),
{
    events.len() == 0 || ({
        let (n, a) = core_next(s, events[0]);
        &&& (a == CoreAction::RunKeyboardHandler ==> !n.lock_held && n.interrupts_enabled)
        &&& lock_masks_interrupts(n)
        &&& handler_never_under_lock(n, events.drop_first())
    })
}

/// Under any interleaving of mainline critical sections and keyboard
/// interrupts, starting with the lock unheld or held under masked
/// interrupts, the keyboard handler runs only after the lock is let go and
/// interrupts are unmasked, and the lock is never held with interrupts on.
pub proof fn lemma_interleaving_safe(s: CoreState, events: Seq<CoreEvent>)
    requires
        lock_masks_interrupts(s),
        run_allowed(s, events),
    ensures
        handler_never_under_lock(s, events),
    decreases events.len(),
{
    if events.len() > 0 {
        lemma_interleaving_safe(core_next(s, events[0]).0, events.drop_first());
    }
}

/// A keyboard interrupt raised while mainline holds the lock does not run
/// its handler then, and runs it exactly when the lock is let go.
pub proof fn lemma_pending_runs_at_release(s: CoreState)
    requires
        s.lock_held,
        lock_masks_interrupts(s),
    ensures
        core_next(s, CoreEvent::KeyboardIrq).1 == CoreAction::Nothing,
        core_next(core_next(s, CoreEvent::KeyboardIrq).0, CoreEvent::LeaveCritical).1
            == CoreAction::RunKeyboardHandler,
{
}

} // verus!
