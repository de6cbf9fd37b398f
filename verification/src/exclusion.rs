//! Mutual exclusion of `Accessor::with` callbacks across preemption contexts.
//!
//! Concurrency in this core arises solely from interrupt preemption of a
//! single mainline control flow. The model below makes that explicit: a
//! system state carries the core's interrupt state together with the number
//! of `with` callbacks currently executing in the mainline and in the
//! interrupt handler, and a step relation says which events hardware and
//! software can produce. Every callback is bracketed by the critical section
//! that `Accessor::with` enters and exits, and the hardware can dispatch a
//! handler only while interrupts are enabled.
//!
//! The theorem at the bottom states the exclusion guarantee: along any
//! sequence of permitted steps, mainline callbacks and handler callbacks are
//! never in flight at the same time, so no interleaving of `with` calls and
//! simulated interrupts can observe a partial update of a wrapped value.

use vstd::prelude::*;

use crate::cs::Interrupts;

verus! {

/// One observable event of the model.
pub enum Step {
    /// The mainline enters a `with` callback (possibly nested in another).
    MainBegin,
    /// The innermost mainline callback returns.
    MainEnd,
    /// Hardware dispatches the interrupt handler, which enters its `with`
    /// callback.
    IrqBegin,
    /// The innermost handler callback returns.
    IrqEnd,
}

/// State of the single core: interrupt state plus the callbacks in flight.
pub struct SysState {
    /// Interrupt-delivery state shared by every critical section.
    pub ints: Interrupts,
    /// Mainline `with` callbacks currently executing (nesting counted).
    pub main_depth: nat,
    /// Handler `with` callbacks currently executing (nesting counted).
    pub irq_depth: nat,
}

/// Whether `step` can occur in state `s`.
///
/// The mainline only runs while no handler has preempted it; the hardware
/// only dispatches a handler while `s.ints.can_dispatch()` holds. The bound
/// on `depth` mirrors the machine limit of the nesting counter.
pub open spec fn step_enabled(s: SysState, step: Step) -> bool {
    match step {
        Step::MainBegin => s.irq_depth == 0 && s.ints.depth < u32::MAX,
        Step::MainEnd => s.main_depth > 0 && s.irq_depth == 0,
        Step::IrqBegin => s.ints.can_dispatch() && s.ints.depth < u32::MAX,
        Step::IrqEnd => s.irq_depth > 0,
    }
}

/// The state after `step` occurs in state `s`.
///
/// Each begin enters the callback's critical section, each end leaves it,
/// exactly as `Accessor::with` does around the callback it runs.
pub open spec fn apply(s: SysState, step: Step) -> SysState {
    match step {
        Step::MainBegin => SysState {
            ints: s.ints.spec_enter(),
            main_depth: s.main_depth + 1,
            ..s
        },
        Step::MainEnd => SysState {
            ints: s.ints.spec_exit(),
            main_depth: (s.main_depth - 1) as nat,
            ..s
        },
        Step::IrqBegin => SysState { ints: s.ints.spec_enter(), irq_depth: s.irq_depth + 1, ..s },
        Step::IrqEnd => SysState {
            ints: s.ints.spec_exit(),
            irq_depth: (s.irq_depth - 1) as nat,
            ..s
        },
    }
}

/// The inductive invariant: the interrupt state is well formed, its nesting
/// depth counts exactly the callbacks in flight, and the two contexts never
/// hold callbacks at the same time.
pub open spec fn inv(s: SysState) -> bool {
    &&& s.ints.wf()
    &&& s.ints.depth == s.main_depth + s.irq_depth
    &&& !(s.main_depth > 0 && s.irq_depth > 0)
}

/// The state reached by running `steps` from `s0`, first step first.
pub open spec fn run(s0: SysState, steps: Seq<Step>) -> SysState
    decreases steps.len(),
{
    if steps.len() == 0 {
        s0
    } else {
        apply(run(s0, steps.drop_last()), steps.last())
    }
}

/// Whether every step of `steps` is permitted in the state it runs from.
pub open spec fn all_enabled(s0: SysState, steps: Seq<Step>) -> bool
    decreases steps.len(),
{
    if steps.len() == 0 {
        true
    } else {
        all_enabled(s0, steps.drop_last()) && step_enabled(
            run(s0, steps.drop_last()),
            steps.last(),
        )
    }
}

/// The state of the core right after startup hands control to the
/// application: interrupts enabled, no critical section, no callback.
pub open spec fn running_state() -> SysState {
    SysState {
        ints: Interrupts { enabled: true, depth: 0, saved: true },
        main_depth: 0,
        irq_depth: 0,
    }
}

/// The startup state satisfies the invariant.
pub proof fn lemma_running_state_inv()
    ensures
        inv(running_state()),
{
}

/// One permitted step preserves the invariant.
pub proof fn lemma_inv_step(s: SysState, step: Step)
    requires
        inv(s),
        step_enabled(s, step),
    ensures
        inv(apply(s, step)),
{
}

/// Law: whatever sequence of interleaved `with` calls and simulated
/// interrupt dispatches the system performs, a mainline callback and a
/// handler callback are never in flight at the same time.
pub proof fn lemma_callbacks_never_overlap(s0: SysState, steps: Seq<Step>)
    requires
        inv(s0),
        all_enabled(s0, steps),
    ensures
        inv(run(s0, steps)),
        !(run(s0, steps).main_depth > 0 && run(s0, steps).irq_depth > 0),
    decreases steps.len(),
{
    if steps.len() > 0 {
        lemma_callbacks_never_overlap(s0, steps.drop_last());
        lemma_inv_step(run(s0, steps.drop_last()), steps.last());
    }
}

/// Law: while any critical section is entered — in particular for the whole
/// of a `with` callback — the hardware cannot dispatch an interrupt handler.
pub proof fn lemma_section_excludes_dispatch(s: Interrupts)
    requires
        s.wf(),
        s.in_section(),
    ensures
        !s.can_dispatch(),
{
}

} // verus!
