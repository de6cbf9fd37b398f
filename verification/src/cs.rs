//! Critical sections: the sole synchronization mechanism of the core.
//!
//! A critical section brackets a region of code during which interrupt
//! delivery on the current core is suppressed. Sections nest: an inner
//! section performs no hardware change, and releasing it must not re-enable
//! interrupts early; only the release of the outermost section restores the
//! interrupt-enable state that was in effect before it was entered.
//!
//! On hardware the state below lives in the core's interrupt-enable bit;
//! here it is modelled as a plain value threaded through the code, so that
//! the masking discipline itself is verified.

use vstd::prelude::*;

verus! {

/// Interrupt-delivery state of the single execution core.
///
/// `depth` counts the critical sections currently entered; `saved` records
/// the interrupt-enable state seen before the outermost section was entered,
/// so that the outermost exit can restore it (rather than unconditionally
/// enabling).
#[derive(Clone, Copy, PartialEq, Eq, Structural, Debug)]
pub struct Interrupts {
    /// Whether the core currently delivers interrupts.
    pub enabled: bool,
    /// Nesting depth of critical sections.
    pub depth: u32,
    /// Interrupt-enable state in effect before the outermost section.
    pub saved: bool,
}

impl Interrupts {
    /// Well-formedness: interrupts are masked inside any critical section,
    /// and outside every section `saved` mirrors `enabled`.
    pub open spec fn wf(self) -> bool {
        &&& self.depth > 0 ==> !self.enabled
        &&& self.depth == 0 ==> self.saved == self.enabled
    }

    /// True when the hardware may vector to an interrupt handler.
    pub open spec fn can_dispatch(self) -> bool {
        self.enabled
    }

    /// True while at least one critical section is entered.
    pub open spec fn in_section(self) -> bool {
        self.depth > 0
    }

    /// The state produced by `enter`.
    pub open spec fn spec_enter(self) -> Interrupts {
        Interrupts {
            enabled: false,
            depth: (self.depth + 1) as u32,
            saved: if self.depth == 0 { self.enabled } else { self.saved },
        }
    }

    /// The state produced by `exit`.
    pub open spec fn spec_exit(self) -> Interrupts {
        Interrupts {
            enabled: self.depth == 1 && self.saved,
            depth: (self.depth - 1) as u32,
            saved: self.saved,
        }
    }

    /// The core's state out of reset: interrupts masked, no section entered.
    pub fn boot() -> (r: Interrupts)
        ensures
            r.wf(),
            !r.enabled,
            r.depth == 0,
            !r.saved,
    {
        Interrupts { enabled: false, depth: 0, saved: false }
    }

    /// Enter a critical section: suppress interrupt delivery, remembering at
    /// the outermost level the prior enable state. Nesting is permitted; an
    /// inner enter changes no hardware state, only the depth.
    pub fn enter(&mut self)
        requires
            old(self).wf(),
            old(self).depth < u32::MAX,
        ensures
            *final(self) == old(self).spec_enter(),
            final(self).wf(),
            !final(self).enabled,
    {
        if self.depth == 0 {
            self.saved = self.enabled;
            self.enabled = false;
        }
        self.depth = self.depth + 1;
    }

    /// Leave the innermost critical section. The outermost exit restores the
    /// interrupt-enable state in effect before the outermost enter; an inner
    /// exit leaves interrupts masked.
    pub fn exit(&mut self)
        requires
            old(self).wf(),
            old(self).in_section(),
        ensures
            *final(self) == old(self).spec_exit(),
            final(self).wf(),
            final(self).enabled <==> (old(self).depth == 1 && old(self).saved),
    {
        self.depth = self.depth - 1;
        if self.depth == 0 {
            self.enabled = self.saved;
        }
    }

    /// Unconditionally mask interrupt delivery. Only legal outside every
    /// critical section; startup code uses it before building the registry.
    pub fn disable_all(&mut self)
        requires
            old(self).wf(),
            !old(self).in_section(),
        ensures
            final(self).wf(),
            !final(self).enabled,
            final(self).depth == 0,
    {
        self.enabled = false;
        self.saved = false;
    }

    /// Unconditionally enable interrupt delivery. Only legal outside every
    /// critical section; startup code uses it once the registry is ready.
    pub fn enable_all(&mut self)
        requires
            old(self).wf(),
            !old(self).in_section(),
        ensures
            final(self).wf(),
            final(self).enabled,
            final(self).depth == 0,
    {
        self.enabled = true;
        self.saved = true;
    }
}

/// Law: a nested critical section never re-enables interrupts. Entering an
/// inner section from inside an outer one keeps interrupts masked, and the
/// matching exit restores exactly the outer state, still masked; the enable
/// state can only flip at the boundary of the outermost section.
pub proof fn lemma_nested_section_masks(s: Interrupts)
    requires
        s.wf(),
        s.in_section(),
        s.depth < u32::MAX,
    ensures
        !s.enabled,
        !s.spec_enter().enabled,
        !s.spec_enter().spec_exit().enabled,
        s.spec_enter().spec_exit() == s,
{
}

/// Law: the exit of the outermost critical section restores the
/// interrupt-enable state that was in effect before it was entered.
pub proof fn lemma_outermost_exit_restores(s: Interrupts)
    requires
        s.wf(),
        !s.in_section(),
        s.depth < u32::MAX,
    ensures
        !s.spec_enter().enabled,
        s.spec_enter().spec_exit() == s,
        s.spec_enter().spec_exit().enabled == s.enabled,
{
}

} // verus!
