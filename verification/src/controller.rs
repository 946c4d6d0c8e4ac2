use vstd::prelude::*;

use crate::action::Action;

verus! {

/// Which interrupt-controller family handles routing for the rest of the
/// process lifetime.
#[derive(Clone, Copy, Debug, PartialEq, Eq, Structural)]
pub enum ControllerMode {
    /// The local/IO-APIC pair is active.
    Apic,
    /// The legacy PIC is active.
    Pic,
}

/// The mode the selector settles on for a given probe outcome: the APIC
/// family when the probe reports one present, the legacy controller
/// otherwise. An inconclusive probe must be reported as absent, so it lands
/// on the conservative legacy path.
pub open spec fn chosen_mode(apic_present: bool) -> ControllerMode {
    if apic_present {
        ControllerMode::Apic
    } else {
        ControllerMode::Pic
    }
}

/// The controller bring-up calls the probe branch makes: the IO-APIC and then
/// the local APIC when an APIC is present, the legacy enable step otherwise.
pub open spec fn branch_trace(apic_present: bool) -> Seq<Action> {
    if apic_present {
        seq![Action::IoApicInit, Action::XApicInit]
    } else {
        seq![Action::PicEnable]
    }
}

/// The calls the acknowledgment entry point makes, whatever the stored mode:
/// the legacy controller's step first, then the APIC family's step.
pub open spec fn ack_trace() -> Seq<Action> {
    seq![Action::PicAck, Action::XApicAck]
}

/// Chooses the interrupt-controller family once at boot and thereafter
/// dispatches acknowledgment. `mode` is `None` until `init` has run and never
/// changes once set; `baseline_done` records the one-shot legacy baseline
/// configuration step.
pub struct ControllerSelector {
    pub mode: Option<ControllerMode>,
    pub baseline_done: bool,
}

impl ControllerSelector {
    /// A selector that has not probed yet.
    pub fn new() -> (s: ControllerSelector)
        ensures
            s.mode is None,
            !s.baseline_done,
    {
        ControllerSelector { mode: None, baseline_done: false }
    }

    /// Probe outcome in hand, pick the family and emit its bring-up calls:
    /// the IO-APIC then the local APIC when one is present, the legacy enable
    /// step otherwise. The legacy baseline configuration is deliberately left
    /// to `baseline_init`, which must run after the drivers that depend on it
    /// have had a chance to register.
    pub fn init(&mut self, apic_present: bool) -> (t: Vec<Action>)
        requires
            old(self).mode is None,
            !old(self).baseline_done,
        ensures
            final(self).mode == Some(chosen_mode(apic_present)),
            !final(self).baseline_done,
            t@ == branch_trace(apic_present),
    {
        let mut t: Vec<Action> = Vec::new();
        if apic_present {
            t.push(Action::IoApicInit);
            t.push(Action::XApicInit);
            self.mode = Some(ControllerMode::Apic);
        } else {
            t.push(Action::PicEnable);
            self.mode = Some(ControllerMode::Pic);
        }
        proof {
            assert(t@ =~= branch_trace(apic_present));
        }
        t
    }

    /// The unconditional legacy baseline configuration, run exactly once per
    /// boot, strictly after the probe branch: lower-level drivers such as the
    /// serial transport may depend on legacy-controller state whichever
    /// family ends up routing interrupts. The chosen mode is untouched.
    pub fn baseline_init(&mut self) -> (t: Vec<Action>)
        requires
            old(self).mode is Some,
            !old(self).baseline_done,
        ensures
            final(self).mode == old(self).mode,
            final(self).baseline_done,
            t@ == seq![Action::PicInit],
    {
        self.baseline_done = true;
        let mut t: Vec<Action> = Vec::new();
        t.push(Action::PicInit);
        proof {
            assert(t@ =~= seq![Action::PicInit]);
        }
        t
    }

    /// Acknowledge one serviced interrupt: always the legacy step and then
    /// the APIC-family step, with no branch on the stored mode and no write
    /// to any selector state. Acknowledging the inactive family is a safe
    /// no-op by the collaborator drivers' contract, which keeps this hot path
    /// branch-free.
    pub fn ack(&self) -> (t: Vec<Action>)
        ensures
            t@ == ack_trace(),
    {
        let mut t: Vec<Action> = Vec::new();
        t.push(Action::PicAck);
        t.push(Action::XApicAck);
        proof {
            assert(t@ =~= ack_trace());
        }
        t
    }

    /// The stored mode: `None` before `init`, afterwards forever the family
    /// the probe chose.
    pub fn mode(&self) -> (m: Option<ControllerMode>)
        ensures
            m == self.mode,
    {
        self.mode
    }
}

/// Any step the selector admits once a mode is chosen: the read-only queries
/// and the acknowledgment path leave it unchanged, and the baseline step only
/// flips its one-shot flag.
pub open spec fn post_init_step(pre: ControllerSelector, post: ControllerSelector) -> bool {
    ||| post == pre
    ||| (!pre.baseline_done && post.mode == pre.mode && post.baseline_done)
}

/// The mode, once chosen, never changes: every step the selector admits after
/// initialization preserves it, so repeated mode queries for the remainder of
/// the process return the same value.
pub proof fn lemma_mode_immutable(pre: ControllerSelector, post: ControllerSelector)
    requires
        pre.mode is Some,
        post_init_step(pre, post),
    ensures
        post.mode == pre.mode,
{
}

} // verus!
