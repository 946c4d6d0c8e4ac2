use vstd::prelude::*;

use crate::action::Action;
use crate::controller::ControllerSelector;
use crate::controller::ack_trace;
use crate::controller::branch_trace;
use crate::controller::chosen_mode;

verus! {

/// Where the two-phase boot sequence stands.
#[derive(Clone, Copy, Debug, PartialEq, Eq, Structural)]
pub enum BootPhase {
    /// Nothing has run yet.
    Start,
    /// `before_all_init` has returned; `after_all_init` may run.
    PhaseOneDone,
    /// `after_all_init` has returned; general kernel execution may begin and
    /// the acknowledgment path is reachable.
    Ready,
}

/// The boot sequencer's state: the phase reached and the controller selector
/// the second phase drives.
pub struct BootState {
    pub phase: BootPhase,
    pub selector: ControllerSelector,
}

/// The calls of the first phase, in order: enable the processor features
/// before any driver init may use extended instructions, bring up the serial
/// transport, then run the boot-environment parser, whose diagnostics are
/// written to the console.
pub open spec fn phase_one_trace() -> Seq<Action> {
    seq![Action::EnableCpuFeatures, Action::SerialInit, Action::BootInit]
}

/// The calls of the second phase, in order: the interrupt-dispatch table
/// (vectors must exist before a controller can route to them), the serial
/// interrupt callback, the ACPI tables the probe needs, the controller
/// branch, the timer (which needs a working controller), and last the
/// legacy baseline step.
pub open spec fn phase_two_trace(apic_present: bool) -> Seq<Action> {
    seq![Action::IrqInit, Action::SerialCallbackInit, Action::AcpiInit]
        + branch_trace(apic_present) + seq![Action::TimerInit, Action::PicInit]
}

impl BootState {
    /// Phase and selector move together: the selector stays untouched until
    /// the second phase has run, and afterwards holds its chosen mode with
    /// the baseline step done, for the remainder of the process.
    pub open spec fn wf(self) -> bool {
        if self.phase is Ready {
            self.selector.mode is Some && self.selector.baseline_done
        } else {
            self.selector.mode is None && !self.selector.baseline_done
        }
    }

    /// A boot sequence that has not started.
    pub fn new() -> (st: BootState)
        ensures
            st.wf(),
            st.phase is Start,
    {
        BootState { phase: BootPhase::Start, selector: ControllerSelector::new() }
    }
}

/// The first boot phase. It must run once, before `after_all_init`, and emits
/// exactly the calls of `phase_one_trace`; the controller selector is not
/// touched yet.
pub fn before_all_init(st: &mut BootState) -> (t: Vec<Action>)
    requires
        old(st).wf(),
        old(st).phase is Start,
    ensures
        final(st).wf(),
        final(st).phase is PhaseOneDone,
        final(st).selector == old(st).selector,
        t@ == phase_one_trace(),
{
    st.phase = BootPhase::PhaseOneDone;
    let mut t: Vec<Action> = Vec::new();
    t.push(Action::EnableCpuFeatures);
    t.push(Action::SerialInit);
    t.push(Action::BootInit);
    proof {
        assert(t@ =~= phase_one_trace());
    }
    t
}

/// The second boot phase. `apic_present` is the controller probe's outcome,
/// reported conservatively (inconclusive means absent). It must run once,
/// after `before_all_init`; it emits exactly the calls of `phase_two_trace`
/// and leaves the selector with its mode chosen and its baseline step done.
pub fn after_all_init(st: &mut BootState, apic_present: bool) -> (t: Vec<Action>)
    requires
        old(st).wf(),
        old(st).phase is PhaseOneDone,
    ensures
        final(st).wf(),
        final(st).phase is Ready,
        final(st).selector.mode == Some(chosen_mode(apic_present)),
        final(st).selector.baseline_done,
        t@ == phase_two_trace(apic_present),
{
    let mut t: Vec<Action> = Vec::new();
    t.push(Action::IrqInit);
    t.push(Action::SerialCallbackInit);
    t.push(Action::AcpiInit);
    let mut branch = st.selector.init(apic_present);
    t.append(&mut branch);
    t.push(Action::TimerInit);
    let mut baseline = st.selector.baseline_init();
    t.append(&mut baseline);
    st.phase = BootPhase::Ready;
    proof {
        assert(t@ =~= phase_two_trace(apic_present));
    }
    t
}

/// Acknowledge one received interrupt, once boot has completed: the legacy
/// step and then the APIC-family step, whatever mode was chosen.
pub fn interrupts_ack(st: &BootState) -> (t: Vec<Action>)
    requires
        st.phase is Ready,
    ensures
        t@ == ack_trace(),
{
    st.selector.ack()
}

/// The probe decides the branch, and nothing else does: with no APIC the
/// second phase never initializes the IO-APIC or the local APIC; with one
/// present it initializes both, exactly once each, the IO-APIC strictly
/// before the local APIC.
pub proof fn lemma_apic_branch_respected(apic_present: bool)
    ensures
        ({
            let t = phase_two_trace(apic_present);
            &&& !apic_present ==> forall|i: int|
                0 <= i < t.len() ==> !(t[i] is IoApicInit) && !(t[i] is XApicInit)
            &&& apic_present ==> forall|i: int|
                0 <= i < t.len() ==> ((t[i] is IoApicInit) <==> i == 3)
            &&& apic_present ==> forall|i: int|
                0 <= i < t.len() ==> ((t[i] is XApicInit) <==> i == 4)
        }),
{
    let t = phase_two_trace(apic_present);
    if apic_present {
        assert(t =~= seq![
            Action::IrqInit,
            Action::SerialCallbackInit,
            Action::AcpiInit,
            Action::IoApicInit,
            Action::XApicInit,
            Action::TimerInit,
            Action::PicInit,
        ]);
    } else {
        assert(t =~= seq![
            Action::IrqInit,
            Action::SerialCallbackInit,
            Action::AcpiInit,
            Action::PicEnable,
            Action::TimerInit,
            Action::PicInit,
        ]);
    }
}

/// A boot sequence runs the feature enabler exactly once: it is the first
/// call of the first phase, and the second phase never repeats it. The phase
/// machine admits each phase at most once, so no boot sequence reaches the
/// enabler twice.
pub proof fn lemma_feature_enabler_once_per_boot(apic_present: bool)
    ensures
        ({
            let one = phase_one_trace();
            let two = phase_two_trace(apic_present);
            &&& forall|i: int| 0 <= i < one.len() ==> ((one[i] is EnableCpuFeatures) <==> i == 0)
            &&& forall|i: int| 0 <= i < two.len() ==> !(two[i] is EnableCpuFeatures)
        }),
{
    let two = phase_two_trace(apic_present);
    if apic_present {
        assert(two =~= seq![
            Action::IrqInit,
            Action::SerialCallbackInit,
            Action::AcpiInit,
            Action::IoApicInit,
            Action::XApicInit,
            Action::TimerInit,
            Action::PicInit,
        ]);
    } else {
        assert(two =~= seq![
            Action::IrqInit,
            Action::SerialCallbackInit,
            Action::AcpiInit,
            Action::PicEnable,
            Action::TimerInit,
            Action::PicInit,
        ]);
    }
}

/// The legacy baseline step runs exactly once per boot, as the last call of
/// the second phase — strictly after the probe branch, whichever way the
/// branch went.
pub proof fn lemma_baseline_once_and_last(apic_present: bool)
    ensures
        ({
            let t = phase_two_trace(apic_present);
            &&& t.len() > 0
            &&& forall|i: int| 0 <= i < t.len() ==> ((t[i] is PicInit) <==> i == t.len() - 1)
        }),
{
    let t = phase_two_trace(apic_present);
    if apic_present {
        assert(t =~= seq![
            Action::IrqInit,
            Action::SerialCallbackInit,
            Action::AcpiInit,
            Action::IoApicInit,
            Action::XApicInit,
            Action::TimerInit,
            Action::PicInit,
        ]);
    } else {
        assert(t =~= seq![
            Action::IrqInit,
            Action::SerialCallbackInit,
            Action::AcpiInit,
            Action::PicEnable,
            Action::TimerInit,
            Action::PicInit,
        ]);
    }
}

} // verus!
