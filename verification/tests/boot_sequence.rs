use arch_boot::action::Action;
use arch_boot::boot::BootState;
use arch_boot::boot::after_all_init;
use arch_boot::boot::before_all_init;
use arch_boot::boot::interrupts_ack;
use arch_boot::controller::ControllerMode;
use arch_boot::controller::ControllerSelector;

#[test]
fn phase_one_order() {
    let mut st = BootState::new();
    let t = before_all_init(&mut st);
    assert_eq!(
        t,
        vec![Action::EnableCpuFeatures, Action::SerialInit, Action::BootInit]
    );
}

#[test]
fn apic_present_scenario() {
    let mut st = BootState::new();
    before_all_init(&mut st);
    let t = after_all_init(&mut st, true);
    assert_eq!(
        t,
        vec![
            Action::IrqInit,
            Action::SerialCallbackInit,
            Action::AcpiInit,
            Action::IoApicInit,
            Action::XApicInit,
            Action::TimerInit,
            Action::PicInit,
        ]
    );
    assert!(!t.contains(&Action::PicEnable));
    assert_eq!(st.selector.mode(), Some(ControllerMode::Apic));
}

#[test]
fn apic_absent_scenario() {
    let mut st = BootState::new();
    before_all_init(&mut st);
    let t = after_all_init(&mut st, false);
    assert_eq!(
        t,
        vec![
            Action::IrqInit,
            Action::SerialCallbackInit,
            Action::AcpiInit,
            Action::PicEnable,
            Action::TimerInit,
            Action::PicInit,
        ]
    );
    assert!(!t.contains(&Action::IoApicInit));
    assert!(!t.contains(&Action::XApicInit));
    assert_eq!(st.selector.mode(), Some(ControllerMode::Pic));
}

#[test]
fn selector_branch_apic_present() {
    let mut s = ControllerSelector::new();
    let branch = s.init(true);
    assert_eq!(branch, vec![Action::IoApicInit, Action::XApicInit]);
    let baseline = s.baseline_init();
    assert_eq!(baseline, vec![Action::PicInit]);
}

#[test]
fn selector_branch_apic_absent() {
    let mut s = ControllerSelector::new();
    let branch = s.init(false);
    assert_eq!(branch, vec![Action::PicEnable]);
    let baseline = s.baseline_init();
    assert_eq!(baseline, vec![Action::PicInit]);
}

#[test]
fn ack_is_the_same_in_both_modes() {
    let mut apic = BootState::new();
    before_all_init(&mut apic);
    after_all_init(&mut apic, true);
    let mut pic = BootState::new();
    before_all_init(&mut pic);
    after_all_init(&mut pic, false);

    let ack_apic = interrupts_ack(&apic);
    let ack_pic = interrupts_ack(&pic);
    assert_eq!(ack_apic, vec![Action::PicAck, Action::XApicAck]);
    assert_eq!(ack_pic, vec![Action::PicAck, Action::XApicAck]);
}

#[test]
fn ack_leaves_the_mode_alone() {
    let mut st = BootState::new();
    before_all_init(&mut st);
    after_all_init(&mut st, false);
    let before = st.selector.mode();
    interrupts_ack(&st);
    interrupts_ack(&st);
    assert_eq!(st.selector.mode(), before);
}

#[test]
fn mode_query_is_stable() {
    let mut s = ControllerSelector::new();
    assert_eq!(s.mode(), None);
    s.init(true);
    let first = s.mode();
    assert_eq!(first, Some(ControllerMode::Apic));
    s.baseline_init();
    assert_eq!(s.mode(), first);
    s.ack();
    assert_eq!(s.mode(), first);
    assert_eq!(s.mode(), first);
}
