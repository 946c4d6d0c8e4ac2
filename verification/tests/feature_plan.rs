use arch_boot::features::CR4_FEATURE_MASK;
use arch_boot::features::EFER_FEATURE_MASK;
use arch_boot::features::RegisterWrite;
use arch_boot::features::XCR0_FEATURE_MASK;
use arch_boot::features::cr4_with_features;
use arch_boot::features::efer_with_features;
use arch_boot::features::enable_common_cpu_features;
use arch_boot::features::xcr0_with_features;

#[test]
fn cr4_bits_match_the_hardware_definitions() {
    // FSGSBASE (bit 16), OSXSAVE (bit 18), OSFXSR (bit 9), OSXMMEXCPT (bit 10).
    assert_eq!(cr4_with_features(0), 0x5_0600);
    assert_eq!(CR4_FEATURE_MASK, (1 << 16) | (1 << 18) | (1 << 9) | (1 << 10));
}

#[test]
fn xcr0_bits_match_the_hardware_definitions() {
    // SSE (bit 1) and AVX (bit 2).
    assert_eq!(xcr0_with_features(0), 0x6);
    assert_eq!(XCR0_FEATURE_MASK, (1 << 1) | (1 << 2));
}

#[test]
fn efer_bits_match_the_hardware_definitions() {
    // NO_EXECUTE_ENABLE (bit 11).
    assert_eq!(efer_with_features(0), 0x800);
    assert_eq!(EFER_FEATURE_MASK, 1 << 11);
}

#[test]
fn enabling_preserves_existing_bits() {
    let prior: u64 = 0x8000_0000_0000_1001;
    let next = cr4_with_features(prior);
    assert_eq!(next, prior | 0x5_0600);
    assert_eq!(next & prior, prior);
    assert_eq!(xcr0_with_features(0x9), 0x9 | 0x6);
    assert_eq!(efer_with_features(0x401), 0x401 | 0x800);
}

#[test]
fn write_plan_is_cr4_then_xcr0_then_efer() {
    let plan = enable_common_cpu_features(0, 0, 0);
    assert_eq!(
        plan,
        vec![
            RegisterWrite::Cr4(0x5_0600),
            RegisterWrite::XCr0(0x6),
            RegisterWrite::Efer(0x800),
        ]
    );
}

#[test]
fn write_plan_carries_prior_contents() {
    let plan = enable_common_cpu_features(0x10, 0x1, 0x500);
    assert_eq!(
        plan,
        vec![
            RegisterWrite::Cr4(0x10 | 0x5_0600),
            RegisterWrite::XCr0(0x1 | 0x6),
            RegisterWrite::Efer(0x500 | 0x800),
        ]
    );
}
