use vstd::prelude::*;

use x86_64::registers::control::Cr4Flags;
use x86_64::registers::model_specific::EferFlags;
use x86_64::registers::xcontrol::XCr0Flags;

verus! {

/// CR4 bit that enables the extended segment-base addressing instructions.
pub const CR4_FSGSBASE: u64 = 0x1_0000;
/// CR4 bit that enables the extended-state save/restore mechanism; XCR0's
/// state bits are only meaningful once it is set.
pub const CR4_OSXSAVE: u64 = 0x4_0000;
/// CR4 bit that enables legacy floating-point save/restore and exception
/// reporting.
pub const CR4_OSFXSR: u64 = 0x200;
/// CR4 bit that enables SIMD floating-point exception reporting.
pub const CR4_OSXMMEXCPT: u64 = 0x400;
/// Every CR4 bit the feature enabler turns on.
pub const CR4_FEATURE_MASK: u64 = 0x5_0600;

/// XCR0 bit that enables baseline SIMD register state.
pub const XCR0_SSE: u64 = 0x2;
/// XCR0 bit that enables vector-extension register state.
pub const XCR0_AVX: u64 = 0x4;
/// Every XCR0 bit the feature enabler turns on.
pub const XCR0_FEATURE_MASK: u64 = 0x6;

/// EFER bit that enables no-execute page protection.
pub const EFER_NO_EXECUTE: u64 = 0x800;
/// Every EFER bit the feature enabler turns on.
pub const EFER_FEATURE_MASK: u64 = 0x800;

/// Relies on x86_64's `Cr4Flags::FSGSBASE`: bit 16 of CR4.
#[verifier::external_body]
fn cr4_fsgsbase_flag() -> (r: u64)
    ensures
        r == CR4_FSGSBASE,
{
    Cr4Flags::FSGSBASE.bits()
}

/// Relies on x86_64's `Cr4Flags::OSXSAVE`: bit 18 of CR4.
#[verifier::external_body]
fn cr4_osxsave_flag() -> (r: u64)
    ensures
        r == CR4_OSXSAVE,
{
    Cr4Flags::OSXSAVE.bits()
}

/// Relies on x86_64's `Cr4Flags::OSFXSR`: bit 9 of CR4.
#[verifier::external_body]
fn cr4_osfxsr_flag() -> (r: u64)
    ensures
        r == CR4_OSFXSR,
{
    Cr4Flags::OSFXSR.bits()
}

/// Relies on x86_64's `Cr4Flags::OSXMMEXCPT_ENABLE`: bit 10 of CR4.
#[verifier::external_body]
fn cr4_osxmmexcpt_flag() -> (r: u64)
    ensures
        r == CR4_OSXMMEXCPT,
{
    Cr4Flags::OSXMMEXCPT_ENABLE.bits()
}

/// Relies on x86_64's `XCr0Flags::SSE`: bit 1 of XCR0.
#[verifier::external_body]
fn xcr0_sse_flag() -> (r: u64)
    ensures
        r == XCR0_SSE,
{
    XCr0Flags::SSE.bits()
}

/// Relies on x86_64's `XCr0Flags::AVX`: bit 2 of XCR0.
#[verifier::external_body]
fn xcr0_avx_flag() -> (r: u64)
    ensures
        r == XCR0_AVX,
{
    XCr0Flags::AVX.bits()
}

/// Relies on x86_64's `EferFlags::NO_EXECUTE_ENABLE`: bit 11 of EFER.
#[verifier::external_body]
fn efer_no_execute_flag() -> (r: u64)
    ensures
        r == EFER_NO_EXECUTE,
{
    EferFlags::NO_EXECUTE_ENABLE.bits()
}

/// The new CR4 value: the prior value with the four feature bits set and no
/// bit cleared.
pub fn cr4_with_features(cr4: u64) -> (r: u64)
    ensures
        r == cr4 | CR4_FEATURE_MASK,
        r & CR4_FEATURE_MASK == CR4_FEATURE_MASK,
        r & cr4 == cr4,
        r & CR4_OSXSAVE == CR4_OSXSAVE,
{
    let bits = cr4_fsgsbase_flag() | cr4_osxsave_flag() | cr4_osfxsr_flag() | cr4_osxmmexcpt_flag();
    proof {
        assert(CR4_FSGSBASE | CR4_OSXSAVE | CR4_OSFXSR | CR4_OSXMMEXCPT == CR4_FEATURE_MASK)
            by (bit_vector);
        assert((cr4 | CR4_FEATURE_MASK) & CR4_FEATURE_MASK == CR4_FEATURE_MASK) by (bit_vector);
        assert((cr4 | CR4_FEATURE_MASK) & cr4 == cr4) by (bit_vector);
        assert((cr4 | CR4_FEATURE_MASK) & CR4_OSXSAVE == CR4_OSXSAVE) by (bit_vector);
    }
    cr4 | bits
}

/// The new XCR0 value: the prior value with the two state bits set and no
/// bit cleared.
pub fn xcr0_with_features(xcr0: u64) -> (r: u64)
    ensures
        r == xcr0 | XCR0_FEATURE_MASK,
        r & XCR0_FEATURE_MASK == XCR0_FEATURE_MASK,
        r & xcr0 == xcr0,
{
    let bits = xcr0_avx_flag() | xcr0_sse_flag();
    proof {
        assert(XCR0_AVX | XCR0_SSE == XCR0_FEATURE_MASK) by (bit_vector);
        assert((xcr0 | XCR0_FEATURE_MASK) & XCR0_FEATURE_MASK == XCR0_FEATURE_MASK) by (bit_vector);
        assert((xcr0 | XCR0_FEATURE_MASK) & xcr0 == xcr0) by (bit_vector);
    }
    xcr0 | bits
}

/// The new EFER value: the prior value with the no-execute bit set and no
/// bit cleared.
pub fn efer_with_features(efer: u64) -> (r: u64)
    ensures
        r == efer | EFER_FEATURE_MASK,
        r & EFER_FEATURE_MASK == EFER_FEATURE_MASK,
        r & efer == efer,
{
    let bits = efer_no_execute_flag();
    proof {
        assert((efer | EFER_FEATURE_MASK) & EFER_FEATURE_MASK == EFER_FEATURE_MASK)
            by (bit_vector);
        assert((efer | EFER_FEATURE_MASK) & efer == efer) by (bit_vector);
    }
    efer | bits
}

/// One register write of the feature-enabling routine, with the value written.
#[derive(Clone, Copy, Debug, PartialEq, Eq, Structural)]
pub enum RegisterWrite {
    /// Control register CR4.
    Cr4(u64),
    /// Extended control register XCR0.
    XCr0(u64),
    /// Extended feature-enable register EFER.
    Efer(u64),
}

/// The ordered write plan of the feature enabler, given each register's prior
/// contents: CR4 first, since its save/restore-enabling bit gates XCR0's state
/// bits, then XCR0, then EFER, whose no-execute bit has no such dependency.
pub open spec fn feature_write_plan(cr4: u64, xcr0: u64, efer: u64) -> Seq<RegisterWrite> {
    seq![
        RegisterWrite::Cr4(cr4 | CR4_FEATURE_MASK),
        RegisterWrite::XCr0(xcr0 | XCR0_FEATURE_MASK),
        RegisterWrite::Efer(efer | EFER_FEATURE_MASK),
    ]
}

/// Do the given register values carry every bit the feature enabler sets?
pub open spec fn features_enabled(cr4: u64, xcr0: u64, efer: u64) -> bool {
    &&& cr4 & CR4_FEATURE_MASK == CR4_FEATURE_MASK
    &&& xcr0 & XCR0_FEATURE_MASK == XCR0_FEATURE_MASK
    &&& efer & EFER_FEATURE_MASK == EFER_FEATURE_MASK
}

/// The one-shot feature-enabling routine, as the ordered plan of the three
/// register writes it performs. Each parameter is the register's contents just
/// before its own write; the caller performs the writes in the returned order
/// and may read XCR0 only once the CR4 write has taken effect.
pub fn enable_common_cpu_features(cr4: u64, xcr0: u64, efer: u64) -> (writes: Vec<RegisterWrite>)
    ensures
        writes@ == feature_write_plan(cr4, xcr0, efer),
{
    let mut writes: Vec<RegisterWrite> = Vec::new();
    writes.push(RegisterWrite::Cr4(cr4_with_features(cr4)));
    writes.push(RegisterWrite::XCr0(xcr0_with_features(xcr0)));
    writes.push(RegisterWrite::Efer(efer_with_features(efer)));
    proof {
        assert(writes@ =~= feature_write_plan(cr4, xcr0, efer));
    }
    writes
}

/// The feature enabler touches each register exactly once: its plan holds one
/// CR4 write, one XCR0 write and one EFER write; the CR4 write comes strictly
/// before the XCR0 write and already carries the save/restore-enabling bit
/// that makes XCR0 meaningful; and the planned values enable every feature
/// bit while clearing none.
pub proof fn lemma_feature_writes_once_and_ordered(cr4: u64, xcr0: u64, efer: u64)
    ensures
        ({
            let w = feature_write_plan(cr4, xcr0, efer);
            &&& w.len() == 3
            &&& forall|i: int| 0 <= i < w.len() ==> ((w[i] is Cr4) <==> i == 0)
            &&& forall|i: int| 0 <= i < w.len() ==> ((w[i] is XCr0) <==> i == 1)
            &&& forall|i: int| 0 <= i < w.len() ==> ((w[i] is Efer) <==> i == 2)
            &&& w[0] matches RegisterWrite::Cr4(v) && v & CR4_OSXSAVE == CR4_OSXSAVE
            &&& features_enabled(cr4 | CR4_FEATURE_MASK, xcr0 | XCR0_FEATURE_MASK,
                    efer | EFER_FEATURE_MASK)
            &&& (cr4 | CR4_FEATURE_MASK) & cr4 == cr4
            &&& (xcr0 | XCR0_FEATURE_MASK) & xcr0 == xcr0
            &&& (efer | EFER_FEATURE_MASK) & efer == efer
        }),
{
    let w = feature_write_plan(cr4, xcr0, efer);
    assert(w[0] == RegisterWrite::Cr4(cr4 | CR4_FEATURE_MASK));
    assert(w[1] == RegisterWrite::XCr0(xcr0 | XCR0_FEATURE_MASK));
    assert(w[2] == RegisterWrite::Efer(efer | EFER_FEATURE_MASK));
    assert((cr4 | CR4_FEATURE_MASK) & CR4_OSXSAVE == CR4_OSXSAVE) by (bit_vector);
    assert((cr4 | CR4_FEATURE_MASK) & CR4_FEATURE_MASK == CR4_FEATURE_MASK) by (bit_vector);
    assert((xcr0 | XCR0_FEATURE_MASK) & XCR0_FEATURE_MASK == XCR0_FEATURE_MASK) by (bit_vector);
    assert((efer | EFER_FEATURE_MASK) & EFER_FEATURE_MASK == EFER_FEATURE_MASK) by (bit_vector);
    assert((cr4 | CR4_FEATURE_MASK) & cr4 == cr4) by (bit_vector);
    assert((xcr0 | XCR0_FEATURE_MASK) & xcr0 == xcr0) by (bit_vector);
    assert((efer | EFER_FEATURE_MASK) & efer == efer) by (bit_vector);
}

} // verus!
