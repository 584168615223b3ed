//! Mode flags of a PPS source: the named bits, a builder that composes
//! them, and the immutable mask that the kernel reads and reports.
use vstd::prelude::*;

verus! {

/// One named bit (or, for `CaptureBoth`, pair of bits) of a PPS mode word.
#[derive(Clone, Copy, Debug, PartialEq, Eq, Structural, Hash)]
pub enum PpsModeBit {
    CaptureAssert,
    CaptureClear,
    CaptureBoth,
    OffsetAssert,
    OffsetClear,
    CanWait,
    CanPoll,
    EchoAssert,
    EchoClear,
    TsFmtTSpec,
    TsFmtNTPFP,
}

impl PpsModeBit {
    /// The mask that the kernel protocol gives this flag.
    pub open spec fn spec_value(self) -> i32 {
        match self {
            PpsModeBit::CaptureAssert => 0x01,
            PpsModeBit::CaptureClear => 0x02,
            PpsModeBit::CaptureBoth => 0x03,
            PpsModeBit::OffsetAssert => 0x10,
            PpsModeBit::OffsetClear => 0x20,
            PpsModeBit::CanWait => 0x100,
            PpsModeBit::CanPoll => 0x200,
            PpsModeBit::EchoAssert => 0x40,
            PpsModeBit::EchoClear => 0x80,
            PpsModeBit::TsFmtTSpec => 0x1000,
            PpsModeBit::TsFmtNTPFP => 0x2000,
        }
    }

    /// The kernel's name of this flag.
    pub open spec fn spec_name(self) -> Seq<char> {
        match self {
            PpsModeBit::CaptureAssert => "PPS_CAPTUREASSERT"@,
            PpsModeBit::CaptureClear => "PPS_CAPTURECLEAR"@,
            PpsModeBit::CaptureBoth => "PPS_CAPTUREBOTH"@,
            PpsModeBit::OffsetAssert => "PPS_OFFSETASSERT"@,
            PpsModeBit::OffsetClear => "PPS_OFFSETCLEAR"@,
            PpsModeBit::CanWait => "PPS_CANWAIT"@,
            PpsModeBit::CanPoll => "PPS_CANPOLL"@,
            PpsModeBit::EchoAssert => "PPS_ECHOASSERT"@,
            PpsModeBit::EchoClear => "PPS_ECHOCLEAR"@,
            PpsModeBit::TsFmtTSpec => "PPS_TSFMT_TSPEC"@,
            PpsModeBit::TsFmtNTPFP => "PPS_TSFMT_NTPFP"@,
        }
    }

    pub fn value(self) -> (r: i32)
        ensures
            r == self.spec_value(),
    {
        match self {
            PpsModeBit::CaptureAssert => 0x01,
            PpsModeBit::CaptureClear => 0x02,
            PpsModeBit::CaptureBoth => 0x03,
            PpsModeBit::OffsetAssert => 0x10,
            PpsModeBit::OffsetClear => 0x20,
            PpsModeBit::CanWait => 0x100,
            PpsModeBit::CanPoll => 0x200,
            PpsModeBit::EchoAssert => 0x40,
            PpsModeBit::EchoClear => 0x80,
            PpsModeBit::TsFmtTSpec => 0x1000,
            PpsModeBit::TsFmtNTPFP => 0x2000,
        }
    }

    /// The kernel's name of this flag, as text.
    pub fn to_string(&self) -> (r: String)
        ensures
            r@ == self.spec_name(),
    {
        let s = match self {
            PpsModeBit::CaptureAssert => "PPS_CAPTUREASSERT",
            PpsModeBit::CaptureClear => "PPS_CAPTURECLEAR",
            PpsModeBit::CaptureBoth => "PPS_CAPTUREBOTH",
            PpsModeBit::OffsetAssert => "PPS_OFFSETASSERT",
            PpsModeBit::OffsetClear => "PPS_OFFSETCLEAR",
            PpsModeBit::CanWait => "PPS_CANWAIT",
            PpsModeBit::CanPoll => "PPS_CANPOLL",
            PpsModeBit::EchoAssert => "PPS_ECHOASSERT",
            PpsModeBit::EchoClear => "PPS_ECHOCLEAR",
            PpsModeBit::TsFmtTSpec => "PPS_TSFMT_TSPEC",
            PpsModeBit::TsFmtNTPFP => "PPS_TSFMT_NTPFP",
        };
        String::from_str(s)
    }
}


/// Every flag, in the order in which the kernel header declares them.
pub open spec fn all_bits() -> Seq<PpsModeBit> {
    seq![
        PpsModeBit::CaptureAssert,
        PpsModeBit::CaptureClear,
        PpsModeBit::CaptureBoth,
        PpsModeBit::OffsetAssert,
        PpsModeBit::OffsetClear,
        PpsModeBit::CanWait,
        PpsModeBit::CanPoll,
        PpsModeBit::EchoAssert,
        PpsModeBit::EchoClear,
        PpsModeBit::TsFmtTSpec,
        PpsModeBit::TsFmtNTPFP,
    ]
}

/// The mask `mode` with the bits of `bit` added.
pub open spec fn with_bit(mode: i32, bit: PpsModeBit) -> i32 {
    mode | bit.spec_value()
}

/// The mask `mode` with the bits of `bit` cleared.
pub open spec fn without_bit(mode: i32, bit: PpsModeBit) -> i32 {
    mode & !bit.spec_value()
}

/// Whether `mode` shares at least one bit with `bit`.
pub open spec fn bit_is_set(mode: i32, bit: PpsModeBit) -> bool {
    mode & bit.spec_value() != 0
}

/// One entry per flag, in the order of `all_bits`, telling whether `mode`
/// has it.
pub open spec fn capability_entries(mode: i32) -> Seq<(PpsModeBit, bool)> {
    all_bits().map_values(|b: PpsModeBit| (b, bit_is_set(mode, b)))
}

/// Accumulates flags into a mode word.
pub struct PpsModeBuilder {
    mode: i32,
}

impl PpsModeBuilder {
    /// The mode word accumulated so far.
    pub closed spec fn bits(&self) -> i32 {
        self.mode
    }

    pub fn new() -> (r: Self)
        ensures
            r.bits() == 0,
    {
        PpsModeBuilder { mode: 0 }
    }

    pub fn add_mode(&mut self, bit: PpsModeBit) -> (r: &mut Self)
        ensures
            r.bits() == with_bit(old(self).bits(), bit),
            *final(self) == *final(r),
    {
        self.mode = self.mode | bit.value();
        self
    }

    pub fn remove_mode(&mut self, bit: PpsModeBit) -> (r: &mut Self)
        ensures
            r.bits() == without_bit(old(self).bits(), bit),
            *final(self) == *final(r),
    {
        self.mode = self.mode & !bit.value();
        self
    }

    pub fn build(&self) -> (r: PpsMode)
        ensures
            r.raw() == self.bits(),
    {
        PpsMode(self.mode)
    }
}

/// An immutable mode word, as the kernel reads and reports it.
#[derive(Clone, Copy, Debug)]
pub struct PpsMode(i32);

impl PpsMode {
    /// The raw mode word.
    pub closed spec fn raw(&self) -> i32 {
        self.0
    }

    /// The empty mode word.
    pub fn new() -> (r: Self)
        ensures
            r.raw() == 0,
    {
        PpsMode(0)
    }

    /// Every flag, each paired with whether this mode word has it.
    pub fn get_bits(&self) -> (r: Vec<(PpsModeBit, bool)>)
        ensures
            r@ == capability_entries(self.raw()),
    {
        let flags = all_flags();
        let mut bits: Vec<(PpsModeBit, bool)> = Vec::new();
        let mut i: usize = 0;
        while i < flags.len()
            invariant
                flags@ == all_bits(),
                i <= flags@.len(),
                bits@ == capability_entries(self.raw()).subrange(0, i as int),
            decreases flags@.len() - i,
        {
            let bit = flags[i];
            let set = self.mode_is_set(bit);
            bits.push((bit, set));
            i = i + 1;
            assert(bits@ =~= capability_entries(self.raw()).subrange(0, i as int));
        }
        assert(bits@ =~= capability_entries(self.raw()));
        bits
    }

    /// Whether this mode word shares a bit with `mode`.
    pub fn mode_is_set(&self, mode: PpsModeBit) -> (r: bool)
        ensures
            r == bit_is_set(self.raw(), mode),
    {
        let v = mode.value();
        let bit_test = self.0 & v;
        proof {
            lemma_and_positive_mask(self.0, v);
        }
        bit_test > 0
    }
}

/// Masking with a positive mask gives a non-negative word.
proof fn lemma_and_positive_mask(m: i32, v: i32)
    requires
        v > 0,
    ensures
        m & v >= 0,
{
    assert(v > 0 ==> m & v >= 0) by (bit_vector);
}

/// Every flag, in the order of `all_bits`.
pub fn all_flags() -> (r: Vec<PpsModeBit>)
    ensures
        r@ == all_bits(),
{
    let r = vec![
        PpsModeBit::CaptureAssert,
        PpsModeBit::CaptureClear,
        PpsModeBit::CaptureBoth,
        PpsModeBit::OffsetAssert,
        PpsModeBit::OffsetClear,
        PpsModeBit::CanWait,
        PpsModeBit::CanPoll,
        PpsModeBit::EchoAssert,
        PpsModeBit::EchoClear,
        PpsModeBit::TsFmtTSpec,
        PpsModeBit::TsFmtNTPFP,
    ];
    assert(r@ =~= all_bits());
    r
}

impl From<PpsMode> for i32 {
    fn from(value: PpsMode) -> (r: i32)
        ensures
            r == value.raw(),
    {
        value.0
    }
}

impl vstd::std_specs::convert::FromSpecImpl<PpsMode> for i32 {
    open spec fn obeys_from_spec() -> bool {
        true
    }

    open spec fn from_spec(v: PpsMode) -> i32 {
        v.raw()
    }
}

impl From<i32> for PpsMode {
    fn from(value: i32) -> (r: PpsMode)
        ensures
            r.raw() == value,
            r == mode_of_raw(value),
    {
        PpsMode(value)
    }
}

impl vstd::std_specs::convert::FromSpecImpl<i32> for PpsMode {
    open spec fn obeys_from_spec() -> bool {
        true
    }

    open spec fn from_spec(v: i32) -> PpsMode {
        mode_of_raw(v)
    }
}

/// The mode word whose raw value is `v`.
pub closed spec fn mode_of_raw(v: i32) -> PpsMode {
    PpsMode(v)
}

/// The API version that a PPS source speaks.
#[derive(Clone, Copy, Debug)]
pub struct PpsVersion(i32);

impl PpsVersion {
    /// The raw version number.
    pub closed spec fn raw(&self) -> i32 {
        self.0
    }

    pub fn new(version: i32) -> (r: Self)
        ensures
            r.raw() == version,
            r == version_of_raw(version),
    {
        PpsVersion(version)
    }
}

/// The API version whose raw number is `v`.
pub closed spec fn version_of_raw(v: i32) -> PpsVersion {
    PpsVersion(v)
}

/// An API version taken to its raw number and back is the same version.
pub proof fn lemma_version_round_trip(version: PpsVersion)
    ensures
        version_of_raw(version.raw()) == version,
{
}

impl Default for PpsVersion {
    /// Version 1 of the PPS API.
    fn default() -> (r: Self)
        ensures
            r.raw() == 1,
    {
        Self::new(1)
    }
}

impl From<PpsVersion> for i32 {
    fn from(value: PpsVersion) -> (r: i32)
        ensures
            r == value.raw(),
    {
        value.0
    }
}

impl vstd::std_specs::convert::FromSpecImpl<PpsVersion> for i32 {
    open spec fn obeys_from_spec() -> bool {
        true
    }

    open spec fn from_spec(v: PpsVersion) -> i32 {
        v.raw()
    }
}


/// After a flag is added it is set, and after it is then removed it is
/// clear.
pub proof fn lemma_add_then_remove(mode: i32, bit: PpsModeBit)
    ensures
        bit_is_set(with_bit(mode, bit), bit),
        !bit_is_set(without_bit(with_bit(mode, bit), bit), bit),
        !bit_is_set(without_bit(mode, bit), bit),
{
    let v = bit.spec_value();
    assert(v != 0);
    assert(v != 0 ==> (mode | v) & v != 0) by (bit_vector);
    assert(((mode | v) & !v) & v == 0) by (bit_vector);
    assert((mode & !v) & v == 0) by (bit_vector);
}

/// Adding or removing a flag leaves every flag that shares no bit with it
/// as it was.
pub proof fn lemma_disjoint_flags_independent(mode: i32, bit: PpsModeBit, other: PpsModeBit)
    requires
        bit.spec_value() & other.spec_value() == 0,
    ensures
        bit_is_set(with_bit(mode, other), bit) == bit_is_set(mode, bit),
        bit_is_set(without_bit(mode, other), bit) == bit_is_set(mode, bit),
{
    let v = bit.spec_value();
    let w = other.spec_value();
    assert(v & w == 0 ==> (mode | w) & v == mode & v) by (bit_vector);
    assert(v & w == 0 ==> (mode & !w) & v == mode & v) by (bit_vector);
}

/// A mode word taken to its raw integer and back is the same mode word, and
/// a raw integer taken to a mode word and back is the same integer.
pub proof fn lemma_raw_round_trip(mode: PpsMode, v: i32)
    ensures
        mode_of_raw(mode.raw()) == mode,
        mode_of_raw(v).raw() == v,
{
}

/// The capability list of any mode word names every flag exactly once.
pub proof fn lemma_capabilities_complete(mode: i32)
    ensures
        capability_entries(mode).len() == all_bits().len(),
        forall|i: int|
            0 <= i < capability_entries(mode).len() ==> (#[trigger] capability_entries(mode)[i]).0
                == all_bits()[i],
        forall|b: PpsModeBit| #[trigger] all_bits().contains(b),
        all_bits().no_duplicates(),
{
    let s = all_bits();
    assert forall|b: PpsModeBit| #[trigger] s.contains(b) by {
        match b {
            PpsModeBit::CaptureAssert => assert(s[0] == b),
            PpsModeBit::CaptureClear => assert(s[1] == b),
            PpsModeBit::CaptureBoth => assert(s[2] == b),
            PpsModeBit::OffsetAssert => assert(s[3] == b),
            PpsModeBit::OffsetClear => assert(s[4] == b),
            PpsModeBit::CanWait => assert(s[5] == b),
            PpsModeBit::CanPoll => assert(s[6] == b),
            PpsModeBit::EchoAssert => assert(s[7] == b),
            PpsModeBit::EchoClear => assert(s[8] == b),
            PpsModeBit::TsFmtTSpec => assert(s[9] == b),
            PpsModeBit::TsFmtNTPFP => assert(s[10] == b),
        }
    }
    assert forall|i: int, j: int| 0 <= i < s.len() && 0 <= j < s.len() && i != j implies s[i]
        != s[j] by {
        assert(s[i].spec_value() != s[j].spec_value());
    }
}

} // verus!
