//! The two timestamp encodings of the PPS API, the conversion from the
//! NTP fixed-point form to the seconds-and-nanoseconds form, and the
//! rendering of an NTP timestamp as text.
use vstd::prelude::*;

verus! {

/// Seconds between the NTP epoch (1900) and the Unix epoch (1970).
pub const UNIX_NTP_OFFSET: i64 = 2208988800;

/// 2^32: the scale of an NTP fraction.
pub const NTP_FRACTION_SCALE: u64 = 4294967296;

pub const NANOS_PER_SECOND: u64 = 1000000000;

/// A signed duration: whole seconds and nanoseconds.
#[derive(Clone, Copy, Debug, PartialEq, Eq, Structural)]
pub struct TimeSpec {
    pub tv_sec: i64,
    pub tv_nsec: i64,
}

impl TimeSpec {
    pub fn new(seconds: i64, nanoseconds: i64) -> (r: Self)
        ensures
            r.tv_sec == seconds,
            r.tv_nsec == nanoseconds,
    {
        TimeSpec { tv_sec: seconds, tv_nsec: nanoseconds }
    }

    pub fn tv_sec(&self) -> (r: i64)
        ensures
            r == self.tv_sec,
    {
        self.tv_sec
    }

    pub fn tv_nsec(&self) -> (r: i64)
        ensures
            r == self.tv_nsec,
    {
        self.tv_nsec
    }
}

/// An NTP fixed-point timestamp: whole seconds and a fraction of a second
/// in units of 2^-32 s.
#[derive(Clone, Copy, Debug, PartialEq, Eq, Structural)]
pub struct NtpFp {
    pub integral: u32,
    pub fractional: u32,
}

/// The nanoseconds of an NTP fraction, truncated.
pub open spec fn ntp_nanos(fractional: u32) -> int {
    fractional as int * NANOS_PER_SECOND as int / NTP_FRACTION_SCALE as int
}

/// An NTP timestamp in seconds and nanoseconds since the Unix epoch.
pub open spec fn ntp_to_timespec(n: NtpFp) -> TimeSpec {
    TimeSpec {
        tv_sec: (n.integral as int - UNIX_NTP_OFFSET as int) as i64,
        tv_nsec: ntp_nanos(n.fractional) as i64,
    }
}

/// The decimal digit `d` as a character.
pub open spec fn digit_char(d: int) -> char {
    if d == 0 {
        '0'
    } else if d == 1 {
        '1'
    } else if d == 2 {
        '2'
    } else if d == 3 {
        '3'
    } else if d == 4 {
        '4'
    } else if d == 5 {
        '5'
    } else if d == 6 {
        '6'
    } else if d == 7 {
        '7'
    } else if d == 8 {
        '8'
    } else {
        '9'
    }
}

/// `n` in decimal, without leading zeros.
pub open spec fn decimal(n: nat) -> Seq<char>
    decreases n,
{
    if n < 10 {
        seq![digit_char(n as int)]
    } else {
        decimal(n / 10).push(digit_char((n % 10) as int))
    }
}

/// The last `width` decimal digits of `n`, with leading zeros.
pub open spec fn padded(n: nat, width: nat) -> Seq<char>
    decreases width,
{
    if width == 0 {
        Seq::empty()
    } else {
        padded(n / 10, (width - 1) as nat).push(digit_char((n % 10) as int))
    }
}

/// An NTP timestamp as text: whole seconds alone when the fraction is below
/// a nanosecond, milliseconds when the nanoseconds are a whole number of
/// them, nanoseconds otherwise; "second" in the singular only for exactly
/// one.
pub open spec fn ntp_text(n: NtpFp) -> Seq<char> {
    let ns = ntp_nanos(n.fractional);
    if ns == 0 {
        if n.integral == 1 {
            "1 second"@
        } else {
            decimal(n.integral as nat) + " seconds"@
        }
    } else if ns % 1_000_000 == 0 {
        decimal(n.integral as nat) + "."@ + padded((ns / 1_000_000) as nat, 3) + " seconds"@
    } else {
        decimal(n.integral as nat) + "."@ + padded(ns as nat, 9) + " seconds"@
    }
}

fn digit_str(d: u64) -> (r: &'static str)
    requires
        d < 10,
    ensures
        r@ == seq![digit_char(d as int)],
{
    proof {
        reveal_strlit("0");
        reveal_strlit("1");
        reveal_strlit("2");
        reveal_strlit("3");
        reveal_strlit("4");
        reveal_strlit("5");
        reveal_strlit("6");
        reveal_strlit("7");
        reveal_strlit("8");
        reveal_strlit("9");
    }
    let r = if d == 0 {
        "0"
    } else if d == 1 {
        "1"
    } else if d == 2 {
        "2"
    } else if d == 3 {
        "3"
    } else if d == 4 {
        "4"
    } else if d == 5 {
        "5"
    } else if d == 6 {
        "6"
    } else if d == 7 {
        "7"
    } else if d == 8 {
        "8"
    } else {
        "9"
    };
    assert(r@ =~= seq![digit_char(d as int)]);
    r
}

fn push_decimal(s: &mut String, n: u64)
    ensures
        final(s)@ == old(s)@ + decimal(n as nat),
    decreases n,
{
    if n >= 10 {
        push_decimal(s, n / 10);
    }
    s.append(digit_str(n % 10));
    assert(final(s)@ =~= old(s)@ + decimal(n as nat));
}

fn push_padded(s: &mut String, n: u64, width: u64)
    ensures
        final(s)@ == old(s)@ + padded(n as nat, width as nat),
    decreases width,
{
    if width > 0 {
        push_padded(s, n / 10, width - 1);
        s.append(digit_str(n % 10));
        assert(final(s)@ =~= old(s)@ + padded(n as nat, width as nat));
    } else {
        assert(final(s)@ =~= old(s)@ + padded(n as nat, width as nat));
    }
}

impl NtpFp {
    pub fn new(integral: u32, fractional: u32) -> (r: Self)
        ensures
            r.integral == integral,
            r.fractional == fractional,
    {
        NtpFp { integral, fractional }
    }

    /// The nanoseconds of the fraction, truncated.
    pub fn nanos(&self) -> (r: u64)
        ensures
            r == ntp_nanos(self.fractional),
            r < NANOS_PER_SECOND,
    {
        let f = self.fractional as u64;
        assert(f * 1000000000 <= 4294967295u64 * 1000000000) by (nonlinear_arith)
            requires
                f <= 4294967295u64,
        ;
        assert(f * 1000000000 / 4294967296 < 1000000000) by (nonlinear_arith)
            requires
                f <= 4294967295u64,
        ;
        f * NANOS_PER_SECOND / NTP_FRACTION_SCALE
    }

    /// This timestamp in seconds and nanoseconds since the Unix epoch.
    pub fn to_timespec(&self) -> (r: TimeSpec)
        ensures
            r == ntp_to_timespec(*self),
    {
        let secs = self.integral as i64 - UNIX_NTP_OFFSET;
        let nsec = self.nanos() as i64;
        TimeSpec::new(secs, nsec)
    }

    /// This timestamp as text, e.g. "1 second", "5 seconds", "7.500 seconds".
    pub fn to_string(&self) -> (r: String)
        ensures
            r@ == ntp_text(*self),
    {
        let sec = self.integral as u64;
        let n_sec = self.nanos();
        let mut s = String::new();
        if n_sec == 0 {
            if sec == 1 {
                return String::from_str("1 second");
            }
            push_decimal(&mut s, sec);
        } else {
            push_decimal(&mut s, sec);
            s.append(".");
            if n_sec % 1_000_000 == 0 {
                push_padded(&mut s, n_sec / 1_000_000, 3);
            } else {
                push_padded(&mut s, n_sec, 9);
            }
        }
        s.append(" seconds");
        assert(s@ =~= ntp_text(*self));
        s
    }
}

impl From<NtpFp> for TimeSpec {
    fn from(value: NtpFp) -> (r: TimeSpec)
        ensures
            r == ntp_to_timespec(value),
    {
        value.to_timespec()
    }
}

impl vstd::std_specs::convert::FromSpecImpl<NtpFp> for TimeSpec {
    open spec fn obeys_from_spec() -> bool {
        true
    }

    open spec fn from_spec(v: NtpFp) -> TimeSpec {
        ntp_to_timespec(v)
    }
}

/// A timestamp in one of the two encodings. Which one a kernel record holds
/// is told by the timestamp-format flag of the mode word beside it.
#[derive(Clone, Copy, Debug, PartialEq, Eq, Structural)]
pub enum PpsTimeU {
    TimeSpec(TimeSpec),
    NtpFp(NtpFp),
}

/// A timestamp in the seconds-and-nanoseconds form.
pub open spec fn duration_form(t: PpsTimeU) -> TimeSpec {
    match t {
        PpsTimeU::TimeSpec(ts) => ts,
        PpsTimeU::NtpFp(n) => ntp_to_timespec(n),
    }
}

impl PpsTimeU {
    /// This timestamp in the seconds-and-nanoseconds form.
    pub fn to_timespec(&self) -> (r: TimeSpec)
        ensures
            r == duration_form(*self),
    {
        match self {
            PpsTimeU::TimeSpec(ts) => *ts,
            PpsTimeU::NtpFp(n) => n.to_timespec(),
        }
    }
}

impl Default for PpsTimeU {
    /// A zero duration.
    fn default() -> (r: Self)
        ensures
            r == PpsTimeU::TimeSpec(TimeSpec { tv_sec: 0, tv_nsec: 0 }),
    {
        PpsTimeU::TimeSpec(TimeSpec::new(0, 0))
    }
}

/// A later NTP second is a later Unix second, and an NTP timestamp with no
/// fraction has no nanoseconds.
pub proof fn lemma_ntp_conversion_monotonic(a: NtpFp, b: NtpFp)
    ensures
        a.integral <= b.integral ==> ntp_to_timespec(a).tv_sec <= ntp_to_timespec(b).tv_sec,
        a.integral < b.integral ==> ntp_to_timespec(a).tv_sec < ntp_to_timespec(b).tv_sec,
        ntp_to_timespec(a).tv_sec == a.integral - UNIX_NTP_OFFSET,
        a.fractional == 0 ==> ntp_to_timespec(a).tv_nsec == 0,
        0 <= ntp_to_timespec(a).tv_nsec < NANOS_PER_SECOND,
{
    let f = a.fractional as int;
    assert(0 <= f * 1000000000 / 4294967296 < 1000000000) by (nonlinear_arith)
        requires
            0 <= f <= 4294967295,
    ;
}

} // verus!
