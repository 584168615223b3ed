//! The records of the Linux PPS control operations, field for field as the
//! kernel lays them out, and their conversion to and from the typed model.
//!
//! The kernel's timestamp union has a single member, the seconds and
//! nanoseconds form: an outgoing timestamp is converted to that form
//! whatever its encoding, and an incoming one is read in that form, which
//! the timestamp-format flag of the accompanying mode word must announce.
use vstd::prelude::*;
use crate::mode::{bit_is_set, mode_of_raw, PpsMode, PpsModeBit, PpsVersion};
use crate::params::{PpsInfo, PpsParams};
use crate::time::{duration_form, PpsTimeU, TimeSpec};

verus! {

/// Magic number of the PPS control operations.
pub const PPS_MAGIC: u8 = 0x70;

/// Operation number: read the parameters.
pub const PPS_IOC_GETPARAMS: u8 = 0xA1;

/// Operation number: write the parameters.
pub const PPS_IOC_SETPARAMS: u8 = 0xA2;

/// Operation number: read the capabilities.
pub const PPS_IOC_GETCAP: u8 = 0xA3;

/// Operation number: wait for and read an event.
pub const PPS_IOC_FETCH: u8 = 0xA4;

/// The kernel's timestamp: seconds, nanoseconds and a flags word.
#[derive(Clone, Copy, Debug, PartialEq, Eq, Structural)]
pub struct LinuxTimeSpec {
    pub tv_sec: i64,
    pub tv_nsec: i32,
    pub flags: u32,
}

/// The flags word that marks a fetch timeout as "wait without limit".
pub const PPS_TIME_INVALID: u32 = 1;

impl Default for LinuxTimeSpec {
    /// Zero, marked invalid: as a fetch timeout, no limit.
    fn default() -> (r: Self)
        ensures
            r == (LinuxTimeSpec { tv_sec: 0, tv_nsec: 0, flags: PPS_TIME_INVALID }),
    {
        LinuxTimeSpec { tv_sec: 0, tv_nsec: 0, flags: PPS_TIME_INVALID }
    }
}

/// A kernel timestamp in the library's seconds-and-nanoseconds form.
pub open spec fn timespec_of_linux(t: LinuxTimeSpec) -> TimeSpec {
    TimeSpec { tv_sec: t.tv_sec, tv_nsec: t.tv_nsec as i64 }
}

/// A duration as the kernel's timestamp; the nanoseconds are narrowed to
/// the kernel's 32-bit field.
pub open spec fn linux_of_timespec(t: TimeSpec) -> LinuxTimeSpec {
    LinuxTimeSpec { tv_sec: t.tv_sec, tv_nsec: t.tv_nsec as i32, flags: 0 }
}

impl From<LinuxTimeSpec> for TimeSpec {
    fn from(value: LinuxTimeSpec) -> (r: TimeSpec)
        ensures
            r == timespec_of_linux(value),
    {
        TimeSpec::new(value.tv_sec, value.tv_nsec as i64)
    }
}

impl vstd::std_specs::convert::FromSpecImpl<LinuxTimeSpec> for TimeSpec {
    open spec fn obeys_from_spec() -> bool {
        true
    }

    open spec fn from_spec(v: LinuxTimeSpec) -> TimeSpec {
        timespec_of_linux(v)
    }
}

impl From<TimeSpec> for LinuxTimeSpec {
    fn from(value: TimeSpec) -> (r: LinuxTimeSpec)
        ensures
            r == linux_of_timespec(value),
    {
        LinuxTimeSpec { tv_sec: value.tv_sec(), tv_nsec: #[verifier::truncate] (value.tv_nsec() as i32), flags: 0 }
    }
}

impl vstd::std_specs::convert::FromSpecImpl<TimeSpec> for LinuxTimeSpec {
    open spec fn obeys_from_spec() -> bool {
        true
    }

    open spec fn from_spec(v: TimeSpec) -> LinuxTimeSpec {
        linux_of_timespec(v)
    }
}

impl LinuxTimeSpec {
    /// A duration of `secs` seconds and `nanos` nanoseconds (below one
    /// second) as the kernel's timestamp.
    pub fn from_duration(secs: u64, nanos: u32) -> (r: Self)
        requires
            nanos < 1_000_000_000,
        ensures
            r == (LinuxTimeSpec { tv_sec: secs as i64, tv_nsec: nanos as i32, flags: 0 }),
    {
        LinuxTimeSpec { tv_sec: #[verifier::truncate] (secs as i64), tv_nsec: nanos as i32, flags: 0 }
    }
}

/// The timeout handed to the fetch operation for a wait of `secs` seconds
/// and `nanos` nanoseconds: a zero wait means no limit.
pub open spec fn fetch_timeout_spec(secs: u64, nanos: u32) -> LinuxTimeSpec {
    if secs == 0 && nanos == 0 {
        LinuxTimeSpec { tv_sec: 0, tv_nsec: 0, flags: PPS_TIME_INVALID }
    } else {
        LinuxTimeSpec { tv_sec: secs as i64, tv_nsec: nanos as i32, flags: 0 }
    }
}

/// The timeout handed to the fetch operation for a wait of `secs` seconds
/// and `nanos` nanoseconds (below one second): a zero wait means no limit.
pub fn fetch_timeout(secs: u64, nanos: u32) -> (r: LinuxTimeSpec)
    requires
        nanos < 1_000_000_000,
    ensures
        r == fetch_timeout_spec(secs, nanos),
{
    if secs == 0 && nanos == 0 {
        LinuxTimeSpec::default()
    } else {
        LinuxTimeSpec::from_duration(secs, nanos)
    }
}

/// The kernel's timestamp union, whose one member is the
/// seconds-and-nanoseconds form.
#[derive(Clone, Copy, Debug, PartialEq, Eq, Structural)]
pub struct LinuxPpsTime {
    pub tspec: LinuxTimeSpec,
}

/// The zero timestamp marked invalid, which the kernel's records start
/// from.
pub open spec fn unlimited_time() -> LinuxPpsTime {
    LinuxPpsTime { tspec: LinuxTimeSpec { tv_sec: 0, tv_nsec: 0, flags: PPS_TIME_INVALID } }
}

impl Default for LinuxPpsTime {
    fn default() -> (r: Self)
        ensures
            r == unlimited_time(),
    {
        LinuxPpsTime { tspec: LinuxTimeSpec::default() }
    }
}

/// A timestamp of either encoding as the kernel's union: always its
/// seconds-and-nanoseconds form.
pub open spec fn linux_time_of(t: PpsTimeU) -> LinuxPpsTime {
    LinuxPpsTime { tspec: linux_of_timespec(duration_form(t)) }
}

/// The kernel's union read as a seconds-and-nanoseconds timestamp.
pub open spec fn timeu_of_linux(t: LinuxPpsTime) -> PpsTimeU {
    PpsTimeU::TimeSpec(timespec_of_linux(t.tspec))
}

impl From<PpsTimeU> for LinuxPpsTime {
    fn from(value: PpsTimeU) -> (r: LinuxPpsTime)
        ensures
            r == linux_time_of(value),
    {
        let ts = value.to_timespec();
        LinuxPpsTime { tspec: LinuxTimeSpec::from(ts) }
    }
}

impl vstd::std_specs::convert::FromSpecImpl<PpsTimeU> for LinuxPpsTime {
    open spec fn obeys_from_spec() -> bool {
        true
    }

    open spec fn from_spec(v: PpsTimeU) -> LinuxPpsTime {
        linux_time_of(v)
    }
}

/// Whether the mode word announces seconds-and-nanoseconds timestamps.
pub open spec fn announces_timespec(mode: i32) -> bool {
    bit_is_set(mode, PpsModeBit::TsFmtTSpec)
}

/// Reads the two timestamps of a kernel record, which the mode word must
/// announce as seconds-and-nanoseconds.
pub fn get_tus_from_pps_time(mode: PpsMode, assert_tu: LinuxPpsTime, clear_tu: LinuxPpsTime) -> (r: (
    PpsTimeU,
    PpsTimeU,
))
    requires
        announces_timespec(mode.raw()),
    ensures
        r == (timeu_of_linux(assert_tu), timeu_of_linux(clear_tu)),
{
    let assert_ts = TimeSpec::from(assert_tu.tspec);
    let clear_ts = TimeSpec::from(clear_tu.tspec);
    (PpsTimeU::TimeSpec(assert_ts), PpsTimeU::TimeSpec(clear_ts))
}


/// The kernel's record of one capture event.
#[derive(Clone, Copy, Debug, PartialEq, Eq, Structural)]
pub struct LinuxPpsInfo {
    pub assert_sequence: i32,
    pub clear_sequence: i32,
    pub assert_tu: LinuxPpsTime,
    pub clear_tu: LinuxPpsTime,
    pub current_mode: i32,
}

impl Default for LinuxPpsInfo {
    fn default() -> (r: Self)
        ensures
            r.assert_sequence == 0,
            r.clear_sequence == 0,
            r.assert_tu == unlimited_time(),
            r.clear_tu == unlimited_time(),
            r.current_mode == 0,
    {
        LinuxPpsInfo {
            assert_sequence: 0,
            clear_sequence: 0,
            assert_tu: LinuxPpsTime::default(),
            clear_tu: LinuxPpsTime::default(),
            current_mode: 0,
        }
    }
}

impl PpsInfo {
    /// The typed event of a kernel record whose mode word announces
    /// seconds-and-nanoseconds timestamps.
    pub fn from_linux(value: LinuxPpsInfo) -> (r: PpsInfo)
        requires
            announces_timespec(value.current_mode),
        ensures
            r.assert_sequence == value.assert_sequence as u64,
            r.clear_sequence == value.clear_sequence as u64,
            r.assert_tu == timeu_of_linux(value.assert_tu),
            r.clear_tu == timeu_of_linux(value.clear_tu),
            r.mode == mode_of_raw(value.current_mode),
    {
        let mode = PpsMode::from(value.current_mode);
        let (assert_tu, clear_tu) = get_tus_from_pps_time(mode, value.assert_tu, value.clear_tu);
        PpsInfo {
            assert_sequence: #[verifier::truncate] (value.assert_sequence as u64),
            assert_tu,
            clear_sequence: #[verifier::truncate] (value.clear_sequence as u64),
            clear_tu,
            mode,
        }
    }
}

/// The kernel's record of a source's capture parameters.
#[derive(Clone, Copy, Debug, PartialEq, Eq, Structural)]
pub struct LinuxPpsParams {
    pub api_version: i32,
    pub mode: i32,
    pub assert_off_tu: LinuxPpsTime,
    pub clear_off_tu: LinuxPpsTime,
}

/// The kernel record that sets the given parameters: both offsets in the
/// seconds-and-nanoseconds form, whichever encoding they came in.
pub open spec fn pack_params(
    assert_offset: PpsTimeU,
    clear_offset: PpsTimeU,
    api_version: PpsVersion,
    mode: PpsMode,
) -> LinuxPpsParams {
    LinuxPpsParams {
        api_version: api_version.raw(),
        mode: mode.raw(),
        assert_off_tu: linux_time_of(assert_offset),
        clear_off_tu: linux_time_of(clear_offset),
    }
}

/// The typed parameters that a kernel record holds.
pub open spec fn unpack_params(value: LinuxPpsParams) -> PpsParams {
    PpsParams {
        api_version: crate::mode::version_of_raw(value.api_version),
        mode: mode_of_raw(value.mode),
        assert_off_tu: timeu_of_linux(value.assert_off_tu),
        clear_off_tu: timeu_of_linux(value.clear_off_tu),
    }
}

impl LinuxPpsParams {
    pub fn new(
        api_version: i32,
        mode: i32,
        assert_off_tu: LinuxPpsTime,
        clear_off_tu: LinuxPpsTime,
    ) -> (r: Self)
        ensures
            r == (LinuxPpsParams { api_version, mode, assert_off_tu, clear_off_tu }),
    {
        LinuxPpsParams { api_version, mode, assert_off_tu, clear_off_tu }
    }

    /// The record that sets the given parameters, each offset converted to
    /// the seconds-and-nanoseconds form whatever the mode word says.
    pub fn pack(
        assert_offset: PpsTimeU,
        clear_offset: PpsTimeU,
        api_version: PpsVersion,
        mode: PpsMode,
    ) -> (r: Self)
        ensures
            r == pack_params(assert_offset, clear_offset, api_version, mode),
    {
        LinuxPpsParams::new(
            i32::from(api_version),
            i32::from(mode),
            LinuxPpsTime::from(assert_offset),
            LinuxPpsTime::from(clear_offset),
        )
    }
}

impl Default for LinuxPpsParams {
    fn default() -> (r: Self)
        ensures
            r.api_version == 0,
            r.mode == 0,
            r.assert_off_tu == unlimited_time(),
            r.clear_off_tu == unlimited_time(),
    {
        LinuxPpsParams::new(0, 0, LinuxPpsTime::default(), LinuxPpsTime::default())
    }
}

impl PpsParams {
    /// The typed parameters of a kernel record whose mode word announces
    /// seconds-and-nanoseconds offsets.
    pub fn from_linux(value: LinuxPpsParams) -> (r: PpsParams)
        requires
            announces_timespec(value.mode),
        ensures
            r == unpack_params(value),
    {
        let mode = PpsMode::from(value.mode);
        let (assert_off_tu, clear_off_tu) = get_tus_from_pps_time(
            mode,
            value.assert_off_tu,
            value.clear_off_tu,
        );
        PpsParams {
            api_version: PpsVersion::new(value.api_version),
            mode,
            assert_off_tu,
            clear_off_tu,
        }
    }
}

/// The argument of the fetch operation: the event record the kernel fills,
/// and how long to wait for it.
#[derive(Clone, Copy, Debug, PartialEq, Eq, Structural)]
pub struct LinuxPpsFetchArgs {
    pub info: LinuxPpsInfo,
    pub timeout: LinuxTimeSpec,
}

impl LinuxPpsFetchArgs {
    /// An empty event record with the given timeout.
    pub fn with_timeout(timeout: LinuxTimeSpec) -> (r: Self)
        ensures
            r.timeout == timeout,
            r.info.current_mode == 0,
            r.info.assert_sequence == 0,
            r.info.clear_sequence == 0,
    {
        LinuxPpsFetchArgs { info: LinuxPpsInfo::default(), timeout }
    }
}

/// A timestamp whose nanoseconds fit the kernel's 32-bit field.
pub open spec fn fits_kernel_time(t: PpsTimeU) -> bool {
    i32::MIN <= duration_form(t).tv_nsec <= i32::MAX
}

/// Parameters written with a mode word that announces
/// seconds-and-nanoseconds offsets read back as those offsets in that form,
/// whichever encoding they were given in; the rest of the record reads back
/// unchanged.
pub proof fn lemma_params_round_trip_duration_form(
    assert_offset: PpsTimeU,
    clear_offset: PpsTimeU,
    api_version: PpsVersion,
    mode: PpsMode,
)
    requires
        announces_timespec(mode.raw()),
        fits_kernel_time(assert_offset),
        fits_kernel_time(clear_offset),
    ensures
        announces_timespec(pack_params(assert_offset, clear_offset, api_version, mode).mode),
        unpack_params(pack_params(assert_offset, clear_offset, api_version, mode)) == (PpsParams {
            api_version,
            mode,
            assert_off_tu: PpsTimeU::TimeSpec(duration_form(assert_offset)),
            clear_off_tu: PpsTimeU::TimeSpec(duration_form(clear_offset)),
        }),
{
    crate::mode::lemma_raw_round_trip(mode, 0);
    crate::mode::lemma_version_round_trip(api_version);
}

/// An NTP timestamp always fits the kernel's timestamp field.
pub proof fn lemma_ntp_fits_kernel_time(n: crate::time::NtpFp)
    ensures
        fits_kernel_time(PpsTimeU::NtpFp(n)),
{
    crate::time::lemma_ntp_conversion_monotonic(n, n);
}

} // verus!
