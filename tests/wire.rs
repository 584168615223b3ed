use pps::linux::{
    fetch_timeout, get_tus_from_pps_time, LinuxPpsFetchArgs, LinuxPpsInfo, LinuxPpsParams,
    LinuxPpsTime, LinuxTimeSpec,
};
use pps::mode::{PpsMode, PpsModeBit, PpsModeBuilder, PpsVersion};
use pps::params::{PpsInfo, PpsParams};
use pps::time::{NtpFp, PpsTimeU, TimeSpec};

fn kernel_time(sec: i64, nsec: i32) -> LinuxPpsTime {
    LinuxPpsTime { tspec: LinuxTimeSpec { tv_sec: sec, tv_nsec: nsec, flags: 0 } }
}

#[test]
fn linux_timespec_defaults_and_conversions() {
    let d = LinuxTimeSpec::default();
    assert_eq!((d.tv_sec, d.tv_nsec, d.flags), (0, 0, 1));
    let k = LinuxTimeSpec::from(TimeSpec::new(12, 345));
    assert_eq!(k, LinuxTimeSpec { tv_sec: 12, tv_nsec: 345, flags: 0 });
    let t = TimeSpec::from(LinuxTimeSpec { tv_sec: -4, tv_nsec: 99, flags: 1 });
    assert_eq!(t, TimeSpec::new(-4, 99));
    assert_eq!(LinuxPpsTime::default().tspec, d);
}

#[test]
fn fetch_timeout_zero_means_unlimited() {
    assert_eq!(fetch_timeout(0, 0), LinuxTimeSpec { tv_sec: 0, tv_nsec: 0, flags: 1 });
    assert_eq!(fetch_timeout(2, 5), LinuxTimeSpec { tv_sec: 2, tv_nsec: 5, flags: 0 });
    assert_eq!(fetch_timeout(0, 1), LinuxTimeSpec { tv_sec: 0, tv_nsec: 1, flags: 0 });
    assert_eq!(LinuxTimeSpec::from_duration(3, 0), LinuxTimeSpec { tv_sec: 3, tv_nsec: 0, flags: 0 });
    let args = LinuxPpsFetchArgs::with_timeout(fetch_timeout(1, 0));
    assert_eq!(args.timeout.tv_sec, 1);
    assert_eq!(args.info, LinuxPpsInfo::default());
}

#[test]
fn timeu_to_kernel_union() {
    let ntp = PpsTimeU::NtpFp(NtpFp::new(2208988810, 0x8000_0000));
    assert_eq!(LinuxPpsTime::from(ntp), kernel_time(10, 500_000_000));
    let ts = PpsTimeU::TimeSpec(TimeSpec::new(3, 4));
    assert_eq!(LinuxPpsTime::from(ts), kernel_time(3, 4));
}

#[test]
fn read_kernel_timestamps() {
    let mode = PpsMode::from(0x1001);
    let (a, c) = get_tus_from_pps_time(mode, kernel_time(1, 2), kernel_time(3, 4));
    assert_eq!(a, PpsTimeU::TimeSpec(TimeSpec::new(1, 2)));
    assert_eq!(c, PpsTimeU::TimeSpec(TimeSpec::new(3, 4)));
}

#[test]
fn info_from_kernel_record() {
    let raw = LinuxPpsInfo {
        assert_sequence: 41,
        clear_sequence: 7,
        assert_tu: kernel_time(100, 250),
        clear_tu: kernel_time(101, 750),
        current_mode: 0x1003,
    };
    let info = PpsInfo::from_linux(raw);
    assert_eq!(info.assert_sequence, 41);
    assert_eq!(info.clear_sequence, 7);
    assert_eq!(info.assert_tu, PpsTimeU::TimeSpec(TimeSpec::new(100, 250)));
    assert_eq!(info.clear_tu, PpsTimeU::TimeSpec(TimeSpec::new(101, 750)));
    assert_eq!(i32::from(info.mode), 0x1003);
    assert!(info.mode.mode_is_set(PpsModeBit::CaptureBoth));
}

#[test]
fn params_pack_and_unpack() {
    let mut b = PpsModeBuilder::new();
    b.add_mode(PpsModeBit::CaptureAssert).add_mode(PpsModeBit::TsFmtTSpec);
    let mode = b.build();
    let packed = LinuxPpsParams::pack(
        PpsTimeU::TimeSpec(TimeSpec::new(0, 1500)),
        PpsTimeU::default(),
        PpsVersion::default(),
        mode,
    );
    assert_eq!(packed, LinuxPpsParams::new(1, 0x1001, kernel_time(0, 1500), kernel_time(0, 0)));
    let params = PpsParams::from_linux(packed);
    assert_eq!(i32::from(params.api_version), 1);
    assert_eq!(i32::from(params.mode), 0x1001);
    assert_eq!(params.assert_off_tu, PpsTimeU::TimeSpec(TimeSpec::new(0, 1500)));
    assert_eq!(params.clear_off_tu, PpsTimeU::TimeSpec(TimeSpec::new(0, 0)));
}

#[test]
fn mismatched_format_goes_through_duration_form() {
    // The mode announces seconds-and-nanoseconds, the offsets come as NTP.
    let mode = PpsMode::from(0x1000);
    let assert_off = PpsTimeU::NtpFp(NtpFp::new(2208988801, 0x4000_0000));
    let clear_off = PpsTimeU::NtpFp(NtpFp::new(2208988800, 0));
    let packed = LinuxPpsParams::pack(assert_off, clear_off, PpsVersion::new(1), mode);
    let params = PpsParams::from_linux(packed);
    assert_eq!(params.assert_off_tu, PpsTimeU::TimeSpec(TimeSpec::new(1, 250_000_000)));
    assert_eq!(params.clear_off_tu, PpsTimeU::TimeSpec(TimeSpec::new(0, 0)));

    // The mode announces NTP, the offsets come as durations: still packed
    // in the seconds-and-nanoseconds form.
    let packed = LinuxPpsParams::pack(
        PpsTimeU::TimeSpec(TimeSpec::new(5, 6)),
        PpsTimeU::TimeSpec(TimeSpec::new(7, 8)),
        PpsVersion::new(1),
        PpsMode::from(0x2000),
    );
    assert_eq!(packed.assert_off_tu, kernel_time(5, 6));
    assert_eq!(packed.clear_off_tu, kernel_time(7, 8));
    assert_eq!(packed.mode, 0x2000);
}

#[test]
fn default_kernel_params() {
    let p = LinuxPpsParams::default();
    assert_eq!((p.api_version, p.mode), (0, 0));
    assert_eq!(p.assert_off_tu, LinuxPpsTime::default());
}
