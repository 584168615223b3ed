use pps::mode::{all_flags, PpsMode, PpsModeBit, PpsModeBuilder, PpsVersion};

#[test]
fn add_then_remove_flag() {
    let mut b = PpsModeBuilder::new();
    b.add_mode(PpsModeBit::CaptureAssert).add_mode(PpsModeBit::TsFmtTSpec);
    let m = b.build();
    assert!(m.mode_is_set(PpsModeBit::CaptureAssert));
    assert!(m.mode_is_set(PpsModeBit::TsFmtTSpec));
    assert!(!m.mode_is_set(PpsModeBit::CaptureClear));
    b.remove_mode(PpsModeBit::CaptureAssert);
    let m = b.build();
    assert!(!m.mode_is_set(PpsModeBit::CaptureAssert));
    assert!(m.mode_is_set(PpsModeBit::TsFmtTSpec));
    assert_eq!(i32::from(m), 0x1000);
}

#[test]
fn other_flags_do_not_disturb() {
    let mut b = PpsModeBuilder::new();
    b.add_mode(PpsModeBit::OffsetAssert);
    b.add_mode(PpsModeBit::CanWait).remove_mode(PpsModeBit::CanPoll);
    b.add_mode(PpsModeBit::EchoClear).remove_mode(PpsModeBit::EchoClear);
    let m = b.build();
    assert!(m.mode_is_set(PpsModeBit::OffsetAssert));
    assert!(m.mode_is_set(PpsModeBit::CanWait));
    assert!(!m.mode_is_set(PpsModeBit::EchoClear));
    assert_eq!(i32::from(m), 0x110);
}

#[test]
fn capture_both_overlaps_single_edges() {
    let mut b = PpsModeBuilder::new();
    b.add_mode(PpsModeBit::CaptureBoth);
    let m = b.build();
    assert_eq!(i32::from(m), 3);
    assert!(m.mode_is_set(PpsModeBit::CaptureAssert));
    assert!(m.mode_is_set(PpsModeBit::CaptureClear));
    b.remove_mode(PpsModeBit::CaptureAssert);
    assert!(b.build().mode_is_set(PpsModeBit::CaptureBoth));
    b.remove_mode(PpsModeBit::CaptureBoth);
    assert_eq!(i32::from(b.build()), 0);
}

#[test]
fn raw_round_trip() {
    for v in [0i32, 1, 3, 0x1000, 0x2000, 0x33f3, -1, i32::MIN, i32::MAX] {
        assert_eq!(i32::from(PpsMode::from(v)), v);
    }
    assert_eq!(i32::from(PpsMode::new()), 0);
}

#[test]
fn get_bits_lists_every_flag_once() {
    let m = PpsMode::from(0x1011);
    let bits = m.get_bits();
    assert_eq!(bits.len(), 11);
    let flags = all_flags();
    for (i, (bit, set)) in bits.iter().enumerate() {
        assert_eq!(*bit, flags[i]);
        for (j, (other, _)) in bits.iter().enumerate() {
            if i != j {
                assert_ne!(bit, other);
            }
        }
        let expected = matches!(
            bit,
            PpsModeBit::CaptureAssert
                | PpsModeBit::CaptureBoth
                | PpsModeBit::OffsetAssert
                | PpsModeBit::TsFmtTSpec
        );
        assert_eq!(*set, expected);
    }
}

#[test]
fn flag_values_and_names() {
    assert_eq!(PpsModeBit::CaptureAssert.value(), 0x01);
    assert_eq!(PpsModeBit::EchoAssert.value(), 0x40);
    assert_eq!(PpsModeBit::TsFmtNTPFP.value(), 0x2000);
    assert_eq!(PpsModeBit::CaptureBoth.to_string(), "PPS_CAPTUREBOTH");
    assert_eq!(PpsModeBit::TsFmtTSpec.to_string(), "PPS_TSFMT_TSPEC");
    assert_eq!(PpsModeBit::CanPoll.to_string(), "PPS_CANPOLL");
}

#[test]
fn version_defaults_to_one() {
    assert_eq!(i32::from(PpsVersion::default()), 1);
    assert_eq!(i32::from(PpsVersion::new(7)), 7);
}
