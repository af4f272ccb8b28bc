use bladerf::BladeRfError;

#[test]
fn from_code_names_every_documented_code() {
    assert_eq!(BladeRfError::from_code(-1), BladeRfError::Unexpected);
    assert_eq!(BladeRfError::from_code(-2), BladeRfError::Range);
    assert_eq!(BladeRfError::from_code(-3), BladeRfError::Inval);
    assert_eq!(BladeRfError::from_code(-4), BladeRfError::Mem);
    assert_eq!(BladeRfError::from_code(-5), BladeRfError::Io);
    assert_eq!(BladeRfError::from_code(-6), BladeRfError::Timeout);
    assert_eq!(BladeRfError::from_code(-7), BladeRfError::Nodev);
    assert_eq!(BladeRfError::from_code(-8), BladeRfError::Unsupported);
    assert_eq!(BladeRfError::from_code(-9), BladeRfError::Misaligned);
    assert_eq!(BladeRfError::from_code(-10), BladeRfError::Checksum);
    assert_eq!(BladeRfError::from_code(-11), BladeRfError::NoFile);
    assert_eq!(BladeRfError::from_code(-12), BladeRfError::UpdateFpga);
    assert_eq!(BladeRfError::from_code(-13), BladeRfError::UpdateFw);
    assert_eq!(BladeRfError::from_code(-14), BladeRfError::TimePast);
    assert_eq!(BladeRfError::from_code(-15), BladeRfError::QueueFull);
    assert_eq!(BladeRfError::from_code(-16), BladeRfError::FpgaOp);
    assert_eq!(BladeRfError::from_code(-17), BladeRfError::Permission);
    assert_eq!(BladeRfError::from_code(-18), BladeRfError::WouldBlock);
    assert_eq!(BladeRfError::from_code(-19), BladeRfError::NotInit);
}

#[test]
fn from_code_keeps_undocumented_codes() {
    assert_eq!(BladeRfError::from_code(0), BladeRfError::Unknown(0));
    assert_eq!(BladeRfError::from_code(7), BladeRfError::Unknown(7));
    assert_eq!(BladeRfError::from_code(-20), BladeRfError::Unknown(-20));
    assert_eq!(
        BladeRfError::from_code(i32::MIN),
        BladeRfError::Unknown(i32::MIN)
    );
}

#[test]
fn code_of_named_errors() {
    assert_eq!(i32::from(BladeRfError::Unexpected), -1);
    assert_eq!(i32::from(BladeRfError::Io), -5);
    assert_eq!(i32::from(BladeRfError::Timeout), -6);
    assert_eq!(i32::from(BladeRfError::NotInit), -19);
    assert_eq!(i32::from(BladeRfError::Unknown(42)), 42);
    assert_eq!(i32::from(BladeRfError::Unknown(-33)), -33);
}

#[test]
fn code_survives_the_round_trip() {
    for code in [-25, -19, -10, -1, 0, 3, 100] {
        assert_eq!(i32::from(BladeRfError::from_code(code)), code);
    }
}

#[test]
fn named_error_survives_the_round_trip() {
    let all = [
        BladeRfError::Unexpected,
        BladeRfError::Range,
        BladeRfError::Inval,
        BladeRfError::Mem,
        BladeRfError::Io,
        BladeRfError::Timeout,
        BladeRfError::Nodev,
        BladeRfError::Unsupported,
        BladeRfError::Misaligned,
        BladeRfError::Checksum,
        BladeRfError::NoFile,
        BladeRfError::UpdateFpga,
        BladeRfError::UpdateFw,
        BladeRfError::TimePast,
        BladeRfError::QueueFull,
        BladeRfError::FpgaOp,
        BladeRfError::Permission,
        BladeRfError::WouldBlock,
        BladeRfError::NotInit,
        BladeRfError::Unknown(-77),
        BladeRfError::Unknown(12),
    ];
    for e in all {
        assert_eq!(BladeRfError::from_code(i32::from(e)), e);
    }
}

#[test]
fn unknown_with_documented_code_reads_back_named() {
    // An `Unknown` that carries a documented code does not survive the
    // round trip: the code reads back as the named error.
    let e = BladeRfError::Unknown(-5);
    assert_eq!(BladeRfError::from_code(i32::from(e)), BladeRfError::Io);
}
