use bladerf::channel::BladeRFChannel;
use bladerf::loopback::loopback_from_status;
use bladerf::loopback::BladeRFLoopback;
use bladerf::status::device_count_from_status;
use bladerf::status::fpga_configured_from_status;
use bladerf::status::handle_status;
use bladerf::status::handle_value;
use bladerf::status::transfers_or_default;

#[test]
fn channel_layout_codes() {
    assert_eq!(BladeRFChannel::Rx1.layout_code(), 0);
    assert_eq!(BladeRFChannel::Tx1.layout_code(), 1);
    assert_eq!(BladeRFChannel::Rx2.layout_code(), 2);
    assert_eq!(BladeRFChannel::Tx2.layout_code(), 3);
}

#[test]
fn loopback_codes_read_back() {
    let all = [
        BladeRFLoopback::LbNone,
        BladeRFLoopback::RfLna1,
        BladeRFLoopback::RfLna2,
        BladeRFLoopback::RfLna3,
        BladeRFLoopback::Firmware,
        BladeRFLoopback::RficBist,
        BladeRFLoopback::BbTxlpfRxlpf,
        BladeRFLoopback::BbTxlpfRxvga2,
        BladeRFLoopback::BbTxvga1Rxlpf,
        BladeRFLoopback::BbTxvga1Rxvga2,
    ];
    for l in all {
        assert_eq!(BladeRFLoopback::try_from(l.code()), Ok(l));
    }
}

#[test]
fn loopback_code_table() {
    assert_eq!(BladeRFLoopback::Firmware.code(), 1);
    assert_eq!(BladeRFLoopback::BbTxlpfRxvga2.code(), 2);
    assert_eq!(BladeRFLoopback::BbTxvga1Rxvga2.code(), 3);
    assert_eq!(BladeRFLoopback::BbTxlpfRxlpf.code(), 4);
    assert_eq!(BladeRFLoopback::BbTxvga1Rxlpf.code(), 5);
    assert_eq!(BladeRFLoopback::RfLna1.code(), 6);
    assert_eq!(BladeRFLoopback::RfLna2.code(), 7);
    assert_eq!(BladeRFLoopback::RfLna3.code(), 8);
    assert_eq!(BladeRFLoopback::LbNone.code(), 9);
    assert_eq!(BladeRFLoopback::RficBist.code(), 10);
}

#[test]
fn loopback_rejects_codes_outside_the_table() {
    assert_eq!(BladeRFLoopback::try_from(0), Err(0));
    assert_eq!(BladeRFLoopback::try_from(11), Err(11));
    assert_eq!(BladeRFLoopback::try_from(u32::MAX), Err(u32::MAX));
}

#[test]
fn status_sign_check() {
    assert_eq!(handle_status(0), Ok(0));
    assert_eq!(handle_status(17), Ok(17));
    assert_eq!(handle_status(-1), Err(-1));
    assert_eq!(handle_status(-19), Err(-19));
}

#[test]
fn status_with_value() {
    assert_eq!(handle_value(0, 915_000_000u64), Ok(915_000_000u64));
    assert_eq!(handle_value(3, true), Ok(true));
    assert_eq!(handle_value(-8, 5u32), Err(-8));
}

#[test]
fn fpga_status_three_answers() {
    assert_eq!(fpga_configured_from_status(1), Ok(true));
    assert_eq!(fpga_configured_from_status(12), Ok(true));
    assert_eq!(fpga_configured_from_status(0), Ok(false));
    assert_eq!(fpga_configured_from_status(-7), Err(-7));
}

#[test]
fn device_count_zero_is_an_error() {
    assert_eq!(device_count_from_status(2), Ok(2));
    assert_eq!(device_count_from_status(0), Err(0));
    assert_eq!(device_count_from_status(-7), Err(-7));
}

#[test]
fn stream_transfer_default() {
    assert_eq!(transfers_or_default(Some(16)), 16);
    assert_eq!(transfers_or_default(None), 4);
}

#[test]
fn loopback_status_decision() {
    assert_eq!(loopback_from_status(-6, 1), Err(-6));
    assert_eq!(loopback_from_status(0, 6), Ok(BladeRFLoopback::RfLna1));
    assert_eq!(loopback_from_status(0, 9), Ok(BladeRFLoopback::LbNone));
    assert_eq!(loopback_from_status(0, 99), Err(-1));
    assert_eq!(loopback_from_status(2, 1), Ok(BladeRFLoopback::Firmware));
}
