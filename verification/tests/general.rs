use redpitaya_scpi::Redpitaya;

#[test]
fn test_init() {
    let mut rp = Redpitaya::new("127.0.0.1:5000".to_string());

    rp.general.init();
    assert_eq!(Some("RP:INit\r\n".to_string()), rp.general.socket.pop_sent());
}

#[test]
fn general_test_reset() {
    let mut rp = Redpitaya::new("127.0.0.1:5000".to_string());

    rp.general.reset();
    assert_eq!(Some("RP:REset\r\n".to_string()), rp.general.socket.pop_sent());
}

#[test]
fn test_release() {
    let mut rp = Redpitaya::new("127.0.0.1:5000".to_string());

    rp.general.release();
    assert_eq!(
        Some("RP:RELease\r\n".to_string()),
        rp.general.socket.pop_sent()
    );
}

#[test]
fn test_fpga_load_bitstream() {
    let mut rp = Redpitaya::new("127.0.0.1:5000".to_string());

    rp.general.fpga_load_bitstream("0.93");
    assert_eq!(
        Some("RP:FPGABITREAM 0.93\r\n".to_string()),
        rp.general.socket.pop_sent()
    );
}

#[test]
fn test_enable_digital_loop() {
    let mut rp = Redpitaya::new("127.0.0.1:5000".to_string());

    rp.general.enable_digital_loop();
    assert_eq!(
        Some("RP:DIG:LOop\r\n".to_string()),
        rp.general.socket.pop_sent()
    );
}
