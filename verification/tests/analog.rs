use redpitaya_scpi::analog::{InputPin, OutputPin};
use redpitaya_scpi::Redpitaya;

#[test]
fn analog_test_reset() {
    let mut rp = Redpitaya::new("127.0.0.1:5000".to_string());

    rp.analog.reset();
    assert_eq!(Some("ANALOG:RST\r\n".to_string()), rp.analog.socket.pop_sent());
}

#[test]
fn test_value() {
    let mut rp = Redpitaya::new("127.0.0.1:5000".to_string());

    rp.analog.set_value(OutputPin::AOUT1, "1.34");
    assert_eq!(
        Some("ANALOG:PIN AOUT1,1.34\r\n".to_string()),
        rp.analog.socket.pop_sent()
    );

    rp.analog.socket.queue_reply("1.34\r\n".to_string());
    let value = rp.analog.get_value(InputPin::AIN1);
    assert_eq!(
        Some("ANALOG:PIN? AIN1\r\n".to_string()),
        rp.analog.socket.pop_sent()
    );
    assert_eq!(value.parse::<f32>(), Ok(1.34));
}
