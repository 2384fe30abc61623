use redpitaya_scpi::digital::{Direction, Gpio, Led, State};
use redpitaya_scpi::Redpitaya;

#[test]
fn digital_test_reset() {
    let mut rp = Redpitaya::new("127.0.0.1:5000".to_string());

    rp.digital.reset();
    assert_eq!(Some("DIG:RST\r\n".to_string()), rp.digital.socket.pop_sent());
}

#[test]
fn test_set_direction_in() {
    let mut rp = Redpitaya::new("127.0.0.1:5000".to_string());

    rp.digital.set_direction(Gpio::DIO0_N, Direction::IN);
    assert_eq!(
        Some("DIG:PIN:DIR IN,DIO0_N\r\n".to_string()),
        rp.digital.socket.pop_sent()
    );
}

#[test]
fn test_set_direction_out() {
    let mut rp = Redpitaya::new("127.0.0.1:5000".to_string());

    rp.digital.set_direction(Led::LED0, Direction::OUT);
    assert_eq!(
        Some("DIG:PIN:DIR OUT,LED0\r\n".to_string()),
        rp.digital.socket.pop_sent()
    );
}

#[test]
fn test_state() {
    let mut rp = Redpitaya::new("127.0.0.1:5000".to_string());

    rp.digital.set_direction(Gpio::DIO0_N, Direction::OUT);
    assert_eq!(
        Some("DIG:PIN:DIR OUT,DIO0_N\r\n".to_string()),
        rp.digital.socket.pop_sent()
    );

    rp.digital.set_state(Gpio::DIO0_N, State::HIGH);
    assert_eq!(
        Some("DIG:PIN DIO0_N,1\r\n".to_string()),
        rp.digital.socket.pop_sent()
    );

    rp.digital.socket.queue_reply("1\r\n".to_string());
    assert_eq!(rp.digital.get_state(Gpio::DIO0_N), Ok(State::HIGH));
    assert_eq!(
        Some("DIG:PIN? DIO0_N\r\n".to_string()),
        rp.digital.socket.pop_sent()
    );
}
