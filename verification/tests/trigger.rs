use redpitaya_scpi::trigger::{Source, State};
use redpitaya_scpi::Redpitaya;

#[test]
fn trigger_test_status() {
    let mut rp = Redpitaya::new("127.0.0.1:5000".to_string());

    rp.trigger.enable(Source::NOW);
    assert_eq!(
        Some("ACQ:TRIG NOW\r\n".to_string()),
        rp.trigger.socket.pop_sent()
    );

    rp.trigger.socket.queue_reply("WAIT\r\n".to_string());
    assert_eq!(rp.trigger.get_state(), Ok(State::WAIT));
    assert_eq!(
        Some("ACQ:TRIG:STAT?\r\n".to_string()),
        rp.trigger.socket.pop_sent()
    );

    rp.trigger.disable();
    assert_eq!(
        Some("ACQ:TRIG DISABLED\r\n".to_string()),
        rp.trigger.socket.pop_sent()
    );
}

#[test]
fn test_delay() {
    let mut rp = Redpitaya::new("127.0.0.1:5000".to_string());

    rp.trigger.set_delay(2314);
    assert_eq!(
        Some("ACQ:TRIG:DLY 2314\r\n".to_string()),
        rp.trigger.socket.pop_sent()
    );

    rp.trigger.socket.queue_reply("2314\r\n".to_string());
    assert_eq!(rp.trigger.get_delay(), Ok(2314));
}

#[test]
fn test_delay_in_ns() {
    let mut rp = Redpitaya::new("127.0.0.1:5000".to_string());

    rp.trigger.set_delay_in_ns(128);
    assert_eq!(
        Some("ACQ:TRIG:DLY:NS 128\r\n".to_string()),
        rp.trigger.socket.pop_sent()
    );

    rp.trigger.socket.queue_reply("128ns\r\n".to_string());
    assert_eq!(rp.trigger.get_delay_in_ns(), Ok(128));
}

#[test]
fn test_hysteresis() {
    let mut rp = Redpitaya::new("127.0.0.1:5000".to_string());

    rp.trigger.set_hysteresis("0.75");
    assert_eq!(
        Some("ACQ:TRIG:HYST 0.75\r\n".to_string()),
        rp.trigger.socket.pop_sent()
    );

    rp.trigger.socket.queue_reply("0.75\r\n".to_string());
    assert_eq!(rp.trigger.get_hysteresis().parse::<f32>(), Ok(0.75));
}

#[test]
fn test_level() {
    let mut rp = Redpitaya::new("127.0.0.1:5000".to_string());

    rp.trigger.set_level("0.4");
    assert_eq!(
        Some("ACQ:TRIG:LEV 0.4\r\n".to_string()),
        rp.trigger.socket.pop_sent()
    );

    rp.trigger.socket.queue_reply("0.4\r\n".to_string());
    assert_eq!(rp.trigger.get_level().parse::<f32>(), Ok(0.4));
}
