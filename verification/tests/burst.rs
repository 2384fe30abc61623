use redpitaya_scpi::burst::{Mode, Source};
use redpitaya_scpi::Redpitaya;

#[test]
fn test_mode() {
    let mut rp = Redpitaya::new("127.0.0.1:5000".to_string());

    rp.burst.set_mode(Source::OUT2, Mode::BURST);
    assert_eq!(
        Some("SOUR2:BURS:STAT BURST\r\n".to_string()),
        rp.burst.socket.pop_sent()
    );

    rp.burst.socket.queue_reply("BURST\r\n".to_string());
    assert_eq!(rp.burst.get_mode(Source::OUT2), Ok(Mode::BURST));
    assert_eq!(
        Some("SOUR2:BURS:STAT?\r\n".to_string()),
        rp.burst.socket.pop_sent()
    );
}

#[test]
fn test_count() {
    let mut rp = Redpitaya::new("127.0.0.1:5000".to_string());

    rp.burst.set_count(Source::OUT2, 3);
    assert_eq!(
        Some("SOUR2:BURS:NCYC 3\r\n".to_string()),
        rp.burst.socket.pop_sent()
    );

    rp.burst.socket.queue_reply("3\r\n".to_string());
    assert_eq!(rp.burst.get_count(Source::OUT2), Ok(3));
    assert_eq!(
        Some("SOUR2:BURS:NCYC?\r\n".to_string()),
        rp.burst.socket.pop_sent()
    );
}

#[test]
fn test_repetitions() {
    let mut rp = Redpitaya::new("127.0.0.1:5000".to_string());

    rp.burst.set_repetitions(Source::OUT1, 5);
    assert_eq!(
        Some("SOUR1:BURS:NOR 5\r\n".to_string()),
        rp.burst.socket.pop_sent()
    );

    rp.burst.socket.queue_reply("5\r\n".to_string());
    assert_eq!(rp.burst.get_repetitions(Source::OUT1), Ok(5));
    assert_eq!(
        Some("SOUR1:BURS:NOR?\r\n".to_string()),
        rp.burst.socket.pop_sent()
    );
}

#[test]
fn test_period() {
    let mut rp = Redpitaya::new("127.0.0.1:5000".to_string());

    rp.burst.set_period(Source::OUT2, 1_000_000);
    assert_eq!(
        Some("SOUR2:BURS:INT:PER 1000000\r\n".to_string()),
        rp.burst.socket.pop_sent()
    );

    rp.burst.socket.queue_reply("1000000\r\n".to_string());
    assert_eq!(rp.burst.get_period(Source::OUT2), Ok(1_000_000));
    assert_eq!(
        Some("SOUR2:BURS:INT:PER?\r\n".to_string()),
        rp.burst.socket.pop_sent()
    );
}
