use redpitaya_scpi::acquire::Source;
use redpitaya_scpi::data::{Format, Unit};
use redpitaya_scpi::Redpitaya;

#[test]
fn test_get_write_pointer() {
    let mut rp = Redpitaya::new("127.0.0.1:5000".to_string());

    rp.data.socket.queue_reply("1024\r\n".to_string());
    assert_eq!(rp.data.get_write_pointer(), Ok(1024));
    assert_eq!(Some("ACQ:WPOS?\r\n".to_string()), rp.data.socket.pop_sent());
}

#[test]
fn test_get_write_pointer_at_trigger() {
    let mut rp = Redpitaya::new("127.0.0.1:5000".to_string());

    rp.data.socket.queue_reply("512\r\n".to_string());
    assert_eq!(rp.data.get_trigger_position(), Ok(512));
    assert_eq!(Some("ACQ:TPOS?\r\n".to_string()), rp.data.socket.pop_sent());
}

#[test]
fn test_units() {
    let mut rp = Redpitaya::new("127.0.0.1:5000".to_string());

    rp.data.set_units(Unit::RAW);
    assert_eq!(
        Some("ACQ:DATA:UNITS RAW\r\n".to_string()),
        rp.data.socket.pop_sent()
    );

    rp.data.socket.queue_reply("RAW\r\n".to_string());
    assert_eq!(rp.data.get_units(), Ok(Unit::RAW));
    assert_eq!(
        Some("ACQ:DATA:UNITS?\r\n".to_string()),
        rp.data.socket.pop_sent()
    );
}

#[test]
fn test_set_format() {
    let mut rp = Redpitaya::new("127.0.0.1:5000".to_string());

    rp.data.set_format(Format::BIN);
    assert_eq!(
        Some("ACQ:DATA:FORMAT BIN\r\n".to_string()),
        rp.data.socket.pop_sent()
    );

    rp.data.set_format(Format::ASCII);
    assert_eq!(
        Some("ACQ:DATA:FORMAT ASCII\r\n".to_string()),
        rp.data.socket.pop_sent()
    );
}

#[test]
fn test_read_slice() {
    let mut rp = Redpitaya::new("127.0.0.1:5000".to_string());

    rp.data.socket.queue_reply("{123,231,-231}\r\n".to_string());
    let raw = rp.data.read_slice(Source::IN1, 10, 12);
    assert_eq!(
        Some("ACQ:SOUR1:DATA:STA:END? 10,12\r\n".to_string()),
        rp.data.socket.pop_sent()
    );

    let vec: Vec<f64> = raw.iter().map(|s| s.parse().unwrap()).collect();
    assert_eq!(vec, vec![123.0, 231.0, -231.0]);
}

#[test]
fn test_read() {
    let mut rp = Redpitaya::new("127.0.0.1:5000".to_string());

    rp.data.socket.queue_reply("{1.2,3.2,-1.2}\r\n".to_string());
    let raw = rp.data.read(Source::IN1, 10, 3);
    assert_eq!(
        Some("ACQ:SOUR1:DATA:STA:N? 10,3\r\n".to_string()),
        rp.data.socket.pop_sent()
    );

    let vec: Vec<f64> = raw.iter().map(|s| s.parse().unwrap()).collect();
    assert_eq!(vec, vec![1.2, 3.2, -1.2]);
}

#[test]
fn test_read_all() {
    let mut rp = Redpitaya::new("127.0.0.1:5000".to_string());

    rp.data.socket.queue_reply("{1.2,3.2,-1.2}\r\n".to_string());
    let raw = rp.data.read_all(Source::IN1);
    assert_eq!(
        Some("ACQ:SOUR1:DATA?\r\n".to_string()),
        rp.data.socket.pop_sent()
    );

    let vec: Vec<f64> = raw.iter().map(|s| s.parse().unwrap()).collect();
    assert_eq!(vec, vec![1.2, 3.2, -1.2]);
}

#[test]
fn test_read_oldest() {
    let mut rp = Redpitaya::new("127.0.0.1:5000".to_string());

    rp.data.socket.queue_reply("{3.2,-1.2}\r\n".to_string());
    let raw = rp.data.read_oldest(Source::IN1, 2);
    assert_eq!(
        Some("ACQ:SOUR1:DATA:OLD:N? 2\r\n".to_string()),
        rp.data.socket.pop_sent()
    );

    let vec: Vec<f64> = raw.iter().map(|s| s.parse().unwrap()).collect();
    assert_eq!(vec, vec![3.2, -1.2]);
}

#[test]
fn test_read_latest() {
    let mut rp = Redpitaya::new("127.0.0.1:5000".to_string());

    rp.data.socket.queue_reply("{1.2,3.2}\r\n".to_string());
    let raw = rp.data.read_latest(Source::IN1, 2);
    assert_eq!(
        Some("ACQ:SOUR1:DATA:LAT:N? 2\r\n".to_string()),
        rp.data.socket.pop_sent()
    );

    let vec: Vec<f64> = raw.iter().map(|s| s.parse().unwrap()).collect();
    assert_eq!(vec, vec![1.2, 3.2]);
}

#[test]
fn test_buffer_size() {
    let mut rp = Redpitaya::new("127.0.0.1:5000".to_string());

    rp.data.socket.queue_reply("16384\r\n".to_string());
    assert_eq!(rp.data.buffer_size(), Ok(16384));
    assert_eq!(
        Some("ACQ:BUF:SIZE?\r\n".to_string()),
        rp.data.socket.pop_sent()
    );
}
