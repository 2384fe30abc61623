use redpitaya_scpi::acquire::{Decimation, Gain, SamplingRate, Source};
use redpitaya_scpi::Redpitaya;

#[test]
fn test_sampling_rate_get_buffer_duration() {
    let duration = std::time::Duration::new(8, 590_000_000);

    assert_eq!(duration, SamplingRate::RATE_1_9kHz.get_buffer_duration());
}

#[test]
fn acquire_test_status() {
    let mut rp = Redpitaya::new("127.0.0.1:5000".to_string());

    rp.acquire.start();
    assert_eq!(Some("ACQ:START\r\n".to_string()), rp.acquire.socket.pop_sent());

    rp.acquire.stop();
    assert_eq!(Some("ACQ:STOP\r\n".to_string()), rp.acquire.socket.pop_sent());

    rp.acquire.reset();
    assert_eq!(Some("ACQ:RST\r\n".to_string()), rp.acquire.socket.pop_sent());
}

#[test]
fn test_decimation() {
    let mut rp = Redpitaya::new("127.0.0.1:5000".to_string());

    rp.acquire.set_decimation(Decimation::DEC_1);
    assert_eq!(Some("ACQ:DEC 1\r\n".to_string()), rp.acquire.socket.pop_sent());

    rp.acquire.socket.queue_reply("1\r\n".to_string());
    assert_eq!(rp.acquire.get_decimation(), Ok(Decimation::DEC_1));
    assert_eq!(Some("ACQ:DEC?\r\n".to_string()), rp.acquire.socket.pop_sent());
}

#[test]
fn test_sampling_rate() {
    let mut rp = Redpitaya::new("127.0.0.1:5000".to_string());

    rp.acquire.socket.queue_reply("125000000 Hz\r\n".to_string());
    assert_eq!(rp.acquire.get_sampling_rate(), Ok(SamplingRate::RATE_125MHz));
    assert_eq!(Some("ACQ:SRAT?\r\n".to_string()), rp.acquire.socket.pop_sent());

    assert_eq!(SamplingRate::RATE_125MHz.decimation(), Decimation::DEC_1);
    assert_eq!(Decimation::DEC_8192.sampling_rate(), SamplingRate::RATE_15_2kHz);
}

#[test]
fn test_average() {
    let mut rp = Redpitaya::new("127.0.0.1:5000".to_string());

    rp.acquire.enable_average();
    assert_eq!(Some("ACQ:AVG ON\r\n".to_string()), rp.acquire.socket.pop_sent());

    rp.acquire.socket.queue_reply("ON\r\n".to_string());
    assert_eq!(rp.acquire.is_average_enabled(), true);
    assert_eq!(Some("ACQ:AVG?\r\n".to_string()), rp.acquire.socket.pop_sent());

    rp.acquire.disable_average();
    assert_eq!(Some("ACQ:AVG OFF\r\n".to_string()), rp.acquire.socket.pop_sent());
}

#[test]
fn test_gain() {
    let mut rp = Redpitaya::new("127.0.0.1:5000".to_string());

    rp.acquire.set_gain(Source::IN1, Gain::HV);
    assert_eq!(
        Some("ACQ:SOUR1:GAIN HV\r\n".to_string()),
        rp.acquire.socket.pop_sent()
    );

    rp.acquire.socket.queue_reply("HV\r\n".to_string());
    assert_eq!(rp.acquire.get_gain(Source::IN1), Ok(Gain::HV));
    assert_eq!(
        Some("ACQ:SOUR1:GAIN?\r\n".to_string()),
        rp.acquire.socket.pop_sent()
    );
}
