use redpitaya_scpi::generator::{Form, Source, TriggerSource};
use redpitaya_scpi::Redpitaya;

#[test]
fn generator_test_status() {
    let mut rp = Redpitaya::new("127.0.0.1:5000".to_string());

    rp.generator.start(Source::OUT2);
    assert_eq!(
        Some("OUTPUT2:STATE ON\r\n".to_string()),
        rp.generator.socket.pop_sent()
    );

    rp.generator.socket.queue_reply("ON\r\n".to_string());
    assert_eq!(rp.generator.is_started(Source::OUT2), true);
    assert_eq!(
        Some("OUTPUT2:STATE?\r\n".to_string()),
        rp.generator.socket.pop_sent()
    );

    rp.generator.stop(Source::OUT2);
    assert_eq!(
        Some("OUTPUT2:STATE OFF\r\n".to_string()),
        rp.generator.socket.pop_sent()
    );
}

#[test]
fn test_frequency() {
    let mut rp = Redpitaya::new("127.0.0.1:5000".to_string());

    rp.generator.set_frequency(Source::OUT1, 1_000);
    assert_eq!(
        Some("SOUR1:FREQ:FIX 1000\r\n".to_string()),
        rp.generator.socket.pop_sent()
    );

    rp.generator.socket.queue_reply("1000\r\n".to_string());
    let reply = rp.generator.frequency(Source::OUT1);
    assert_eq!(reply.parse::<f32>().map(|v| v as u32), Ok(1_000));

    rp.generator.socket.queue_reply("1000\r\n".to_string());
    let reply = rp.generator.frequency(Source::OUT1);
    assert_eq!(reply.parse::<f32>().map(|v| v as u32), Ok(1_000));
}

#[test]
fn test_frequency_scientific_notation() {
    let mut rp = Redpitaya::new("127.0.0.1:5000".to_string());

    rp.generator.socket.queue_reply("8.82604e+06\r\n".to_string());
    let reply = rp.generator.frequency(Source::OUT2);
    assert_eq!(
        Some("SOUR2:FREQ:FIX?\r\n".to_string()),
        rp.generator.socket.pop_sent()
    );
    assert_eq!(reply, "8.82604e+06".to_string());
    assert_eq!(reply.parse::<f32>().map(|v| v as u32), Ok(8_826_040));
}

#[test]
fn test_source_index() {
    assert_eq!(Source::OUT1.index(), 0);
    assert_eq!(Source::OUT2.index(), 1);
}

#[test]
fn test_form() {
    let mut rp = Redpitaya::new("127.0.0.1:5000".to_string());

    rp.generator.set_form(Source::OUT1, Form::SINE);
    assert_eq!(
        Some("SOUR1:FUNC SINE\r\n".to_string()),
        rp.generator.socket.pop_sent()
    );

    rp.generator.socket.queue_reply("SINE\r\n".to_string());
    assert_eq!(rp.generator.form(Source::OUT1), Ok(Form::SINE));
}

#[test]
fn test_amplitude() {
    let mut rp = Redpitaya::new("127.0.0.1:5000".to_string());

    rp.generator.start(Source::OUT1);
    assert_eq!(
        Some("OUTPUT1:STATE ON\r\n".to_string()),
        rp.generator.socket.pop_sent()
    );

    rp.generator.set_amplitude(Source::OUT1, "-0.5");
    assert_eq!(
        Some("SOUR1:VOLT -0.5\r\n".to_string()),
        rp.generator.socket.pop_sent()
    );

    rp.generator.socket.queue_reply("-0.5\r\n".to_string());
    assert_eq!(rp.generator.amplitude(Source::OUT1).parse::<f32>(), Ok(-0.5));
}

#[test]
fn test_offset() {
    let mut rp = Redpitaya::new("127.0.0.1:5000".to_string());

    rp.generator.set_offset(Source::OUT1, "0.3");
    assert_eq!(
        Some("SOUR1:VOLT:OFFS 0.3\r\n".to_string()),
        rp.generator.socket.pop_sent()
    );

    rp.generator.socket.queue_reply("0.3\r\n".to_string());
    assert_eq!(rp.generator.offset(Source::OUT1).parse::<f32>(), Ok(0.3));
}

#[test]
fn test_phase() {
    let mut rp = Redpitaya::new("127.0.0.1:5000".to_string());

    rp.generator.set_phase(Source::OUT1, 180);
    assert_eq!(
        Some("SOUR1:PHAS 180\r\n".to_string()),
        rp.generator.socket.pop_sent()
    );

    rp.generator.socket.queue_reply("180\r\n".to_string());
    assert_eq!(rp.generator.phase(Source::OUT1), Ok(180));
}

#[test]
fn test_duty_cycle() {
    let mut rp = Redpitaya::new("127.0.0.1:5000".to_string());

    rp.generator.set_duty_cycle(Source::OUT1, "1");
    assert_eq!(
        Some("SOUR1:DCYC 1\r\n".to_string()),
        rp.generator.socket.pop_sent()
    );

    rp.generator.socket.queue_reply("1.0\r\n".to_string());
    assert_eq!(rp.generator.duty_cycle(Source::OUT1).parse::<f32>(), Ok(1.0));
}

#[test]
fn test_arbitrary_waveform() {
    let mut rp = Redpitaya::new("127.0.0.1:5000".to_string());

    let data = vec!["1".to_string(), "0.5".to_string(), "0.2".to_string()];
    rp.generator.set_arbitrary_waveform(Source::OUT1, &data);
    assert_eq!(
        Some("SOUR1:TRAC:DATA:DATA 1,0.5,0.2\r\n".to_string()),
        rp.generator.socket.pop_sent()
    );

    rp.generator.socket.queue_reply("1,0.5,0.2\r\n".to_string());
    let raw = rp.generator.arbitrary_waveform(Source::OUT1);
    assert_eq!(
        Some("SOUR1:TRAC:DATA:DATA?\r\n".to_string()),
        rp.generator.socket.pop_sent()
    );
    let vec: Vec<f32> = raw.iter().map(|s| s.parse().unwrap()).collect();
    assert_eq!(vec, vec![1.0, 0.5, 0.2]);
}

#[test]
fn test_trigger_source() {
    let mut rp = Redpitaya::new("127.0.0.1:5000".to_string());

    rp.generator
        .set_trigger_source(Source::OUT1, TriggerSource::BURST);
    assert_eq!(
        Some("SOUR1:TRIG:SOUR BURST\r\n".to_string()),
        rp.generator.socket.pop_sent()
    );

    rp.generator.socket.queue_reply("BURST\r\n".to_string());
    assert_eq!(
        rp.generator.trigger_source(Source::OUT1),
        Ok(TriggerSource::BURST)
    );
    assert_eq!(
        Some("SOUR1:TRIG:SOUR?\r\n".to_string()),
        rp.generator.socket.pop_sent()
    );

    rp.generator
        .set_trigger_source(Source::OUT1, TriggerSource::INT);
    assert_eq!(
        Some("SOUR1:TRIG:SOUR INT\r\n".to_string()),
        rp.generator.socket.pop_sent()
    );
}

#[test]
fn test_trigger() {
    let mut rp = Redpitaya::new("127.0.0.1:5000".to_string());

    rp.generator.trigger(Source::OUT1);
    assert_eq!(
        Some("SOUR1:TRIG:IMM\r\n".to_string()),
        rp.generator.socket.pop_sent()
    );
}

#[test]
fn generator_test_reset() {
    let mut rp = Redpitaya::new("127.0.0.1:5000".to_string());

    rp.generator.reset();
    assert_eq!(Some("GEN:RST\r\n".to_string()), rp.generator.socket.pop_sent());
}
