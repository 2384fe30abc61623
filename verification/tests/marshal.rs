use redpitaya_scpi::acquire;
use redpitaya_scpi::burst;
use redpitaya_scpi::codec::{frame, is_query, trim_reply};
use redpitaya_scpi::digital;
use redpitaya_scpi::error::Error;
use redpitaya_scpi::generator;
use redpitaya_scpi::list::{join_elements, split_list};
use redpitaya_scpi::param::{decode, Parameter};
use redpitaya_scpi::scalar::{
    i32_to_string, parse_i32, parse_u16, parse_u32, parse_u8, strip_unit, u32_to_string,
};
use redpitaya_scpi::socket::Socket;

fn round_trips<P: Parameter + std::fmt::Debug + PartialEq>() {
    for v in P::variants() {
        assert_eq!(decode::<P>(v.encode().as_str()), Ok(v));
    }
}

#[test]
fn test_round_trip_every_family() {
    round_trips::<acquire::Gain>();
    round_trips::<acquire::Source>();
    round_trips::<acquire::Decimation>();
    round_trips::<acquire::SamplingRate>();
    round_trips::<redpitaya_scpi::analog::OutputPin>();
    round_trips::<redpitaya_scpi::analog::InputPin>();
    round_trips::<burst::Source>();
    round_trips::<burst::Mode>();
    round_trips::<redpitaya_scpi::data::Unit>();
    round_trips::<redpitaya_scpi::data::Format>();
    round_trips::<digital::Gpio>();
    round_trips::<digital::Led>();
    round_trips::<digital::State>();
    round_trips::<digital::Direction>();
    round_trips::<generator::TriggerSource>();
    round_trips::<generator::Form>();
    round_trips::<generator::Source>();
    round_trips::<redpitaya_scpi::trigger::Source>();
    round_trips::<redpitaya_scpi::trigger::State>();
}

#[test]
fn test_decode_unknown_token() {
    assert_eq!(
        decode::<acquire::Gain>("SILLY"),
        Err(Error::UnknownToken { family: "gain".to_string(), token: "SILLY".to_string() })
    );
    assert_eq!(
        decode::<acquire::Decimation>("2"),
        Err(Error::UnknownToken { family: "decimation".to_string(), token: "2".to_string() })
    );
    assert_eq!(
        decode::<generator::Form>("sine"),
        Err(Error::UnknownToken { family: "signal form".to_string(), token: "sine".to_string() })
    );
    assert_eq!(
        decode::<redpitaya_scpi::trigger::State>(""),
        Err(Error::UnknownToken { family: "trigger state".to_string(), token: "".to_string() })
    );
    assert_eq!(
        decode::<digital::State>("LOW"),
        Err(Error::UnknownToken { family: "pin state".to_string(), token: "LOW".to_string() })
    );
}

#[test]
fn test_is_query() {
    assert_eq!(is_query("ACQ:DEC?"), true);
    assert_eq!(is_query("ACQ:DEC 8"), false);
    assert_eq!(is_query(""), false);
    assert_eq!(is_query("ACQ:SOUR1:DATA:STA:END? 10,12"), true);
}

#[test]
fn test_frame_and_trim() {
    assert_eq!(frame("ACQ:DEC 8"), "ACQ:DEC 8\r\n".to_string());
    assert_eq!(frame(""), "\r\n".to_string());
    assert_eq!(trim_reply("1\r\n"), "1".to_string());
    assert_eq!(trim_reply("1"), "1".to_string());
    assert_eq!(trim_reply("ON\r\n\r\n"), "ON".to_string());
    assert_eq!(trim_reply("\r\n"), "".to_string());
}

#[test]
fn test_parse_scalar_millivolts() {
    let bare = strip_unit("123mV", "mV");
    assert_eq!(bare, "123".to_string());
    assert_eq!(bare.parse::<f64>(), Ok(123.0));
}

#[test]
fn test_parse_scalar_nanoseconds() {
    let bare = strip_unit("128ns", "ns");
    assert_eq!(bare, "128".to_string());
    assert_eq!(parse_u8(bare.as_str()), Ok(128));
}

#[test]
fn test_strip_unit_edges() {
    assert_eq!(strip_unit("180", "mV"), "180".to_string());
    assert_eq!(strip_unit("125000000 Hz", " Hz"), "125000000".to_string());
    assert_eq!(strip_unit("ns", "ns"), "".to_string());
    assert_eq!(strip_unit("n", "ns"), "n".to_string());
}

#[test]
fn test_parse_list() {
    let raw = split_list("{1.2,3.2,-1.2}");
    assert_eq!(
        raw,
        vec!["1.2".to_string(), "3.2".to_string(), "-1.2".to_string()]
    );
    let values: Vec<f64> = raw.iter().map(|s| s.parse().unwrap()).collect();
    assert_eq!(values, vec![1.2, 3.2, -1.2]);
}

#[test]
fn test_parse_list_edges() {
    assert_eq!(split_list("1,0.5,0.2"), vec!["1", "0.5", "0.2"]);
    assert_eq!(split_list("{123,231,-231}"), vec!["123", "231", "-231"]);
    assert_eq!(split_list("{!42!}"), vec!["42"]);
    assert_eq!(split_list(""), vec![""]);
    assert_eq!(split_list("{1,,2}"), vec!["1", "", "2"]);
}

#[test]
fn test_join_elements() {
    assert_eq!(
        join_elements(&vec!["1".to_string(), "0.5".to_string()]),
        "1,0.5".to_string()
    );
    assert_eq!(join_elements(&vec!["7".to_string()]), "7".to_string());
    assert_eq!(join_elements(&Vec::new()), "".to_string());
}

#[test]
fn test_end_to_end() {
    let mut socket = Socket::new("127.0.0.1:5000".to_string());

    let reply = socket.send("ACQ:DEC 8");
    assert_eq!(reply, None);
    assert_eq!(Some("ACQ:DEC 8\r\n".to_string()), socket.pop_sent());

    socket.queue_reply("1\r\n".to_string());
    let reply = socket.send("ACQ:DEC?");
    assert_eq!(Some("ACQ:DEC?\r\n".to_string()), socket.pop_sent());
    assert_eq!(
        decode::<acquire::Decimation>(reply.unwrap().as_str()),
        Ok(acquire::Decimation::DEC_1)
    );
}

#[test]
fn test_directive_idempotent() {
    let mut socket = Socket::new("127.0.0.1:5000".to_string());
    socket.queue_reply("1\r\n".to_string());

    let first = socket.send("ACQ:DEC 8");
    let second = socket.send("ACQ:DEC 8");
    assert_eq!(first, None);
    assert_eq!(second, None);

    let line1 = socket.pop_sent().unwrap();
    let line2 = socket.pop_sent().unwrap();
    assert_eq!(line1, line2);
    assert_eq!(line1, "ACQ:DEC 8\r\n".to_string());
    assert_eq!(socket.pop_sent(), None);

    let reply = socket.send("ACQ:DEC?");
    assert_eq!(reply, Some("1".to_string()));
}

#[test]
fn test_parse_u32_values() {
    assert_eq!(parse_u32("0"), Ok(0));
    assert_eq!(parse_u32("007"), Ok(7));
    assert_eq!(parse_u32("16384"), Ok(16384));
    assert_eq!(parse_u32("4294967295"), Ok(4294967295));
}

#[test]
fn test_parse_u32_errors() {
    assert_eq!(
        parse_u32("4294967296"),
        Err(Error::MalformedNumber { token: "4294967296".to_string() })
    );
    assert_eq!(parse_u32(""), Err(Error::MalformedNumber { token: "".to_string() }));
    assert_eq!(
        parse_u32("12a"),
        Err(Error::MalformedNumber { token: "12a".to_string() })
    );
    assert_eq!(
        parse_u32("-1"),
        Err(Error::MalformedNumber { token: "-1".to_string() })
    );
    assert_eq!(
        parse_u32("1.5"),
        Err(Error::MalformedNumber { token: "1.5".to_string() })
    );
}

#[test]
fn test_parse_narrow_widths() {
    assert_eq!(parse_u16("2314"), Ok(2314));
    assert_eq!(
        parse_u16("65536"),
        Err(Error::MalformedNumber { token: "65536".to_string() })
    );
    assert_eq!(parse_u8("255"), Ok(255));
    assert_eq!(
        parse_u8("256"),
        Err(Error::MalformedNumber { token: "256".to_string() })
    );
}

#[test]
fn test_parse_i32_values() {
    assert_eq!(parse_i32("180"), Ok(180));
    assert_eq!(parse_i32("-180"), Ok(-180));
    assert_eq!(parse_i32("2147483647"), Ok(2147483647));
    assert_eq!(parse_i32("-2147483648"), Ok(-2147483648));
    assert_eq!(
        parse_i32("2147483648"),
        Err(Error::MalformedNumber { token: "2147483648".to_string() })
    );
    assert_eq!(
        parse_i32("-2147483649"),
        Err(Error::MalformedNumber { token: "-2147483649".to_string() })
    );
    assert_eq!(parse_i32("-"), Err(Error::MalformedNumber { token: "-".to_string() }));
}

#[test]
fn test_number_printing() {
    assert_eq!(u32_to_string(0), "0".to_string());
    assert_eq!(u32_to_string(1_000_000), "1000000".to_string());
    assert_eq!(u32_to_string(4294967295), "4294967295".to_string());
    assert_eq!(i32_to_string(180), "180".to_string());
    assert_eq!(i32_to_string(-180), "-180".to_string());
    assert_eq!(i32_to_string(-2147483648), "-2147483648".to_string());
}

#[test]
fn test_labels() {
    assert_eq!(acquire::Gain::LV.label(), "LV".to_string());
    assert_eq!(acquire::Source::IN1.label(), "IN 1".to_string());
    assert_eq!(acquire::SamplingRate::RATE_15_6MHz.label(), "15.6 MHz".to_string());
    assert_eq!(generator::Form::SINE.label(), "Sine".to_string());
    assert_eq!(generator::Form::ARBITRARY.label(), "Arbitrary".to_string());
    assert_eq!(generator::Source::OUT2.label(), "OUT 2".to_string());
}

#[test]
fn test_default_client() {
    let mut rp = redpitaya_scpi::Redpitaya::default();
    assert_eq!(rp.acquire.socket.addr(), "127.0.0.1:5000");
    assert_eq!(rp.acquire.socket.pop_sent(), None);
}
