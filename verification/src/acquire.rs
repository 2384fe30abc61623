//! Acquisition control.

use vstd::prelude::*;
use crate::codec::{concat3, concat4, lemma_append_contains_right, lemma_no_qm4};
use crate::error::Error;
use crate::param::{decode, decoded, Parameter};
use crate::codec::str_eq;
use crate::socket::{directive_sent, query_sent, reply_of, Socket};

verus! {

/// Jumper gain setting of the fast analog inputs.
#[derive(Copy, Clone, Debug, PartialEq, Eq, Structural)]
pub enum Gain {
    LV,
    HV,
}

impl Parameter for Gain {
    open spec fn token_spec(self) -> Seq<char> {
        match self {
            Gain::LV => "LV"@,
            Gain::HV => "HV"@,
        }
    }

    open spec fn family_spec() -> Seq<char> {
        "gain"@
    }

    open spec fn variants_spec() -> Seq<Self> {
        seq![Gain::LV, Gain::HV]
    }

    proof fn lemma_variants_cover(self) {
        match self {
            Gain::LV => assert(Self::variants_spec()[0] == self),
            Gain::HV => assert(Self::variants_spec()[1] == self),
        }
    }

    proof fn lemma_tokens_injective(a: Self, b: Self) {
        reveal_strlit("HV");
        reveal_strlit("LV");
        assert(("LV"@)[0] != ("HV"@)[0]);
    }

    proof fn lemma_tokens_wire_safe(self) {
        reveal_strlit("HV");
        reveal_strlit("LV");
    }

    fn variants() -> (vs: Vec<Self>) {
        let mut vs: Vec<Self> = Vec::new();
        vs.push(Gain::LV);
        vs.push(Gain::HV);
        proof {
            assert(vs@ =~= Self::variants_spec());
        }
        vs
    }

    fn encode(self) -> (t: String) {
        match self {
            Gain::LV => "LV".to_owned(),
            Gain::HV => "HV".to_owned(),
        }
    }

    fn family() -> (f: String) {
        "gain".to_owned()
    }
}

/// A fast analog input channel.
#[derive(Copy, Clone, Debug, PartialEq, Eq, Structural)]
pub enum Source {
    IN1,
    IN2,
}

impl Parameter for Source {
    open spec fn token_spec(self) -> Seq<char> {
        match self {
            Source::IN1 => "SOUR1"@,
            Source::IN2 => "SOUR2"@,
        }
    }

    open spec fn family_spec() -> Seq<char> {
        "acquisition source"@
    }

    open spec fn variants_spec() -> Seq<Self> {
        seq![Source::IN1, Source::IN2]
    }

    proof fn lemma_variants_cover(self) {
        match self {
            Source::IN1 => assert(Self::variants_spec()[0] == self),
            Source::IN2 => assert(Self::variants_spec()[1] == self),
        }
    }

    proof fn lemma_tokens_injective(a: Self, b: Self) {
        reveal_strlit("SOUR1");
        reveal_strlit("SOUR2");
        assert(("SOUR1"@)[4] != ("SOUR2"@)[4]);
    }

    proof fn lemma_tokens_wire_safe(self) {
        reveal_strlit("SOUR1");
        reveal_strlit("SOUR2");
    }

    fn variants() -> (vs: Vec<Self>) {
        let mut vs: Vec<Self> = Vec::new();
        vs.push(Source::IN1);
        vs.push(Source::IN2);
        proof {
            assert(vs@ =~= Self::variants_spec());
        }
        vs
    }

    fn encode(self) -> (t: String) {
        match self {
            Source::IN1 => "SOUR1".to_owned(),
            Source::IN2 => "SOUR2".to_owned(),
        }
    }

    fn family() -> (f: String) {
        "acquisition source".to_owned()
    }
}

/// Decimation factor of the acquisition.
#[allow(non_camel_case_types)]
#[derive(Copy, Clone, Debug, PartialEq, Eq, Structural)]
pub enum Decimation {
    DEC_1,
    DEC_8,
    DEC_64,
    DEC_1024,
    DEC_8192,
    DEC_65536,
}

impl Parameter for Decimation {
    open spec fn token_spec(self) -> Seq<char> {
        match self {
            Decimation::DEC_1 => "1"@,
            Decimation::DEC_8 => "8"@,
            Decimation::DEC_64 => "64"@,
            Decimation::DEC_1024 => "1024"@,
            Decimation::DEC_8192 => "8192"@,
            Decimation::DEC_65536 => "65536"@,
        }
    }

    open spec fn family_spec() -> Seq<char> {
        "decimation"@
    }

    open spec fn variants_spec() -> Seq<Self> {
        seq![Decimation::DEC_1, Decimation::DEC_8, Decimation::DEC_64, Decimation::DEC_1024, Decimation::DEC_8192, Decimation::DEC_65536]
    }

    proof fn lemma_variants_cover(self) {
        match self {
            Decimation::DEC_1 => assert(Self::variants_spec()[0] == self),
            Decimation::DEC_8 => assert(Self::variants_spec()[1] == self),
            Decimation::DEC_64 => assert(Self::variants_spec()[2] == self),
            Decimation::DEC_1024 => assert(Self::variants_spec()[3] == self),
            Decimation::DEC_8192 => assert(Self::variants_spec()[4] == self),
            Decimation::DEC_65536 => assert(Self::variants_spec()[5] == self),
        }
    }

    proof fn lemma_tokens_injective(a: Self, b: Self) {
        reveal_strlit("1");
        reveal_strlit("1024");
        reveal_strlit("64");
        reveal_strlit("65536");
        reveal_strlit("8");
        reveal_strlit("8192");
        assert(("1"@)[0] != ("8"@)[0]);
        assert(("1"@).len() != ("64"@).len());
        assert(("1"@).len() != ("1024"@).len());
        assert(("1"@).len() != ("8192"@).len());
        assert(("1"@).len() != ("65536"@).len());
        assert(("8"@).len() != ("64"@).len());
        assert(("8"@).len() != ("1024"@).len());
        assert(("8"@).len() != ("8192"@).len());
        assert(("8"@).len() != ("65536"@).len());
        assert(("64"@).len() != ("1024"@).len());
        assert(("64"@).len() != ("8192"@).len());
        assert(("64"@).len() != ("65536"@).len());
        assert(("1024"@)[0] != ("8192"@)[0]);
        assert(("1024"@).len() != ("65536"@).len());
        assert(("8192"@).len() != ("65536"@).len());
    }

    proof fn lemma_tokens_wire_safe(self) {
        reveal_strlit("1");
        reveal_strlit("1024");
        reveal_strlit("64");
        reveal_strlit("65536");
        reveal_strlit("8");
        reveal_strlit("8192");
    }

    fn variants() -> (vs: Vec<Self>) {
        let mut vs: Vec<Self> = Vec::new();
        vs.push(Decimation::DEC_1);
        vs.push(Decimation::DEC_8);
        vs.push(Decimation::DEC_64);
        vs.push(Decimation::DEC_1024);
        vs.push(Decimation::DEC_8192);
        vs.push(Decimation::DEC_65536);
        proof {
            assert(vs@ =~= Self::variants_spec());
        }
        vs
    }

    fn encode(self) -> (t: String) {
        match self {
            Decimation::DEC_1 => "1".to_owned(),
            Decimation::DEC_8 => "8".to_owned(),
            Decimation::DEC_64 => "64".to_owned(),
            Decimation::DEC_1024 => "1024".to_owned(),
            Decimation::DEC_8192 => "8192".to_owned(),
            Decimation::DEC_65536 => "65536".to_owned(),
        }
    }

    fn family() -> (f: String) {
        "decimation".to_owned()
    }
}

/// Effective sampling rate after decimation.
#[allow(non_camel_case_types)]
#[derive(Copy, Clone, Debug, PartialEq, Eq, Structural)]
pub enum SamplingRate {
    RATE_125MHz,
    RATE_15_6MHz,
    RATE_1_9MHz,
    RATE_103_8kHz,
    RATE_15_2kHz,
    RATE_1_9kHz,
}

impl Parameter for SamplingRate {
    open spec fn token_spec(self) -> Seq<char> {
        match self {
            SamplingRate::RATE_125MHz => "125000000 Hz"@,
            SamplingRate::RATE_15_6MHz => "15600000 Hz"@,
            SamplingRate::RATE_1_9MHz => "1900000 Hz"@,
            SamplingRate::RATE_103_8kHz => "103800 Hz"@,
            SamplingRate::RATE_15_2kHz => "15200 Hz"@,
            SamplingRate::RATE_1_9kHz => "1900 Hz"@,
        }
    }

    open spec fn family_spec() -> Seq<char> {
        "sampling rate"@
    }

    open spec fn variants_spec() -> Seq<Self> {
        seq![SamplingRate::RATE_125MHz, SamplingRate::RATE_15_6MHz, SamplingRate::RATE_1_9MHz, SamplingRate::RATE_103_8kHz, SamplingRate::RATE_15_2kHz, SamplingRate::RATE_1_9kHz]
    }

    proof fn lemma_variants_cover(self) {
        match self {
            SamplingRate::RATE_125MHz => assert(Self::variants_spec()[0] == self),
            SamplingRate::RATE_15_6MHz => assert(Self::variants_spec()[1] == self),
            SamplingRate::RATE_1_9MHz => assert(Self::variants_spec()[2] == self),
            SamplingRate::RATE_103_8kHz => assert(Self::variants_spec()[3] == self),
            SamplingRate::RATE_15_2kHz => assert(Self::variants_spec()[4] == self),
            SamplingRate::RATE_1_9kHz => assert(Self::variants_spec()[5] == self),
        }
    }

    proof fn lemma_tokens_injective(a: Self, b: Self) {
        reveal_strlit("103800 Hz");
        reveal_strlit("125000000 Hz");
        reveal_strlit("15200 Hz");
        reveal_strlit("15600000 Hz");
        reveal_strlit("1900 Hz");
        reveal_strlit("1900000 Hz");
        assert(("125000000 Hz"@).len() != ("15600000 Hz"@).len());
        assert(("125000000 Hz"@).len() != ("1900000 Hz"@).len());
        assert(("125000000 Hz"@).len() != ("103800 Hz"@).len());
        assert(("125000000 Hz"@).len() != ("15200 Hz"@).len());
        assert(("125000000 Hz"@).len() != ("1900 Hz"@).len());
        assert(("15600000 Hz"@).len() != ("1900000 Hz"@).len());
        assert(("15600000 Hz"@).len() != ("103800 Hz"@).len());
        assert(("15600000 Hz"@).len() != ("15200 Hz"@).len());
        assert(("15600000 Hz"@).len() != ("1900 Hz"@).len());
        assert(("1900000 Hz"@).len() != ("103800 Hz"@).len());
        assert(("1900000 Hz"@).len() != ("15200 Hz"@).len());
        assert(("1900000 Hz"@).len() != ("1900 Hz"@).len());
        assert(("103800 Hz"@).len() != ("15200 Hz"@).len());
        assert(("103800 Hz"@).len() != ("1900 Hz"@).len());
        assert(("15200 Hz"@).len() != ("1900 Hz"@).len());
    }

    proof fn lemma_tokens_wire_safe(self) {
        reveal_strlit("103800 Hz");
        reveal_strlit("125000000 Hz");
        reveal_strlit("15200 Hz");
        reveal_strlit("15600000 Hz");
        reveal_strlit("1900 Hz");
        reveal_strlit("1900000 Hz");
    }

    fn variants() -> (vs: Vec<Self>) {
        let mut vs: Vec<Self> = Vec::new();
        vs.push(SamplingRate::RATE_125MHz);
        vs.push(SamplingRate::RATE_15_6MHz);
        vs.push(SamplingRate::RATE_1_9MHz);
        vs.push(SamplingRate::RATE_103_8kHz);
        vs.push(SamplingRate::RATE_15_2kHz);
        vs.push(SamplingRate::RATE_1_9kHz);
        proof {
            assert(vs@ =~= Self::variants_spec());
        }
        vs
    }

    fn encode(self) -> (t: String) {
        match self {
            SamplingRate::RATE_125MHz => "125000000 Hz".to_owned(),
            SamplingRate::RATE_15_6MHz => "15600000 Hz".to_owned(),
            SamplingRate::RATE_1_9MHz => "1900000 Hz".to_owned(),
            SamplingRate::RATE_103_8kHz => "103800 Hz".to_owned(),
            SamplingRate::RATE_15_2kHz => "15200 Hz".to_owned(),
            SamplingRate::RATE_1_9kHz => "1900 Hz".to_owned(),
        }
    }

    fn family() -> (f: String) {
        "sampling rate".to_owned()
    }
}

impl Gain {
    /// The display label of this gain setting.
    pub open spec fn label_spec(self) -> Seq<char> {
        match self {
            Gain::LV => "LV"@,
            Gain::HV => "HV"@,
        }
    }

    /// The display label of this gain setting.
    pub fn label(self) -> (r: String)
        ensures
            r@ == self.label_spec(),
    {
        match self {
            Gain::LV => "LV".to_owned(),
            Gain::HV => "HV".to_owned(),
        }
    }
}

impl Source {
    /// The display label of this input channel.
    pub open spec fn label_spec(self) -> Seq<char> {
        match self {
            Source::IN1 => "IN 1"@,
            Source::IN2 => "IN 2"@,
        }
    }

    /// The display label of this input channel.
    pub fn label(self) -> (r: String)
        ensures
            r@ == self.label_spec(),
    {
        match self {
            Source::IN1 => "IN 1".to_owned(),
            Source::IN2 => "IN 2".to_owned(),
        }
    }
}

impl SamplingRate {
    /// The display label of this sampling rate.
    pub open spec fn label_spec(self) -> Seq<char> {
        match self {
            SamplingRate::RATE_125MHz => "125 MHz"@,
            SamplingRate::RATE_15_6MHz => "15.6 MHz"@,
            SamplingRate::RATE_1_9MHz => "1.9 MHz"@,
            SamplingRate::RATE_103_8kHz => "103.8 kHz"@,
            SamplingRate::RATE_15_2kHz => "15.2 kHz"@,
            SamplingRate::RATE_1_9kHz => "1.9 kHz"@,
        }
    }

    /// The display label of this sampling rate.
    pub fn label(self) -> (r: String)
        ensures
            r@ == self.label_spec(),
    {
        match self {
            SamplingRate::RATE_125MHz => "125 MHz".to_owned(),
            SamplingRate::RATE_15_6MHz => "15.6 MHz".to_owned(),
            SamplingRate::RATE_1_9MHz => "1.9 MHz".to_owned(),
            SamplingRate::RATE_103_8kHz => "103.8 kHz".to_owned(),
            SamplingRate::RATE_15_2kHz => "15.2 kHz".to_owned(),
            SamplingRate::RATE_1_9kHz => "1.9 kHz".to_owned(),
        }
    }
}

impl Decimation {
    /// The sampling rate this decimation factor yields.
    pub open spec fn sampling_rate_spec(self) -> SamplingRate {
        match self {
            Decimation::DEC_1 => SamplingRate::RATE_125MHz,
            Decimation::DEC_8 => SamplingRate::RATE_15_6MHz,
            Decimation::DEC_64 => SamplingRate::RATE_1_9MHz,
            Decimation::DEC_1024 => SamplingRate::RATE_103_8kHz,
            Decimation::DEC_8192 => SamplingRate::RATE_15_2kHz,
            Decimation::DEC_65536 => SamplingRate::RATE_1_9kHz,
        }
    }

    /// The sampling rate this decimation factor yields.
    pub fn sampling_rate(self) -> (r: SamplingRate)
        ensures
            r == self.sampling_rate_spec(),
    {
        match self {
            Decimation::DEC_1 => SamplingRate::RATE_125MHz,
            Decimation::DEC_8 => SamplingRate::RATE_15_6MHz,
            Decimation::DEC_64 => SamplingRate::RATE_1_9MHz,
            Decimation::DEC_1024 => SamplingRate::RATE_103_8kHz,
            Decimation::DEC_8192 => SamplingRate::RATE_15_2kHz,
            Decimation::DEC_65536 => SamplingRate::RATE_1_9kHz,
        }
    }
}

/// Names the result of `core::time::Duration::new` on given seconds and
/// nanoseconds.
pub uninterp spec fn duration_from_parts(secs: u64, nanos: u32) -> core::time::Duration;

/// Relies on core::time::Duration::new: the result is a pure function of its
/// two arguments, and the call cannot overflow while the nanoseconds stay
/// below one second.
pub assume_specification [ core::time::Duration::new ](secs: u64, nanos: u32) -> (d:
    core::time::Duration)
    requires
        nanos < 1_000_000_000,
    ensures
        d == duration_from_parts(secs, nanos),
;

impl SamplingRate {
    /// The decimation factor this sampling rate corresponds to.
    pub open spec fn decimation_spec(self) -> Decimation {
        match self {
            SamplingRate::RATE_125MHz => Decimation::DEC_1,
            SamplingRate::RATE_15_6MHz => Decimation::DEC_8,
            SamplingRate::RATE_1_9MHz => Decimation::DEC_64,
            SamplingRate::RATE_103_8kHz => Decimation::DEC_1024,
            SamplingRate::RATE_15_2kHz => Decimation::DEC_8192,
            SamplingRate::RATE_1_9kHz => Decimation::DEC_65536,
        }
    }

    /// The decimation factor this sampling rate corresponds to.
    pub fn decimation(self) -> (r: Decimation)
        ensures
            r == self.decimation_spec(),
    {
        match self {
            SamplingRate::RATE_125MHz => Decimation::DEC_1,
            SamplingRate::RATE_15_6MHz => Decimation::DEC_8,
            SamplingRate::RATE_1_9MHz => Decimation::DEC_64,
            SamplingRate::RATE_103_8kHz => Decimation::DEC_1024,
            SamplingRate::RATE_15_2kHz => Decimation::DEC_8192,
            SamplingRate::RATE_1_9kHz => Decimation::DEC_65536,
        }
    }

    /// How long one full sample buffer spans at this rate, as whole seconds
    /// and nanoseconds.
    pub open spec fn buffer_duration_parts(self) -> (u64, u32) {
        match self {
            SamplingRate::RATE_125MHz => (0u64, 131_072u32),
            SamplingRate::RATE_15_6MHz => (0u64, 1_049_000u32),
            SamplingRate::RATE_1_9MHz => (0u64, 8_389_000u32),
            SamplingRate::RATE_103_8kHz => (0u64, 134_218_000u32),
            SamplingRate::RATE_15_2kHz => (1u64, 740_000_000u32),
            SamplingRate::RATE_1_9kHz => (8u64, 590_000_000u32),
        }
    }

    /// How long one full sample buffer spans at this rate.
    pub fn get_buffer_duration(self) -> (r: core::time::Duration)
        ensures
            r == duration_from_parts(
                self.buffer_duration_parts().0,
                self.buffer_duration_parts().1,
            ),
    {
        let (s, ns): (u64, u32) = match self {
            SamplingRate::RATE_125MHz => (0, 131_072),
            SamplingRate::RATE_15_6MHz => (0, 1_049_000),
            SamplingRate::RATE_1_9MHz => (0, 8_389_000),
            SamplingRate::RATE_103_8kHz => (0, 134_218_000),
            SamplingRate::RATE_15_2kHz => (1, 740_000_000),
            SamplingRate::RATE_1_9kHz => (8, 590_000_000),
        };
        core::time::Duration::new(s, ns)
    }
}

/// The acquisition subsystem.
#[derive(Clone)]
pub struct Acquire {
    pub socket: Socket,
}

impl Acquire {
    /// Creates the subsystem over its session.
    pub fn new(socket: Socket) -> (r: Self)
        ensures
            r.socket == socket,
    {
        Acquire { socket }
    }

    /// Starts acquisition.
    pub fn start(&mut self)
        ensures
            directive_sent(old(self).socket, final(self).socket, "ACQ:START"@),
    {
        proof {
            reveal_strlit("ACQ:START");
        }
        self.socket.send_directive("ACQ:START");
    }

    /// Stops acquisition.
    pub fn stop(&mut self)
        ensures
            directive_sent(old(self).socket, final(self).socket, "ACQ:STOP"@),
    {
        proof {
            reveal_strlit("ACQ:STOP");
        }
        self.socket.send_directive("ACQ:STOP");
    }

    /// Stops acquisition and sets all parameters to default values.
    pub fn reset(&mut self)
        ensures
            directive_sent(old(self).socket, final(self).socket, "ACQ:RST"@),
    {
        proof {
            reveal_strlit("ACQ:RST");
        }
        self.socket.send_directive("ACQ:RST");
    }

    /// Sets the decimation factor.
    pub fn set_decimation(&mut self, decimation: Decimation)
        ensures
            directive_sent(
                old(self).socket,
                final(self).socket,
                "ACQ:DEC "@ + decimation.token_spec(),
            ),
    {
        proof {
            reveal_strlit("ACQ:DEC ");
            decimation.lemma_tokens_wire_safe();
            crate::codec::lemma_append_no_char("ACQ:DEC "@, decimation.token_spec(), '?');
        }
        let token = decimation.encode();
        let cmd = crate::codec::concat2("ACQ:DEC ", token.as_str());
        self.socket.send_directive(cmd.as_str());
    }

    /// Gets the decimation factor.
    pub fn get_decimation(&mut self) -> (r: Result<Decimation, Error>)
        requires
            old(self).socket.has_reply(),
        ensures
            query_sent(old(self).socket, final(self).socket, "ACQ:DEC?"@),
            decoded::<Decimation>(r, reply_of(old(self).socket)),
    {
        proof {
            reveal_strlit("ACQ:DEC?");
            assert(("ACQ:DEC?"@)[7] == '?');
            assert(crate::codec::is_query_spec("ACQ:DEC?"@));
        }
        let line = self.socket.send_query("ACQ:DEC?");
        decode::<Decimation>(line.as_str())
    }

    /// Gets the sampling rate.
    pub fn get_sampling_rate(&mut self) -> (r: Result<SamplingRate, Error>)
        requires
            old(self).socket.has_reply(),
        ensures
            query_sent(old(self).socket, final(self).socket, "ACQ:SRAT?"@),
            decoded::<SamplingRate>(r, reply_of(old(self).socket)),
    {
        proof {
            reveal_strlit("ACQ:SRAT?");
            assert(("ACQ:SRAT?"@)[8] == '?');
            assert(crate::codec::is_query_spec("ACQ:SRAT?"@));
        }
        let line = self.socket.send_query("ACQ:SRAT?");
        decode::<SamplingRate>(line.as_str())
    }

    /// Enables averaging.
    pub fn enable_average(&mut self)
        ensures
            directive_sent(old(self).socket, final(self).socket, "ACQ:AVG ON"@),
    {
        proof {
            reveal_strlit("ACQ:AVG ON");
        }
        self.socket.send_directive("ACQ:AVG ON");
    }

    /// Disables averaging.
    pub fn disable_average(&mut self)
        ensures
            directive_sent(old(self).socket, final(self).socket, "ACQ:AVG OFF"@),
    {
        proof {
            reveal_strlit("ACQ:AVG OFF");
        }
        self.socket.send_directive("ACQ:AVG OFF");
    }

    /// Gets the averaging status.
    pub fn is_average_enabled(&mut self) -> (r: bool)
        requires
            old(self).socket.has_reply(),
        ensures
            query_sent(old(self).socket, final(self).socket, "ACQ:AVG?"@),
            r == (reply_of(old(self).socket) == "ON"@),
    {
        proof {
            reveal_strlit("ACQ:AVG?");
            assert(("ACQ:AVG?"@)[7] == '?');
            assert(crate::codec::is_query_spec("ACQ:AVG?"@));
        }
        let line = self.socket.send_query("ACQ:AVG?");
        str_eq(line.as_str(), "ON")
    }

    /// Sets the jumper gain of a fast analog input to high or low voltage.
    pub fn set_gain(&mut self, source: Source, gain: Gain)
        ensures
            directive_sent(
                old(self).socket,
                final(self).socket,
                "ACQ:"@ + source.token_spec() + ":GAIN "@ + gain.token_spec(),
            ),
    {
        proof {
            reveal_strlit("ACQ:");
            reveal_strlit(":GAIN ");
            source.lemma_tokens_wire_safe();
            gain.lemma_tokens_wire_safe();
            lemma_no_qm4("ACQ:"@, source.token_spec(), ":GAIN "@, gain.token_spec());
        }
        let src = source.encode();
        let g = gain.encode();
        let cmd = concat4("ACQ:", src.as_str(), ":GAIN ", g.as_str());
        self.socket.send_directive(cmd.as_str());
    }

    /// Gets the jumper gain of a fast analog input.
    pub fn get_gain(&mut self, source: Source) -> (r: Result<Gain, Error>)
        requires
            old(self).socket.has_reply(),
        ensures
            query_sent(
                old(self).socket,
                final(self).socket,
                "ACQ:"@ + source.token_spec() + ":GAIN?"@,
            ),
            decoded::<Gain>(r, reply_of(old(self).socket)),
    {
        proof {
            reveal_strlit("ACQ:");
            reveal_strlit(":GAIN?");
            assert((":GAIN?"@)[5] == '?');
            lemma_append_contains_right("ACQ:"@ + source.token_spec(), ":GAIN?"@, '?');
        }
        let src = source.encode();
        let cmd = concat3("ACQ:", src.as_str(), ":GAIN?");
        let line = self.socket.send_query(cmd.as_str());
        decode::<Gain>(line.as_str())
    }
}

} // verus!
