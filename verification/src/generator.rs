//! Fast analog output (signal generator) control.

use vstd::prelude::*;
use crate::codec::{
    concat2, concat3, lemma_append_contains_right, lemma_append_no_char, lemma_no_qm3, str_eq,
};
use crate::error::Error;
use crate::list::{
    join_commas, join_elements, lemma_join_no_char, split_commas, split_list,
    strip_decorations_spec,
};
use crate::param::{decode, decoded, Parameter};
use crate::scalar::{
    dec_string, lemma_dec_string_digits, lemma_digits_no_query, lemma_signed_dec_string_no_query,
    parse_i32, i32_decoded, i32_to_string, signed_dec_string, u32_to_string,
};
use crate::socket::{directive_sent, query_sent, reply_of, Socket};

verus! {

/// What triggers a fast analog output.
#[allow(non_camel_case_types)]
#[derive(Copy, Clone, Debug, PartialEq, Eq, Structural)]
pub enum TriggerSource {
    EXT_PE,
    EXT_NE,
    INT,
    BURST,
}

impl Parameter for TriggerSource {
    open spec fn token_spec(self) -> Seq<char> {
        match self {
            TriggerSource::EXT_PE => "EXT_PE"@,
            TriggerSource::EXT_NE => "EXT_NE"@,
            TriggerSource::INT => "INT"@,
            TriggerSource::BURST => "BURST"@,
        }
    }

    open spec fn family_spec() -> Seq<char> {
        "generator trigger source"@
    }

    open spec fn variants_spec() -> Seq<Self> {
        seq![TriggerSource::EXT_PE, TriggerSource::EXT_NE, TriggerSource::INT, TriggerSource::BURST]
    }

    proof fn lemma_variants_cover(self) {
        match self {
            TriggerSource::EXT_PE => assert(Self::variants_spec()[0] == self),
            TriggerSource::EXT_NE => assert(Self::variants_spec()[1] == self),
            TriggerSource::INT => assert(Self::variants_spec()[2] == self),
            TriggerSource::BURST => assert(Self::variants_spec()[3] == self),
        }
    }

    proof fn lemma_tokens_injective(a: Self, b: Self) {
        reveal_strlit("BURST");
        reveal_strlit("EXT_NE");
        reveal_strlit("EXT_PE");
        reveal_strlit("INT");
        assert(("EXT_PE"@)[4] != ("EXT_NE"@)[4]);
        assert(("EXT_PE"@).len() != ("INT"@).len());
        assert(("EXT_PE"@).len() != ("BURST"@).len());
        assert(("EXT_NE"@).len() != ("INT"@).len());
        assert(("EXT_NE"@).len() != ("BURST"@).len());
        assert(("INT"@).len() != ("BURST"@).len());
    }

    proof fn lemma_tokens_wire_safe(self) {
        reveal_strlit("BURST");
        reveal_strlit("EXT_NE");
        reveal_strlit("EXT_PE");
        reveal_strlit("INT");
    }

    fn variants() -> (vs: Vec<Self>) {
        let mut vs: Vec<Self> = Vec::new();
        vs.push(TriggerSource::EXT_PE);
        vs.push(TriggerSource::EXT_NE);
        vs.push(TriggerSource::INT);
        vs.push(TriggerSource::BURST);
        proof {
            assert(vs@ =~= Self::variants_spec());
        }
        vs
    }

    fn encode(self) -> (t: String) {
        match self {
            TriggerSource::EXT_PE => "EXT_PE".to_owned(),
            TriggerSource::EXT_NE => "EXT_NE".to_owned(),
            TriggerSource::INT => "INT".to_owned(),
            TriggerSource::BURST => "BURST".to_owned(),
        }
    }

    fn family() -> (f: String) {
        "generator trigger source".to_owned()
    }
}

/// Waveform shape of a fast analog output.
#[derive(Copy, Clone, Debug, PartialEq, Eq, Structural)]
pub enum Form {
    SINE,
    SQUARE,
    TRIANGLE,
    SAWU,
    SAWD,
    DC,
    PWM,
    ARBITRARY,
}

impl Parameter for Form {
    open spec fn token_spec(self) -> Seq<char> {
        match self {
            Form::SINE => "SINE"@,
            Form::SQUARE => "SQUARE"@,
            Form::TRIANGLE => "TRIANGLE"@,
            Form::SAWU => "SAWU"@,
            Form::SAWD => "SAWD"@,
            Form::DC => "DC"@,
            Form::PWM => "PWM"@,
            Form::ARBITRARY => "ARBITRARY"@,
        }
    }

    open spec fn family_spec() -> Seq<char> {
        "signal form"@
    }

    open spec fn variants_spec() -> Seq<Self> {
        seq![Form::SINE, Form::SQUARE, Form::TRIANGLE, Form::SAWU, Form::SAWD, Form::DC, Form::PWM, Form::ARBITRARY]
    }

    proof fn lemma_variants_cover(self) {
        match self {
            Form::SINE => assert(Self::variants_spec()[0] == self),
            Form::SQUARE => assert(Self::variants_spec()[1] == self),
            Form::TRIANGLE => assert(Self::variants_spec()[2] == self),
            Form::SAWU => assert(Self::variants_spec()[3] == self),
            Form::SAWD => assert(Self::variants_spec()[4] == self),
            Form::DC => assert(Self::variants_spec()[5] == self),
            Form::PWM => assert(Self::variants_spec()[6] == self),
            Form::ARBITRARY => assert(Self::variants_spec()[7] == self),
        }
    }

    proof fn lemma_tokens_injective(a: Self, b: Self) {
        reveal_strlit("ARBITRARY");
        reveal_strlit("DC");
        reveal_strlit("PWM");
        reveal_strlit("SAWD");
        reveal_strlit("SAWU");
        reveal_strlit("SINE");
        reveal_strlit("SQUARE");
        reveal_strlit("TRIANGLE");
        assert(("SINE"@).len() != ("SQUARE"@).len());
        assert(("SINE"@).len() != ("TRIANGLE"@).len());
        assert(("SINE"@)[1] != ("SAWU"@)[1]);
        assert(("SINE"@)[1] != ("SAWD"@)[1]);
        assert(("SINE"@).len() != ("DC"@).len());
        assert(("SINE"@).len() != ("PWM"@).len());
        assert(("SINE"@).len() != ("ARBITRARY"@).len());
        assert(("SQUARE"@).len() != ("TRIANGLE"@).len());
        assert(("SQUARE"@).len() != ("SAWU"@).len());
        assert(("SQUARE"@).len() != ("SAWD"@).len());
        assert(("SQUARE"@).len() != ("DC"@).len());
        assert(("SQUARE"@).len() != ("PWM"@).len());
        assert(("SQUARE"@).len() != ("ARBITRARY"@).len());
        assert(("TRIANGLE"@).len() != ("SAWU"@).len());
        assert(("TRIANGLE"@).len() != ("SAWD"@).len());
        assert(("TRIANGLE"@).len() != ("DC"@).len());
        assert(("TRIANGLE"@).len() != ("PWM"@).len());
        assert(("TRIANGLE"@).len() != ("ARBITRARY"@).len());
        assert(("SAWU"@)[3] != ("SAWD"@)[3]);
        assert(("SAWU"@).len() != ("DC"@).len());
        assert(("SAWU"@).len() != ("PWM"@).len());
        assert(("SAWU"@).len() != ("ARBITRARY"@).len());
        assert(("SAWD"@).len() != ("DC"@).len());
        assert(("SAWD"@).len() != ("PWM"@).len());
        assert(("SAWD"@).len() != ("ARBITRARY"@).len());
        assert(("DC"@).len() != ("PWM"@).len());
        assert(("DC"@).len() != ("ARBITRARY"@).len());
        assert(("PWM"@).len() != ("ARBITRARY"@).len());
    }

    proof fn lemma_tokens_wire_safe(self) {
        reveal_strlit("ARBITRARY");
        reveal_strlit("DC");
        reveal_strlit("PWM");
        reveal_strlit("SAWD");
        reveal_strlit("SAWU");
        reveal_strlit("SINE");
        reveal_strlit("SQUARE");
        reveal_strlit("TRIANGLE");
    }

    fn variants() -> (vs: Vec<Self>) {
        let mut vs: Vec<Self> = Vec::new();
        vs.push(Form::SINE);
        vs.push(Form::SQUARE);
        vs.push(Form::TRIANGLE);
        vs.push(Form::SAWU);
        vs.push(Form::SAWD);
        vs.push(Form::DC);
        vs.push(Form::PWM);
        vs.push(Form::ARBITRARY);
        proof {
            assert(vs@ =~= Self::variants_spec());
        }
        vs
    }

    fn encode(self) -> (t: String) {
        match self {
            Form::SINE => "SINE".to_owned(),
            Form::SQUARE => "SQUARE".to_owned(),
            Form::TRIANGLE => "TRIANGLE".to_owned(),
            Form::SAWU => "SAWU".to_owned(),
            Form::SAWD => "SAWD".to_owned(),
            Form::DC => "DC".to_owned(),
            Form::PWM => "PWM".to_owned(),
            Form::ARBITRARY => "ARBITRARY".to_owned(),
        }
    }

    fn family() -> (f: String) {
        "signal form".to_owned()
    }
}

/// A fast analog output channel.
#[derive(Copy, Clone, Debug, PartialEq, Eq, Structural)]
pub enum Source {
    OUT1,
    OUT2,
}

impl Parameter for Source {
    open spec fn token_spec(self) -> Seq<char> {
        match self {
            Source::OUT1 => "SOUR1"@,
            Source::OUT2 => "SOUR2"@,
        }
    }

    open spec fn family_spec() -> Seq<char> {
        "generator source"@
    }

    open spec fn variants_spec() -> Seq<Self> {
        seq![Source::OUT1, Source::OUT2]
    }

    proof fn lemma_variants_cover(self) {
        match self {
            Source::OUT1 => assert(Self::variants_spec()[0] == self),
            Source::OUT2 => assert(Self::variants_spec()[1] == self),
        }
    }

    proof fn lemma_tokens_injective(a: Self, b: Self) {
        reveal_strlit("SOUR1");
        reveal_strlit("SOUR2");
        assert(("SOUR1"@)[4] != ("SOUR2"@)[4]);
    }

    proof fn lemma_tokens_wire_safe(self) {
        reveal_strlit("SOUR1");
        reveal_strlit("SOUR2");
    }

    fn variants() -> (vs: Vec<Self>) {
        let mut vs: Vec<Self> = Vec::new();
        vs.push(Source::OUT1);
        vs.push(Source::OUT2);
        proof {
            assert(vs@ =~= Self::variants_spec());
        }
        vs
    }

    fn encode(self) -> (t: String) {
        match self {
            Source::OUT1 => "SOUR1".to_owned(),
            Source::OUT2 => "SOUR2".to_owned(),
        }
    }

    fn family() -> (f: String) {
        "generator source".to_owned()
    }
}

impl Form {
    /// The display label of this waveform.
    pub open spec fn label_spec(self) -> Seq<char> {
        match self {
            Form::SINE => "Sine"@,
            Form::SQUARE => "Square"@,
            Form::TRIANGLE => "Triangle"@,
            Form::SAWU => "SAWU"@,
            Form::SAWD => "SAWD"@,
            Form::DC => "DC"@,
            Form::PWM => "PWM"@,
            Form::ARBITRARY => "Arbitrary"@,
        }
    }

    /// The display label of this waveform.
    pub fn label(self) -> (r: String)
        ensures
            r@ == self.label_spec(),
    {
        match self {
            Form::SINE => "Sine".to_owned(),
            Form::SQUARE => "Square".to_owned(),
            Form::TRIANGLE => "Triangle".to_owned(),
            Form::SAWU => "SAWU".to_owned(),
            Form::SAWD => "SAWD".to_owned(),
            Form::DC => "DC".to_owned(),
            Form::PWM => "PWM".to_owned(),
            Form::ARBITRARY => "Arbitrary".to_owned(),
        }
    }
}

impl Source {
    /// The display label of this output channel.
    pub open spec fn label_spec(self) -> Seq<char> {
        match self {
            Source::OUT1 => "OUT 1"@,
            Source::OUT2 => "OUT 2"@,
        }
    }

    /// The display label of this output channel.
    pub fn label(self) -> (r: String)
        ensures
            r@ == self.label_spec(),
    {
        match self {
            Source::OUT1 => "OUT 1".to_owned(),
            Source::OUT2 => "OUT 2".to_owned(),
        }
    }

    /// The zero-based index of this output channel, for indexing per-channel
    /// state.
    pub open spec fn index_spec(self) -> usize {
        match self {
            Source::OUT1 => 0usize,
            Source::OUT2 => 1usize,
        }
    }

    /// The zero-based index of this output channel.
    pub fn index(self) -> (r: usize)
        ensures
            r == self.index_spec(),
    {
        match self {
            Source::OUT1 => 0,
            Source::OUT2 => 1,
        }
    }
}

/// The label of a fast analog output in state commands.
pub open spec fn output_spec(source: Source) -> Seq<char> {
    match source {
        Source::OUT1 => "OUTPUT1"@,
        Source::OUT2 => "OUTPUT2"@,
    }
}

fn output_str(source: Source) -> (r: &'static str)
    ensures
        r@ == output_spec(source),
{
    match source {
        Source::OUT1 => "OUTPUT1",
        Source::OUT2 => "OUTPUT2",
    }
}

/// The signal generator subsystem.
#[derive(Clone)]
pub struct Generator {
    pub socket: Socket,
}

impl Generator {
    /// Creates the subsystem over its session.
    pub fn new(socket: Socket) -> (r: Self)
        ensures
            r.socket == socket,
    {
        Generator { socket }
    }

    /// Enables a fast analog output.
    pub fn start(&mut self, source: Source)
        ensures
            directive_sent(
                old(self).socket,
                final(self).socket,
                output_spec(source) + ":STATE "@ + "ON"@,
            ),
    {
        proof {
            reveal_strlit("ON");
        }
        self.set_state(source, "ON");
    }

    /// Disables a fast analog output.
    pub fn stop(&mut self, source: Source)
        ensures
            directive_sent(
                old(self).socket,
                final(self).socket,
                output_spec(source) + ":STATE "@ + "OFF"@,
            ),
    {
        proof {
            reveal_strlit("OFF");
        }
        self.set_state(source, "OFF");
    }

    fn set_state(&mut self, source: Source, state: &str)
        requires
            !state@.contains('?'),
        ensures
            directive_sent(
                old(self).socket,
                final(self).socket,
                output_spec(source) + ":STATE "@ + state@,
            ),
    {
        proof {
            reveal_strlit("OUTPUT1");
            reveal_strlit("OUTPUT2");
            reveal_strlit(":STATE ");
            lemma_no_qm3(output_spec(source), ":STATE "@, state@);
        }
        let out = output_str(source);
        let cmd = concat3(out, ":STATE ", state);
        self.socket.send_directive(cmd.as_str());
    }

    /// Whether a fast analog output is enabled.
    pub fn is_started(&mut self, source: Source) -> (r: bool)
        requires
            old(self).socket.has_reply(),
        ensures
            query_sent(old(self).socket, final(self).socket, output_spec(source) + ":STATE?"@),
            r == (reply_of(old(self).socket) == "ON"@),
    {
        proof {
            reveal_strlit(":STATE?");
            assert((":STATE?"@)[6] == '?');
            lemma_append_contains_right(output_spec(source), ":STATE?"@, '?');
        }
        let out = output_str(source);
        let cmd = concat2(out, ":STATE?");
        let line = self.socket.send_query(cmd.as_str());
        str_eq(line.as_str(), "ON")
    }

    /// Sets the frequency of a fast analog output.
    pub fn set_frequency(&mut self, source: Source, frequency: u32)
        ensures
            directive_sent(
                old(self).socket,
                final(self).socket,
                source.token_spec() + ":FREQ:FIX "@ + dec_string(frequency as nat),
            ),
    {
        proof {
            reveal_strlit(":FREQ:FIX ");
            source.lemma_tokens_wire_safe();
            lemma_dec_string_digits(frequency as nat);
            lemma_digits_no_query(dec_string(frequency as nat));
            lemma_no_qm3(source.token_spec(), ":FREQ:FIX "@, dec_string(frequency as nat));
        }
        let src = source.encode();
        let num = u32_to_string(frequency);
        let cmd = concat3(src.as_str(), ":FREQ:FIX ", num.as_str());
        self.socket.send_directive(cmd.as_str());
    }

    /// Gets the frequency of a fast analog output, as the decimal text the
    /// instrument replied; the instrument may answer in scientific notation
    /// (`"8.82604e+06"`), so the caller parses the text as a float and
    /// truncates to whole hertz.
    pub fn frequency(&mut self, source: Source) -> (r: String)
        requires
            old(self).socket.has_reply(),
        ensures
            query_sent(old(self).socket, final(self).socket, source.token_spec() + ":FREQ:FIX?"@),
            r@ == reply_of(old(self).socket),
    {
        proof {
            reveal_strlit(":FREQ:FIX?");
            assert((":FREQ:FIX?"@)[9] == '?');
            lemma_append_contains_right(source.token_spec(), ":FREQ:FIX?"@, '?');
        }
        let src = source.encode();
        let cmd = concat2(src.as_str(), ":FREQ:FIX?");
        self.socket.send_query(cmd.as_str())
    }

    /// Sets the waveform of a fast analog output.
    pub fn set_form(&mut self, source: Source, form: Form)
        ensures
            directive_sent(
                old(self).socket,
                final(self).socket,
                source.token_spec() + ":FUNC "@ + form.token_spec(),
            ),
    {
        proof {
            reveal_strlit(":FUNC ");
            source.lemma_tokens_wire_safe();
            form.lemma_tokens_wire_safe();
            lemma_no_qm3(source.token_spec(), ":FUNC "@, form.token_spec());
        }
        let src = source.encode();
        let tok = form.encode();
        let cmd = concat3(src.as_str(), ":FUNC ", tok.as_str());
        self.socket.send_directive(cmd.as_str());
    }

    /// Gets the waveform of a fast analog output.
    pub fn form(&mut self, source: Source) -> (r: Result<Form, Error>)
        requires
            old(self).socket.has_reply(),
        ensures
            query_sent(old(self).socket, final(self).socket, source.token_spec() + ":FUNC?"@),
            decoded::<Form>(r, reply_of(old(self).socket)),
    {
        proof {
            reveal_strlit(":FUNC?");
            assert((":FUNC?"@)[5] == '?');
            lemma_append_contains_right(source.token_spec(), ":FUNC?"@, '?');
        }
        let src = source.encode();
        let cmd = concat2(src.as_str(), ":FUNC?");
        let line = self.socket.send_query(cmd.as_str());
        decode::<Form>(line.as_str())
    }

    /// Sets the amplitude of a fast analog output, in volts rendered as decimal text; amplitude plus offset must stay within one volt.
    pub fn set_amplitude(&mut self, source: Source, amplitude: &str)
        requires
            !amplitude@.contains('?'),
        ensures
            directive_sent(
                old(self).socket,
                final(self).socket,
                source.token_spec() + ":VOLT "@ + amplitude@,
            ),
    {
        proof {
            reveal_strlit(":VOLT ");
            source.lemma_tokens_wire_safe();
            lemma_no_qm3(source.token_spec(), ":VOLT "@, amplitude@);
        }
        let src = source.encode();
        let cmd = concat3(src.as_str(), ":VOLT ", amplitude);
        self.socket.send_directive(cmd.as_str());
    }

    /// Gets the amplitude of a fast analog output, as the decimal text the instrument replied.
    pub fn amplitude(&mut self, source: Source) -> (r: String)
        requires
            old(self).socket.has_reply(),
        ensures
            query_sent(old(self).socket, final(self).socket, source.token_spec() + ":VOLT?"@),
            r@ == reply_of(old(self).socket),
    {
        proof {
            reveal_strlit(":VOLT?");
            assert((":VOLT?"@)[5] == '?');
            lemma_append_contains_right(source.token_spec(), ":VOLT?"@, '?');
        }
        let src = source.encode();
        let cmd = concat2(src.as_str(), ":VOLT?");
        self.socket.send_query(cmd.as_str())
    }

    /// Sets the offset of a fast analog output, in volts rendered as decimal text; amplitude plus offset must stay within one volt.
    pub fn set_offset(&mut self, source: Source, offset: &str)
        requires
            !offset@.contains('?'),
        ensures
            directive_sent(
                old(self).socket,
                final(self).socket,
                source.token_spec() + ":VOLT:OFFS "@ + offset@,
            ),
    {
        proof {
            reveal_strlit(":VOLT:OFFS ");
            source.lemma_tokens_wire_safe();
            lemma_no_qm3(source.token_spec(), ":VOLT:OFFS "@, offset@);
        }
        let src = source.encode();
        let cmd = concat3(src.as_str(), ":VOLT:OFFS ", offset);
        self.socket.send_directive(cmd.as_str());
    }

    /// Gets the offset of a fast analog output, as the decimal text the instrument replied.
    pub fn offset(&mut self, source: Source) -> (r: String)
        requires
            old(self).socket.has_reply(),
        ensures
            query_sent(old(self).socket, final(self).socket, source.token_spec() + ":VOLT:OFFS?"@),
            r@ == reply_of(old(self).socket),
    {
        proof {
            reveal_strlit(":VOLT:OFFS?");
            assert((":VOLT:OFFS?"@)[10] == '?');
            lemma_append_contains_right(source.token_spec(), ":VOLT:OFFS?"@, '?');
        }
        let src = source.encode();
        let cmd = concat2(src.as_str(), ":VOLT:OFFS?");
        self.socket.send_query(cmd.as_str())
    }

    /// Sets the phase of a fast analog output, in degrees.
    pub fn set_phase(&mut self, source: Source, phase: i32)
        ensures
            directive_sent(
                old(self).socket,
                final(self).socket,
                source.token_spec() + ":PHAS "@ + signed_dec_string(phase as int),
            ),
    {
        proof {
            reveal_strlit(":PHAS ");
            source.lemma_tokens_wire_safe();
            lemma_signed_dec_string_no_query(phase as int);
            lemma_no_qm3(source.token_spec(), ":PHAS "@, signed_dec_string(phase as int));
        }
        let src = source.encode();
        let num = i32_to_string(phase);
        let cmd = concat3(src.as_str(), ":PHAS ", num.as_str());
        self.socket.send_directive(cmd.as_str());
    }

    /// Gets the phase of a fast analog output, in degrees.
    pub fn phase(&mut self, source: Source) -> (r: Result<i32, Error>)
        requires
            old(self).socket.has_reply(),
        ensures
            query_sent(old(self).socket, final(self).socket, source.token_spec() + ":PHAS?"@),
            i32_decoded(r, reply_of(old(self).socket)),
    {
        proof {
            reveal_strlit(":PHAS?");
            assert((":PHAS?"@)[5] == '?');
            lemma_append_contains_right(source.token_spec(), ":PHAS?"@, '?');
        }
        let src = source.encode();
        let cmd = concat2(src.as_str(), ":PHAS?");
        let line = self.socket.send_query(cmd.as_str());
        parse_i32(line.as_str())
    }

    /// Sets the duty cycle of the PWM waveform, rendered as decimal text.
    pub fn set_duty_cycle(&mut self, source: Source, dcyc: &str)
        requires
            !dcyc@.contains('?'),
        ensures
            directive_sent(
                old(self).socket,
                final(self).socket,
                source.token_spec() + ":DCYC "@ + dcyc@,
            ),
    {
        proof {
            reveal_strlit(":DCYC ");
            source.lemma_tokens_wire_safe();
            lemma_no_qm3(source.token_spec(), ":DCYC "@, dcyc@);
        }
        let src = source.encode();
        let cmd = concat3(src.as_str(), ":DCYC ", dcyc);
        self.socket.send_directive(cmd.as_str());
    }

    /// Gets the duty cycle of the PWM waveform, as the decimal text the instrument replied.
    pub fn duty_cycle(&mut self, source: Source) -> (r: String)
        requires
            old(self).socket.has_reply(),
        ensures
            query_sent(old(self).socket, final(self).socket, source.token_spec() + ":DCYC?"@),
            r@ == reply_of(old(self).socket),
    {
        proof {
            reveal_strlit(":DCYC?");
            assert((":DCYC?"@)[5] == '?');
            lemma_append_contains_right(source.token_spec(), ":DCYC?"@, '?');
        }
        let src = source.encode();
        let cmd = concat2(src.as_str(), ":DCYC?");
        self.socket.send_query(cmd.as_str())
    }

    /// Imports the data for arbitrary waveform generation: the samples,
    /// rendered as decimal text, go out comma-separated.
    pub fn set_arbitrary_waveform(&mut self, source: Source, data: &Vec<String>)
        requires
            forall|i: int| 0 <= i < data.deep_view().len() ==> !(#[trigger] data.deep_view()[
                i
            ]).contains('?'),
        ensures
            directive_sent(
                old(self).socket,
                final(self).socket,
                source.token_spec() + ":TRAC:DATA:DATA "@ + join_commas(data.deep_view()),
            ),
    {
        proof {
            reveal_strlit(":TRAC:DATA:DATA ");
            source.lemma_tokens_wire_safe();
            lemma_join_no_char(data.deep_view(), '?');
            lemma_no_qm3(
                source.token_spec(),
                ":TRAC:DATA:DATA "@,
                join_commas(data.deep_view()),
            );
        }
        let src = source.encode();
        let joined = join_elements(data);
        let cmd = concat3(src.as_str(), ":TRAC:DATA:DATA ", joined.as_str());
        self.socket.send_directive(cmd.as_str());
    }

    /// Gets the data for arbitrary waveform generation, as the raw decimal
    /// text of each sample.
    pub fn arbitrary_waveform(&mut self, source: Source) -> (r: Vec<String>)
        requires
            old(self).socket.has_reply(),
        ensures
            query_sent(
                old(self).socket,
                final(self).socket,
                source.token_spec() + ":TRAC:DATA:DATA?"@,
            ),
            r.deep_view() == split_commas(strip_decorations_spec(reply_of(old(self).socket))),
    {
        proof {
            reveal_strlit(":TRAC:DATA:DATA?");
            assert((":TRAC:DATA:DATA?"@)[15] == '?');
            lemma_append_contains_right(source.token_spec(), ":TRAC:DATA:DATA?"@, '?');
        }
        let src = source.encode();
        let cmd = concat2(src.as_str(), ":TRAC:DATA:DATA?");
        let line = self.socket.send_query(cmd.as_str());
        split_list(line.as_str())
    }

    /// Sets the trigger source for the selected signal.
    pub fn set_trigger_source(&mut self, source: Source, trigger: TriggerSource)
        ensures
            directive_sent(
                old(self).socket,
                final(self).socket,
                source.token_spec() + ":TRIG:SOUR "@ + trigger.token_spec(),
            ),
    {
        proof {
            reveal_strlit(":TRIG:SOUR ");
            source.lemma_tokens_wire_safe();
            trigger.lemma_tokens_wire_safe();
            lemma_no_qm3(source.token_spec(), ":TRIG:SOUR "@, trigger.token_spec());
        }
        let src = source.encode();
        let tok = trigger.encode();
        let cmd = concat3(src.as_str(), ":TRIG:SOUR ", tok.as_str());
        self.socket.send_directive(cmd.as_str());
    }

    /// Gets the trigger source for the selected signal.
    pub fn trigger_source(&mut self, source: Source) -> (r: Result<TriggerSource, Error>)
        requires
            old(self).socket.has_reply(),
        ensures
            query_sent(old(self).socket, final(self).socket, source.token_spec() + ":TRIG:SOUR?"@),
            decoded::<TriggerSource>(r, reply_of(old(self).socket)),
    {
        proof {
            reveal_strlit(":TRIG:SOUR?");
            assert((":TRIG:SOUR?"@)[10] == '?');
            lemma_append_contains_right(source.token_spec(), ":TRIG:SOUR?"@, '?');
        }
        let src = source.encode();
        let cmd = concat2(src.as_str(), ":TRIG:SOUR?");
        let line = self.socket.send_query(cmd.as_str());
        decode::<TriggerSource>(line.as_str())
    }

    /// Triggers the selected source immediately.
    pub fn trigger(&mut self, source: Source)
        ensures
            directive_sent(
                old(self).socket,
                final(self).socket,
                source.token_spec() + ":TRIG:IMM"@,
            ),
    {
        proof {
            reveal_strlit(":TRIG:IMM");
            source.lemma_tokens_wire_safe();
            lemma_append_no_char(source.token_spec(), ":TRIG:IMM"@, '?');
        }
        let src = source.encode();
        let cmd = concat2(src.as_str(), ":TRIG:IMM");
        self.socket.send_directive(cmd.as_str());
    }

    /// Resets the generator to default settings.
    pub fn reset(&mut self)
        ensures
            directive_sent(old(self).socket, final(self).socket, "GEN:RST"@),
    {
        proof {
            reveal_strlit("GEN:RST");
        }
        self.socket.send_directive("GEN:RST");
    }
}

} // verus!
