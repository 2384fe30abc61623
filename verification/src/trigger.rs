//! Acquisition trigger control.

use vstd::prelude::*;
use crate::codec::{concat2, lemma_append_no_char};
use crate::error::Error;
use crate::param::{decode, decoded, Parameter};
use crate::scalar::{
    dec_string, lemma_dec_string_digits, lemma_digits_no_query, parse_u16, parse_u8, strip_unit,
    strip_unit_spec, u16_decoded, u8_decoded, u32_to_string,
};
use crate::socket::{directive_sent, query_sent, reply_of, Socket};

verus! {

/// Source and edge that arm the acquisition trigger.
#[allow(non_camel_case_types)]
#[derive(Copy, Clone, Debug, PartialEq, Eq, Structural)]
pub enum Source {
    DISABLED,
    NOW,
    CH1_PE,
    CH1_NE,
    CH2_PE,
    CH2_NE,
    EXT_PE,
    EXT_NE,
    AWG_PE,
    AWG_NE,
}

impl Parameter for Source {
    open spec fn token_spec(self) -> Seq<char> {
        match self {
            Source::DISABLED => "DISABLED"@,
            Source::NOW => "NOW"@,
            Source::CH1_PE => "CH1_PE"@,
            Source::CH1_NE => "CH1_NE"@,
            Source::CH2_PE => "CH2_PE"@,
            Source::CH2_NE => "CH2_NE"@,
            Source::EXT_PE => "EXT_PE"@,
            Source::EXT_NE => "EXT_NE"@,
            Source::AWG_PE => "AWG_PE"@,
            Source::AWG_NE => "AWG_NE"@,
        }
    }

    open spec fn family_spec() -> Seq<char> {
        "trigger source"@
    }

    open spec fn variants_spec() -> Seq<Self> {
        seq![Source::DISABLED, Source::NOW, Source::CH1_PE, Source::CH1_NE, Source::CH2_PE, Source::CH2_NE, Source::EXT_PE, Source::EXT_NE, Source::AWG_PE, Source::AWG_NE]
    }

    proof fn lemma_variants_cover(self) {
        match self {
            Source::DISABLED => assert(Self::variants_spec()[0] == self),
            Source::NOW => assert(Self::variants_spec()[1] == self),
            Source::CH1_PE => assert(Self::variants_spec()[2] == self),
            Source::CH1_NE => assert(Self::variants_spec()[3] == self),
            Source::CH2_PE => assert(Self::variants_spec()[4] == self),
            Source::CH2_NE => assert(Self::variants_spec()[5] == self),
            Source::EXT_PE => assert(Self::variants_spec()[6] == self),
            Source::EXT_NE => assert(Self::variants_spec()[7] == self),
            Source::AWG_PE => assert(Self::variants_spec()[8] == self),
            Source::AWG_NE => assert(Self::variants_spec()[9] == self),
        }
    }

    proof fn lemma_tokens_injective(a: Self, b: Self) {
        reveal_strlit("AWG_NE");
        reveal_strlit("AWG_PE");
        reveal_strlit("CH1_NE");
        reveal_strlit("CH1_PE");
        reveal_strlit("CH2_NE");
        reveal_strlit("CH2_PE");
        reveal_strlit("DISABLED");
        reveal_strlit("EXT_NE");
        reveal_strlit("EXT_PE");
        reveal_strlit("NOW");
        assert(("DISABLED"@).len() != ("NOW"@).len());
        assert(("DISABLED"@).len() != ("CH1_PE"@).len());
        assert(("DISABLED"@).len() != ("CH1_NE"@).len());
        assert(("DISABLED"@).len() != ("CH2_PE"@).len());
        assert(("DISABLED"@).len() != ("CH2_NE"@).len());
        assert(("DISABLED"@).len() != ("EXT_PE"@).len());
        assert(("DISABLED"@).len() != ("EXT_NE"@).len());
        assert(("DISABLED"@).len() != ("AWG_PE"@).len());
        assert(("DISABLED"@).len() != ("AWG_NE"@).len());
        assert(("NOW"@).len() != ("CH1_PE"@).len());
        assert(("NOW"@).len() != ("CH1_NE"@).len());
        assert(("NOW"@).len() != ("CH2_PE"@).len());
        assert(("NOW"@).len() != ("CH2_NE"@).len());
        assert(("NOW"@).len() != ("EXT_PE"@).len());
        assert(("NOW"@).len() != ("EXT_NE"@).len());
        assert(("NOW"@).len() != ("AWG_PE"@).len());
        assert(("NOW"@).len() != ("AWG_NE"@).len());
        assert(("CH1_PE"@)[4] != ("CH1_NE"@)[4]);
        assert(("CH1_PE"@)[2] != ("CH2_PE"@)[2]);
        assert(("CH1_PE"@)[2] != ("CH2_NE"@)[2]);
        assert(("CH1_PE"@)[0] != ("EXT_PE"@)[0]);
        assert(("CH1_PE"@)[0] != ("EXT_NE"@)[0]);
        assert(("CH1_PE"@)[0] != ("AWG_PE"@)[0]);
        assert(("CH1_PE"@)[0] != ("AWG_NE"@)[0]);
        assert(("CH1_NE"@)[2] != ("CH2_PE"@)[2]);
        assert(("CH1_NE"@)[2] != ("CH2_NE"@)[2]);
        assert(("CH1_NE"@)[0] != ("EXT_PE"@)[0]);
        assert(("CH1_NE"@)[0] != ("EXT_NE"@)[0]);
        assert(("CH1_NE"@)[0] != ("AWG_PE"@)[0]);
        assert(("CH1_NE"@)[0] != ("AWG_NE"@)[0]);
        assert(("CH2_PE"@)[4] != ("CH2_NE"@)[4]);
        assert(("CH2_PE"@)[0] != ("EXT_PE"@)[0]);
        assert(("CH2_PE"@)[0] != ("EXT_NE"@)[0]);
        assert(("CH2_PE"@)[0] != ("AWG_PE"@)[0]);
        assert(("CH2_PE"@)[0] != ("AWG_NE"@)[0]);
        assert(("CH2_NE"@)[0] != ("EXT_PE"@)[0]);
        assert(("CH2_NE"@)[0] != ("EXT_NE"@)[0]);
        assert(("CH2_NE"@)[0] != ("AWG_PE"@)[0]);
        assert(("CH2_NE"@)[0] != ("AWG_NE"@)[0]);
        assert(("EXT_PE"@)[4] != ("EXT_NE"@)[4]);
        assert(("EXT_PE"@)[0] != ("AWG_PE"@)[0]);
        assert(("EXT_PE"@)[0] != ("AWG_NE"@)[0]);
        assert(("EXT_NE"@)[0] != ("AWG_PE"@)[0]);
        assert(("EXT_NE"@)[0] != ("AWG_NE"@)[0]);
        assert(("AWG_PE"@)[4] != ("AWG_NE"@)[4]);
    }

    proof fn lemma_tokens_wire_safe(self) {
        reveal_strlit("AWG_NE");
        reveal_strlit("AWG_PE");
        reveal_strlit("CH1_NE");
        reveal_strlit("CH1_PE");
        reveal_strlit("CH2_NE");
        reveal_strlit("CH2_PE");
        reveal_strlit("DISABLED");
        reveal_strlit("EXT_NE");
        reveal_strlit("EXT_PE");
        reveal_strlit("NOW");
    }

    fn variants() -> (vs: Vec<Self>) {
        let mut vs: Vec<Self> = Vec::new();
        vs.push(Source::DISABLED);
        vs.push(Source::NOW);
        vs.push(Source::CH1_PE);
        vs.push(Source::CH1_NE);
        vs.push(Source::CH2_PE);
        vs.push(Source::CH2_NE);
        vs.push(Source::EXT_PE);
        vs.push(Source::EXT_NE);
        vs.push(Source::AWG_PE);
        vs.push(Source::AWG_NE);
        proof {
            assert(vs@ =~= Self::variants_spec());
        }
        vs
    }

    fn encode(self) -> (t: String) {
        match self {
            Source::DISABLED => "DISABLED".to_owned(),
            Source::NOW => "NOW".to_owned(),
            Source::CH1_PE => "CH1_PE".to_owned(),
            Source::CH1_NE => "CH1_NE".to_owned(),
            Source::CH2_PE => "CH2_PE".to_owned(),
            Source::CH2_NE => "CH2_NE".to_owned(),
            Source::EXT_PE => "EXT_PE".to_owned(),
            Source::EXT_NE => "EXT_NE".to_owned(),
            Source::AWG_PE => "AWG_PE".to_owned(),
            Source::AWG_NE => "AWG_NE".to_owned(),
        }
    }

    fn family() -> (f: String) {
        "trigger source".to_owned()
    }
}

/// Whether the trigger is still waiting or has fired.
#[derive(Copy, Clone, Debug, PartialEq, Eq, Structural)]
pub enum State {
    WAIT,
    TD,
}

impl Parameter for State {
    open spec fn token_spec(self) -> Seq<char> {
        match self {
            State::WAIT => "WAIT"@,
            State::TD => "TD"@,
        }
    }

    open spec fn family_spec() -> Seq<char> {
        "trigger state"@
    }

    open spec fn variants_spec() -> Seq<Self> {
        seq![State::WAIT, State::TD]
    }

    proof fn lemma_variants_cover(self) {
        match self {
            State::WAIT => assert(Self::variants_spec()[0] == self),
            State::TD => assert(Self::variants_spec()[1] == self),
        }
    }

    proof fn lemma_tokens_injective(a: Self, b: Self) {
        reveal_strlit("TD");
        reveal_strlit("WAIT");
        assert(("WAIT"@).len() != ("TD"@).len());
    }

    proof fn lemma_tokens_wire_safe(self) {
        reveal_strlit("TD");
        reveal_strlit("WAIT");
    }

    fn variants() -> (vs: Vec<Self>) {
        let mut vs: Vec<Self> = Vec::new();
        vs.push(State::WAIT);
        vs.push(State::TD);
        proof {
            assert(vs@ =~= Self::variants_spec());
        }
        vs
    }

    fn encode(self) -> (t: String) {
        match self {
            State::WAIT => "WAIT".to_owned(),
            State::TD => "TD".to_owned(),
        }
    }

    fn family() -> (f: String) {
        "trigger state".to_owned()
    }
}

/// The trigger subsystem of the acquisition.
#[derive(Clone)]
pub struct Trigger {
    pub socket: Socket,
}

impl Trigger {
    /// Creates the subsystem over its session.
    pub fn new(socket: Socket) -> (r: Self)
        ensures
            r.socket == socket,
    {
        Trigger { socket }
    }

    /// Triggers immediately or arms the trigger on a source and edge.
    pub fn enable(&mut self, source: Source)
        ensures
            directive_sent(
                old(self).socket,
                final(self).socket,
                "ACQ:TRIG "@ + source.token_spec(),
            ),
    {
        proof {
            reveal_strlit("ACQ:TRIG ");
            source.lemma_tokens_wire_safe();
            lemma_append_no_char("ACQ:TRIG "@, source.token_spec(), '?');
        }
        let tok = source.encode();
        let cmd = concat2("ACQ:TRIG ", tok.as_str());
        self.socket.send_directive(cmd.as_str());
    }

    /// Disables triggering.
    pub fn disable(&mut self)
        ensures
            directive_sent(
                old(self).socket,
                final(self).socket,
                "ACQ:TRIG "@ + Source::DISABLED.token_spec(),
            ),
    {
        self.enable(Source::DISABLED)
    }

    /// Gets the trigger status: waiting, or already triggered.
    pub fn get_state(&mut self) -> (r: Result<State, Error>)
        requires
            old(self).socket.has_reply(),
        ensures
            query_sent(old(self).socket, final(self).socket, "ACQ:TRIG:STAT?"@),
            decoded::<State>(r, reply_of(old(self).socket)),
    {
        proof {
            reveal_strlit("ACQ:TRIG:STAT?");
            assert(("ACQ:TRIG:STAT?"@)[13] == '?');
            assert(crate::codec::is_query_spec("ACQ:TRIG:STAT?"@));
        }
        let line = self.socket.send_query("ACQ:TRIG:STAT?");
        decode::<State>(line.as_str())
    }

    /// Sets the trigger delay in samples.
    pub fn set_delay(&mut self, delay: u16)
        ensures
            directive_sent(
                old(self).socket,
                final(self).socket,
                "ACQ:TRIG:DLY "@ + dec_string(delay as nat),
            ),
    {
        proof {
            reveal_strlit("ACQ:TRIG:DLY ");
            lemma_dec_string_digits(delay as nat);
            lemma_digits_no_query(dec_string(delay as nat));
            lemma_append_no_char("ACQ:TRIG:DLY "@, dec_string(delay as nat), '?');
        }
        let num = u32_to_string(delay as u32);
        let cmd = concat2("ACQ:TRIG:DLY ", num.as_str());
        self.socket.send_directive(cmd.as_str());
    }

    /// Gets the trigger delay in samples.
    pub fn get_delay(&mut self) -> (r: Result<u16, Error>)
        requires
            old(self).socket.has_reply(),
        ensures
            query_sent(old(self).socket, final(self).socket, "ACQ:TRIG:DLY?"@),
            u16_decoded(r, reply_of(old(self).socket)),
    {
        proof {
            reveal_strlit("ACQ:TRIG:DLY?");
            assert(("ACQ:TRIG:DLY?"@)[12] == '?');
            assert(crate::codec::is_query_spec("ACQ:TRIG:DLY?"@));
        }
        let line = self.socket.send_query("ACQ:TRIG:DLY?");
        parse_u16(line.as_str())
    }

    /// Sets the trigger delay in nanoseconds.
    pub fn set_delay_in_ns(&mut self, delay: u8)
        ensures
            directive_sent(
                old(self).socket,
                final(self).socket,
                "ACQ:TRIG:DLY:NS "@ + dec_string(delay as nat),
            ),
    {
        proof {
            reveal_strlit("ACQ:TRIG:DLY:NS ");
            lemma_dec_string_digits(delay as nat);
            lemma_digits_no_query(dec_string(delay as nat));
            lemma_append_no_char("ACQ:TRIG:DLY:NS "@, dec_string(delay as nat), '?');
        }
        let num = u32_to_string(delay as u32);
        let cmd = concat2("ACQ:TRIG:DLY:NS ", num.as_str());
        self.socket.send_directive(cmd.as_str());
    }

    /// Gets the trigger delay in nanoseconds. The reply carries an `"ns"`
    /// unit suffix, which is stripped before parsing.
    pub fn get_delay_in_ns(&mut self) -> (r: Result<u8, Error>)
        requires
            old(self).socket.has_reply(),
        ensures
            query_sent(old(self).socket, final(self).socket, "ACQ:TRIG:DLY:NS?"@),
            u8_decoded(r, strip_unit_spec(reply_of(old(self).socket), "ns"@)),
    {
        proof {
            reveal_strlit("ACQ:TRIG:DLY:NS?");
            assert(("ACQ:TRIG:DLY:NS?"@)[15] == '?');
            assert(crate::codec::is_query_spec("ACQ:TRIG:DLY:NS?"@));
        }
        let line = self.socket.send_query("ACQ:TRIG:DLY:NS?");
        let bare = strip_unit(line.as_str(), "ns");
        parse_u8(bare.as_str())
    }

    /// Sets the trigger threshold hysteresis, in volts rendered as decimal
    /// text; the value must be outside the band again before the trigger can
    /// rearm.
    pub fn set_hysteresis(&mut self, hysteresis: &str)
        requires
            !hysteresis@.contains('?'),
        ensures
            directive_sent(
                old(self).socket,
                final(self).socket,
                "ACQ:TRIG:HYST "@ + hysteresis@,
            ),
    {
        proof {
            reveal_strlit("ACQ:TRIG:HYST ");
            lemma_append_no_char("ACQ:TRIG:HYST "@, hysteresis@, '?');
        }
        let cmd = concat2("ACQ:TRIG:HYST ", hysteresis);
        self.socket.send_directive(cmd.as_str());
    }

    /// Gets the trigger threshold hysteresis in volts, as the decimal text
    /// the instrument replied.
    pub fn get_hysteresis(&mut self) -> (r: String)
        requires
            old(self).socket.has_reply(),
        ensures
            query_sent(old(self).socket, final(self).socket, "ACQ:TRIG:HYST?"@),
            r@ == reply_of(old(self).socket),
    {
        proof {
            reveal_strlit("ACQ:TRIG:HYST?");
            assert(("ACQ:TRIG:HYST?"@)[13] == '?');
            assert(crate::codec::is_query_spec("ACQ:TRIG:HYST?"@));
        }
        self.socket.send_query("ACQ:TRIG:HYST?")
    }

    /// Sets the trigger level in millivolts, rendered as decimal text.
    pub fn set_level(&mut self, level: &str)
        requires
            !level@.contains('?'),
        ensures
            directive_sent(old(self).socket, final(self).socket, "ACQ:TRIG:LEV "@ + level@),
    {
        proof {
            reveal_strlit("ACQ:TRIG:LEV ");
            lemma_append_no_char("ACQ:TRIG:LEV "@, level@, '?');
        }
        let cmd = concat2("ACQ:TRIG:LEV ", level);
        self.socket.send_directive(cmd.as_str());
    }

    /// Gets the trigger level. The reply may carry an `"mV"` unit suffix,
    /// which is stripped; the bare decimal text is returned.
    pub fn get_level(&mut self) -> (r: String)
        requires
            old(self).socket.has_reply(),
        ensures
            query_sent(old(self).socket, final(self).socket, "ACQ:TRIG:LEV?"@),
            r@ == strip_unit_spec(reply_of(old(self).socket), "mV"@),
    {
        proof {
            reveal_strlit("ACQ:TRIG:LEV?");
            assert(("ACQ:TRIG:LEV?"@)[12] == '?');
            assert(crate::codec::is_query_spec("ACQ:TRIG:LEV?"@));
        }
        let line = self.socket.send_query("ACQ:TRIG:LEV?");
        strip_unit(line.as_str(), "mV")
    }
}

} // verus!
