//! Burst (pulse) mode of the signal generator.

use vstd::prelude::*;
use crate::codec::{concat2, concat3, lemma_append_contains_right, lemma_no_qm3};
use crate::error::Error;
use crate::param::{decode, decoded, Parameter};
use crate::scalar::{dec_string, lemma_dec_string_digits, lemma_digits_no_query, parse_u32, u32_decoded, u32_to_string};
use crate::socket::{directive_sent, query_sent, reply_of, Socket};

verus! {

/// A fast analog output channel addressed by burst commands.
#[derive(Copy, Clone, Debug, PartialEq, Eq, Structural)]
pub enum Source {
    OUT1,
    OUT2,
}

impl Parameter for Source {
    open spec fn token_spec(self) -> Seq<char> {
        match self {
            Source::OUT1 => "SOUR1"@,
            Source::OUT2 => "SOUR2"@,
        }
    }

    open spec fn family_spec() -> Seq<char> {
        "burst source"@
    }

    open spec fn variants_spec() -> Seq<Self> {
        seq![Source::OUT1, Source::OUT2]
    }

    proof fn lemma_variants_cover(self) {
        match self {
            Source::OUT1 => assert(Self::variants_spec()[0] == self),
            Source::OUT2 => assert(Self::variants_spec()[1] == self),
        }
    }

    proof fn lemma_tokens_injective(a: Self, b: Self) {
        reveal_strlit("SOUR1");
        reveal_strlit("SOUR2");
        assert(("SOUR1"@)[4] != ("SOUR2"@)[4]);
    }

    proof fn lemma_tokens_wire_safe(self) {
        reveal_strlit("SOUR1");
        reveal_strlit("SOUR2");
    }

    fn variants() -> (vs: Vec<Self>) {
        let mut vs: Vec<Self> = Vec::new();
        vs.push(Source::OUT1);
        vs.push(Source::OUT2);
        proof {
            assert(vs@ =~= Self::variants_spec());
        }
        vs
    }

    fn encode(self) -> (t: String) {
        match self {
            Source::OUT1 => "SOUR1".to_owned(),
            Source::OUT2 => "SOUR2".to_owned(),
        }
    }

    fn family() -> (f: String) {
        "burst source".to_owned()
    }
}

/// Generation mode of a fast analog output.
#[derive(Copy, Clone, Debug, PartialEq, Eq, Structural)]
pub enum Mode {
    CONTINUOUS,
    BURST,
    STREAM,
}

impl Parameter for Mode {
    open spec fn token_spec(self) -> Seq<char> {
        match self {
            Mode::CONTINUOUS => "CONTINUOUS"@,
            Mode::BURST => "BURST"@,
            Mode::STREAM => "STREAM"@,
        }
    }

    open spec fn family_spec() -> Seq<char> {
        "burst mode"@
    }

    open spec fn variants_spec() -> Seq<Self> {
        seq![Mode::CONTINUOUS, Mode::BURST, Mode::STREAM]
    }

    proof fn lemma_variants_cover(self) {
        match self {
            Mode::CONTINUOUS => assert(Self::variants_spec()[0] == self),
            Mode::BURST => assert(Self::variants_spec()[1] == self),
            Mode::STREAM => assert(Self::variants_spec()[2] == self),
        }
    }

    proof fn lemma_tokens_injective(a: Self, b: Self) {
        reveal_strlit("BURST");
        reveal_strlit("CONTINUOUS");
        reveal_strlit("STREAM");
        assert(("CONTINUOUS"@).len() != ("BURST"@).len());
        assert(("CONTINUOUS"@).len() != ("STREAM"@).len());
        assert(("BURST"@).len() != ("STREAM"@).len());
    }

    proof fn lemma_tokens_wire_safe(self) {
        reveal_strlit("BURST");
        reveal_strlit("CONTINUOUS");
        reveal_strlit("STREAM");
    }

    fn variants() -> (vs: Vec<Self>) {
        let mut vs: Vec<Self> = Vec::new();
        vs.push(Mode::CONTINUOUS);
        vs.push(Mode::BURST);
        vs.push(Mode::STREAM);
        proof {
            assert(vs@ =~= Self::variants_spec());
        }
        vs
    }

    fn encode(self) -> (t: String) {
        match self {
            Mode::CONTINUOUS => "CONTINUOUS".to_owned(),
            Mode::BURST => "BURST".to_owned(),
            Mode::STREAM => "STREAM".to_owned(),
        }
    }

    fn family() -> (f: String) {
        "burst mode".to_owned()
    }
}

/// The burst-mode subsystem.
#[derive(Clone)]
pub struct Burst {
    pub socket: Socket,
}

impl Burst {
    /// Creates the subsystem over its session.
    pub fn new(socket: Socket) -> (r: Self)
        ensures
            r.socket == socket,
    {
        Burst { socket }
    }

    /// Sets burst (pulse) mode. The instrument will generate R bursts of N
    /// periods of the signal and then stop, with P the time between bursts.
    pub fn set_mode(&mut self, source: Source, mode: Mode)
        ensures
            directive_sent(
                old(self).socket,
                final(self).socket,
                source.token_spec() + ":BURS:STAT "@ + mode.token_spec(),
            ),
    {
        proof {
            reveal_strlit(":BURS:STAT ");
            source.lemma_tokens_wire_safe();
            mode.lemma_tokens_wire_safe();
            lemma_no_qm3(source.token_spec(), ":BURS:STAT "@, mode.token_spec());
        }
        let src = source.encode();
        let m = mode.encode();
        let cmd = concat3(src.as_str(), ":BURS:STAT ", m.as_str());
        self.socket.send_directive(cmd.as_str());
    }

    /// Gets burst (pulse) mode.
    pub fn get_mode(&mut self, source: Source) -> (r: Result<Mode, Error>)
        requires
            old(self).socket.has_reply(),
        ensures
            query_sent(
                old(self).socket,
                final(self).socket,
                source.token_spec() + ":BURS:STAT?"@,
            ),
            decoded::<Mode>(r, reply_of(old(self).socket)),
    {
        proof {
            reveal_strlit(":BURS:STAT?");
            assert((":BURS:STAT?"@)[10] == '?');
            lemma_append_contains_right(source.token_spec(), ":BURS:STAT?"@, '?');
        }
        let src = source.encode();
        let cmd = concat2(src.as_str(), ":BURS:STAT?");
        let line = self.socket.send_query(cmd.as_str());
        decode::<Mode>(line.as_str())
    }

    /// Sets N, the number of periods in one burst.
    pub fn set_count(&mut self, source: Source, value: u32)
        ensures
            directive_sent(
                old(self).socket,
                final(self).socket,
                source.token_spec() + ":BURS:NCYC "@ + dec_string(value as nat),
            ),
    {
        proof {
            reveal_strlit(":BURS:NCYC ");
            source.lemma_tokens_wire_safe();
            lemma_dec_string_digits(value as nat);
            lemma_digits_no_query(dec_string(value as nat));
            lemma_no_qm3(source.token_spec(), ":BURS:NCYC "@, dec_string(value as nat));
        }
        let src = source.encode();
        let num = u32_to_string(value);
        let cmd = concat3(src.as_str(), ":BURS:NCYC ", num.as_str());
        self.socket.send_directive(cmd.as_str());
    }

    /// Gets the number of periods in one burst.
    pub fn get_count(&mut self, source: Source) -> (r: Result<u32, Error>)
        requires
            old(self).socket.has_reply(),
        ensures
            query_sent(old(self).socket, final(self).socket, source.token_spec() + ":BURS:NCYC?"@),
            u32_decoded(r, reply_of(old(self).socket)),
    {
        proof {
            reveal_strlit(":BURS:NCYC?");
            assert((":BURS:NCYC?"@)[10] == '?');
            lemma_append_contains_right(source.token_spec(), ":BURS:NCYC?"@, '?');
        }
        let src = source.encode();
        let cmd = concat2(src.as_str(), ":BURS:NCYC?");
        let line = self.socket.send_query(cmd.as_str());
        parse_u32(line.as_str())
    }

    /// Sets R, the number of repeated bursts.
    pub fn set_repetitions(&mut self, source: Source, value: u32)
        ensures
            directive_sent(
                old(self).socket,
                final(self).socket,
                source.token_spec() + ":BURS:NOR "@ + dec_string(value as nat),
            ),
    {
        proof {
            reveal_strlit(":BURS:NOR ");
            source.lemma_tokens_wire_safe();
            lemma_dec_string_digits(value as nat);
            lemma_digits_no_query(dec_string(value as nat));
            lemma_no_qm3(source.token_spec(), ":BURS:NOR "@, dec_string(value as nat));
        }
        let src = source.encode();
        let num = u32_to_string(value);
        let cmd = concat3(src.as_str(), ":BURS:NOR ", num.as_str());
        self.socket.send_directive(cmd.as_str());
    }

    /// Gets the number of repeated bursts.
    pub fn get_repetitions(&mut self, source: Source) -> (r: Result<u32, Error>)
        requires
            old(self).socket.has_reply(),
        ensures
            query_sent(old(self).socket, final(self).socket, source.token_spec() + ":BURS:NOR?"@),
            u32_decoded(r, reply_of(old(self).socket)),
    {
        proof {
            reveal_strlit(":BURS:NOR?");
            assert((":BURS:NOR?"@)[9] == '?');
            lemma_append_contains_right(source.token_spec(), ":BURS:NOR?"@, '?');
        }
        let src = source.encode();
        let cmd = concat2(src.as_str(), ":BURS:NOR?");
        let line = self.socket.send_query(cmd.as_str());
        parse_u32(line.as_str())
    }

    /// Sets P, the total time of one burst in microseconds, signal and delay included.
    pub fn set_period(&mut self, source: Source, value: u32)
        ensures
            directive_sent(
                old(self).socket,
                final(self).socket,
                source.token_spec() + ":BURS:INT:PER "@ + dec_string(value as nat),
            ),
    {
        proof {
            reveal_strlit(":BURS:INT:PER ");
            source.lemma_tokens_wire_safe();
            lemma_dec_string_digits(value as nat);
            lemma_digits_no_query(dec_string(value as nat));
            lemma_no_qm3(source.token_spec(), ":BURS:INT:PER "@, dec_string(value as nat));
        }
        let src = source.encode();
        let num = u32_to_string(value);
        let cmd = concat3(src.as_str(), ":BURS:INT:PER ", num.as_str());
        self.socket.send_directive(cmd.as_str());
    }

    /// Gets the total time of one burst in microseconds, signal and delay included.
    pub fn get_period(&mut self, source: Source) -> (r: Result<u32, Error>)
        requires
            old(self).socket.has_reply(),
        ensures
            query_sent(old(self).socket, final(self).socket, source.token_spec() + ":BURS:INT:PER?"@),
            u32_decoded(r, reply_of(old(self).socket)),
    {
        proof {
            reveal_strlit(":BURS:INT:PER?");
            assert((":BURS:INT:PER?"@)[13] == '?');
            lemma_append_contains_right(source.token_spec(), ":BURS:INT:PER?"@, '?');
        }
        let src = source.encode();
        let cmd = concat2(src.as_str(), ":BURS:INT:PER?");
        let line = self.socket.send_query(cmd.as_str());
        parse_u32(line.as_str())
    }
}

} // verus!
