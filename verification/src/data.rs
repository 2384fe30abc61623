//! Buffered sample data.
//!
//! The acquisition buffer is read back as comma-separated lists of decimal
//! samples, optionally wrapped in braces. The read operations return the raw
//! text of each sample, in order; turning a sample into a floating-point
//! number is the caller's step.

use vstd::prelude::*;
use crate::acquire::Source;
use crate::codec::{
    concat2, concat3, concat6, lemma_append_contains_left, lemma_append_contains_right,
    lemma_append_no_char,
};
use crate::error::Error;
use crate::list::{split_commas, split_list, strip_decorations_spec};
use crate::param::{decode, decoded, Parameter};
use crate::scalar::{dec_string, parse_u32, u32_decoded, u32_to_string};
use crate::socket::{directive_sent, query_sent, reply_of, Socket};

verus! {

/// The unit in which acquired samples are returned.
#[derive(Copy, Clone, Debug, PartialEq, Eq, Structural)]
pub enum Unit {
    RAW,
    VOLTS,
}

impl Parameter for Unit {
    open spec fn token_spec(self) -> Seq<char> {
        match self {
            Unit::RAW => "RAW"@,
            Unit::VOLTS => "VOLTS"@,
        }
    }

    open spec fn family_spec() -> Seq<char> {
        "data unit"@
    }

    open spec fn variants_spec() -> Seq<Self> {
        seq![Unit::RAW, Unit::VOLTS]
    }

    proof fn lemma_variants_cover(self) {
        match self {
            Unit::RAW => assert(Self::variants_spec()[0] == self),
            Unit::VOLTS => assert(Self::variants_spec()[1] == self),
        }
    }

    proof fn lemma_tokens_injective(a: Self, b: Self) {
        reveal_strlit("RAW");
        reveal_strlit("VOLTS");
        assert(("RAW"@).len() != ("VOLTS"@).len());
    }

    proof fn lemma_tokens_wire_safe(self) {
        reveal_strlit("RAW");
        reveal_strlit("VOLTS");
    }

    fn variants() -> (vs: Vec<Self>) {
        let mut vs: Vec<Self> = Vec::new();
        vs.push(Unit::RAW);
        vs.push(Unit::VOLTS);
        proof {
            assert(vs@ =~= Self::variants_spec());
        }
        vs
    }

    fn encode(self) -> (t: String) {
        match self {
            Unit::RAW => "RAW".to_owned(),
            Unit::VOLTS => "VOLTS".to_owned(),
        }
    }

    fn family() -> (f: String) {
        "data unit".to_owned()
    }
}

/// The format in which acquired samples are returned.
#[derive(Copy, Clone, Debug, PartialEq, Eq, Structural)]
pub enum Format {
    ASCII,
    BIN,
}

impl Parameter for Format {
    open spec fn token_spec(self) -> Seq<char> {
        match self {
            Format::ASCII => "ASCII"@,
            Format::BIN => "BIN"@,
        }
    }

    open spec fn family_spec() -> Seq<char> {
        "data format"@
    }

    open spec fn variants_spec() -> Seq<Self> {
        seq![Format::ASCII, Format::BIN]
    }

    proof fn lemma_variants_cover(self) {
        match self {
            Format::ASCII => assert(Self::variants_spec()[0] == self),
            Format::BIN => assert(Self::variants_spec()[1] == self),
        }
    }

    proof fn lemma_tokens_injective(a: Self, b: Self) {
        reveal_strlit("ASCII");
        reveal_strlit("BIN");
        assert(("ASCII"@).len() != ("BIN"@).len());
    }

    proof fn lemma_tokens_wire_safe(self) {
        reveal_strlit("ASCII");
        reveal_strlit("BIN");
    }

    fn variants() -> (vs: Vec<Self>) {
        let mut vs: Vec<Self> = Vec::new();
        vs.push(Format::ASCII);
        vs.push(Format::BIN);
        proof {
            assert(vs@ =~= Self::variants_spec());
        }
        vs
    }

    fn encode(self) -> (t: String) {
        match self {
            Format::ASCII => "ASCII".to_owned(),
            Format::BIN => "BIN".to_owned(),
        }
    }

    fn family() -> (f: String) {
        "data format".to_owned()
    }
}

/// The buffered-data subsystem.
#[derive(Clone)]
pub struct Data {
    pub socket: Socket,
}

impl Data {
    /// Creates the subsystem over its session.
    pub fn new(socket: Socket) -> (r: Self)
        ensures
            r.socket == socket,
    {
        Data { socket }
    }

    /// Returns the current position of the write pointer.
    pub fn get_write_pointer(&mut self) -> (r: Result<u32, Error>)
        requires
            old(self).socket.has_reply(),
        ensures
            query_sent(old(self).socket, final(self).socket, "ACQ:WPOS?"@),
            u32_decoded(r, reply_of(old(self).socket)),
    {
        proof {
            reveal_strlit("ACQ:WPOS?");
            assert(("ACQ:WPOS?"@)[8] == '?');
            assert(crate::codec::is_query_spec("ACQ:WPOS?"@));
        }
        let line = self.socket.send_query("ACQ:WPOS?");
        parse_u32(line.as_str())
    }

    /// Returns the position where the trigger event appeared.
    pub fn get_trigger_position(&mut self) -> (r: Result<u32, Error>)
        requires
            old(self).socket.has_reply(),
        ensures
            query_sent(old(self).socket, final(self).socket, "ACQ:TPOS?"@),
            u32_decoded(r, reply_of(old(self).socket)),
    {
        proof {
            reveal_strlit("ACQ:TPOS?");
            assert(("ACQ:TPOS?"@)[8] == '?');
            assert(crate::codec::is_query_spec("ACQ:TPOS?"@));
        }
        let line = self.socket.send_query("ACQ:TPOS?");
        parse_u32(line.as_str())
    }

    /// Selects the unit in which acquired data will be returned.
    pub fn set_units(&mut self, unit: Unit)
        ensures
            directive_sent(
                old(self).socket,
                final(self).socket,
                "ACQ:DATA:UNITS "@ + unit.token_spec(),
            ),
    {
        proof {
            reveal_strlit("ACQ:DATA:UNITS ");
            unit.lemma_tokens_wire_safe();
            lemma_append_no_char("ACQ:DATA:UNITS "@, unit.token_spec(), '?');
        }
        let tok = unit.encode();
        let cmd = concat2("ACQ:DATA:UNITS ", tok.as_str());
        self.socket.send_directive(cmd.as_str());
    }

    /// Gets the unit in which acquired data will be returned.
    pub fn get_units(&mut self) -> (r: Result<Unit, Error>)
        requires
            old(self).socket.has_reply(),
        ensures
            query_sent(old(self).socket, final(self).socket, "ACQ:DATA:UNITS?"@),
            decoded::<Unit>(r, reply_of(old(self).socket)),
    {
        proof {
            reveal_strlit("ACQ:DATA:UNITS?");
            assert(("ACQ:DATA:UNITS?"@)[14] == '?');
            assert(crate::codec::is_query_spec("ACQ:DATA:UNITS?"@));
        }
        let line = self.socket.send_query("ACQ:DATA:UNITS?");
        decode::<Unit>(line.as_str())
    }

    /// Selects the format in which acquired data will be returned.
    pub fn set_format(&mut self, format: Format)
        ensures
            directive_sent(
                old(self).socket,
                final(self).socket,
                "ACQ:DATA:FORMAT "@ + format.token_spec(),
            ),
    {
        proof {
            reveal_strlit("ACQ:DATA:FORMAT ");
            format.lemma_tokens_wire_safe();
            lemma_append_no_char("ACQ:DATA:FORMAT "@, format.token_spec(), '?');
        }
        let tok = format.encode();
        let cmd = concat2("ACQ:DATA:FORMAT ", tok.as_str());
        self.socket.send_directive(cmd.as_str());
    }

    /// Reads the samples from a start to an end position, as raw decimal text.
    pub fn read_slice(&mut self, source: Source, start: u16, end: u16) -> (r: Vec<String>)
        requires
            old(self).socket.has_reply(),
        ensures
            query_sent(
                old(self).socket,
                final(self).socket,
                "ACQ:"@ + source.token_spec() + ":DATA:STA:END? "@ + dec_string(start as nat) + ","@
                    + dec_string(end as nat),
            ),
            r.deep_view() == split_commas(strip_decorations_spec(reply_of(old(self).socket))),
    {
        proof {
            reveal_strlit(":DATA:STA:END? ");
            assert((":DATA:STA:END? "@)[13] == '?');
            lemma_append_contains_right("ACQ:"@ + source.token_spec(), ":DATA:STA:END? "@, '?');
            lemma_append_contains_left(
                "ACQ:"@ + source.token_spec() + ":DATA:STA:END? "@,
                dec_string(start as nat),
                '?',
            );
            lemma_append_contains_left(
                "ACQ:"@ + source.token_spec() + ":DATA:STA:END? "@ + dec_string(start as nat),
                ","@,
                '?',
            );
            lemma_append_contains_left(
                "ACQ:"@ + source.token_spec() + ":DATA:STA:END? "@ + dec_string(start as nat) + ","@,
                dec_string(end as nat),
                '?',
            );
        }
        let tok = source.encode();
        let na = u32_to_string(start as u32);
        let nb = u32_to_string(end as u32);
        let cmd = concat6("ACQ:", tok.as_str(), ":DATA:STA:END? ", na.as_str(), ",", nb.as_str());
        let line = self.socket.send_query(cmd.as_str());
        split_list(line.as_str())
    }

    /// Reads a number of samples from a start position on, as raw decimal text.
    pub fn read(&mut self, source: Source, start: u16, len: u32) -> (r: Vec<String>)
        requires
            old(self).socket.has_reply(),
        ensures
            query_sent(
                old(self).socket,
                final(self).socket,
                "ACQ:"@ + source.token_spec() + ":DATA:STA:N? "@ + dec_string(start as nat) + ","@
                    + dec_string(len as nat),
            ),
            r.deep_view() == split_commas(strip_decorations_spec(reply_of(old(self).socket))),
    {
        proof {
            reveal_strlit(":DATA:STA:N? ");
            assert((":DATA:STA:N? "@)[11] == '?');
            lemma_append_contains_right("ACQ:"@ + source.token_spec(), ":DATA:STA:N? "@, '?');
            lemma_append_contains_left(
                "ACQ:"@ + source.token_spec() + ":DATA:STA:N? "@,
                dec_string(start as nat),
                '?',
            );
            lemma_append_contains_left(
                "ACQ:"@ + source.token_spec() + ":DATA:STA:N? "@ + dec_string(start as nat),
                ","@,
                '?',
            );
            lemma_append_contains_left(
                "ACQ:"@ + source.token_spec() + ":DATA:STA:N? "@ + dec_string(start as nat) + ","@,
                dec_string(len as nat),
                '?',
            );
        }
        let tok = source.encode();
        let na = u32_to_string(start as u32);
        let nb = u32_to_string(len);
        let cmd = concat6("ACQ:", tok.as_str(), ":DATA:STA:N? ", na.as_str(), ",", nb.as_str());
        let line = self.socket.send_query(cmd.as_str());
        split_list(line.as_str())
    }

    /// Reads the full buffer, as raw decimal text, starting from the oldest
    /// sample after the trigger delay.
    pub fn read_all(&mut self, source: Source) -> (r: Vec<String>)
        requires
            old(self).socket.has_reply(),
        ensures
            query_sent(
                old(self).socket,
                final(self).socket,
                "ACQ:"@ + source.token_spec() + ":DATA?"@,
            ),
            r.deep_view() == split_commas(strip_decorations_spec(reply_of(old(self).socket))),
    {
        proof {
            reveal_strlit(":DATA?");
            assert((":DATA?"@)[5] == '?');
            lemma_append_contains_right("ACQ:"@ + source.token_spec(), ":DATA?"@, '?');
        }
        let tok = source.encode();
        let cmd = concat3("ACQ:", tok.as_str(), ":DATA?");
        let line = self.socket.send_query(cmd.as_str());
        split_list(line.as_str())
    }

    /// Reads a number of samples starting from the oldest one after the trigger delay, as raw decimal text.
    pub fn read_oldest(&mut self, source: Source, len: u32) -> (r: Vec<String>)
        requires
            old(self).socket.has_reply(),
        ensures
            query_sent(
                old(self).socket,
                final(self).socket,
                "ACQ:"@ + source.token_spec() + ":DATA:OLD:N? "@ + dec_string(len as nat),
            ),
            r.deep_view() == split_commas(strip_decorations_spec(reply_of(old(self).socket))),
    {
        proof {
            reveal_strlit(":DATA:OLD:N? ");
            assert((":DATA:OLD:N? "@)[11] == '?');
            lemma_append_contains_right("ACQ:"@ + source.token_spec(), ":DATA:OLD:N? "@, '?');
            lemma_append_contains_left(
                "ACQ:"@ + source.token_spec() + ":DATA:OLD:N? "@,
                dec_string(len as nat),
                '?',
            );
        }
        let tok = source.encode();
        let num = u32_to_string(len);
        let cmd = crate::codec::concat4("ACQ:", tok.as_str(), ":DATA:OLD:N? ", num.as_str());
        let line = self.socket.send_query(cmd.as_str());
        split_list(line.as_str())
    }

    /// Reads a number of samples before the trigger delay, as raw decimal text.
    pub fn read_latest(&mut self, source: Source, len: u32) -> (r: Vec<String>)
        requires
            old(self).socket.has_reply(),
        ensures
            query_sent(
                old(self).socket,
                final(self).socket,
                "ACQ:"@ + source.token_spec() + ":DATA:LAT:N? "@ + dec_string(len as nat),
            ),
            r.deep_view() == split_commas(strip_decorations_spec(reply_of(old(self).socket))),
    {
        proof {
            reveal_strlit(":DATA:LAT:N? ");
            assert((":DATA:LAT:N? "@)[11] == '?');
            lemma_append_contains_right("ACQ:"@ + source.token_spec(), ":DATA:LAT:N? "@, '?');
            lemma_append_contains_left(
                "ACQ:"@ + source.token_spec() + ":DATA:LAT:N? "@,
                dec_string(len as nat),
                '?',
            );
        }
        let tok = source.encode();
        let num = u32_to_string(len);
        let cmd = crate::codec::concat4("ACQ:", tok.as_str(), ":DATA:LAT:N? ", num.as_str());
        let line = self.socket.send_query(cmd.as_str());
        split_list(line.as_str())
    }

    /// Returns the buffer size.
    pub fn buffer_size(&mut self) -> (r: Result<u32, Error>)
        requires
            old(self).socket.has_reply(),
        ensures
            query_sent(old(self).socket, final(self).socket, "ACQ:BUF:SIZE?"@),
            u32_decoded(r, reply_of(old(self).socket)),
    {
        proof {
            reveal_strlit("ACQ:BUF:SIZE?");
            assert(("ACQ:BUF:SIZE?"@)[12] == '?');
            assert(crate::codec::is_query_spec("ACQ:BUF:SIZE?"@));
        }
        let line = self.socket.send_query("ACQ:BUF:SIZE?");
        parse_u32(line.as_str())
    }
}

} // verus!
