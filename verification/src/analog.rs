//! Slow analog pin control.

use vstd::prelude::*;
use crate::codec::{concat2, concat4, lemma_append_contains_left, lemma_no_qm4};
use crate::param::Parameter;
use crate::socket::{directive_sent, query_sent, reply_of, Socket};

verus! {

/// A slow analog pin the instrument can drive or read.
pub trait Pin: Parameter {

}

/// A slow analog output pin.
#[derive(Copy, Clone, Debug, PartialEq, Eq, Structural)]
pub enum OutputPin {
    AOUT0,
    AOUT1,
    AOUT2,
    AOUT3,
}

impl Parameter for OutputPin {
    open spec fn token_spec(self) -> Seq<char> {
        match self {
            OutputPin::AOUT0 => "AOUT0"@,
            OutputPin::AOUT1 => "AOUT1"@,
            OutputPin::AOUT2 => "AOUT2"@,
            OutputPin::AOUT3 => "AOUT3"@,
        }
    }

    open spec fn family_spec() -> Seq<char> {
        "analog output pin"@
    }

    open spec fn variants_spec() -> Seq<Self> {
        seq![OutputPin::AOUT0, OutputPin::AOUT1, OutputPin::AOUT2, OutputPin::AOUT3]
    }

    proof fn lemma_variants_cover(self) {
        match self {
            OutputPin::AOUT0 => assert(Self::variants_spec()[0] == self),
            OutputPin::AOUT1 => assert(Self::variants_spec()[1] == self),
            OutputPin::AOUT2 => assert(Self::variants_spec()[2] == self),
            OutputPin::AOUT3 => assert(Self::variants_spec()[3] == self),
        }
    }

    proof fn lemma_tokens_injective(a: Self, b: Self) {
        reveal_strlit("AOUT0");
        reveal_strlit("AOUT1");
        reveal_strlit("AOUT2");
        reveal_strlit("AOUT3");
        assert(("AOUT0"@)[4] != ("AOUT1"@)[4]);
        assert(("AOUT0"@)[4] != ("AOUT2"@)[4]);
        assert(("AOUT0"@)[4] != ("AOUT3"@)[4]);
        assert(("AOUT1"@)[4] != ("AOUT2"@)[4]);
        assert(("AOUT1"@)[4] != ("AOUT3"@)[4]);
        assert(("AOUT2"@)[4] != ("AOUT3"@)[4]);
    }

    proof fn lemma_tokens_wire_safe(self) {
        reveal_strlit("AOUT0");
        reveal_strlit("AOUT1");
        reveal_strlit("AOUT2");
        reveal_strlit("AOUT3");
    }

    fn variants() -> (vs: Vec<Self>) {
        let mut vs: Vec<Self> = Vec::new();
        vs.push(OutputPin::AOUT0);
        vs.push(OutputPin::AOUT1);
        vs.push(OutputPin::AOUT2);
        vs.push(OutputPin::AOUT3);
        proof {
            assert(vs@ =~= Self::variants_spec());
        }
        vs
    }

    fn encode(self) -> (t: String) {
        match self {
            OutputPin::AOUT0 => "AOUT0".to_owned(),
            OutputPin::AOUT1 => "AOUT1".to_owned(),
            OutputPin::AOUT2 => "AOUT2".to_owned(),
            OutputPin::AOUT3 => "AOUT3".to_owned(),
        }
    }

    fn family() -> (f: String) {
        "analog output pin".to_owned()
    }
}

/// A slow analog input pin.
#[derive(Copy, Clone, Debug, PartialEq, Eq, Structural)]
pub enum InputPin {
    AIN0,
    AIN1,
    AIN2,
    AIN3,
}

impl Parameter for InputPin {
    open spec fn token_spec(self) -> Seq<char> {
        match self {
            InputPin::AIN0 => "AIN0"@,
            InputPin::AIN1 => "AIN1"@,
            InputPin::AIN2 => "AIN2"@,
            InputPin::AIN3 => "AIN3"@,
        }
    }

    open spec fn family_spec() -> Seq<char> {
        "analog input pin"@
    }

    open spec fn variants_spec() -> Seq<Self> {
        seq![InputPin::AIN0, InputPin::AIN1, InputPin::AIN2, InputPin::AIN3]
    }

    proof fn lemma_variants_cover(self) {
        match self {
            InputPin::AIN0 => assert(Self::variants_spec()[0] == self),
            InputPin::AIN1 => assert(Self::variants_spec()[1] == self),
            InputPin::AIN2 => assert(Self::variants_spec()[2] == self),
            InputPin::AIN3 => assert(Self::variants_spec()[3] == self),
        }
    }

    proof fn lemma_tokens_injective(a: Self, b: Self) {
        reveal_strlit("AIN0");
        reveal_strlit("AIN1");
        reveal_strlit("AIN2");
        reveal_strlit("AIN3");
        assert(("AIN0"@)[3] != ("AIN1"@)[3]);
        assert(("AIN0"@)[3] != ("AIN2"@)[3]);
        assert(("AIN0"@)[3] != ("AIN3"@)[3]);
        assert(("AIN1"@)[3] != ("AIN2"@)[3]);
        assert(("AIN1"@)[3] != ("AIN3"@)[3]);
        assert(("AIN2"@)[3] != ("AIN3"@)[3]);
    }

    proof fn lemma_tokens_wire_safe(self) {
        reveal_strlit("AIN0");
        reveal_strlit("AIN1");
        reveal_strlit("AIN2");
        reveal_strlit("AIN3");
    }

    fn variants() -> (vs: Vec<Self>) {
        let mut vs: Vec<Self> = Vec::new();
        vs.push(InputPin::AIN0);
        vs.push(InputPin::AIN1);
        vs.push(InputPin::AIN2);
        vs.push(InputPin::AIN3);
        proof {
            assert(vs@ =~= Self::variants_spec());
        }
        vs
    }

    fn encode(self) -> (t: String) {
        match self {
            InputPin::AIN0 => "AIN0".to_owned(),
            InputPin::AIN1 => "AIN1".to_owned(),
            InputPin::AIN2 => "AIN2".to_owned(),
            InputPin::AIN3 => "AIN3".to_owned(),
        }
    }

    fn family() -> (f: String) {
        "analog input pin".to_owned()
    }
}

impl Pin for OutputPin {

}

impl Pin for InputPin {

}

/// The slow analog pin subsystem.
#[derive(Clone)]
pub struct Analog {
    pub socket: Socket,
}

impl Analog {
    /// Creates the subsystem over its session.
    pub fn new(socket: Socket) -> (r: Self)
        ensures
            r.socket == socket,
    {
        Analog { socket }
    }

    /// Sets analog outputs to their default value of zero volts.
    pub fn reset(&mut self)
        ensures
            directive_sent(old(self).socket, final(self).socket, "ANALOG:RST"@),
    {
        proof {
            reveal_strlit("ANALOG:RST");
        }
        self.socket.send_directive("ANALOG:RST");
    }

    /// Sets the voltage of a slow analog output, given in volts rendered as
    /// decimal text; the output range is 0 to 1.8 V.
    pub fn set_value(&mut self, pin: OutputPin, value: &str)
        requires
            !value@.contains('?'),
        ensures
            directive_sent(
                old(self).socket,
                final(self).socket,
                "ANALOG:PIN "@ + pin.token_spec() + ","@ + value@,
            ),
    {
        proof {
            reveal_strlit("ANALOG:PIN ");
            reveal_strlit(",");
            pin.lemma_tokens_wire_safe();
            lemma_no_qm4("ANALOG:PIN "@, pin.token_spec(), ","@, value@);
        }
        let p = pin.encode();
        let cmd = concat4("ANALOG:PIN ", p.as_str(), ",", value);
        self.socket.send_directive(cmd.as_str());
    }

    /// Reads the voltage of a slow analog pin, as the decimal text the
    /// instrument replied; the input range is 0 to 3.3 V.
    pub fn get_value<P: Pin>(&mut self, pin: P) -> (r: String)
        requires
            old(self).socket.has_reply(),
        ensures
            query_sent(old(self).socket, final(self).socket, "ANALOG:PIN? "@ + pin.token_spec()),
            r@ == reply_of(old(self).socket),
    {
        proof {
            reveal_strlit("ANALOG:PIN? ");
            assert(("ANALOG:PIN? "@)[10] == '?');
            lemma_append_contains_left("ANALOG:PIN? "@, pin.token_spec(), '?');
        }
        let p = pin.encode();
        let cmd = concat2("ANALOG:PIN? ", p.as_str());
        self.socket.send_query(cmd.as_str())
    }
}

} // verus!
