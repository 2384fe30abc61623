//! Digital pin control.

use vstd::prelude::*;
use crate::codec::{concat2, concat4, lemma_append_contains_left, lemma_no_qm4};
use crate::error::Error;
use crate::param::{decode, decoded, Parameter};
use crate::socket::{directive_sent, query_sent, reply_of, Socket};

verus! {

/// A digital pin the instrument can drive or read: a gpio line or an
/// on-board led.
pub trait Pin: Parameter {

}

/// A general-purpose digital pin.
#[allow(non_camel_case_types)]
#[derive(Copy, Clone, Debug, PartialEq, Eq, Structural)]
pub enum Gpio {
    DIO0_N,
    DIO0_P,
    DIO1_N,
    DIO1_P,
    DIO2_N,
    DIO2_P,
    DIO3_N,
    DIO3_P,
    DIO4_N,
    DIO4_P,
    DIO5_N,
    DIO5_P,
    DIO6_N,
    DIO6_P,
    DIO7_N,
    DIO7_P,
}

impl Parameter for Gpio {
    open spec fn token_spec(self) -> Seq<char> {
        match self {
            Gpio::DIO0_N => "DIO0_N"@,
            Gpio::DIO0_P => "DIO0_P"@,
            Gpio::DIO1_N => "DIO1_N"@,
            Gpio::DIO1_P => "DIO1_P"@,
            Gpio::DIO2_N => "DIO2_N"@,
            Gpio::DIO2_P => "DIO2_P"@,
            Gpio::DIO3_N => "DIO3_N"@,
            Gpio::DIO3_P => "DIO3_P"@,
            Gpio::DIO4_N => "DIO4_N"@,
            Gpio::DIO4_P => "DIO4_P"@,
            Gpio::DIO5_N => "DIO5_N"@,
            Gpio::DIO5_P => "DIO5_P"@,
            Gpio::DIO6_N => "DIO6_N"@,
            Gpio::DIO6_P => "DIO6_P"@,
            Gpio::DIO7_N => "DIO7_N"@,
            Gpio::DIO7_P => "DIO7_P"@,
        }
    }

    open spec fn family_spec() -> Seq<char> {
        "gpio pin"@
    }

    open spec fn variants_spec() -> Seq<Self> {
        seq![Gpio::DIO0_N, Gpio::DIO0_P, Gpio::DIO1_N, Gpio::DIO1_P, Gpio::DIO2_N, Gpio::DIO2_P, Gpio::DIO3_N, Gpio::DIO3_P, Gpio::DIO4_N, Gpio::DIO4_P, Gpio::DIO5_N, Gpio::DIO5_P, Gpio::DIO6_N, Gpio::DIO6_P, Gpio::DIO7_N, Gpio::DIO7_P]
    }

    proof fn lemma_variants_cover(self) {
        match self {
            Gpio::DIO0_N => assert(Self::variants_spec()[0] == self),
            Gpio::DIO0_P => assert(Self::variants_spec()[1] == self),
            Gpio::DIO1_N => assert(Self::variants_spec()[2] == self),
            Gpio::DIO1_P => assert(Self::variants_spec()[3] == self),
            Gpio::DIO2_N => assert(Self::variants_spec()[4] == self),
            Gpio::DIO2_P => assert(Self::variants_spec()[5] == self),
            Gpio::DIO3_N => assert(Self::variants_spec()[6] == self),
            Gpio::DIO3_P => assert(Self::variants_spec()[7] == self),
            Gpio::DIO4_N => assert(Self::variants_spec()[8] == self),
            Gpio::DIO4_P => assert(Self::variants_spec()[9] == self),
            Gpio::DIO5_N => assert(Self::variants_spec()[10] == self),
            Gpio::DIO5_P => assert(Self::variants_spec()[11] == self),
            Gpio::DIO6_N => assert(Self::variants_spec()[12] == self),
            Gpio::DIO6_P => assert(Self::variants_spec()[13] == self),
            Gpio::DIO7_N => assert(Self::variants_spec()[14] == self),
            Gpio::DIO7_P => assert(Self::variants_spec()[15] == self),
        }
    }

    proof fn lemma_tokens_injective(a: Self, b: Self) {
        reveal_strlit("DIO0_N");
        reveal_strlit("DIO0_P");
        reveal_strlit("DIO1_N");
        reveal_strlit("DIO1_P");
        reveal_strlit("DIO2_N");
        reveal_strlit("DIO2_P");
        reveal_strlit("DIO3_N");
        reveal_strlit("DIO3_P");
        reveal_strlit("DIO4_N");
        reveal_strlit("DIO4_P");
        reveal_strlit("DIO5_N");
        reveal_strlit("DIO5_P");
        reveal_strlit("DIO6_N");
        reveal_strlit("DIO6_P");
        reveal_strlit("DIO7_N");
        reveal_strlit("DIO7_P");
        assert(("DIO0_N"@)[5] != ("DIO0_P"@)[5]);
        assert(("DIO0_N"@)[3] != ("DIO1_N"@)[3]);
        assert(("DIO0_N"@)[3] != ("DIO1_P"@)[3]);
        assert(("DIO0_N"@)[3] != ("DIO2_N"@)[3]);
        assert(("DIO0_N"@)[3] != ("DIO2_P"@)[3]);
        assert(("DIO0_N"@)[3] != ("DIO3_N"@)[3]);
        assert(("DIO0_N"@)[3] != ("DIO3_P"@)[3]);
        assert(("DIO0_N"@)[3] != ("DIO4_N"@)[3]);
        assert(("DIO0_N"@)[3] != ("DIO4_P"@)[3]);
        assert(("DIO0_N"@)[3] != ("DIO5_N"@)[3]);
        assert(("DIO0_N"@)[3] != ("DIO5_P"@)[3]);
        assert(("DIO0_N"@)[3] != ("DIO6_N"@)[3]);
        assert(("DIO0_N"@)[3] != ("DIO6_P"@)[3]);
        assert(("DIO0_N"@)[3] != ("DIO7_N"@)[3]);
        assert(("DIO0_N"@)[3] != ("DIO7_P"@)[3]);
        assert(("DIO0_P"@)[3] != ("DIO1_N"@)[3]);
        assert(("DIO0_P"@)[3] != ("DIO1_P"@)[3]);
        assert(("DIO0_P"@)[3] != ("DIO2_N"@)[3]);
        assert(("DIO0_P"@)[3] != ("DIO2_P"@)[3]);
        assert(("DIO0_P"@)[3] != ("DIO3_N"@)[3]);
        assert(("DIO0_P"@)[3] != ("DIO3_P"@)[3]);
        assert(("DIO0_P"@)[3] != ("DIO4_N"@)[3]);
        assert(("DIO0_P"@)[3] != ("DIO4_P"@)[3]);
        assert(("DIO0_P"@)[3] != ("DIO5_N"@)[3]);
        assert(("DIO0_P"@)[3] != ("DIO5_P"@)[3]);
        assert(("DIO0_P"@)[3] != ("DIO6_N"@)[3]);
        assert(("DIO0_P"@)[3] != ("DIO6_P"@)[3]);
        assert(("DIO0_P"@)[3] != ("DIO7_N"@)[3]);
        assert(("DIO0_P"@)[3] != ("DIO7_P"@)[3]);
        assert(("DIO1_N"@)[5] != ("DIO1_P"@)[5]);
        assert(("DIO1_N"@)[3] != ("DIO2_N"@)[3]);
        assert(("DIO1_N"@)[3] != ("DIO2_P"@)[3]);
        assert(("DIO1_N"@)[3] != ("DIO3_N"@)[3]);
        assert(("DIO1_N"@)[3] != ("DIO3_P"@)[3]);
        assert(("DIO1_N"@)[3] != ("DIO4_N"@)[3]);
        assert(("DIO1_N"@)[3] != ("DIO4_P"@)[3]);
        assert(("DIO1_N"@)[3] != ("DIO5_N"@)[3]);
        assert(("DIO1_N"@)[3] != ("DIO5_P"@)[3]);
        assert(("DIO1_N"@)[3] != ("DIO6_N"@)[3]);
        assert(("DIO1_N"@)[3] != ("DIO6_P"@)[3]);
        assert(("DIO1_N"@)[3] != ("DIO7_N"@)[3]);
        assert(("DIO1_N"@)[3] != ("DIO7_P"@)[3]);
        assert(("DIO1_P"@)[3] != ("DIO2_N"@)[3]);
        assert(("DIO1_P"@)[3] != ("DIO2_P"@)[3]);
        assert(("DIO1_P"@)[3] != ("DIO3_N"@)[3]);
        assert(("DIO1_P"@)[3] != ("DIO3_P"@)[3]);
        assert(("DIO1_P"@)[3] != ("DIO4_N"@)[3]);
        assert(("DIO1_P"@)[3] != ("DIO4_P"@)[3]);
        assert(("DIO1_P"@)[3] != ("DIO5_N"@)[3]);
        assert(("DIO1_P"@)[3] != ("DIO5_P"@)[3]);
        assert(("DIO1_P"@)[3] != ("DIO6_N"@)[3]);
        assert(("DIO1_P"@)[3] != ("DIO6_P"@)[3]);
        assert(("DIO1_P"@)[3] != ("DIO7_N"@)[3]);
        assert(("DIO1_P"@)[3] != ("DIO7_P"@)[3]);
        assert(("DIO2_N"@)[5] != ("DIO2_P"@)[5]);
        assert(("DIO2_N"@)[3] != ("DIO3_N"@)[3]);
        assert(("DIO2_N"@)[3] != ("DIO3_P"@)[3]);
        assert(("DIO2_N"@)[3] != ("DIO4_N"@)[3]);
        assert(("DIO2_N"@)[3] != ("DIO4_P"@)[3]);
        assert(("DIO2_N"@)[3] != ("DIO5_N"@)[3]);
        assert(("DIO2_N"@)[3] != ("DIO5_P"@)[3]);
        assert(("DIO2_N"@)[3] != ("DIO6_N"@)[3]);
        assert(("DIO2_N"@)[3] != ("DIO6_P"@)[3]);
        assert(("DIO2_N"@)[3] != ("DIO7_N"@)[3]);
        assert(("DIO2_N"@)[3] != ("DIO7_P"@)[3]);
        assert(("DIO2_P"@)[3] != ("DIO3_N"@)[3]);
        assert(("DIO2_P"@)[3] != ("DIO3_P"@)[3]);
        assert(("DIO2_P"@)[3] != ("DIO4_N"@)[3]);
        assert(("DIO2_P"@)[3] != ("DIO4_P"@)[3]);
        assert(("DIO2_P"@)[3] != ("DIO5_N"@)[3]);
        assert(("DIO2_P"@)[3] != ("DIO5_P"@)[3]);
        assert(("DIO2_P"@)[3] != ("DIO6_N"@)[3]);
        assert(("DIO2_P"@)[3] != ("DIO6_P"@)[3]);
        assert(("DIO2_P"@)[3] != ("DIO7_N"@)[3]);
        assert(("DIO2_P"@)[3] != ("DIO7_P"@)[3]);
        assert(("DIO3_N"@)[5] != ("DIO3_P"@)[5]);
        assert(("DIO3_N"@)[3] != ("DIO4_N"@)[3]);
        assert(("DIO3_N"@)[3] != ("DIO4_P"@)[3]);
        assert(("DIO3_N"@)[3] != ("DIO5_N"@)[3]);
        assert(("DIO3_N"@)[3] != ("DIO5_P"@)[3]);
        assert(("DIO3_N"@)[3] != ("DIO6_N"@)[3]);
        assert(("DIO3_N"@)[3] != ("DIO6_P"@)[3]);
        assert(("DIO3_N"@)[3] != ("DIO7_N"@)[3]);
        assert(("DIO3_N"@)[3] != ("DIO7_P"@)[3]);
        assert(("DIO3_P"@)[3] != ("DIO4_N"@)[3]);
        assert(("DIO3_P"@)[3] != ("DIO4_P"@)[3]);
        assert(("DIO3_P"@)[3] != ("DIO5_N"@)[3]);
        assert(("DIO3_P"@)[3] != ("DIO5_P"@)[3]);
        assert(("DIO3_P"@)[3] != ("DIO6_N"@)[3]);
        assert(("DIO3_P"@)[3] != ("DIO6_P"@)[3]);
        assert(("DIO3_P"@)[3] != ("DIO7_N"@)[3]);
        assert(("DIO3_P"@)[3] != ("DIO7_P"@)[3]);
        assert(("DIO4_N"@)[5] != ("DIO4_P"@)[5]);
        assert(("DIO4_N"@)[3] != ("DIO5_N"@)[3]);
        assert(("DIO4_N"@)[3] != ("DIO5_P"@)[3]);
        assert(("DIO4_N"@)[3] != ("DIO6_N"@)[3]);
        assert(("DIO4_N"@)[3] != ("DIO6_P"@)[3]);
        assert(("DIO4_N"@)[3] != ("DIO7_N"@)[3]);
        assert(("DIO4_N"@)[3] != ("DIO7_P"@)[3]);
        assert(("DIO4_P"@)[3] != ("DIO5_N"@)[3]);
        assert(("DIO4_P"@)[3] != ("DIO5_P"@)[3]);
        assert(("DIO4_P"@)[3] != ("DIO6_N"@)[3]);
        assert(("DIO4_P"@)[3] != ("DIO6_P"@)[3]);
        assert(("DIO4_P"@)[3] != ("DIO7_N"@)[3]);
        assert(("DIO4_P"@)[3] != ("DIO7_P"@)[3]);
        assert(("DIO5_N"@)[5] != ("DIO5_P"@)[5]);
        assert(("DIO5_N"@)[3] != ("DIO6_N"@)[3]);
        assert(("DIO5_N"@)[3] != ("DIO6_P"@)[3]);
        assert(("DIO5_N"@)[3] != ("DIO7_N"@)[3]);
        assert(("DIO5_N"@)[3] != ("DIO7_P"@)[3]);
        assert(("DIO5_P"@)[3] != ("DIO6_N"@)[3]);
        assert(("DIO5_P"@)[3] != ("DIO6_P"@)[3]);
        assert(("DIO5_P"@)[3] != ("DIO7_N"@)[3]);
        assert(("DIO5_P"@)[3] != ("DIO7_P"@)[3]);
        assert(("DIO6_N"@)[5] != ("DIO6_P"@)[5]);
        assert(("DIO6_N"@)[3] != ("DIO7_N"@)[3]);
        assert(("DIO6_N"@)[3] != ("DIO7_P"@)[3]);
        assert(("DIO6_P"@)[3] != ("DIO7_N"@)[3]);
        assert(("DIO6_P"@)[3] != ("DIO7_P"@)[3]);
        assert(("DIO7_N"@)[5] != ("DIO7_P"@)[5]);
    }

    proof fn lemma_tokens_wire_safe(self) {
        reveal_strlit("DIO0_N");
        reveal_strlit("DIO0_P");
        reveal_strlit("DIO1_N");
        reveal_strlit("DIO1_P");
        reveal_strlit("DIO2_N");
        reveal_strlit("DIO2_P");
        reveal_strlit("DIO3_N");
        reveal_strlit("DIO3_P");
        reveal_strlit("DIO4_N");
        reveal_strlit("DIO4_P");
        reveal_strlit("DIO5_N");
        reveal_strlit("DIO5_P");
        reveal_strlit("DIO6_N");
        reveal_strlit("DIO6_P");
        reveal_strlit("DIO7_N");
        reveal_strlit("DIO7_P");
    }

    fn variants() -> (vs: Vec<Self>) {
        let mut vs: Vec<Self> = Vec::new();
        vs.push(Gpio::DIO0_N);
        vs.push(Gpio::DIO0_P);
        vs.push(Gpio::DIO1_N);
        vs.push(Gpio::DIO1_P);
        vs.push(Gpio::DIO2_N);
        vs.push(Gpio::DIO2_P);
        vs.push(Gpio::DIO3_N);
        vs.push(Gpio::DIO3_P);
        vs.push(Gpio::DIO4_N);
        vs.push(Gpio::DIO4_P);
        vs.push(Gpio::DIO5_N);
        vs.push(Gpio::DIO5_P);
        vs.push(Gpio::DIO6_N);
        vs.push(Gpio::DIO6_P);
        vs.push(Gpio::DIO7_N);
        vs.push(Gpio::DIO7_P);
        proof {
            assert(vs@ =~= Self::variants_spec());
        }
        vs
    }

    fn encode(self) -> (t: String) {
        match self {
            Gpio::DIO0_N => "DIO0_N".to_owned(),
            Gpio::DIO0_P => "DIO0_P".to_owned(),
            Gpio::DIO1_N => "DIO1_N".to_owned(),
            Gpio::DIO1_P => "DIO1_P".to_owned(),
            Gpio::DIO2_N => "DIO2_N".to_owned(),
            Gpio::DIO2_P => "DIO2_P".to_owned(),
            Gpio::DIO3_N => "DIO3_N".to_owned(),
            Gpio::DIO3_P => "DIO3_P".to_owned(),
            Gpio::DIO4_N => "DIO4_N".to_owned(),
            Gpio::DIO4_P => "DIO4_P".to_owned(),
            Gpio::DIO5_N => "DIO5_N".to_owned(),
            Gpio::DIO5_P => "DIO5_P".to_owned(),
            Gpio::DIO6_N => "DIO6_N".to_owned(),
            Gpio::DIO6_P => "DIO6_P".to_owned(),
            Gpio::DIO7_N => "DIO7_N".to_owned(),
            Gpio::DIO7_P => "DIO7_P".to_owned(),
        }
    }

    fn family() -> (f: String) {
        "gpio pin".to_owned()
    }
}

/// An on-board led.
#[derive(Copy, Clone, Debug, PartialEq, Eq, Structural)]
pub enum Led {
    LED0,
    LED1,
    LED2,
    LED3,
    LED4,
    LED5,
    LED6,
    LED7,
    LED8,
}

impl Parameter for Led {
    open spec fn token_spec(self) -> Seq<char> {
        match self {
            Led::LED0 => "LED0"@,
            Led::LED1 => "LED1"@,
            Led::LED2 => "LED2"@,
            Led::LED3 => "LED3"@,
            Led::LED4 => "LED4"@,
            Led::LED5 => "LED5"@,
            Led::LED6 => "LED6"@,
            Led::LED7 => "LED7"@,
            Led::LED8 => "LED8"@,
        }
    }

    open spec fn family_spec() -> Seq<char> {
        "led pin"@
    }

    open spec fn variants_spec() -> Seq<Self> {
        seq![Led::LED0, Led::LED1, Led::LED2, Led::LED3, Led::LED4, Led::LED5, Led::LED6, Led::LED7, Led::LED8]
    }

    proof fn lemma_variants_cover(self) {
        match self {
            Led::LED0 => assert(Self::variants_spec()[0] == self),
            Led::LED1 => assert(Self::variants_spec()[1] == self),
            Led::LED2 => assert(Self::variants_spec()[2] == self),
            Led::LED3 => assert(Self::variants_spec()[3] == self),
            Led::LED4 => assert(Self::variants_spec()[4] == self),
            Led::LED5 => assert(Self::variants_spec()[5] == self),
            Led::LED6 => assert(Self::variants_spec()[6] == self),
            Led::LED7 => assert(Self::variants_spec()[7] == self),
            Led::LED8 => assert(Self::variants_spec()[8] == self),
        }
    }

    proof fn lemma_tokens_injective(a: Self, b: Self) {
        reveal_strlit("LED0");
        reveal_strlit("LED1");
        reveal_strlit("LED2");
        reveal_strlit("LED3");
        reveal_strlit("LED4");
        reveal_strlit("LED5");
        reveal_strlit("LED6");
        reveal_strlit("LED7");
        reveal_strlit("LED8");
        assert(("LED0"@)[3] != ("LED1"@)[3]);
        assert(("LED0"@)[3] != ("LED2"@)[3]);
        assert(("LED0"@)[3] != ("LED3"@)[3]);
        assert(("LED0"@)[3] != ("LED4"@)[3]);
        assert(("LED0"@)[3] != ("LED5"@)[3]);
        assert(("LED0"@)[3] != ("LED6"@)[3]);
        assert(("LED0"@)[3] != ("LED7"@)[3]);
        assert(("LED0"@)[3] != ("LED8"@)[3]);
        assert(("LED1"@)[3] != ("LED2"@)[3]);
        assert(("LED1"@)[3] != ("LED3"@)[3]);
        assert(("LED1"@)[3] != ("LED4"@)[3]);
        assert(("LED1"@)[3] != ("LED5"@)[3]);
        assert(("LED1"@)[3] != ("LED6"@)[3]);
        assert(("LED1"@)[3] != ("LED7"@)[3]);
        assert(("LED1"@)[3] != ("LED8"@)[3]);
        assert(("LED2"@)[3] != ("LED3"@)[3]);
        assert(("LED2"@)[3] != ("LED4"@)[3]);
        assert(("LED2"@)[3] != ("LED5"@)[3]);
        assert(("LED2"@)[3] != ("LED6"@)[3]);
        assert(("LED2"@)[3] != ("LED7"@)[3]);
        assert(("LED2"@)[3] != ("LED8"@)[3]);
        assert(("LED3"@)[3] != ("LED4"@)[3]);
        assert(("LED3"@)[3] != ("LED5"@)[3]);
        assert(("LED3"@)[3] != ("LED6"@)[3]);
        assert(("LED3"@)[3] != ("LED7"@)[3]);
        assert(("LED3"@)[3] != ("LED8"@)[3]);
        assert(("LED4"@)[3] != ("LED5"@)[3]);
        assert(("LED4"@)[3] != ("LED6"@)[3]);
        assert(("LED4"@)[3] != ("LED7"@)[3]);
        assert(("LED4"@)[3] != ("LED8"@)[3]);
        assert(("LED5"@)[3] != ("LED6"@)[3]);
        assert(("LED5"@)[3] != ("LED7"@)[3]);
        assert(("LED5"@)[3] != ("LED8"@)[3]);
        assert(("LED6"@)[3] != ("LED7"@)[3]);
        assert(("LED6"@)[3] != ("LED8"@)[3]);
        assert(("LED7"@)[3] != ("LED8"@)[3]);
    }

    proof fn lemma_tokens_wire_safe(self) {
        reveal_strlit("LED0");
        reveal_strlit("LED1");
        reveal_strlit("LED2");
        reveal_strlit("LED3");
        reveal_strlit("LED4");
        reveal_strlit("LED5");
        reveal_strlit("LED6");
        reveal_strlit("LED7");
        reveal_strlit("LED8");
    }

    fn variants() -> (vs: Vec<Self>) {
        let mut vs: Vec<Self> = Vec::new();
        vs.push(Led::LED0);
        vs.push(Led::LED1);
        vs.push(Led::LED2);
        vs.push(Led::LED3);
        vs.push(Led::LED4);
        vs.push(Led::LED5);
        vs.push(Led::LED6);
        vs.push(Led::LED7);
        vs.push(Led::LED8);
        proof {
            assert(vs@ =~= Self::variants_spec());
        }
        vs
    }

    fn encode(self) -> (t: String) {
        match self {
            Led::LED0 => "LED0".to_owned(),
            Led::LED1 => "LED1".to_owned(),
            Led::LED2 => "LED2".to_owned(),
            Led::LED3 => "LED3".to_owned(),
            Led::LED4 => "LED4".to_owned(),
            Led::LED5 => "LED5".to_owned(),
            Led::LED6 => "LED6".to_owned(),
            Led::LED7 => "LED7".to_owned(),
            Led::LED8 => "LED8".to_owned(),
        }
    }

    fn family() -> (f: String) {
        "led pin".to_owned()
    }
}

/// Logic level of a digital pin.
#[derive(Copy, Clone, Debug, PartialEq, Eq, Structural)]
pub enum State {
    LOW,
    HIGH,
}

impl Parameter for State {
    open spec fn token_spec(self) -> Seq<char> {
        match self {
            State::LOW => "0"@,
            State::HIGH => "1"@,
        }
    }

    open spec fn family_spec() -> Seq<char> {
        "pin state"@
    }

    open spec fn variants_spec() -> Seq<Self> {
        seq![State::LOW, State::HIGH]
    }

    proof fn lemma_variants_cover(self) {
        match self {
            State::LOW => assert(Self::variants_spec()[0] == self),
            State::HIGH => assert(Self::variants_spec()[1] == self),
        }
    }

    proof fn lemma_tokens_injective(a: Self, b: Self) {
        reveal_strlit("0");
        reveal_strlit("1");
        assert(("0"@)[0] != ("1"@)[0]);
    }

    proof fn lemma_tokens_wire_safe(self) {
        reveal_strlit("0");
        reveal_strlit("1");
    }

    fn variants() -> (vs: Vec<Self>) {
        let mut vs: Vec<Self> = Vec::new();
        vs.push(State::LOW);
        vs.push(State::HIGH);
        proof {
            assert(vs@ =~= Self::variants_spec());
        }
        vs
    }

    fn encode(self) -> (t: String) {
        match self {
            State::LOW => "0".to_owned(),
            State::HIGH => "1".to_owned(),
        }
    }

    fn family() -> (f: String) {
        "pin state".to_owned()
    }
}

/// Direction of a digital pin.
#[derive(Copy, Clone, Debug, PartialEq, Eq, Structural)]
pub enum Direction {
    OUT,
    IN,
}

impl Parameter for Direction {
    open spec fn token_spec(self) -> Seq<char> {
        match self {
            Direction::OUT => "OUT"@,
            Direction::IN => "IN"@,
        }
    }

    open spec fn family_spec() -> Seq<char> {
        "pin direction"@
    }

    open spec fn variants_spec() -> Seq<Self> {
        seq![Direction::OUT, Direction::IN]
    }

    proof fn lemma_variants_cover(self) {
        match self {
            Direction::OUT => assert(Self::variants_spec()[0] == self),
            Direction::IN => assert(Self::variants_spec()[1] == self),
        }
    }

    proof fn lemma_tokens_injective(a: Self, b: Self) {
        reveal_strlit("IN");
        reveal_strlit("OUT");
        assert(("OUT"@).len() != ("IN"@).len());
    }

    proof fn lemma_tokens_wire_safe(self) {
        reveal_strlit("IN");
        reveal_strlit("OUT");
    }

    fn variants() -> (vs: Vec<Self>) {
        let mut vs: Vec<Self> = Vec::new();
        vs.push(Direction::OUT);
        vs.push(Direction::IN);
        proof {
            assert(vs@ =~= Self::variants_spec());
        }
        vs
    }

    fn encode(self) -> (t: String) {
        match self {
            Direction::OUT => "OUT".to_owned(),
            Direction::IN => "IN".to_owned(),
        }
    }

    fn family() -> (f: String) {
        "pin direction".to_owned()
    }
}

impl Pin for Gpio {

}

impl Pin for Led {

}

/// The digital pin subsystem.
#[derive(Clone)]
pub struct Digital {
    pub socket: Socket,
}

impl Digital {
    /// Creates the subsystem over its session.
    pub fn new(socket: Socket) -> (r: Self)
        ensures
            r.socket == socket,
    {
        Digital { socket }
    }

    /// Sets digital pins to default values: the gpio lines to output and
    /// low, the leds to off.
    pub fn reset(&mut self)
        ensures
            directive_sent(old(self).socket, final(self).socket, "DIG:RST"@),
    {
        proof {
            reveal_strlit("DIG:RST");
        }
        self.socket.send_directive("DIG:RST");
    }

    /// Sets the direction of a digital pin to output or input.
    pub fn set_direction<P: Pin>(&mut self, pin: P, direction: Direction)
        ensures
            directive_sent(
                old(self).socket,
                final(self).socket,
                "DIG:PIN:DIR "@ + direction.token_spec() + ","@ + pin.token_spec(),
            ),
    {
        proof {
            reveal_strlit("DIG:PIN:DIR ");
            reveal_strlit(",");
            direction.lemma_tokens_wire_safe();
            pin.lemma_tokens_wire_safe();
            lemma_no_qm4("DIG:PIN:DIR "@, direction.token_spec(), ","@, pin.token_spec());
        }
        let d = direction.encode();
        let p = pin.encode();
        let cmd = concat4("DIG:PIN:DIR ", d.as_str(), ",", p.as_str());
        self.socket.send_directive(cmd.as_str());
    }

    /// Sets the state of a digital output to high or low.
    pub fn set_state<P: Pin>(&mut self, pin: P, state: State)
        ensures
            directive_sent(
                old(self).socket,
                final(self).socket,
                "DIG:PIN "@ + pin.token_spec() + ","@ + state.token_spec(),
            ),
    {
        proof {
            reveal_strlit("DIG:PIN ");
            reveal_strlit(",");
            pin.lemma_tokens_wire_safe();
            state.lemma_tokens_wire_safe();
            lemma_no_qm4("DIG:PIN "@, pin.token_spec(), ","@, state.token_spec());
        }
        let p = pin.encode();
        let s = state.encode();
        let cmd = concat4("DIG:PIN ", p.as_str(), ",", s.as_str());
        self.socket.send_directive(cmd.as_str());
    }

    /// Gets the state of a digital input or output.
    pub fn get_state<P: Pin>(&mut self, pin: P) -> (r: Result<State, Error>)
        requires
            old(self).socket.has_reply(),
        ensures
            query_sent(old(self).socket, final(self).socket, "DIG:PIN? "@ + pin.token_spec()),
            decoded::<State>(r, reply_of(old(self).socket)),
    {
        proof {
            reveal_strlit("DIG:PIN? ");
            assert(("DIG:PIN? "@)[7] == '?');
            lemma_append_contains_left("DIG:PIN? "@, pin.token_spec(), '?');
        }
        let p = pin.encode();
        let cmd = concat2("DIG:PIN? ", p.as_str());
        let line = self.socket.send_query(cmd.as_str());
        decode::<State>(line.as_str())
    }
}

} // verus!
