//! Client library for the SCPI-style remote-control protocol of a Red Pitaya
//! measurement instrument.
//!
//! The crate is organised around a verified marshalling core:
//! - [`codec`] frames outbound command lines, trims inbound reply lines and
//!   classifies commands as queries or directives;
//! - [`param`] is the table-driven registry that maps every parameter
//!   enumeration to and from its wire token;
//! - [`scalar`] parses and prints decimal numbers and strips unit suffixes;
//! - [`list`] splits delimited numeric lists out of a reply line;
//! - [`socket`] models one half-duplex command/reply session.
//!
//! The instrument subsystems (acquisition, generator, trigger, digital and
//! analog pins, burst mode, buffered data) each build their command lines on
//! top of the core and are specified down to the exact bytes they put on the
//! wire.

use vstd::prelude::*;

pub mod acquire;
pub mod analog;
pub mod burst;
pub mod codec;
pub mod data;
pub mod digital;
pub mod error;
pub mod general;
pub mod generator;
pub mod list;
pub mod param;
pub mod scalar;
pub mod socket;
pub mod trigger;

verus! {

/// One instrument, with every subsystem addressing it over its own
/// connection-per-call session.
#[derive(Clone)]
pub struct Redpitaya {
    pub acquire: acquire::Acquire,
    pub analog: analog::Analog,
    pub burst: burst::Burst,
    pub data: data::Data,
    pub digital: digital::Digital,
    pub general: general::General,
    pub generator: generator::Generator,
    pub trigger: trigger::Trigger,
}

/// Every subsystem session is fresh and addresses `addr`.
pub open spec fn all_fresh(rp: Redpitaya, addr: Seq<char>) -> bool {
    &&& rp.acquire.socket.fresh(addr)
    &&& rp.analog.socket.fresh(addr)
    &&& rp.burst.socket.fresh(addr)
    &&& rp.data.socket.fresh(addr)
    &&& rp.digital.socket.fresh(addr)
    &&& rp.general.socket.fresh(addr)
    &&& rp.generator.socket.fresh(addr)
    &&& rp.trigger.socket.fresh(addr)
}

impl Redpitaya {
    /// Connects every subsystem to the instrument at `addr`, a `host:port`
    /// text.
    pub fn new(addr: String) -> (r: Self)
        ensures
            all_fresh(r, addr@),
    {
        Redpitaya {
            acquire: acquire::Acquire::new(socket::Socket::new(addr.clone())),
            analog: analog::Analog::new(socket::Socket::new(addr.clone())),
            burst: burst::Burst::new(socket::Socket::new(addr.clone())),
            data: data::Data::new(socket::Socket::new(addr.clone())),
            digital: digital::Digital::new(socket::Socket::new(addr.clone())),
            general: general::General::new(socket::Socket::new(addr.clone())),
            generator: generator::Generator::new(socket::Socket::new(addr.clone())),
            trigger: trigger::Trigger::new(socket::Socket::new(addr)),
        }
    }
}

impl Default for Redpitaya {
    /// An instrument at the default local address.
    fn default() -> (r: Self)
        ensures
            all_fresh(r, "127.0.0.1:5000"@),
    {
        Redpitaya::new("127.0.0.1:5000".to_owned())
    }
}

} // verus!
