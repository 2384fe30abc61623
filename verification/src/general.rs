//! General instrument control.

use vstd::prelude::*;
use crate::codec::{concat2, lemma_append_no_char};
use crate::socket::{directive_sent, Socket};

verus! {

/// The general control subsystem.
#[derive(Clone)]
pub struct General {
    pub socket: Socket,
}

impl General {
    /// Creates the subsystem over its session.
    pub fn new(socket: Socket) -> (r: Self)
        ensures
            r.socket == socket,
    {
        General { socket }
    }

    /// Initializes the instrument. It must be called first, before any other
    /// operation.
    pub fn init(&mut self)
        ensures
            directive_sent(old(self).socket, final(self).socket, "RP:INit"@),
    {
        proof {
            reveal_strlit("RP:INit");
        }
        self.socket.send_directive("RP:INit");
    }

    /// Resets all subsystems.
    pub fn reset(&mut self)
        ensures
            directive_sent(old(self).socket, final(self).socket, "RP:REset"@),
    {
        proof {
            reveal_strlit("RP:REset");
        }
        self.socket.send_directive("RP:REset");
    }

    /// Releases the instrument's resources. It must be called last, after
    /// the instrument is no longer used.
    pub fn release(&mut self)
        ensures
            directive_sent(old(self).socket, final(self).socket, "RP:RELease"@),
    {
        proof {
            reveal_strlit("RP:RELease");
        }
        self.socket.send_directive("RP:RELease");
    }

    /// Loads the given bitstream version (0.93 or 0.94, rendered as decimal
    /// text) into the fpga.
    pub fn fpga_load_bitstream(&mut self, version: &str)
        requires
            !version@.contains('?'),
        ensures
            directive_sent(old(self).socket, final(self).socket, "RP:FPGABITREAM "@ + version@),
    {
        proof {
            reveal_strlit("RP:FPGABITREAM ");
            lemma_append_no_char("RP:FPGABITREAM "@, version@, '?');
        }
        let cmd = concat2("RP:FPGABITREAM ", version);
        self.socket.send_directive(cmd.as_str());
    }

    /// Enables the digital loop that internally connects output to input.
    pub fn enable_digital_loop(&mut self)
        ensures
            directive_sent(old(self).socket, final(self).socket, "RP:DIG:LOop"@),
    {
        proof {
            reveal_strlit("RP:DIG:LOop");
        }
        self.socket.send_directive("RP:DIG:LOop");
    }
}

} // verus!
