//! The command/reply session model.
//!
//! A [`Socket`] stands for one half-duplex session with the instrument at a
//! fixed network address. Sending frames the command as a CRLF-terminated
//! line and appends it to the outbound queue; a query additionally consumes
//! the next queued reply line. The driver that owns the real connection
//! drains the outbound lines with [`Socket::pop_sent`] and feeds raw reply
//! lines in with [`Socket::queue_reply`]; inability to reach the instrument
//! is fatal for the call and never turns into a typed error, so a query may
//! only be sent while a reply is available.

use vstd::prelude::*;
use crate::codec::{frame, frame_spec, is_query, is_query_spec, trim_crlf_spec, trim_reply};

verus! {

/// One half-duplex session with the instrument.
#[derive(Clone)]
pub struct Socket {
    addr: String,
    sent: Vec<String>,
    replies: Vec<String>,
}

impl Socket {
    /// The instrument's network address.
    pub closed spec fn spec_addr(self) -> Seq<char> {
        self.addr@
    }

    /// The framed lines waiting to go out, oldest first.
    pub closed spec fn spec_sent(self) -> Seq<Seq<char>> {
        self.sent.deep_view()
    }

    /// The raw reply lines the driver has queued, oldest first.
    pub closed spec fn spec_replies(self) -> Seq<Seq<char>> {
        self.replies.deep_view()
    }

    /// A reply line is available for the next query.
    pub open spec fn has_reply(self) -> bool {
        self.spec_replies().len() > 0
    }

    /// A session just opened towards `addr`: nothing sent, nothing queued.
    pub open spec fn fresh(self, addr: Seq<char>) -> bool {
        &&& self.spec_addr() == addr
        &&& self.spec_sent() == Seq::<Seq<char>>::empty()
        &&& self.spec_replies() == Seq::<Seq<char>>::empty()
    }

    /// Opens a session towards the instrument at `addr`.
    pub fn new(addr: String) -> (r: Self)
        ensures
            r.fresh(addr@),
    {
        let r = Socket { addr, sent: Vec::new(), replies: Vec::new() };
        proof {
            assert(r.spec_sent() =~= Seq::<Seq<char>>::empty());
            assert(r.spec_replies() =~= Seq::<Seq<char>>::empty());
        }
        r
    }

    /// The address this session talks to.
    pub fn addr(&self) -> (a: &str)
        ensures
            a@ == self.spec_addr(),
    {
        self.addr.as_str()
    }

    /// Sends one command: frames it, appends the framed line to the outbound
    /// queue and, exactly when the command is a query, consumes the next
    /// queued reply line and returns it trimmed of its `"\r\n"`.
    pub fn send(&mut self, command: &str) -> (reply: Option<String>)
        requires
            is_query_spec(command@) ==> old(self).has_reply(),
        ensures
            final(self).spec_addr() == old(self).spec_addr(),
            final(self).spec_sent() == old(self).spec_sent().push(frame_spec(command@)),
            is_query_spec(command@) ==> {
                &&& final(self).spec_replies() == old(self).spec_replies().drop_first()
                &&& reply matches Some(line)
                    && line@ == trim_crlf_spec(old(self).spec_replies().first())
            },
            !is_query_spec(command@) ==> {
                &&& final(self).spec_replies() == old(self).spec_replies()
                &&& reply is None
            },
    {
        let ghost pre_sent = self.sent.deep_view();
        let line = frame(command);
        self.sent.push(line);
        proof {
            assert(self.sent.deep_view() =~~= pre_sent.push(frame_spec(command@)));
        }
        if is_query(command) {
            let ghost pre_replies = self.replies.deep_view();
            let raw = self.replies.remove(0);
            proof {
                assert(self.replies.deep_view() =~~= pre_replies.drop_first());
            }
            Some(trim_reply(raw.as_str()))
        } else {
            None
        }
    }

    /// Sends a command known not to be a query; no reply is read.
    pub fn send_directive(&mut self, command: &str)
        requires
            !is_query_spec(command@),
        ensures
            directive_sent(*old(self), *final(self), command@),
    {
        let _ = self.send(command);
    }

    /// Sends a query and returns its reply line, trimmed of its `"\r\n"`.
    pub fn send_query(&mut self, command: &str) -> (line: String)
        requires
            is_query_spec(command@),
            old(self).has_reply(),
        ensures
            query_sent(*old(self), *final(self), command@),
            line@ == reply_of(*old(self)),
    {
        let reply = self.send(command);
        reply.unwrap()
    }

    /// Hands the driver the oldest outbound line that has not gone out yet.
    pub fn pop_sent(&mut self) -> (r: Option<String>)
        ensures
            final(self).spec_addr() == old(self).spec_addr(),
            final(self).spec_replies() == old(self).spec_replies(),
            old(self).spec_sent().len() == 0 ==> r is None && final(self).spec_sent() == old(
                self,
            ).spec_sent(),
            old(self).spec_sent().len() > 0 ==> {
                &&& r matches Some(line) && line@ == old(self).spec_sent().first()
                &&& final(self).spec_sent() == old(self).spec_sent().drop_first()
            },
    {
        if self.sent.len() == 0 {
            None
        } else {
            let ghost pre_sent = self.sent.deep_view();
            let line = self.sent.remove(0);
            proof {
                assert(self.sent.deep_view() =~~= pre_sent.drop_first());
            }
            Some(line)
        }
    }

    /// Queues one raw reply line, as read from the connection, for the next
    /// query.
    pub fn queue_reply(&mut self, line: String)
        ensures
            final(self).spec_addr() == old(self).spec_addr(),
            final(self).spec_sent() == old(self).spec_sent(),
            final(self).spec_replies() == old(self).spec_replies().push(line@),
    {
        let ghost pre_replies = self.replies.deep_view();
        self.replies.push(line);
        proof {
            assert(self.replies.deep_view() =~~= pre_replies.push(line@));
        }
    }
}

/// A directive went out: the framed command was appended to the outbound
/// queue and nothing else about the session changed.
pub open spec fn directive_sent(pre: Socket, post: Socket, command: Seq<char>) -> bool {
    &&& post.spec_addr() == pre.spec_addr()
    &&& post.spec_sent() == pre.spec_sent().push(frame_spec(command))
    &&& post.spec_replies() == pre.spec_replies()
}

/// A query went out: the framed command was appended to the outbound queue
/// and the oldest queued reply was consumed.
pub open spec fn query_sent(pre: Socket, post: Socket, command: Seq<char>) -> bool {
    &&& post.spec_addr() == pre.spec_addr()
    &&& post.spec_sent() == pre.spec_sent().push(frame_spec(command))
    &&& pre.spec_replies().len() > 0
    &&& post.spec_replies() == pre.spec_replies().drop_first()
}

/// The trimmed text of the reply a query consumed.
pub open spec fn reply_of(pre: Socket) -> Seq<char> {
    trim_crlf_spec(pre.spec_replies().first())
}

/// Repeating a directive is idempotent for the transport: the same framed
/// line goes out twice, back to back, and the session is otherwise exactly
/// as it was — same address, same queued replies.
pub proof fn lemma_directive_idempotent(pre: Socket, mid: Socket, post: Socket, command: Seq<char>)
    requires
        directive_sent(pre, mid, command),
        directive_sent(mid, post, command),
    ensures
        post.spec_sent() =~= pre.spec_sent() + seq![frame_spec(command), frame_spec(command)],
        post.spec_sent().last() == post.spec_sent()[post.spec_sent().len() - 2],
        post.spec_replies() == pre.spec_replies(),
        post.spec_addr() == pre.spec_addr(),
{
    assert(post.spec_sent() =~= pre.spec_sent() + seq![frame_spec(command), frame_spec(command)]);
}

} // verus!
