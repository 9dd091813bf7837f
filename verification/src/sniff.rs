//! Protocol sniffing: a freshly accepted connection is classified as secure or
//! plain from its very first byte, which is peeked and never consumed, so the
//! later handshake still sees the full stream.

use vstd::prelude::*;

verus! {

/// The leading byte of a secure record-layer handshake.
pub const SECURE_MARKER: u8 = 0x16;

/// The classification of one accepted connection, determined once from its
/// leading byte and immutable afterwards.
#[derive(Clone, Copy, PartialEq, Eq, Debug, Structural)]
pub enum ConnectionKind {
    Secure,
    Plain,
}

/// What one leading byte says about a connection: the secure marker opens an
/// encrypted handshake, every other value a plaintext one.
pub open spec fn kind_of_first_byte(b: u8) -> ConnectionKind {
    if b == SECURE_MARKER {
        ConnectionKind::Secure
    } else {
        ConnectionKind::Plain
    }
}

/// The sniffer's verdict over the bytes still unread on a connection: nothing
/// available means the peer closed before sending anything, and the
/// connection is abandoned without an upgrade or a session.
pub open spec fn sniff_verdict(remaining: Seq<u8>) -> Option<ConnectionKind> {
    if remaining.len() == 0 {
        None
    } else {
        Some(kind_of_first_byte(remaining[0]))
    }
}

/// Classification comes from the first byte alone: the secure marker yields
/// Secure, every other leading byte Plain, and a stream that closed before
/// sending anything yields no kind at all — no upgrade and no session follow.
pub proof fn lemma_sniff_classification(bytes: Seq<u8>)
    ensures
        bytes.len() == 0 ==> sniff_verdict(bytes) is None,
        bytes.len() > 0 && bytes[0] == SECURE_MARKER ==> sniff_verdict(bytes) == Some(
            ConnectionKind::Secure,
        ),
        bytes.len() > 0 && bytes[0] != SECURE_MARKER ==> sniff_verdict(bytes) == Some(
            ConnectionKind::Plain,
        ),
{
}

/// A model of one inbound byte stream: the bytes the peer has sent so far and
/// how many of them a reader has already consumed. The transport delivers the
/// same bytes over the network; this type carries the part the sniffer and
/// its callers reason about.
pub struct Connection {
    buffered: Vec<u8>,
    consumed: usize,
}

impl Connection {
    /// A connection is well formed when the consumed prefix does not exceed
    /// what has arrived.
    pub closed spec fn wf(&self) -> bool {
        self.consumed <= self.buffered@.len()
    }

    /// The bytes a reader has not yet consumed, in arrival order.
    pub closed spec fn remaining(&self) -> Seq<u8> {
        self.buffered@.subrange(self.consumed as int, self.buffered@.len() as int)
    }

    pub fn new(buffered: Vec<u8>) -> (c: Connection)
        ensures
            c.wf(),
            c.remaining() == buffered@,
    {
        let c = Connection { buffered, consumed: 0 };
        proof {
            assert(c.remaining() =~= c.buffered@);
        }
        c
    }

    /// Reads the first unconsumed byte without removing it from the stream.
    pub fn peek_first(&self) -> (r: Option<u8>)
        requires
            self.wf(),
        ensures
            self.remaining().len() == 0 ==> r is None,
            self.remaining().len() > 0 ==> r == Some(self.remaining()[0]),
    {
        if self.consumed < self.buffered.len() {
            Some(self.buffered[self.consumed])
        } else {
            None
        }
    }

    /// Consumes the next byte and returns it, or returns nothing at end of
    /// stream.
    pub fn read_first(&mut self) -> (r: Option<u8>)
        requires
            old(self).wf(),
        ensures
            final(self).wf(),
            old(self).remaining().len() == 0 ==> r is None && final(self).remaining()
                == old(self).remaining(),
            old(self).remaining().len() > 0 ==> r == Some(old(self).remaining()[0])
                && final(self).remaining() == old(self).remaining().drop_first(),
    {
        if self.consumed < self.buffered.len() {
            let b = self.buffered[self.consumed];
            self.consumed = self.consumed + 1;
            proof {
                assert(self.remaining() =~= old(self).remaining().drop_first());
            }
            Some(b)
        } else {
            None
        }
    }

    /// Classifies the connection from its first byte. The byte is only
    /// peeked: the stream is left exactly as it was, so whatever performs the
    /// handshake next still observes the first byte.
    pub fn sniff(&mut self) -> (k: Option<ConnectionKind>)
        requires
            old(self).wf(),
        ensures
            *final(self) == *old(self),
            k == sniff_verdict(old(self).remaining()),
    {
        match self.peek_first() {
            Some(b) => {
                if b == SECURE_MARKER {
                    Some(ConnectionKind::Secure)
                } else {
                    Some(ConnectionKind::Plain)
                }
            },
            None => None,
        }
    }
}

} // verus!
