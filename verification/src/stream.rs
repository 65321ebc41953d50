//! The per-connection streaming session. Every accepted connection
//! first receives a configuration snapshot read at connection time,
//! then subscribes to the bus and forwards live events verbatim: a gap
//! is skipped, a drained closed bus or a shutdown ends the connection
//! normally. Connections are fully independent of one another.

use vstd::prelude::*;

use crate::bus::Bus;
use crate::bus::Cursor;
use crate::bus::RecvOutcome;
use crate::bus::RecvOutcomeV;
use crate::bus::recv_cursor_spec;
use crate::bus::recv_out_spec;
use crate::config::ConfigStore;
use crate::message::Message;
use crate::message::MessageData;
use crate::message::MessageType;
use crate::message::MessageV;
use crate::message::config_msg_v;

verus! {

/// One client connection's session state: its private bus cursor and,
/// as ghost state, the transcript of every message handed out so far.
pub struct Connection {
    cursor: Cursor,
    sent: Ghost<Seq<MessageV>>,
}

impl Connection {
    /// Every message handed to this connection so far, in order.
    pub closed spec fn transcript(&self) -> Seq<MessageV> {
        self.sent@
    }

    /// The connection's read position on the bus.
    pub closed spec fn cursor_pos(&self) -> nat {
        self.cursor@
    }

    /// A session always starts with the configuration snapshot: the
    /// transcript is never empty and opens with a configuration
    /// message.
    pub open spec fn wf(&self) -> bool {
        &&& self.transcript().len() >= 1
        &&& self.transcript()[0].kind == MessageType::Config
    }
}

/// Accepts one connection: reads a fresh snapshot from the store,
/// subscribes to the bus, and returns the configuration message the
/// caller must send before anything else. The new subscription sees
/// only events published from this point on.
pub fn open_connection(bus: &Bus, store: &ConfigStore) -> (r: (Connection, Message))
    requires
        bus.wf(),
    ensures
        r.0.wf(),
        r.1@ == config_msg_v(store@),
        r.0.transcript() == seq![config_msg_v(store@)],
        r.0.cursor_pos() == bus@.next_seq(),
{
    let snapshot = store.read();
    let message = Message {
        kind: MessageType::Config,
        data: MessageData::ConfigMessage(snapshot),
    };
    let cursor = bus.subscribe();
    let ghost transcript: Seq<MessageV> = seq![message@];
    let conn = Connection { cursor, sent: Ghost(transcript) };
    (conn, message)
}

/// What the send loop does with one receive attempt.
#[derive(Debug, PartialEq)]
pub enum StreamStep {
    /// Forward this message to the client verbatim.
    Forward(Message),
    /// A gap was observed; skip forward and continue, the connection
    /// does not terminate.
    Skip,
    /// Nothing to forward yet; wait for the next bus item.
    Pending,
    /// The bus is closed and drained; end the connection normally.
    End,
}

/// One iteration of a connection's send loop.
pub fn poll(bus: &Bus, conn: &mut Connection) -> (step: StreamStep)
    requires
        bus.wf(),
        old(conn).wf(),
        old(conn).cursor_pos() <= bus@.next_seq(),
    ensures
        final(conn).wf(),
        final(conn).cursor_pos() == recv_cursor_spec(bus@, old(conn).cursor_pos()),
        final(conn).cursor_pos() <= bus@.next_seq(),
        match recv_out_spec(bus@, old(conn).cursor_pos()) {
            RecvOutcomeV::Item(m) => {
                &&& step matches StreamStep::Forward(f) && f@ == m
                &&& final(conn).transcript() == old(conn).transcript().push(m)
            },
            RecvOutcomeV::Lagged(_) => step is Skip && final(conn).transcript() == old(
                conn,
            ).transcript(),
            RecvOutcomeV::Empty => step is Pending && final(conn).transcript() == old(
                conn,
            ).transcript(),
            RecvOutcomeV::Closed => step is End && final(conn).transcript() == old(
                conn,
            ).transcript(),
        },
{
    let out = bus.recv(&mut conn.cursor);
    match out {
        RecvOutcome::Item(message) => {
            proof {
                conn.sent@ = conn.sent@.push(message@);
            }
            StreamStep::Forward(message)
        },
        RecvOutcome::Lagged(_) => StreamStep::Skip,
        RecvOutcome::Empty => StreamStep::Pending,
        RecvOutcome::Closed => StreamStep::End,
    }
}

/// On every connection the configuration message comes strictly before
/// any input event: the transcript opens with a configuration message,
/// so an input event can only stand at a later position.
pub proof fn lemma_config_precedes_input(conn: Connection)
    requires
        conn.wf(),
    ensures
        conn.transcript()[0].kind == MessageType::Config,
        forall|i: int|
            0 <= i < conn.transcript().len() && (#[trigger] conn.transcript()[i]).kind
                == MessageType::Input ==> 0 < i,
{
}

} // verus!
