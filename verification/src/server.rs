use vstd::prelude::*;

use crate::player::PlayerView;
use crate::roster::{Roster, is_change, previous_state};
use crate::wire::{
    EncodeError,
    ServerMessage,
    WireShape,
    WireValue,
    bincode_bytes,
    bincode_value,
    decode_player,
    encode_message,
    encode_roster,
    reads_back,
};

verus! {

/// The kinds of socket error that the programs tell apart.
#[derive(Debug, PartialEq, Eq, Clone, Copy)]
pub enum IoErrorKind {
    TimedOut,
    ConnectionReset,
    ConnectionAborted,
    Other,
}

/// How a read from a client's socket ended.
#[derive(Debug, PartialEq, Eq, Clone, Copy)]
pub enum ReadOutcome {
    /// This many bytes arrived; zero means the client closed the connection.
    Received(usize),
    /// The read failed.
    Failed(IoErrorKind),
}

/// What the server's thread for one client does after a read.
#[derive(Debug, PartialEq, Eq)]
pub enum ClientEvent {
    /// The client is gone: its thread ends.
    Disconnected,
    /// The table of players changed: the announcer sends it to every client.
    Notify,
    /// Nothing to do; read again.
    Quiet,
}

/// The report that `bincode::deserialize` reads from a buffer, if any.
pub open spec fn read_report(buf: Seq<u8>) -> Option<PlayerView> {
    match bincode_value(WireShape::Player, buf) {
        Some(WireValue::Player(p)) => Some(p),
        _ => None,
    }
}

/// What the server does with one read from a client's socket, given the
/// table before it: the event, and the table after it. A closed connection
/// or an error other than a time-out removes the player; a report that
/// differs from what the table holds is filed and announced; anything else
/// leaves the table as it is.
pub open spec fn client_read_effect(
    m: Map<Seq<char>, PlayerView>,
    name: Seq<char>,
    outcome: ReadOutcome,
    buf: Seq<u8>,
) -> (ClientEvent, Map<Seq<char>, PlayerView>) {
    match outcome {
        ReadOutcome::Failed(IoErrorKind::TimedOut) => (ClientEvent::Quiet, m),
        ReadOutcome::Failed(_) => (ClientEvent::Disconnected, m.remove(name)),
        ReadOutcome::Received(0) => (ClientEvent::Disconnected, m.remove(name)),
        ReadOutcome::Received(_) => match read_report(buf) {
            Some(p) => if is_change(m, p) {
                (ClientEvent::Notify, m.insert(p.name, p))
            } else {
                (ClientEvent::Quiet, m)
            },
            None => (ClientEvent::Quiet, m),
        },
    }
}

/// What the first server does with one read: the event, and the table
/// after it. Any bytes are read as a report; a reset connection ends the
/// thread; other errors are ignored.
pub open spec fn legacy_read_effect(
    m: Map<Seq<char>, PlayerView>,
    outcome: ReadOutcome,
    buf: Seq<u8>,
) -> (LegacyEvent, Map<Seq<char>, PlayerView>) {
    match outcome {
        ReadOutcome::Failed(IoErrorKind::ConnectionReset) => (LegacyEvent::Stop, m),
        ReadOutcome::Failed(_) => (LegacyEvent::Quiet, m),
        ReadOutcome::Received(_) => match read_report(buf) {
            Some(p) => if is_change(m, p) {
                (LegacyEvent::Notify, m.insert(p.name, p))
            } else {
                (LegacyEvent::Quiet, m)
            },
            None => (LegacyEvent::Undecodable, m),
        },
    }
}

/// Handles one read from a client's socket: a closed connection or an
/// error other than a time-out removes the player from the table; a report
/// that differs from what the table holds is filed and announced; bytes
/// that are no report are ignored. `buf` is the whole read buffer.
pub fn on_client_read(players: &mut Roster, name: &String, outcome: ReadOutcome, buf: &[u8]) -> (res:
    ClientEvent)
    requires
        old(players).wf(),
    ensures
        final(players).wf(),
        res == client_read_effect(old(players).to_map(), name@, outcome, buf@).0,
        final(players).to_map() == client_read_effect(old(players).to_map(), name@, outcome, buf@).1,
        res is Quiet ==> final(players)@ == old(players)@,
{
    match outcome {
        ReadOutcome::Received(0) => {
            players.remove(name);
            ClientEvent::Disconnected
        },
        ReadOutcome::Received(_) => {
            match decode_player(buf) {
                Some(p) => {
                    if players.record(p) {
                        ClientEvent::Notify
                    } else {
                        ClientEvent::Quiet
                    }
                },
                None => ClientEvent::Quiet,
            }
        },
        ReadOutcome::Failed(IoErrorKind::TimedOut) => ClientEvent::Quiet,
        ReadOutcome::Failed(_) => {
            players.remove(name);
            ClientEvent::Disconnected
        },
    }
}

/// What the first server's thread for one client does after a read.
#[derive(Debug, PartialEq, Eq)]
pub enum LegacyEvent {
    /// The connection was reset: the thread ends.
    Stop,
    /// The table of players changed: the announcer sends it.
    Notify,
    /// Nothing to do; read again.
    Quiet,
    /// The bytes hold no report; the first server gives up on them (it
    /// panics).
    Undecodable,
}

/// Handles one read in the first server: any bytes (even none) are read as
/// a report, filed when it differs from the table; a reset connection ends
/// the thread; other errors are ignored.
pub fn on_legacy_read(players: &mut Roster, outcome: ReadOutcome, buf: &[u8]) -> (res: LegacyEvent)
    requires
        old(players).wf(),
    ensures
        final(players).wf(),
        res == legacy_read_effect(old(players).to_map(), outcome, buf@).0,
        final(players).to_map() == legacy_read_effect(old(players).to_map(), outcome, buf@).1,
        !(res is Notify) ==> final(players)@ == old(players)@,
{
    match outcome {
        ReadOutcome::Received(_) => {
            match decode_player(buf) {
                Some(p) => {
                    if players.record(p) {
                        LegacyEvent::Notify
                    } else {
                        LegacyEvent::Quiet
                    }
                },
                None => LegacyEvent::Undecodable,
            }
        },
        ReadOutcome::Failed(IoErrorKind::ConnectionReset) => LegacyEvent::Stop,
        ReadOutcome::Failed(_) => LegacyEvent::Quiet,
    }
}

/// Whether a client's connection stays open after a write to it: it does
/// when the write went through or only timed out.
pub fn keeps_stream(write: &Result<(), IoErrorKind>) -> (res: bool)
    ensures
        res == (write is Ok || write == &Err::<(), IoErrorKind>(IoErrorKind::TimedOut)),
{
    match write {
        Ok(()) => true,
        Err(IoErrorKind::TimedOut) => true,
        Err(_) => false,
    }
}

/// Whether a read or write error means the client lost its server.
pub fn is_lost_connection(kind: &IoErrorKind) -> (res: bool)
    ensures
        res == (kind is ConnectionAborted),
{
    match kind {
        IoErrorKind::ConnectionAborted => true,
        _ => false,
    }
}

/// The payloads that the announcer writes to every client for a message:
/// the message itself, then, for a state notice, the table of players.
pub fn broadcast_payloads(msg: &ServerMessage, players: &Roster) -> (res: Result<
    Vec<Vec<u8>>,
    EncodeError,
>)
    ensures
        res is Ok,
        res matches Ok(v) ==> {
            &&& v.len() == if msg is PlayerStates {
                2int
            } else {
                1int
            }
            &&& v[0]@ == bincode_bytes(WireValue::Message(msg@))
            &&& msg is PlayerStates ==> v[1]@ == bincode_bytes(WireValue::Entries(players@))
        },
{
    let mut out: Vec<Vec<u8>> = Vec::new();
    match encode_message(msg) {
        Ok(b) => out.push(b),
        Err(e) => return Err(e),
    }
    match msg {
        ServerMessage::PlayerStates => {
            match encode_roster(players) {
                Ok(b) => out.push(b),
                Err(e) => return Err(e),
            }
        },
        ServerMessage::Announcement(_) => {},
    }
    Ok(out)
}

/// The server handles the very report a client sent: when a read's buffer
/// starts with the bytes a client wrote for report `p`, whatever follows
/// them, the server files `p` if it is a change and announces it, in both
/// versions of the server.
pub proof fn server_reads_what_client_sent(
    m: Map<Seq<char>, PlayerView>,
    name: Seq<char>,
    n: usize,
    b: Seq<u8>,
    rest: Seq<u8>,
    p: PlayerView,
)
    requires
        n != 0,
        reads_back(WireShape::Player, b, WireValue::Player(p)),
    ensures
        client_read_effect(m, name, ReadOutcome::Received(n), b + rest) == if is_change(m, p) {
            (ClientEvent::Notify, m.insert(p.name, p))
        } else {
            (ClientEvent::Quiet, m)
        },
        legacy_read_effect(m, ReadOutcome::Received(n), b + rest) == if is_change(m, p) {
            (LegacyEvent::Notify, m.insert(p.name, p))
        } else {
            (LegacyEvent::Quiet, m)
        },
{
    assert(bincode_value(WireShape::Player, b + rest) == Some(WireValue::Player(p)));
}

/// Filing a report makes the same report no change: a client that sends
/// the same report twice causes one announcement, not two.
pub proof fn report_filed_once(m: Map<Seq<char>, PlayerView>, p: PlayerView)
    ensures
        !is_change(if is_change(m, p) {
            m.insert(p.name, p)
        } else {
            m
        }, p),
{
}

/// After a report is handled, what the server holds of that player (zeros
/// for an unknown one) is the report's state: the number of rescued
/// Mudokons, the location and the position.
pub proof fn report_is_kept(m: Map<Seq<char>, PlayerView>, p: PlayerView)
    ensures
        previous_state(if is_change(m, p) {
            m.insert(p.name, p)
        } else {
            m
        }, p.name) == (p.saved_muds, p.location, p.position),
{
}

} // verus!
