use vstd::prelude::*;

use crate::player::{PlayerInfo, PlayerView};
use crate::roster::{EntryView, Roster, entries_view};
use vstd::utf8::encode_utf8;

verus! {

/// A player record as bincode sees it: a tuple of the record's fields in
/// order (name, rescued Mudokons, location, position). Bincode writes a
/// struct as the tuple of its fields, so this is also the wire form of the
/// player struct that the programs exchange.
pub type PlayerWire = (String, u16, [u16; 3], [u16; 2]);

/// A message from the server to the clients.
#[derive(Debug, PartialEq, Eq)]
pub enum ServerMessage {
    /// The table of players follows in a second message.
    PlayerStates,
    /// An announcement typed at the server's console.
    Announcement(String),
}

/// The value of a [`ServerMessage`].
pub enum MessageView {
    PlayerStates,
    Announcement(Seq<char>),
}

impl View for ServerMessage {
    type V = MessageView;

    open spec fn view(&self) -> MessageView {
        match self {
            ServerMessage::PlayerStates => MessageView::PlayerStates,
            ServerMessage::Announcement(s) => MessageView::Announcement(s@),
        }
    }
}

/// A value that the programs send through bincode.
pub enum WireValue {
    /// A player's name, sent once when a client connects.
    Name(Seq<char>),
    /// A client's report about its player.
    Player(PlayerView),
    /// A message from the server.
    Message(MessageView),
    /// The server's table of players, keyed by name.
    Entries(Seq<EntryView>),
    /// A plain list of player records.
    Players(Seq<PlayerView>),
}

/// The type that bincode is asked to read.
pub enum WireShape {
    Name,
    Player,
    Message,
    Entries,
    Players,
}

/// The `n` lowest bytes of `x`, least significant first.
pub open spec fn le_bytes(x: nat, n: nat) -> Seq<u8>
    decreases n,
{
    if n == 0 {
        Seq::empty()
    } else {
        seq![(x % 256) as u8] + le_bytes(x / 256, (n - 1) as nat)
    }
}

/// How bincode writes a string: the number of its UTF-8 bytes as a
/// little-endian `u64`, then those bytes.
pub open spec fn str_bytes(s: Seq<char>) -> Seq<u8> {
    le_bytes(encode_utf8(s).len(), 8) + encode_utf8(s)
}

/// How bincode writes a little-endian `u16`.
pub open spec fn u16_bytes(x: u16) -> Seq<u8> {
    le_bytes(x as nat, 2)
}

/// How bincode writes a player record: its fields one by one.
pub open spec fn player_bytes(p: PlayerView) -> Seq<u8> {
    str_bytes(p.name) + u16_bytes(p.saved_muds) + u16_bytes(p.location[0]) + u16_bytes(
        p.location[1],
    ) + u16_bytes(p.location[2]) + u16_bytes(p.position[0]) + u16_bytes(p.position[1])
}

/// How bincode writes a server message: the variant's number as a
/// little-endian `u32`, then its contents.
pub open spec fn message_bytes(m: MessageView) -> Seq<u8> {
    match m {
        MessageView::PlayerStates => le_bytes(0, 4),
        MessageView::Announcement(s) => le_bytes(1, 4) + str_bytes(s),
    }
}

/// The keyed records of a table written one after the other.
pub open spec fn entries_body(s: Seq<EntryView>) -> Seq<u8>
    decreases s.len(),
{
    if s.len() == 0 {
        Seq::empty()
    } else {
        entries_body(s.drop_last()) + str_bytes(s.last().0) + player_bytes(s.last().1)
    }
}

/// Player records written one after the other.
pub open spec fn players_body(s: Seq<PlayerView>) -> Seq<u8>
    decreases s.len(),
{
    if s.len() == 0 {
        Seq::empty()
    } else {
        players_body(s.drop_last()) + player_bytes(s.last())
    }
}

/// The bytes that `bincode::serialize` produces for a value, as bincode's
/// documentation gives its format: integers little-endian at their own
/// width, strings and sequences after their length as a `u64`, tuples and
/// structs field by field, enum variants after their number as a `u32`.
pub open spec fn bincode_bytes(v: WireValue) -> Seq<u8> {
    match v {
        WireValue::Name(s) => str_bytes(s),
        WireValue::Player(p) => player_bytes(p),
        WireValue::Message(m) => message_bytes(m),
        WireValue::Entries(s) => le_bytes(s.len(), 8) + entries_body(s),
        WireValue::Players(s) => le_bytes(s.len(), 8) + players_body(s),
    }
}

/// The value that `bincode::deserialize` reads from `bytes` as the given
/// type, or `None` when it fails.
pub uninterp spec fn bincode_value(shape: WireShape, bytes: Seq<u8>) -> Option<WireValue>;

/// Bytes from which `bincode::deserialize`, asked for the given type,
/// reads back `v`, whatever follows them (bincode's `deserialize` lets
/// trailing bytes be).
pub open spec fn reads_back(shape: WireShape, b: Seq<u8>, v: WireValue) -> bool {
    &&& bincode_value(shape, b) == Some(v)
    &&& forall|rest: Seq<u8>| #[trigger] bincode_value(shape, b + rest) == Some(v)
}

/// The error that bincode returns.
#[verifier::external_type_specification]
#[verifier::external_body]
pub struct ExBincodeErrorKind(bincode::ErrorKind);

/// The value of a player record in its wire form.
pub open spec fn player_wire_view(w: PlayerWire) -> PlayerView {
    PlayerView { name: w.0@, saved_muds: w.1, location: w.2@, position: w.3@ }
}

/// The value of a keyed player record in its wire form.
pub open spec fn entry_wire_view(e: (String, PlayerWire)) -> EntryView {
    (e.0@, player_wire_view(e.1))
}

/// The value of a server message in its wire form: the message type's
/// variants are, in order, the state notice and the announcement, which is
/// how bincode numbers `Ok(())` and `Err(text)` too.
pub open spec fn message_wire_view(w: Result<(), String>) -> MessageView {
    match w {
        Ok(_) => MessageView::PlayerStates,
        Err(s) => MessageView::Announcement(s@),
    }
}

/// The values of a list of keyed player records in wire form.
pub open spec fn wire_entries_view(v: Seq<(String, PlayerWire)>) -> Seq<EntryView> {
    v.map_values(|e: (String, PlayerWire)| entry_wire_view(e))
}

/// The values of a list of player records in wire form.
pub open spec fn wire_players_view(v: Seq<PlayerWire>) -> Seq<PlayerView> {
    v.map_values(|w: PlayerWire| player_wire_view(w))
}

/// The values of a list of player records.
pub open spec fn players_view(v: Seq<PlayerInfo>) -> Seq<PlayerView> {
    v.map_values(|p: PlayerInfo| p@)
}

/// `bincode::serialize` on a string; the contract claims that what it
/// returns on success is [`bincode_bytes`] of the name.
/// It also claims that the call succeeds: bincode's `serialize` runs with
/// no size limit and writes into a `Vec`, whose writes do not fail, and
/// strings, integers, arrays, tuples, `Result` and `Vec` (whose length is
/// known ahead) raise no error in its serializer. Last, it claims that
/// `bincode::deserialize` reads the value back from those bytes followed by
/// anything ([`reads_back`]): bincode's readme shows a value decoded from
/// its encoding to equal it, and `deserialize` allows trailing bytes.
#[verifier::external_body]
fn serialize_name(name: &String) -> (res: Result<Vec<u8>, Box<bincode::ErrorKind>>)
    ensures
        res is Ok,
        res matches Ok(b) ==> b@ == bincode_bytes(WireValue::Name(name@)),
        res matches Ok(b) ==> reads_back(WireShape::Name, b@, WireValue::Name(name@)),
{
    bincode::serialize(name)
}

/// `bincode::deserialize` into a string; the contract claims that it
/// succeeds exactly when [`bincode_value`] gives a name, and returns it.
#[verifier::external_body]
fn deserialize_name(bytes: &[u8]) -> (res: Result<String, Box<bincode::ErrorKind>>)
    ensures
        res is Ok <==> bincode_value(WireShape::Name, bytes@) is Some,
        res matches Ok(s) ==> bincode_value(WireShape::Name, bytes@) == Some(WireValue::Name(s@)),
{
    bincode::deserialize(bytes)
}

/// `bincode::serialize` on a player record's tuple of fields; the contract
/// claims that what it returns on success is [`bincode_bytes`] of the record.
/// It also claims that the call succeeds: bincode's `serialize` runs with
/// no size limit and writes into a `Vec`, whose writes do not fail, and
/// strings, integers, arrays, tuples, `Result` and `Vec` (whose length is
/// known ahead) raise no error in its serializer. Last, it claims that
/// `bincode::deserialize` reads the value back from those bytes followed by
/// anything ([`reads_back`]): bincode's readme shows a value decoded from
/// its encoding to equal it, and `deserialize` allows trailing bytes.
#[verifier::external_body]
fn serialize_player(w: &PlayerWire) -> (res: Result<Vec<u8>, Box<bincode::ErrorKind>>)
    ensures
        res is Ok,
        res matches Ok(b) ==> b@ == bincode_bytes(WireValue::Player(player_wire_view(*w))),
        res matches Ok(b) ==> reads_back(
            WireShape::Player,
            b@,
            WireValue::Player(player_wire_view(*w)),
        ),
{
    bincode::serialize(w)
}

/// `bincode::deserialize` into a player record's tuple of fields; the
/// contract claims that it succeeds exactly when [`bincode_value`] gives a
/// record, and returns it.
#[verifier::external_body]
fn deserialize_player(bytes: &[u8]) -> (res: Result<PlayerWire, Box<bincode::ErrorKind>>)
    ensures
        res is Ok <==> bincode_value(WireShape::Player, bytes@) is Some,
        res matches Ok(w) ==> bincode_value(WireShape::Player, bytes@) == Some(
            WireValue::Player(player_wire_view(w)),
        ),
{
    bincode::deserialize(bytes)
}

/// `bincode::serialize` on a server message in its wire form; the contract
/// claims that what it returns on success is [`bincode_bytes`] of the message.
/// It also claims that the call succeeds: bincode's `serialize` runs with
/// no size limit and writes into a `Vec`, whose writes do not fail, and
/// strings, integers, arrays, tuples, `Result` and `Vec` (whose length is
/// known ahead) raise no error in its serializer. Last, it claims that
/// `bincode::deserialize` reads the value back from those bytes followed by
/// anything ([`reads_back`]): bincode's readme shows a value decoded from
/// its encoding to equal it, and `deserialize` allows trailing bytes.
#[verifier::external_body]
fn serialize_message(w: &Result<(), String>) -> (res: Result<Vec<u8>, Box<bincode::ErrorKind>>)
    ensures
        res is Ok,
        res matches Ok(b) ==> b@ == bincode_bytes(WireValue::Message(message_wire_view(*w))),
        res matches Ok(b) ==> reads_back(
            WireShape::Message,
            b@,
            WireValue::Message(message_wire_view(*w)),
        ),
{
    bincode::serialize(w)
}

/// `bincode::deserialize` into a server message in its wire form; the
/// contract claims that it succeeds exactly when [`bincode_value`] gives a
/// message, and returns it.
#[verifier::external_body]
fn deserialize_message(bytes: &[u8]) -> (res: Result<
    Result<(), String>,
    Box<bincode::ErrorKind>,
>)
    ensures
        res is Ok <==> bincode_value(WireShape::Message, bytes@) is Some,
        res matches Ok(w) ==> bincode_value(WireShape::Message, bytes@) == Some(
            WireValue::Message(message_wire_view(w)),
        ),
{
    bincode::deserialize(bytes)
}

/// `bincode::serialize` on a list of keyed player records; the contract
/// claims that what it returns on success is [`bincode_bytes`] of the list.
/// It also claims that the call succeeds: bincode's `serialize` runs with
/// no size limit and writes into a `Vec`, whose writes do not fail, and
/// strings, integers, arrays, tuples, `Result` and `Vec` (whose length is
/// known ahead) raise no error in its serializer. Last, it claims that
/// `bincode::deserialize` reads the value back from those bytes followed by
/// anything ([`reads_back`]): bincode's readme shows a value decoded from
/// its encoding to equal it, and `deserialize` allows trailing bytes.
#[verifier::external_body]
fn serialize_entries(v: &Vec<(String, PlayerWire)>) -> (res: Result<
    Vec<u8>,
    Box<bincode::ErrorKind>,
>)
    ensures
        res is Ok,
        res matches Ok(b) ==> b@ == bincode_bytes(
            WireValue::Entries(wire_entries_view(v@)),
        ),
        res matches Ok(b) ==> reads_back(
            WireShape::Entries,
            b@,
            WireValue::Entries(wire_entries_view(v@)),
        ),
{
    bincode::serialize(v)
}

/// `bincode::deserialize` into a list of keyed player records; the contract
/// claims that it succeeds exactly when [`bincode_value`] gives such a
/// list, and returns it.
#[verifier::external_body]
fn deserialize_entries(bytes: &[u8]) -> (res: Result<
    Vec<(String, PlayerWire)>,
    Box<bincode::ErrorKind>,
>)
    ensures
        res is Ok <==> bincode_value(WireShape::Entries, bytes@) is Some,
        res matches Ok(v) ==> bincode_value(WireShape::Entries, bytes@) == Some(
            WireValue::Entries(wire_entries_view(v@)),
        ),
{
    bincode::deserialize(bytes)
}

/// `bincode::deserialize` into a list of player records; the contract
/// claims that it succeeds exactly when [`bincode_value`] gives such a
/// list, and returns it.
#[verifier::external_body]
fn deserialize_players(bytes: &[u8]) -> (res: Result<Vec<PlayerWire>, Box<bincode::ErrorKind>>)
    ensures
        res is Ok <==> bincode_value(WireShape::Players, bytes@) is Some,
        res matches Ok(v) ==> bincode_value(WireShape::Players, bytes@) == Some(
            WireValue::Players(wire_players_view(v@)),
        ),
{
    bincode::deserialize(bytes)
}

/// Serializing failed inside bincode.
#[derive(Debug, PartialEq, Eq)]
pub struct EncodeError;

impl PlayerInfo {
    /// The record as the tuple of its fields.
    pub fn to_wire(&self) -> (res: PlayerWire)
        ensures
            player_wire_view(res) == self@,
    {
        (self.name.clone(), self.saved_muds, self.location, self.position)
    }

    /// The record made of a tuple of its fields.
    pub fn from_wire(w: PlayerWire) -> (res: PlayerInfo)
        ensures
            res@ == player_wire_view(w),
    {
        let (name, saved_muds, location, position) = w;
        PlayerInfo { name, saved_muds, location, position }
    }
}

/// The bytes of a player's name, as a client sends them when it connects.
pub fn encode_name(name: &String) -> (res: Result<Vec<u8>, EncodeError>)
    ensures
        res is Ok,
        res matches Ok(b) ==> b@ == bincode_bytes(WireValue::Name(name@)),
        res matches Ok(b) ==> reads_back(WireShape::Name, b@, WireValue::Name(name@)),
{
    match serialize_name(name) {
        Ok(b) => Ok(b),
        Err(_) => Err(EncodeError),
    }
}

/// The name a connecting client sent, or `None` when the bytes are not one.
pub fn decode_name(bytes: &[u8]) -> (res: Option<String>)
    ensures
        res is Some <==> bincode_value(WireShape::Name, bytes@) is Some,
        res matches Some(s) ==> bincode_value(WireShape::Name, bytes@) == Some(
            WireValue::Name(s@),
        ),
{
    match deserialize_name(bytes) {
        Ok(s) => Some(s),
        Err(_) => None,
    }
}

/// The bytes of a client's report about its player.
pub fn encode_player(p: &PlayerInfo) -> (res: Result<Vec<u8>, EncodeError>)
    ensures
        res is Ok,
        res matches Ok(b) ==> b@ == bincode_bytes(WireValue::Player(p@)),
        res matches Ok(b) ==> reads_back(WireShape::Player, b@, WireValue::Player(p@)),
{
    let w = p.to_wire();
    match serialize_player(&w) {
        Ok(b) => Ok(b),
        Err(_) => Err(EncodeError),
    }
}

/// A client's report read from bytes, or `None` when they hold none.
pub fn decode_player(bytes: &[u8]) -> (res: Option<PlayerInfo>)
    ensures
        res is Some <==> bincode_value(WireShape::Player, bytes@) is Some,
        res matches Some(p) ==> bincode_value(WireShape::Player, bytes@) == Some(
            WireValue::Player(p@),
        ),
{
    match deserialize_player(bytes) {
        Ok(w) => Some(PlayerInfo::from_wire(w)),
        Err(_) => None,
    }
}

/// The bytes of a message from the server.
pub fn encode_message(m: &ServerMessage) -> (res: Result<Vec<u8>, EncodeError>)
    ensures
        res is Ok,
        res matches Ok(b) ==> b@ == bincode_bytes(WireValue::Message(m@)),
        res matches Ok(b) ==> reads_back(WireShape::Message, b@, WireValue::Message(m@)),
{
    let w: Result<(), String> = match m {
        ServerMessage::PlayerStates => Ok(()),
        ServerMessage::Announcement(s) => Err(s.clone()),
    };
    match serialize_message(&w) {
        Ok(b) => Ok(b),
        Err(_) => Err(EncodeError),
    }
}

/// A message from the server read from bytes, or `None` when they hold none.
pub fn decode_message(bytes: &[u8]) -> (res: Option<ServerMessage>)
    ensures
        res is Some <==> bincode_value(WireShape::Message, bytes@) is Some,
        res matches Some(m) ==> bincode_value(WireShape::Message, bytes@) == Some(
            WireValue::Message(m@),
        ),
{
    match deserialize_message(bytes) {
        Ok(Ok(())) => Some(ServerMessage::PlayerStates),
        Ok(Err(s)) => Some(ServerMessage::Announcement(s)),
        Err(_) => None,
    }
}

/// The bytes of the server's table of players, in the table's order.
pub fn encode_roster(r: &Roster) -> (res: Result<Vec<u8>, EncodeError>)
    ensures
        res is Ok,
        res matches Ok(b) ==> b@ == bincode_bytes(WireValue::Entries(r@)),
        res matches Ok(b) ==> reads_back(WireShape::Entries, b@, WireValue::Entries(r@)),
{
    let entries = r.entries();
    let mut wire: Vec<(String, PlayerWire)> = Vec::new();
    let mut i: usize = 0;
    while i < entries.len()
        invariant
            i <= entries.len(),
            entries_view(entries@) == r@,
            wire_entries_view(wire@) == entries_view(
                entries@,
            ).take(i as int),
        decreases entries.len() - i,
    {
        let ghost before = wire@;
        let key = entries[i].0.clone();
        let w = entries[i].1.to_wire();
        wire.push((key, w));
        proof {
            assert(wire@ == before.push((key, w)));
            assert(entries_view(entries@)[i as int] == (entries@[i as int].0@, entries@[i as int].1@));
            assert(wire_entries_view(before).len() == i);
            assert forall|j: int| 0 <= j < i implies #[trigger] wire_entries_view(wire@)[j] == wire_entries_view(before)[j] by {
                assert(wire@[j] == before[j]);
            }
            assert(wire_entries_view(wire@) =~= entries_view(
                entries@,
            ).take(i + 1));
        }
        i = i + 1;
    }
    assert(entries_view(entries@).take(entries.len() as int) =~= entries_view(entries@));
    match serialize_entries(&wire) {
        Ok(b) => Ok(b),
        Err(_) => Err(EncodeError),
    }
}

/// The server's table of players read from bytes, in the order sent, or
/// `None` when the bytes hold none.
pub fn decode_entries(bytes: &[u8]) -> (res: Option<Vec<(String, PlayerInfo)>>)
    ensures
        res is Some <==> bincode_value(WireShape::Entries, bytes@) is Some,
        res matches Some(v) ==> bincode_value(WireShape::Entries, bytes@) == Some(
            WireValue::Entries(entries_view(v@)),
        ),
{
    match deserialize_entries(bytes) {
        Ok(wire) => {
            let ghost wv = wire_entries_view(wire@);
            let mut out: Vec<(String, PlayerInfo)> = Vec::new();
            let mut i: usize = 0;
            while i < wire.len()
                invariant
                    i <= wire.len(),
                    wv == wire_entries_view(wire@),
                    entries_view(out@) == wv.take(i as int),
                decreases wire.len() - i,
            {
                let key = wire[i].0.clone();
                let w = &wire[i].1;
                let info = PlayerInfo::from_wire((w.0.clone(), w.1, w.2, w.3));
                let ghost before = out@;
                out.push((key, info));
                proof {
                    assert(wv[i as int] == entry_wire_view(wire@[i as int]));
                    assert(out@ == before.push((key, info)));
                    assert(entries_view(before).len() == i);
                    assert forall|j: int| 0 <= j < i implies #[trigger] entries_view(out@)[j] == entries_view(
                        before,
                    )[j] by {
                        assert(out@[j] == before[j]);
                    }
                    assert(entries_view(out@)[i as int] == (key@, info@));
                    assert(entries_view(out@) =~= wv.take(i + 1));
                }
                i = i + 1;
            }
            assert(wv.take(wire.len() as int) =~= wv);
            Some(out)
        },
        Err(_) => None,
    }
}

/// A plain list of player records read from bytes, or `None` when the
/// bytes hold none.
pub fn decode_players(bytes: &[u8]) -> (res: Option<Vec<PlayerInfo>>)
    ensures
        res is Some <==> bincode_value(WireShape::Players, bytes@) is Some,
        res matches Some(v) ==> bincode_value(WireShape::Players, bytes@) == Some(
            WireValue::Players(players_view(v@)),
        ),
{
    match deserialize_players(bytes) {
        Ok(wire) => {
            let ghost wv = wire_players_view(wire@);
            let mut out: Vec<PlayerInfo> = Vec::new();
            let mut i: usize = 0;
            while i < wire.len()
                invariant
                    i <= wire.len(),
                    wv == wire_players_view(wire@),
                    players_view(out@) == wv.take(i as int),
                decreases wire.len() - i,
            {
                let ghost before = out@;
                let p = PlayerInfo::from_wire(
                    (wire[i].0.clone(), wire[i].1, wire[i].2, wire[i].3),
                );
                out.push(p);
                proof {
                    assert(wv[i as int] == player_wire_view(wire@[i as int]));
                    assert(out@ == before.push(p));
                    assert(players_view(before).len() == i);
                    assert forall|j: int| 0 <= j < i implies #[trigger] players_view(out@)[j]
                        == players_view(before)[j] by {
                        assert(out@[j] == before[j]);
                    }
                    assert(players_view(out@)[i as int] == p@);
                    assert(players_view(out@) =~= wv.take(i + 1));
                }
                i = i + 1;
            }
            assert(wv.take(wire.len() as int) =~= wv);
            Some(out)
        },
        Err(_) => None,
    }
}

} // verus!
