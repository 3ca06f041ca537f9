use multiow::player::PlayerInfo;
use multiow::roster::Roster;
use multiow::wire::{
    decode_entries, decode_message, decode_name, decode_player, decode_players, encode_message,
    encode_name, encode_player, encode_roster, ServerMessage,
};

fn abe() -> PlayerInfo {
    PlayerInfo { name: "abe".to_string(), saved_muds: 5, location: [1, 2, 3], position: [10, 20] }
}

fn abe_bytes() -> Vec<u8> {
    vec![3, 0, 0, 0, 0, 0, 0, 0, b'a', b'b', b'e', 5, 0, 1, 0, 2, 0, 3, 0, 10, 0, 20, 0]
}

#[test]
fn name_is_length_prefixed() {
    let b = encode_name(&"abe".to_string()).unwrap();
    assert_eq!(b, vec![3, 0, 0, 0, 0, 0, 0, 0, b'a', b'b', b'e']);
    assert_eq!(decode_name(&b), Some("abe".to_string()));
}

#[test]
fn name_reads_from_padded_buffer() {
    let mut buf = [0u8; 256];
    let b = encode_name(&"munch".to_string()).unwrap();
    buf[..b.len()].copy_from_slice(&b);
    assert_eq!(decode_name(&buf), Some("munch".to_string()));
    assert_eq!(decode_name(&[0u8; 256]), Some(String::new()));
    assert_eq!(decode_name(&[1, 0, 0]), None);
}

#[test]
fn player_bytes_are_fields_in_order() {
    assert_eq!(encode_player(&abe()).unwrap(), abe_bytes());
    assert_eq!(decode_player(&abe_bytes()), Some(abe()));
}

#[test]
fn player_reads_from_padded_buffer() {
    let mut buf = vec![0u8; 512];
    let b = abe_bytes();
    buf[..b.len()].copy_from_slice(&b);
    assert_eq!(decode_player(&buf), Some(abe()));
    assert_eq!(decode_player(&[9, 0, 0, 0, 0, 0, 0, 0, b'a']), None);
}

#[test]
fn message_bytes_number_the_variants() {
    assert_eq!(encode_message(&ServerMessage::PlayerStates).unwrap(), vec![0, 0, 0, 0]);
    assert_eq!(
        encode_message(&ServerMessage::Announcement("hi".to_string())).unwrap(),
        vec![1, 0, 0, 0, 2, 0, 0, 0, 0, 0, 0, 0, b'h', b'i']
    );
    assert_eq!(decode_message(&[0, 0, 0, 0]), Some(ServerMessage::PlayerStates));
    assert_eq!(
        decode_message(&[1, 0, 0, 0, 2, 0, 0, 0, 0, 0, 0, 0, b'h', b'i', 0, 0]),
        Some(ServerMessage::Announcement("hi".to_string()))
    );
    assert_eq!(decode_message(&[2, 0, 0, 0]), None);
    assert_eq!(decode_message(&[0, 0]), None);
}

#[test]
fn roster_bytes_are_count_then_entries() {
    let mut r = Roster::new();
    r.insert("abe".to_string(), abe());
    let b = encode_roster(&r).unwrap();
    let mut expected = vec![1, 0, 0, 0, 0, 0, 0, 0, 3, 0, 0, 0, 0, 0, 0, 0, b'a', b'b', b'e'];
    expected.extend(abe_bytes());
    assert_eq!(b, expected);
    assert_eq!(decode_entries(&b), Some(vec![("abe".to_string(), abe())]));
}

#[test]
fn empty_roster_is_zero_count() {
    let r = Roster::new();
    assert_eq!(encode_roster(&r).unwrap(), vec![0, 0, 0, 0, 0, 0, 0, 0]);
    assert_eq!(decode_entries(&[0u8; 512]), Some(vec![]));
}

#[test]
fn plain_player_list_reads_in_order() {
    let other = PlayerInfo { name: "munch".to_string(), saved_muds: 0, location: [4, 5, 6], position: [7, 8] };
    let mut b = vec![2, 0, 0, 0, 0, 0, 0, 0];
    b.extend(abe_bytes());
    b.extend(encode_player(&other).unwrap());
    assert_eq!(decode_players(&b), Some(vec![abe(), other]));
    assert_eq!(decode_players(&[5, 0, 0, 0, 0, 0, 0, 0]), None);
}

#[test]
fn wire_form_round_trips() {
    let p = abe();
    assert_eq!(PlayerInfo::from_wire(p.to_wire()), p);
}

#[test]
fn encoded_values_read_back_with_trailing_bytes() {
    let mut b = encode_player(&abe()).unwrap();
    b.extend([7u8, 7, 7]);
    assert_eq!(decode_player(&b), Some(abe()));
    let mut m = encode_message(&ServerMessage::Announcement("hey".to_string())).unwrap();
    m.extend([1u8; 20]);
    assert_eq!(decode_message(&m), Some(ServerMessage::Announcement("hey".to_string())));
    let mut n = encode_name(&"abe".to_string()).unwrap();
    n.extend([0u8; 9]);
    assert_eq!(decode_name(&n), Some("abe".to_string()));
    let mut r = Roster::new();
    r.insert("abe".to_string(), abe());
    let mut t = encode_roster(&r).unwrap();
    t.extend([255u8; 4]);
    assert_eq!(decode_entries(&t), Some(vec![("abe".to_string(), abe())]));
}
