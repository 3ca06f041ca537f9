use multiow::player::{relative_position, same_location, same_position, PlayerInfo, ROOM_HEIGHT, ROOM_WIDTH};

#[test]
fn relative_position_wraps_to_screen() {
    assert_eq!(relative_position(0, 0), [0, 0]);
    assert_eq!(relative_position(375, 260), [0, 0]);
    assert_eq!(relative_position(400, 300), [25, 40]);
    assert_eq!(relative_position(374, 259), [374, 259]);
    assert_eq!(relative_position(u16::MAX, u16::MAX), [u16::MAX % 375, u16::MAX % 260]);
}

#[test]
fn relative_position_stays_inside_screen() {
    for x in (0..=u16::MAX).step_by(97) {
        let r = relative_position(x, x);
        assert!(r[0] < ROOM_WIDTH);
        assert!(r[1] < ROOM_HEIGHT);
    }
}

#[test]
fn locations_and_positions_compare_by_fields() {
    assert!(same_location(&[1, 2, 3], &[1, 2, 3]));
    assert!(!same_location(&[1, 2, 3], &[1, 2, 4]));
    assert!(!same_location(&[0, 2, 3], &[1, 2, 3]));
    assert!(same_position(&[7, 8], &[7, 8]));
    assert!(!same_position(&[7, 8], &[8, 7]));
}

#[test]
fn player_clone_keeps_every_field() {
    let p = PlayerInfo { name: "abe".to_string(), saved_muds: 12, location: [1, 2, 3], position: [4, 5] };
    let q = p.clone();
    assert_eq!(p, q);
}
