use multiow::client::{ClientTracker, LegacyTracker, Observation, ANNOUNCEMENT_FRAMES};
use multiow::player::PlayerInfo;

fn report(name: &str, muds: u16, location: [u16; 3], position: [u16; 2]) -> Observation {
    Observation::Report(PlayerInfo { name: name.to_string(), saved_muds: muds, location, position })
}

#[test]
fn title_screen_stops_the_client() {
    let mut t = ClientTracker::new();
    let name = "abe".to_string();
    assert_eq!(t.observe(&name, 3, [0, 1, 1], 10, 10), Observation::TitleScreen);
}

#[test]
fn first_reading_is_reported_then_quiet() {
    let mut t = ClientTracker::new();
    let name = "abe".to_string();
    assert_eq!(t.observe(&name, 0, [1, 2, 3], 400, 300), report("abe", 0, [1, 2, 3], [25, 40]));
    assert_eq!(t.observe(&name, 0, [1, 2, 3], 400, 300), Observation::Unchanged);
    assert_eq!(t.observe(&name, 0, [1, 2, 3], 401, 300), report("abe", 0, [1, 2, 3], [26, 40]));
    assert_eq!(t.observe(&name, 0, [1, 2, 4], 401, 300), report("abe", 0, [1, 2, 4], [26, 40]));
}

#[test]
fn rescues_count_only_away_from_the_corner() {
    let mut t = ClientTracker::new();
    let name = "abe".to_string();
    assert_eq!(t.observe(&name, 0, [1, 2, 3], 375, 260), report("abe", 0, [1, 2, 3], [0, 0]));
    // At the corner of the screen a rescue alone is not sent.
    assert_eq!(t.observe(&name, 4, [1, 2, 3], 375, 260), Observation::Unchanged);
    assert_eq!(t.observe(&name, 4, [1, 2, 3], 1, 260), report("abe", 4, [1, 2, 3], [1, 0]));
    assert_eq!(t.observe(&name, 5, [1, 2, 3], 1, 260), report("abe", 5, [1, 2, 3], [1, 0]));
}

#[test]
fn announcement_is_drawn_for_twenty_frames() {
    let mut t = ClientTracker::new();
    let text = t.on_announcement(&" welcome \n".to_string());
    assert_eq!(text, "The server sent this message \"welcome\"");
    for _ in 0..ANNOUNCEMENT_FRAMES {
        let marks = t.frame(&[1, 1, 1]);
        assert_eq!(marks, vec![([15, 45], text.clone())]);
    }
    assert!(t.frame(&[1, 1, 1]).is_empty());
}

#[test]
fn player_states_are_shown_on_the_same_screen() {
    let mut t = ClientTracker::new();
    let munch = PlayerInfo { name: "munch".to_string(), saved_muds: 1, location: [1, 2, 3], position: [5, 6] };
    let slig = PlayerInfo { name: "slig".to_string(), saved_muds: 1, location: [9, 9, 9], position: [7, 8] };
    t.on_player_states(&vec![("munch".to_string(), munch), ("slig".to_string(), slig)]);
    assert_eq!(t.players().len(), 2);
    assert_eq!(t.frame(&[1, 2, 3]), vec![([5, 6], "munch".to_string())]);
    assert_eq!(t.frame(&[9, 9, 9]), vec![([7, 8], "slig".to_string())]);
}

#[test]
fn legacy_client_reports_changes_off_the_title_screen() {
    let mut t = LegacyTracker::new();
    let name = "abe".to_string();
    // The Mudokon count starts at one, so a first reading of zero is a change,
    // but level 0 at the corner is the title screen and is not sent.
    assert_eq!(t.observe(&name, 0, [0, 0, 0], 0, 0), None);
    assert_eq!(t.observe(&name, 0, [0, 0, 0], 0, 0), None);
    let p = PlayerInfo { name: "abe".to_string(), saved_muds: 0, location: [0, 0, 0], position: [5, 0] };
    assert_eq!(t.observe(&name, 0, [0, 0, 0], 5, 0), Some(p));
    assert_eq!(t.observe(&name, 0, [0, 0, 0], 5, 0), None);
    let q = PlayerInfo { name: "abe".to_string(), saved_muds: 2, location: [1, 0, 0], position: [5, 0] };
    assert_eq!(t.observe(&name, 2, [1, 0, 0], 5, 0), Some(q));
}
