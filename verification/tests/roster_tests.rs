use multiow::player::PlayerInfo;
use multiow::roster::Roster;

fn info(name: &str, muds: u16, location: [u16; 3], position: [u16; 2]) -> PlayerInfo {
    PlayerInfo { name: name.to_string(), saved_muds: muds, location, position }
}

#[test]
fn insert_then_get_gives_the_record() {
    let mut r = Roster::new();
    assert_eq!(r.len(), 0);
    r.insert("abe".to_string(), info("abe", 1, [1, 1, 1], [2, 2]));
    r.insert("munch".to_string(), info("munch", 2, [1, 1, 1], [3, 3]));
    assert_eq!(r.len(), 2);
    assert_eq!(r.get(&"abe".to_string()), Some(&info("abe", 1, [1, 1, 1], [2, 2])));
    assert!(r.contains(&"munch".to_string()));
    assert!(!r.contains(&"slig".to_string()));
    assert_eq!(r.get(&"slig".to_string()), None);
}

#[test]
fn insert_replaces_under_the_same_key() {
    let mut r = Roster::new();
    r.insert("abe".to_string(), info("abe", 1, [1, 1, 1], [2, 2]));
    r.insert("munch".to_string(), info("munch", 2, [1, 1, 1], [3, 3]));
    r.insert("abe".to_string(), info("abe", 9, [4, 4, 4], [5, 5]));
    assert_eq!(r.len(), 2);
    assert_eq!(r.entries()[0].0, "abe");
    assert_eq!(r.get(&"abe".to_string()), Some(&info("abe", 9, [4, 4, 4], [5, 5])));
}

#[test]
fn remove_takes_out_only_that_key() {
    let mut r = Roster::new();
    r.insert("abe".to_string(), info("abe", 1, [1, 1, 1], [2, 2]));
    r.insert("munch".to_string(), info("munch", 2, [1, 1, 1], [3, 3]));
    r.insert("slig".to_string(), info("slig", 3, [1, 1, 1], [4, 4]));
    r.remove(&"munch".to_string());
    assert_eq!(r.len(), 2);
    assert!(!r.contains(&"munch".to_string()));
    assert_eq!(r.entries()[0].0, "abe");
    assert_eq!(r.entries()[1].0, "slig");
    r.remove(&"nobody".to_string());
    assert_eq!(r.len(), 2);
}

#[test]
fn record_files_changes_only() {
    let mut r = Roster::new();
    assert!(r.record(info("abe", 0, [1, 2, 3], [4, 5])));
    assert!(!r.record(info("abe", 0, [1, 2, 3], [4, 5])));
    assert!(r.record(info("abe", 1, [1, 2, 3], [4, 5])));
    assert!(r.record(info("abe", 1, [1, 2, 9], [4, 5])));
    assert!(r.record(info("abe", 1, [1, 2, 9], [4, 6])));
    assert_eq!(r.len(), 1);
    assert_eq!(r.get(&"abe".to_string()), Some(&info("abe", 1, [1, 2, 9], [4, 6])));
}

#[test]
fn record_of_all_zero_report_for_unknown_player_is_no_change() {
    let mut r = Roster::new();
    assert!(!r.record(info("abe", 0, [0, 0, 0], [0, 0])));
    assert_eq!(r.len(), 0);
}

#[test]
fn same_report_twice_announces_once() {
    let mut r = Roster::new();
    let report = info("abe", 3, [5, 6, 7], [8, 9]);
    assert!(r.record(report.clone()));
    assert!(!r.record(report));
}

#[test]
fn merge_files_each_entry_later_ones_win() {
    let mut r = Roster::new();
    r.insert("abe".to_string(), info("abe", 1, [1, 1, 1], [1, 1]));
    let received = vec![
        ("munch".to_string(), info("munch", 2, [2, 2, 2], [2, 2])),
        ("abe".to_string(), info("abe", 3, [3, 3, 3], [3, 3])),
        ("munch".to_string(), info("munch", 4, [4, 4, 4], [4, 4])),
    ];
    r.merge(&received);
    assert_eq!(r.len(), 2);
    assert_eq!(r.get(&"abe".to_string()), Some(&info("abe", 3, [3, 3, 3], [3, 3])));
    assert_eq!(r.get(&"munch".to_string()), Some(&info("munch", 4, [4, 4, 4], [4, 4])));
}

#[test]
fn visible_from_lists_players_on_the_same_screen() {
    let mut r = Roster::new();
    r.insert("abe".to_string(), info("abe", 1, [1, 2, 3], [10, 20]));
    r.insert("munch".to_string(), info("munch", 2, [1, 2, 4], [30, 40]));
    r.insert("slig".to_string(), info("slig", 3, [1, 2, 3], [50, 60]));
    let marks = r.visible_from(&[1, 2, 3]);
    assert_eq!(marks, vec![([10, 20], "abe".to_string()), ([50, 60], "slig".to_string())]);
    assert!(r.visible_from(&[9, 9, 9]).is_empty());
}

#[test]
fn visible_from_title_screen_is_empty() {
    let mut r = Roster::new();
    r.insert("abe".to_string(), info("abe", 1, [0, 2, 3], [10, 20]));
    assert!(r.visible_from(&[0, 2, 3]).is_empty());
}
