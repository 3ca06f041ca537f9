use multiow::console::{
    parse_command, parse_confirmation, parse_legacy_command, Command, Confirmation, LegacyCommand,
};

#[test]
fn quit_words() {
    for w in ["shutdown\n", "quit\n", "q\n", "exit\r\n", "exit"] {
        assert_eq!(parse_command(w), Some(Command::Quit));
    }
}

#[test]
fn kick_takes_exactly_one_argument() {
    assert_eq!(parse_command("kick abe\n"), Some(Command::Kick("abe".to_string())));
    assert_eq!(parse_command("kick\n"), Some(Command::KickUsage));
    assert_eq!(parse_command("kick abe munch\n"), Some(Command::KickUsage));
    assert_eq!(parse_command("kick \n"), Some(Command::Kick(String::new())));
}

#[test]
fn announce_keeps_the_rest_of_the_line() {
    assert_eq!(parse_command("announce hello there\n"), Some(Command::Announce("hello there\n".to_string())));
    assert_eq!(parse_command("announce\n"), Some(Command::Announce(String::new())));
    assert_eq!(parse_command("announce"), None);
    assert_eq!(parse_command("announceé x"), Some(Command::Unrecognized));
    assert_eq!(parse_command("\tannounce x\n"), Some(Command::Announce(" x\n".to_string())));
    assert_eq!(parse_command("\u{3000}announce x"), Some(Command::Announce("ce x".to_string())));
    assert_eq!(parse_command("announce\u{3000} x"), None);
}

#[test]
fn other_commands() {
    assert_eq!(parse_command("states\n"), Some(Command::States));
    assert_eq!(parse_command("players\n"), Some(Command::Players));
    assert_eq!(parse_command("ips\n"), Some(Command::Ips));
    assert_eq!(parse_command("help\n"), Some(Command::Help));
    assert_eq!(parse_command("\n"), Some(Command::Empty));
    assert_eq!(parse_command(""), Some(Command::Empty));
    assert_eq!(parse_command(" states\n"), Some(Command::Empty));
    assert_eq!(parse_command("dance\n"), Some(Command::Unrecognized));
}

#[test]
fn legacy_commands() {
    assert_eq!(parse_legacy_command("quit\n"), LegacyCommand::Quit);
    assert_eq!(parse_legacy_command("kick abe\n"), LegacyCommand::Kick("abe".to_string()));
    assert_eq!(parse_legacy_command("kick\n"), LegacyCommand::KickUsage);
    assert_eq!(parse_legacy_command("announce\n"), LegacyCommand::SendStates);
    assert_eq!(parse_legacy_command("help\n"), LegacyCommand::Help);
    assert_eq!(parse_legacy_command("\n"), LegacyCommand::Empty);
    assert_eq!(parse_legacy_command("states\n"), LegacyCommand::Unrecognized);
}

#[test]
fn confirmation_answers() {
    for a in ["yes\n", "y\n", "Y\n", "Yes\n", "YES\n", "  yes  "] {
        assert_eq!(parse_confirmation(a), Confirmation::Yes);
    }
    for a in ["\n", "", "no\n", "n\n", "N\n", "NO\n"] {
        assert_eq!(parse_confirmation(a), Confirmation::No);
    }
    assert_eq!(parse_confirmation("maybe\n"), Confirmation::Unclear);
    assert_eq!(parse_confirmation("yEs\n"), Confirmation::Unclear);
}
