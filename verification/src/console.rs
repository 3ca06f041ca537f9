use vstd::prelude::*;
use vstd::string::StrSliceExecFns;
use vstd::string::StringExecFns;
use vstd::utf8::{encode_utf8, is_char_boundary};

use crate::text::{is_white_space, trim_end, trim_start, trim_str, trimmed};

verus! {

/// The index of the first space in `s`, or its length when there is none.
pub open spec fn first_space(s: Seq<char>) -> nat
    decreases s.len(),
{
    if s.len() == 0 {
        0
    } else if s[0] == ' ' {
        0
    } else {
        1 + first_space(s.drop_first())
    }
}

/// The first word of a console line: the text before the first space,
/// without surrounding white space.
pub open spec fn first_word(s: Seq<char>) -> Seq<char> {
    trimmed(s.take(first_space(s) as int))
}

/// Whether a console line holds exactly one space.
pub open spec fn one_space(s: Seq<char>) -> bool {
    let k = first_space(s);
    k < s.len() && first_space(s.skip(k + 1 as int)) == s.len() - (k + 1)
}

/// The text after the first space, without surrounding white space.
pub open spec fn second_word(s: Seq<char>) -> Seq<char> {
    trimmed(s.skip(first_space(s) + 1 as int))
}

proof fn lemma_first_space(s: Seq<char>)
    ensures
        first_space(s) <= s.len(),
        forall|j: int| 0 <= j < first_space(s) ==> s[j] != ' ',
        first_space(s) < s.len() ==> s[first_space(s) as int] == ' ',
    decreases s.len(),
{
    if s.len() > 0 && s[0] != ' ' {
        lemma_first_space(s.drop_first());
        assert forall|j: int| 0 <= j < first_space(s) implies s[j] != ' ' by {
            if j > 0 {
                assert(s[j] == s.drop_first()[j - 1]);
            }
        }
    }
}

proof fn lemma_first_space_unique(s: Seq<char>, k: int)
    requires
        0 <= k <= s.len(),
        forall|j: int| 0 <= j < k ==> s[j] != ' ',
        k < s.len() ==> s[k] == ' ',
    ensures
        first_space(s) == k,
    decreases s.len(),
{
    if s.len() > 0 && k > 0 {
        let t = s.drop_first();
        assert forall|j: int| 0 <= j < k - 1 implies t[j] != ' ' by {
            assert(t[j] == s[j + 1]);
        }
        if k - 1 < t.len() {
            assert(t[k - 1] == s[k]);
        }
        lemma_first_space_unique(t, k - 1);
    }
}

/// The index of the first space in `s` at or after `from`, or the length of
/// `s` when there is none.
fn find_space(s: &str, from: usize) -> (res: usize)
    requires
        from <= s@.len(),
    ensures
        res == from + first_space(s@.skip(from as int)),
        res <= s@.len(),
{
    let n = s.unicode_len();
    let mut k = from;
    while k < n && s.get_char(k) != ' '
        invariant
            n == s@.len(),
            from <= k <= n,
            forall|j: int| from <= j < k ==> s@[j] != ' ',
        decreases n - k,
    {
        k = k + 1;
    }
    proof {
        let t = s@.skip(from as int);
        assert forall|j: int| 0 <= j < k - from implies t[j] != ' ' by {
            assert(t[j] == s@[j + from]);
        }
        lemma_first_space_unique(t, k - from);
    }
    k
}

/// Whether a word equals a literal.
fn is_word(w: &str, lit: &str) -> (res: bool)
    ensures
        res == (w@ == lit@),
{
    String::from_str(w) == String::from_str(lit)
}

/// A command typed at the server's console.
#[derive(Debug, PartialEq, Eq)]
pub enum Command {
    /// Shut the server down.
    Quit,
    /// Kick the named player, after asking for confirmation.
    Kick(String),
    /// `kick` without exactly one argument: show how to use it.
    KickUsage,
    /// Send the table of players to everyone now.
    States,
    /// Send this announcement to everyone.
    Announce(String),
    /// List the players.
    Players,
    /// List the players' addresses.
    Ips,
    /// Show the list of commands.
    Help,
    /// An empty line.
    Empty,
    /// Anything else.
    Unrecognized,
}

/// The value of a [`Command`]; an announcement is given by the bytes of its
/// text.
pub enum CommandView {
    Quit,
    Kick(Seq<char>),
    KickUsage,
    States,
    Announce(Seq<u8>),
    Players,
    Ips,
    Help,
    Empty,
    Unrecognized,
}

impl View for Command {
    type V = CommandView;

    open spec fn view(&self) -> CommandView {
        match self {
            Command::Quit => CommandView::Quit,
            Command::Kick(s) => CommandView::Kick(s@),
            Command::KickUsage => CommandView::KickUsage,
            Command::States => CommandView::States,
            Command::Announce(s) => CommandView::Announce(encode_utf8(s@)),
            Command::Players => CommandView::Players,
            Command::Ips => CommandView::Ips,
            Command::Help => CommandView::Help,
            Command::Empty => CommandView::Empty,
            Command::Unrecognized => CommandView::Unrecognized,
        }
    }
}

/// The command a console line holds. An announcement is the rest of the
/// line after the command word and one more byte; `None` stands for the
/// lines where that byte offset lies past the end of the line or inside a
/// character, which the server cannot split there.
pub open spec fn command_of(s: Seq<char>) -> Option<CommandView> {
    let w = first_word(s);
    if w == "shutdown"@ || w == "quit"@ || w == "q"@ || w == "exit"@ {
        Some(CommandView::Quit)
    } else if w == "kick"@ {
        if one_space(s) {
            Some(CommandView::Kick(second_word(s)))
        } else {
            Some(CommandView::KickUsage)
        }
    } else if w == "states"@ {
        Some(CommandView::States)
    } else if w == "announce"@ {
        let b = encode_utf8(s);
        let off = encode_utf8(w).len() + 1int;
        if is_char_boundary(b, off) {
            Some(CommandView::Announce(b.subrange(off, b.len() as int)))
        } else {
            None
        }
    } else if w == "players"@ {
        Some(CommandView::Players)
    } else if w == "ips"@ {
        Some(CommandView::Ips)
    } else if w == "help"@ {
        Some(CommandView::Help)
    } else if w == ""@ {
        Some(CommandView::Empty)
    } else {
        Some(CommandView::Unrecognized)
    }
}

/// The value of an optional command.
pub open spec fn command_option_view(c: Option<Command>) -> Option<CommandView> {
    match c {
        Some(c) => Some(c@),
        None => None,
    }
}

/// The first word of `line`, and where the first space is.
fn split_first(line: &str) -> (res: (&str, usize))
    ensures
        res.0@ == first_word(line@),
        res.1 == first_space(line@),
        res.1 <= line@.len(),
{
    let k = find_space(line, 0);
    assert(line@.skip(0) =~= line@);
    let piece = line.substring_char(0, k);
    assert(piece@ =~= line@.take(k as int));
    (trim_str(piece), k)
}

/// The trimmed text after the first space when the line holds exactly one
/// space.
fn single_argument(line: &str, k: usize) -> (res: Option<String>)
    requires
        k == first_space(line@),
    ensures
        res is Some == one_space(line@),
        res matches Some(a) ==> a@ == second_word(line@),
{
    let n = line.unicode_len();
    proof {
        lemma_first_space(line@);
    }
    if k < n {
        let k2 = find_space(line, k + 1);
        if k2 == n {
            let rest = line.substring_char(k + 1, n);
            assert(rest@ =~= line@.skip(k + 1));
            return Some(String::from_str(trim_str(rest)));
        }
    }
    None
}

proof fn lemma_ascii_word_len(w: Seq<char>, lit: Seq<char>)
    requires
        w == lit,
        vstd::utf8::is_ascii_chars(lit),
    ensures
        encode_utf8(w).len() == lit.len(),
{
    vstd::utf8::is_ascii_chars_encode_utf8(lit);
}

/// Reads a line typed at the server's console.
pub fn parse_command(line: &str) -> (res: Option<Command>)
    ensures
        command_option_view(res) == command_of(line@),
{
    let (word, k) = split_first(line);
    if is_word(word, "shutdown") || is_word(word, "quit") || is_word(word, "q") || is_word(
        word,
        "exit",
    ) {
        Some(Command::Quit)
    } else if is_word(word, "kick") {
        match single_argument(line, k) {
            Some(name) => Some(Command::Kick(name)),
            None => Some(Command::KickUsage),
        }
    } else if is_word(word, "states") {
        Some(Command::States)
    } else if is_word(word, "announce") {
        proof {
            reveal_strlit("announce");
            lemma_ascii_word_len(word@, "announce"@);
        }
        let off = word.len() + 1;
        if line.is_char_boundary(off) {
            let (_, tail) = line.split_at(off);
            let msg = String::from_str(tail);
            assert(encode_utf8(msg@) =~= encode_utf8(line@).subrange(
                off as int,
                encode_utf8(line@).len() as int,
            ));
            Some(Command::Announce(msg))
        } else {
            None
        }
    } else if is_word(word, "players") {
        Some(Command::Players)
    } else if is_word(word, "ips") {
        Some(Command::Ips)
    } else if is_word(word, "help") {
        Some(Command::Help)
    } else if is_word(word, "") {
        Some(Command::Empty)
    } else {
        Some(Command::Unrecognized)
    }
}

/// A command typed at the first server's console.
#[derive(Debug, PartialEq, Eq)]
pub enum LegacyCommand {
    /// Shut the server down.
    Quit,
    /// Kick the named player from the server: off the table of players,
    /// and its connection closed.
    Kick(String),
    /// `kick` without exactly one argument.
    KickUsage,
    /// Send the table of players to everyone now.
    SendStates,
    /// Show the list of commands.
    Help,
    /// An empty line.
    Empty,
    /// Anything else.
    Unrecognized,
}

/// The value of a [`LegacyCommand`].
pub enum LegacyCommandView {
    Quit,
    Kick(Seq<char>),
    KickUsage,
    SendStates,
    Help,
    Empty,
    Unrecognized,
}

impl View for LegacyCommand {
    type V = LegacyCommandView;

    open spec fn view(&self) -> LegacyCommandView {
        match self {
            LegacyCommand::Quit => LegacyCommandView::Quit,
            LegacyCommand::Kick(s) => LegacyCommandView::Kick(s@),
            LegacyCommand::KickUsage => LegacyCommandView::KickUsage,
            LegacyCommand::SendStates => LegacyCommandView::SendStates,
            LegacyCommand::Help => LegacyCommandView::Help,
            LegacyCommand::Empty => LegacyCommandView::Empty,
            LegacyCommand::Unrecognized => LegacyCommandView::Unrecognized,
        }
    }
}

/// The command a line typed at the first server's console holds.
pub open spec fn legacy_command_of(s: Seq<char>) -> LegacyCommandView {
    let w = first_word(s);
    if w == "shutdown"@ || w == "quit"@ || w == "q"@ || w == "exit"@ {
        LegacyCommandView::Quit
    } else if w == "kick"@ {
        if one_space(s) {
            LegacyCommandView::Kick(second_word(s))
        } else {
            LegacyCommandView::KickUsage
        }
    } else if w == "announce"@ {
        LegacyCommandView::SendStates
    } else if w == "help"@ {
        LegacyCommandView::Help
    } else if w == ""@ {
        LegacyCommandView::Empty
    } else {
        LegacyCommandView::Unrecognized
    }
}

/// Reads a line typed at the first server's console.
pub fn parse_legacy_command(line: &str) -> (res: LegacyCommand)
    ensures
        res@ == legacy_command_of(line@),
{
    let (word, k) = split_first(line);
    if is_word(word, "shutdown") || is_word(word, "quit") || is_word(word, "q") || is_word(
        word,
        "exit",
    ) {
        LegacyCommand::Quit
    } else if is_word(word, "kick") {
        match single_argument(line, k) {
            Some(name) => LegacyCommand::Kick(name),
            None => LegacyCommand::KickUsage,
        }
    } else if is_word(word, "announce") {
        LegacyCommand::SendStates
    } else if is_word(word, "help") {
        LegacyCommand::Help
    } else if is_word(word, "") {
        LegacyCommand::Empty
    } else {
        LegacyCommand::Unrecognized
    }
}

/// The answer to "are you sure you want to kick".
#[derive(Debug, PartialEq, Eq)]
pub enum Confirmation {
    Yes,
    No,
    /// Neither: the console asks to answer with yes or no.
    Unclear,
}

/// The answer a line holds: the trimmed line is one of the accepted
/// spellings of yes or of no (an empty answer is no).
pub open spec fn confirmation_of(s: Seq<char>) -> Confirmation {
    let w = trimmed(s);
    if w == "yes"@ || w == "y"@ || w == "Y"@ || w == "Yes"@ || w == "YES"@ {
        Confirmation::Yes
    } else if w == ""@ || w == "no"@ || w == "n"@ || w == "N"@ || w == "NO"@ {
        Confirmation::No
    } else {
        Confirmation::Unclear
    }
}

/// Reads the answer to a kick confirmation.
pub fn parse_confirmation(answer: &str) -> (res: Confirmation)
    ensures
        res == confirmation_of(answer@),
{
    let w = trim_str(answer);
    if is_word(w, "yes") || is_word(w, "y") || is_word(w, "Y") || is_word(w, "Yes") || is_word(
        w,
        "YES",
    ) {
        Confirmation::Yes
    } else if is_word(w, "") || is_word(w, "no") || is_word(w, "n") || is_word(w, "N") || is_word(
        w,
        "NO",
    ) {
        Confirmation::No
    } else {
        Confirmation::Unclear
    }
}

proof fn lemma_trim_end_drops_white_tail(x: Seq<char>, e: Seq<char>)
    requires
        forall|i: int| 0 <= i < e.len() ==> is_white_space(#[trigger] e[i]),
    ensures
        trim_end(x + e) == trim_end(x),
    decreases e.len(),
{
    if e.len() > 0 {
        let d = e.drop_last();
        assert((x + e).drop_last() =~= x + d);
        assert((x + e).last() == e[e.len() - 1]);
        assert forall|i: int| 0 <= i < d.len() implies is_white_space(#[trigger] d[i]) by {
            assert(d[i] == e[i]);
        }
        lemma_trim_end_drops_white_tail(x, d);
    } else {
        assert(x + e =~= x);
    }
}

proof fn lemma_trim_start_all_white(e: Seq<char>)
    requires
        forall|i: int| 0 <= i < e.len() ==> is_white_space(#[trigger] e[i]),
    ensures
        trim_start(e) == Seq::<char>::empty(),
    decreases e.len(),
{
    if e.len() > 0 {
        let d = e.drop_first();
        assert forall|i: int| 0 <= i < d.len() implies is_white_space(#[trigger] d[i]) by {
            assert(d[i] == e[i + 1]);
        }
        assert(is_white_space(e[0]));
        lemma_trim_start_all_white(d);
    } else {
        assert(e =~= Seq::<char>::empty());
    }
}

/// The argument of `kick` is the text after the space with the white space
/// around it removed: for a line made of `kick `, a name holding no white
/// space, and an ending holding only white space other than the space
/// itself (a line feed, a carriage return and a line feed, nothing...), the
/// command kicks exactly that name.
pub proof fn kick_takes_the_trimmed_name(name: Seq<char>, end: Seq<char>)
    requires
        forall|i: int| 0 <= i < name.len() ==> !is_white_space(#[trigger] name[i]),
        forall|i: int| 0 <= i < end.len() ==> is_white_space(#[trigger] end[i]) && end[i] != ' ',
    ensures
        command_of("kick "@ + name + end) == Some(CommandView::Kick(name)),
{
    reveal_strlit("kick ");
    reveal_strlit("kick");
    reveal_strlit("shutdown");
    reveal_strlit("quit");
    reveal_strlit("q");
    reveal_strlit("exit");
    let k5 = "kick "@;
    let line = k5 + name + end;
    let rest = name + end;
    assert(line[4] == ' ');
    assert forall|j: int| 0 <= j < 4 implies line[j] != ' ' by {
        assert(line[j] == k5[j]);
    }
    lemma_first_space_unique(line, 4);
    let word = line.take(4);
    assert(word =~= "kick"@);
    assert(!is_white_space(word[0]));
    assert(!is_white_space(word.last()));
    assert(trim_start(word) == word);
    assert(trim_end(word) == word);
    assert(first_word(line) == "kick"@);
    assert("kick"@ != "shutdown"@) by {
        assert("kick"@.len() != "shutdown"@.len());
    }
    assert("kick"@ != "quit"@) by {
        assert("kick"@[0] != "quit"@[0]);
    }
    assert("kick"@ != "q"@) by {
        assert("kick"@.len() != "q"@.len());
    }
    assert("kick"@ != "exit"@) by {
        assert("kick"@[0] != "exit"@[0]);
    }
    assert(line.skip(5) =~= rest);
    assert forall|j: int| 0 <= j < rest.len() implies rest[j] != ' ' by {
        if j < name.len() {
            assert(rest[j] == name[j]);
            assert(!is_white_space(name[j]));
        } else {
            assert(rest[j] == end[j - name.len()]);
        }
    }
    lemma_first_space_unique(rest, rest.len() as int);
    assert(one_space(line));
    lemma_trim_end_drops_white_tail(name, end);
    if name.len() > 0 {
        assert(rest[0] == name[0]);
        assert(!is_white_space(name[0]));
        assert(trim_start(rest) == rest);
        assert(!is_white_space(name.last()));
        assert(trim_end(name) == name);
    } else {
        assert(rest =~= end);
        lemma_trim_start_all_white(end);
        assert(trim_end(Seq::<char>::empty()) == Seq::<char>::empty());
        assert(name =~= Seq::<char>::empty());
    }
    assert(second_word(line) == name);
}

proof fn lemma_word_then_white(w: Seq<char>, end: Seq<char>)
    requires
        w.len() > 0,
        forall|i: int| 0 <= i < w.len() ==> !is_white_space(#[trigger] w[i]),
        forall|i: int| 0 <= i < end.len() ==> is_white_space(#[trigger] end[i]) && end[i] != ' ',
    ensures
        first_word(w + end) == w,
{
    let line = w + end;
    assert forall|j: int| 0 <= j < line.len() implies line[j] != ' ' by {
        if j < w.len() {
            assert(line[j] == w[j]);
            assert(!is_white_space(w[j]));
        } else {
            assert(line[j] == end[j - w.len()]);
        }
    }
    lemma_first_space_unique(line, line.len() as int);
    assert(line.take(line.len() as int) =~= line);
    assert(line[0] == w[0]);
    assert(trim_start(line) == line);
    lemma_trim_end_drops_white_tail(w, end);
    assert(!is_white_space(w.last()));
}

/// A command word alone on its line is read whatever white space ends the
/// line (a line feed, a carriage return and a line feed, nothing...): the
/// words that quit, `states`, `players`, `ips` and `help`.
pub proof fn commands_read_with_any_line_ending(end: Seq<char>)
    requires
        forall|i: int| 0 <= i < end.len() ==> is_white_space(#[trigger] end[i]) && end[i] != ' ',
    ensures
        command_of("shutdown"@ + end) == Some(CommandView::Quit),
        command_of("quit"@ + end) == Some(CommandView::Quit),
        command_of("q"@ + end) == Some(CommandView::Quit),
        command_of("exit"@ + end) == Some(CommandView::Quit),
        command_of("states"@ + end) == Some(CommandView::States),
        command_of("players"@ + end) == Some(CommandView::Players),
        command_of("ips"@ + end) == Some(CommandView::Ips),
        command_of("help"@ + end) == Some(CommandView::Help),
{
    reveal_strlit("shutdown");
    reveal_strlit("quit");
    reveal_strlit("q");
    reveal_strlit("exit");
    reveal_strlit("kick");
    reveal_strlit("states");
    reveal_strlit("announce");
    reveal_strlit("players");
    reveal_strlit("ips");
    reveal_strlit("help");
    lemma_word_then_white("shutdown"@, end);
    lemma_word_then_white("quit"@, end);
    lemma_word_then_white("q"@, end);
    lemma_word_then_white("exit"@, end);
    lemma_word_then_white("states"@, end);
    lemma_word_then_white("players"@, end);
    lemma_word_then_white("ips"@, end);
    lemma_word_then_white("help"@, end);
    assert("states"@ != "shutdown"@ && "states"@ != "quit"@ && "states"@ != "q"@ && "states"@
        != "exit"@ && "states"@ != "kick"@) by {
        assert("states"@[1] != "shutdown"@[1]);
        assert("states"@.len() != "quit"@.len());
    }
    assert("players"@ != "shutdown"@ && "players"@ != "quit"@ && "players"@ != "q"@ && "players"@
        != "exit"@ && "players"@ != "kick"@ && "players"@ != "states"@ && "players"@
        != "announce"@) by {
        assert("players"@.len() != "shutdown"@.len());
        assert("players"@.len() != "announce"@.len());
    }
    assert("ips"@ != "shutdown"@ && "ips"@ != "quit"@ && "ips"@ != "q"@ && "ips"@ != "exit"@
        && "ips"@ != "kick"@ && "ips"@ != "states"@ && "ips"@ != "announce"@ && "ips"@
        != "players"@) by {
        assert("ips"@.len() != "q"@.len());
    }
    assert("help"@ != "shutdown"@ && "help"@ != "quit"@ && "help"@ != "q"@ && "help"@ != "exit"@
        && "help"@ != "kick"@ && "help"@ != "states"@ && "help"@ != "announce"@ && "help"@
        != "players"@ && "help"@ != "ips"@) by {
        assert("help"@[0] != "quit"@[0]);
        assert("help"@[0] != "exit"@[0]);
        assert("help"@[0] != "kick"@[0]);
    }
}

proof fn lemma_trimmed_word_then_white(w: Seq<char>, end: Seq<char>)
    requires
        w.len() > 0,
        forall|i: int| 0 <= i < w.len() ==> !is_white_space(#[trigger] w[i]),
        forall|i: int| 0 <= i < end.len() ==> is_white_space(#[trigger] end[i]),
    ensures
        trimmed(w + end) == w,
{
    let line = w + end;
    assert(line[0] == w[0]);
    assert(trim_start(line) == line);
    lemma_trim_end_drops_white_tail(w, end);
    assert(!is_white_space(w.last()));
}

/// The answer to a kick confirmation is read whatever white space ends it:
/// each spelling of yes gives yes, each spelling of no gives no, and an
/// answer of white space alone is no.
pub proof fn confirmation_with_any_line_ending(end: Seq<char>)
    requires
        forall|i: int| 0 <= i < end.len() ==> is_white_space(#[trigger] end[i]),
    ensures
        confirmation_of("yes"@ + end) == Confirmation::Yes,
        confirmation_of("y"@ + end) == Confirmation::Yes,
        confirmation_of("Y"@ + end) == Confirmation::Yes,
        confirmation_of("Yes"@ + end) == Confirmation::Yes,
        confirmation_of("YES"@ + end) == Confirmation::Yes,
        confirmation_of("no"@ + end) == Confirmation::No,
        confirmation_of("n"@ + end) == Confirmation::No,
        confirmation_of("N"@ + end) == Confirmation::No,
        confirmation_of("NO"@ + end) == Confirmation::No,
        confirmation_of(end) == Confirmation::No,
{
    reveal_strlit("yes");
    reveal_strlit("y");
    reveal_strlit("Y");
    reveal_strlit("Yes");
    reveal_strlit("YES");
    reveal_strlit("no");
    reveal_strlit("n");
    reveal_strlit("N");
    reveal_strlit("NO");
    reveal_strlit("");
    lemma_trimmed_word_then_white("yes"@, end);
    lemma_trimmed_word_then_white("y"@, end);
    lemma_trimmed_word_then_white("Y"@, end);
    lemma_trimmed_word_then_white("Yes"@, end);
    lemma_trimmed_word_then_white("YES"@, end);
    lemma_trimmed_word_then_white("no"@, end);
    lemma_trimmed_word_then_white("n"@, end);
    lemma_trimmed_word_then_white("N"@, end);
    lemma_trimmed_word_then_white("NO"@, end);
    lemma_trim_start_all_white(end);
    assert(trim_end(Seq::<char>::empty()) == Seq::<char>::empty());
    assert(""@ =~= Seq::<char>::empty());
    assert("no"@ != "yes"@ && "no"@ != "y"@ && "no"@ != "Y"@ && "no"@ != "Yes"@ && "no"@ != "YES"@
        && "no"@ != ""@) by {
        assert("no"@[0] != "yes"@[0]);
        assert("no"@.len() != "y"@.len());
    }
    assert("n"@ != "yes"@ && "n"@ != "y"@ && "n"@ != "Y"@ && "n"@ != "Yes"@ && "n"@ != "YES"@
        && "n"@ != ""@) by {
        assert("n"@[0] != "y"@[0]);
        assert("n"@[0] != "Y"@[0]);
    }
    assert("N"@ != "yes"@ && "N"@ != "y"@ && "N"@ != "Y"@ && "N"@ != "Yes"@ && "N"@ != "YES"@
        && "N"@ != ""@) by {
        assert("N"@[0] != "y"@[0]);
        assert("N"@[0] != "Y"@[0]);
    }
    assert("NO"@ != "yes"@ && "NO"@ != "y"@ && "NO"@ != "Y"@ && "NO"@ != "Yes"@ && "NO"@ != "YES"@
        && "NO"@ != ""@) by {
        assert("NO"@[0] != "yes"@[0]);
        assert("NO"@.len() != "y"@.len());
    }
    assert(Seq::<char>::empty() != "yes"@ && Seq::<char>::empty() != "y"@ && Seq::<char>::empty()
        != "Y"@ && Seq::<char>::empty() != "Yes"@ && Seq::<char>::empty() != "YES"@) by {
        assert("y"@.len() == 1);
    }
}

} // verus!
