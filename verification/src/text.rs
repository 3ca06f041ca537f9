use vstd::prelude::*;
use vstd::string::StrSliceExecFns;
use vstd::string::StringExecFns;

verus! {

/// The characters with the Unicode `White_Space` property.
pub open spec fn is_white_space(c: char) -> bool {
    let u = c as u32;
    ||| 0x09 <= u <= 0x0D
    ||| u == 0x20
    ||| u == 0x85
    ||| u == 0xA0
    ||| u == 0x1680
    ||| 0x2000 <= u <= 0x200A
    ||| u == 0x2028
    ||| u == 0x2029
    ||| u == 0x202F
    ||| u == 0x205F
    ||| u == 0x3000
}

/// `s` without its leading white space.
pub open spec fn trim_start(s: Seq<char>) -> Seq<char>
    decreases s.len(),
{
    if s.len() > 0 && is_white_space(s[0]) {
        trim_start(s.drop_first())
    } else {
        s
    }
}

/// `s` without its trailing white space.
pub open spec fn trim_end(s: Seq<char>) -> Seq<char>
    decreases s.len(),
{
    if s.len() > 0 && is_white_space(s.last()) {
        trim_end(s.drop_last())
    } else {
        s
    }
}

/// `s` without its leading and trailing white space.
pub open spec fn trimmed(s: Seq<char>) -> Seq<char> {
    trim_end(trim_start(s))
}

/// `char::is_whitespace`, which std documents as the Unicode `White_Space`
/// property; the contract claims that it answers [`is_white_space`].
#[verifier::external_body]
pub(crate) fn char_is_whitespace(c: char) -> (res: bool)
    ensures
        res == is_white_space(c),
{
    c.is_whitespace()
}

/// `str::trim`, which std documents as removing leading and trailing
/// `White_Space` characters; the contract claims that it returns [`trimmed`].
#[verifier::external_body]
pub(crate) fn trim_str<'a>(s: &'a str) -> (res: &'a str)
    ensures
        res@ == trimmed(s@),
{
    s.trim()
}

/// `String::pop`: the contract claims that it removes and returns the last
/// character, and returns `None` on an empty string, as std documents.
#[verifier::external_body]
fn pop_char(s: &mut String) -> (res: Option<char>)
    ensures
        old(s)@.len() == 0 ==> res is None && final(s)@ == old(s)@,
        old(s)@.len() > 0 ==> res == Some(old(s)@.last()) && final(s)@ == old(s)@.drop_last(),
{
    s.pop()
}

/// A line as typed at a prompt, stripped of its newline: a final line feed
/// and a carriage return just before it (Windows ends a line with both).
pub open spec fn spec_strip_line_ending(line: Seq<char>) -> Seq<char> {
    if line.len() > 0 && line.last() == '\n' {
        let t = line.drop_last();
        if t.len() > 0 && t.last() == '\r' {
            t.drop_last()
        } else {
            t
        }
    } else {
        line
    }
}

/// Strips the newline off a line read at a prompt: a final line feed, and
/// a carriage return just before it; anything else stays.
pub fn strip_line_ending(line: String) -> (res: String)
    ensures
        res@ == spec_strip_line_ending(line@),
{
    let mut line = line;
    let n = line.as_str().unicode_len();
    if n > 0 && line.as_str().get_char(n - 1) == '\n' {
        let _ = pop_char(&mut line);
        if n > 1 && line.as_str().get_char(n - 2) == '\r' {
            let _ = pop_char(&mut line);
        }
    }
    line
}

/// A character a player name may hold: ASCII, and not white space.
pub open spec fn is_name_char(c: char) -> bool {
    c <= '\u{7f}' && !is_white_space(c)
}

/// A player name the client accepts: ASCII only, no white space, and from
/// three to eight characters long.
pub open spec fn valid_name(s: Seq<char>) -> bool {
    &&& forall|i: int| 0 <= i < s.len() ==> #[trigger] is_name_char(s[i])
    &&& 3 <= s.len() <= 8
}

/// Whether a candidate name follows the naming rules.
pub fn is_valid_name(candidate: &str) -> (res: bool)
    ensures
        res == valid_name(candidate@),
{
    let n = candidate.unicode_len();
    let mut i: usize = 0;
    while i < n
        invariant
            n == candidate@.len(),
            i <= n,
            forall|j: int| 0 <= j < i ==> #[trigger] is_name_char(candidate@[j]),
            forall|j: int| 0 <= j < i ==> '\0' <= #[trigger] candidate@[j] <= '\u{7f}',
        decreases n - i,
    {
        let c = candidate.get_char(i);
        if !(c <= '\u{7f}' && !char_is_whitespace(c)) {
            assert(!is_name_char(candidate@[i as int]));
            return false;
        }
        assert('\0' <= c);
        i = i + 1;
    }
    proof {
        assert(vstd::utf8::is_ascii_chars(candidate@));
        vstd::utf8::is_ascii_chars_encode_utf8(candidate@);
    }
    let bytes = candidate.len();
    bytes >= 3 && bytes <= 8
}

/// The port the client connects to: the one typed, or 2536 when none was.
pub open spec fn chosen_port(port_input: Seq<char>) -> Seq<char> {
    if port_input.len() == 0 {
        "2536"@
    } else {
        port_input
    }
}

/// The address the client connects to: `ip:port`, with the default port
/// when none was typed.
pub fn server_address(ip: &str, port_input: &str) -> (res: String)
    ensures
        res@ == ip@ + ":"@ + chosen_port(port_input@),
{
    let port = if port_input.is_empty() {
        "2536"
    } else {
        port_input
    };
    let mut res = String::from_str(ip);
    res.append(":");
    res.append(port);
    res
}

/// The text shown for an announcement from the server.
pub open spec fn spec_announcement_text(inner: Seq<char>) -> Seq<char> {
    "The server sent this message \""@ + trimmed(inner) + "\""@
}

/// The text shown for an announcement: the message without surrounding
/// white space, quoted after a short preface.
pub fn announcement_text(inner: &str) -> (res: String)
    ensures
        res@ == spec_announcement_text(inner@),
{
    let mut res = String::from_str("The server sent this message \"");
    res.append(trim_str(inner));
    res.append("\"");
    res
}

proof fn lemma_ascii_white_space(c: char)
    requires
        c <= '\u{7f}',
    ensures
        is_white_space(c) <==> ('\t' <= c <= '\r' || c == ' '),
{
}

/// The naming rules: a name is accepted exactly when it has three to eight
/// characters, each of them ASCII and none of them an ASCII white-space
/// character (tab, line feed, vertical tab, form feed, carriage return,
/// space). Every other ASCII character is allowed: letters, digits,
/// punctuation such as `_`, and control characters alike.
pub proof fn name_rules(s: Seq<char>)
    ensures
        valid_name(s) <==> {
            &&& 3 <= s.len() <= 8
            &&& forall|i: int|
                0 <= i < s.len() ==> #[trigger] s[i] <= '\u{7f}' && !('\t' <= s[i] <= '\r') && s[i]
                    != ' '
        },
{
    assert forall|i: int| #![trigger s[i]] 0 <= i < s.len() implies is_name_char(s[i]) <==> (s[i] <= '\u{7f}'
        && !('\t' <= s[i] <= '\r') && s[i] != ' ') by {
        if s[i] <= '\u{7f}' {
            lemma_ascii_white_space(s[i]);
        }
    }
}

} // verus!
