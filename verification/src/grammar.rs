//! The mathematical model of a snapshot: what its text says, as functions on
//! sequences of characters.
//!
//! A snapshot is line-oriented text. Each line is split into fields at white
//! space; the fourth field is the local address of a listening socket, and
//! what follows its last colon is the port, written in decimal.

use vstd::prelude::*;

verus! {

/// Whether `c` is white space: a character with the Unicode property
/// `White_Space`.
pub open spec fn is_space(c: char) -> bool {
    let code = c as u32;
    ||| 0x09 <= code <= 0x0d
    ||| code == 0x20
    ||| code == 0x85
    ||| code == 0xa0
    ||| code == 0x1680
    ||| 0x2000 <= code <= 0x200a
    ||| code == 0x2028
    ||| code == 0x2029
    ||| code == 0x202f
    ||| code == 0x205f
    ||| code == 0x3000
}

/// Whether `c` is one of the decimal digits `0` to `9`.
pub open spec fn is_digit(c: char) -> bool {
    '0' <= c <= '9'
}

/// The characters a line is made of: all but the line feed.
pub open spec fn in_line() -> spec_fn(char) -> bool {
    |c: char| c != '\n'
}

/// The characters a field is made of: all but white space.
pub open spec fn in_field() -> spec_fn(char) -> bool {
    |c: char| !is_space(c)
}

/// The characters that part the fields of a line: white space.
pub open spec fn in_gap() -> spec_fn(char) -> bool {
    |c: char| is_space(c)
}

/// The length of the longest prefix of `s` whose characters all satisfy
/// `p`.
pub open spec fn prefix_len(s: Seq<char>, p: spec_fn(char) -> bool) -> nat
    decreases s.len(),
{
    if s.len() > 0 && p(s[0]) {
        1 + prefix_len(s.drop_first(), p)
    } else {
        0
    }
}

/// The length of the first line of `text`: how many characters come before
/// its first line feed.
pub open spec fn line_len(text: Seq<char>) -> int {
    prefix_len(text, in_line()) as int
}

/// The length of the field that `line` starts with: how many characters
/// come before its first white space.
pub open spec fn field_len(line: Seq<char>) -> int {
    prefix_len(line, in_field()) as int
}

/// The length of the white space that `line` starts with.
pub open spec fn gap_len(line: Seq<char>) -> int {
    prefix_len(line, in_gap()) as int
}

/// The lines of `text`: the pieces between its line feeds, in order. A line
/// feed at the very end of the text starts no further line, and the empty
/// text has no line.
pub open spec fn lines(text: Seq<char>) -> Seq<Seq<char>>
    decreases text.len(),
{
    let n = line_len(text);
    if text.len() == 0 {
        Seq::empty()
    } else if n >= text.len() {
        seq![text]
    } else {
        seq![text.take(n)] + lines(text.skip(n + 1))
    }
}

/// Whether `line` is one line: it holds no line feed.
pub open spec fn is_line(line: Seq<char>) -> bool {
    forall|i: int| 0 <= i < line.len() ==> #[trigger] line[i] != '\n'
}

/// Whether a line can stand between `head` and what follows: `head` is
/// empty or ends with a line feed.
pub open spec fn ends_lines(head: Seq<char>) -> bool {
    head.len() == 0 || head.last() == '\n'
}

/// The snapshot that holds the line `line`, ended by a line feed, between
/// the texts `head` and `tail`.
pub open spec fn with_line(head: Seq<char>, line: Seq<char>, tail: Seq<char>) -> Seq<char> {
    head + line + seq!['\n'] + tail
}

/// The fields of `line`: its maximal runs of characters other than white
/// space, in order.
pub open spec fn fields(line: Seq<char>) -> Seq<Seq<char>>
    decreases line.len(),
{
    let n = field_len(line);
    if line.len() == 0 {
        Seq::empty()
    } else if is_space(line[0]) {
        fields(line.drop_first())
    } else if n >= line.len() {
        seq![line]
    } else {
        seq![line.take(n)] + fields(line.skip(n))
    }
}

/// The local address that `line` names: its fourth field. A line of fewer
/// than four fields names none.
pub open spec fn local_address(line: Seq<char>) -> Option<Seq<char>> {
    let all = fields(line);
    if all.len() >= 4 {
        Some(all[3])
    } else {
        None
    }
}

/// Whether `at` is the position of the last colon of `address`.
pub open spec fn is_last_colon(address: Seq<char>, at: int) -> bool {
    &&& 0 <= at < address.len()
    &&& address[at] == ':'
    &&& forall|j: int| at < j < address.len() ==> address[j] != ':'
}

/// The part of `address` that follows its last colon. The host part before
/// it may hold colons of its own. An address without a colon has no such
/// part.
pub open spec fn port_text(address: Seq<char>) -> Option<Seq<char>> {
    if exists|at: int| is_last_colon(address, at) {
        let at = choose|at: int| is_last_colon(address, at);
        Some(address.skip(at + 1))
    } else {
        None
    }
}

/// The number that `c` stands for, where `c` is a decimal digit.
pub open spec fn digit_value(c: char) -> nat {
    if is_digit(c) {
        (c as u32 - '0' as u32) as nat
    } else {
        0
    }
}

/// The number that `digits` writes in decimal.
pub open spec fn decimal_value(digits: Seq<char>) -> nat
    decreases digits.len(),
{
    if digits.len() == 0 {
        0
    } else {
        10 * decimal_value(digits.drop_last()) + digit_value(digits.last())
    }
}

/// Whether every character of `s` is a decimal digit.
pub open spec fn all_digits(s: Seq<char>) -> bool {
    forall|i: int| 0 <= i < s.len() ==> is_digit(#[trigger] s[i])
}

/// The digits of `s`: `s` without the plus sign that may lead it.
pub open spec fn unsigned_part(s: Seq<char>) -> Seq<char> {
    if s.len() > 0 && s[0] == '+' {
        s.drop_first()
    } else {
        s
    }
}

/// The port that `s` writes: one or more decimal digits, after at most one
/// plus sign, whose value is at most 65535. Any other text writes no port.
pub open spec fn parse_port(s: Seq<char>) -> Option<u16> {
    let digits = unsigned_part(s);
    if digits.len() > 0 && all_digits(digits) && decimal_value(digits) <= 65535 {
        Some(decimal_value(digits) as u16)
    } else {
        None
    }
}

/// The port that `address` names: what its part after the last colon
/// writes.
pub open spec fn address_port(address: Seq<char>) -> Option<u16> {
    match port_text(address) {
        Some(s) => parse_port(s),
        None => None,
    }
}

/// The port that `line` reports as listening, if it reports one.
pub open spec fn line_port(line: Seq<char>) -> Option<u16> {
    match local_address(line) {
        Some(address) => address_port(address),
        None => None,
    }
}

/// The ports that the lines `all` report as listening.
pub open spec fn reported(all: Seq<Seq<char>>) -> Set<u16> {
    Set::new(|port: u16| exists|i: int| 0 <= i < all.len() && #[trigger] line_port(all[i]) == Some(port))
}

/// The ports that the snapshot `text` reports as listening.
pub open spec fn listening(text: Seq<char>) -> Set<u16> {
    reported(lines(text))
}

} // verus!
