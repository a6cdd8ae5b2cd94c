//! Facts about the model of a snapshot that the scanner and the laws rest
//! on.

use crate::grammar::{
    decimal_value, ends_lines, field_len, fields, gap_len, in_field, in_line, is_line, is_space,
    line_len, line_port, lines, prefix_len, reported,
};
use vstd::prelude::*;

verus! {

/// The prefix that `prefix_len` measures lies within `s`.
pub proof fn lemma_prefix_len_bound(s: Seq<char>, p: spec_fn(char) -> bool)
    ensures
        prefix_len(s, p) <= s.len(),
    decreases s.len(),
{
    if s.len() > 0 && p(s[0]) {
        lemma_prefix_len_bound(s.drop_first(), p);
    }
}

/// The prefix that `prefix_len` measures ends where the first character
/// outside `p` stands, or where `s` ends.
pub proof fn lemma_prefix_len_is(s: Seq<char>, p: spec_fn(char) -> bool, n: int)
    requires
        0 <= n <= s.len(),
        forall|k: int| 0 <= k < n ==> p(#[trigger] s[k]),
        n < s.len() ==> !p(s[n]),
    ensures
        prefix_len(s, p) == n,
    decreases n,
{
    if n > 0 {
        let rest = s.drop_first();
        assert forall|k: int| 0 <= k < n - 1 implies p(#[trigger] rest[k]) by {
        }
        lemma_prefix_len_is(rest, p, n - 1);
    }
}

/// A prefix that ends before `s` does is no longer than the place of any
/// character outside `p`.
proof fn lemma_prefix_len_stops(s: Seq<char>, p: spec_fn(char) -> bool, at: int)
    requires
        0 <= at < s.len(),
        !p(s[at]),
    ensures
        prefix_len(s, p) <= at,
    decreases s.len(),
{
    if at > 0 && p(s[0]) {
        lemma_prefix_len_stops(s.drop_first(), p, at - 1);
    }
}

/// A prefix that ends within `one` is not changed by what follows `one`.
proof fn lemma_prefix_len_concat(one: Seq<char>, other: Seq<char>, p: spec_fn(char) -> bool)
    requires
        prefix_len(one, p) < one.len(),
    ensures
        prefix_len(one + other, p) == prefix_len(one, p),
    decreases one.len(),
{
    if p(one[0]) {
        assert((one + other).drop_first() =~= one.drop_first() + other);
        lemma_prefix_len_concat(one.drop_first(), other, p);
    }
}

/// The value of a decimal number is at least the value of each of its
/// prefixes.
pub proof fn lemma_decimal_value_grows(digits: Seq<char>, n: int)
    requires
        0 <= n <= digits.len(),
    ensures
        decimal_value(digits.take(n)) <= decimal_value(digits),
    decreases digits.len() - n,
{
    if n < digits.len() {
        lemma_decimal_value_grows(digits, n + 1);
        assert(digits.take(n + 1).drop_last() =~= digits.take(n));
    } else {
        assert(digits.take(n) =~= digits);
    }
}

/// White space at the start of a line belongs to no field.
pub proof fn lemma_fields_skip_gap(line: Seq<char>)
    ensures
        gap_len(line) <= line.len(),
        fields(line) == fields(line.skip(gap_len(line))),
    decreases line.len(),
{
    if line.len() > 0 && is_space(line[0]) {
        let rest = line.drop_first();
        lemma_fields_skip_gap(rest);
        assert(line.skip(gap_len(line)) =~= rest.skip(gap_len(rest)));
    } else {
        assert(line.skip(0) =~= line);
    }
}

/// A line that starts with a character other than white space starts with
/// its first field, and its other fields are those of what follows.
pub proof fn lemma_fields_first(line: Seq<char>)
    requires
        line.len() > 0,
        !is_space(line[0]),
    ensures
        1 <= field_len(line) <= line.len(),
        fields(line) == seq![line.take(field_len(line))] + fields(line.skip(field_len(line))),
{
    let n = field_len(line);
    lemma_prefix_len_bound(line, in_field());
    if n >= line.len() {
        assert(line.take(n) =~= line);
    }
}

/// A text that is not empty starts with its first line. Where a line feed
/// ends that line, the other lines are those of what follows the line feed;
/// where none does, there is no other line.
pub proof fn lemma_lines_first(text: Seq<char>)
    requires
        text.len() > 0,
    ensures
        line_len(text) <= text.len(),
        lines(text) == seq![text.take(line_len(text))] + (if line_len(text) < text.len() {
            lines(text.skip(line_len(text) + 1))
        } else {
            Seq::<Seq<char>>::empty()
        }),
{
    let n = line_len(text);
    lemma_prefix_len_bound(text, in_line());
    if n >= text.len() {
        assert(text.take(n) =~= text);
    }
}

/// The lines of two texts put together are the lines of the first and then
/// those of the second, where the first ends with a line feed or is empty.
pub proof fn lemma_lines_concat(head: Seq<char>, tail: Seq<char>)
    requires
        ends_lines(head),
    ensures
        lines(head + tail) == lines(head) + lines(tail),
    decreases head.len(),
{
    if head.len() == 0 {
    } else {
        let whole = head + tail;
        let n = line_len(head);
        lemma_prefix_len_stops(head, in_line(), head.len() - 1);
        lemma_prefix_len_concat(head, tail, in_line());
        let rest = head.skip(n + 1);
        assert(whole.take(n) =~= head.take(n));
        assert(whole.skip(n + 1) =~= rest + tail);
        if rest.len() > 0 {
        }
        lemma_lines_concat(rest, tail);
    }
}

/// A line and the line feed that ends it are one line.
pub proof fn lemma_lines_single(line: Seq<char>)
    requires
        is_line(line),
    ensures
        lines(line + seq!['\n']) == seq![line],
{
    let text = line + seq!['\n'];
    assert forall|k: int| 0 <= k < line.len() implies (in_line())(#[trigger] text[k]) by {
    }
    lemma_prefix_len_is(text, in_line(), line.len() as int);
    assert(text.take(line.len() as int) =~= line);
    lemma_lines_first(text);
}

/// One more line adds the port that it reports, if it reports one.
pub proof fn lemma_reported_push(all: Seq<Seq<char>>, line: Seq<char>)
    ensures
        reported(all.push(line)) == match line_port(line) {
            Some(port) => reported(all).insert(port),
            None => reported(all),
        },
{
    let more = all.push(line);
    let wider = match line_port(line) {
        Some(port) => reported(all).insert(port),
        None => reported(all),
    };
    assert forall|port: u16| reported(more).contains(port) <==> wider.contains(port) by {
        if reported(more).contains(port) {
            let i = choose|i: int| 0 <= i < more.len() && #[trigger] line_port(more[i]) == Some(port);
            assert(i < all.len() ==> more[i] == all[i]);
        }
        if wider.contains(port) {
            if reported(all).contains(port) {
                let i = choose|i: int| 0 <= i < all.len() && #[trigger] line_port(all[i]) == Some(port);
                assert(line_port(more[i]) == Some(port));
            } else {
                assert(line_port(more[all.len() as int]) == Some(port));
            }
        }
    }
}

/// The ports that two runs of lines report are those that either reports.
pub proof fn lemma_reported_concat(one: Seq<Seq<char>>, other: Seq<Seq<char>>)
    ensures
        reported(one + other) == reported(one).union(reported(other)),
{
    let both = one + other;
    assert forall|port: u16| reported(both).contains(port) <==> reported(one).union(
        reported(other),
    ).contains(port) by {
        if reported(both).contains(port) {
            let i = choose|i: int| 0 <= i < both.len() && #[trigger] line_port(both[i]) == Some(port);
            assert(both[i] == if i < one.len() {
                one[i]
            } else {
                other[i - one.len()]
            });
        }
        if reported(one).contains(port) {
            let i = choose|i: int| 0 <= i < one.len() && #[trigger] line_port(one[i]) == Some(port);
            assert(line_port(both[i]) == Some(port));
        }
        if reported(other).contains(port) {
            let i = choose|i: int|
                0 <= i < other.len() && #[trigger] line_port(other[i]) == Some(port);
            assert(line_port(both[one.len() + i]) == Some(port));
        }
    }
}

} // verus!
