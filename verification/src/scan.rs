//! Reading a snapshot's text: the executable counterpart of the model in
//! `grammar`.

use crate::grammar::{
    address_port, all_digits, decimal_value, digit_value, fields, in_field, in_gap, in_line,
    is_digit, is_last_colon, is_space, line_port, lines, listening, parse_port, prefix_len,
    reported, unsigned_part,
};
use crate::lemmas::{
    lemma_decimal_value_grows, lemma_fields_first, lemma_fields_skip_gap, lemma_lines_first,
    lemma_prefix_len_is, lemma_reported_push,
};
use crate::range::PortRange;
use std::collections::HashSet;
use vstd::prelude::*;

verus! {

/// A kind of run of characters.
#[derive(Clone, Copy)]
enum Run {
    /// What a line is made of.
    Line,
    /// What a field is made of.
    Field,
    /// What parts two fields.
    Gap,
}

impl Run {
    /// The characters that the run is made of.
    spec fn members(self) -> spec_fn(char) -> bool {
        match self {
            Run::Line => in_line(),
            Run::Field => in_field(),
            Run::Gap => in_gap(),
        }
    }

    /// Whether `c` may stand in the run.
    fn has(self, c: char) -> (yes: bool)
        ensures
            yes == (self.members())(c),
    {
        match self {
            Run::Line => c != '\n',
            Run::Field => !space(c),
            Run::Gap => space(c),
        }
    }
}

/// Whether `c` is white space.
pub(crate) fn space(c: char) -> (yes: bool)
    ensures
        yes == is_space(c),
{
    let code: u32 = c as u32;
    (0x09 <= code && code <= 0x0d) || code == 0x20 || code == 0x85 || code == 0xa0 || code
        == 0x1680 || (0x2000 <= code && code <= 0x200a) || code == 0x2028 || code == 0x2029 || code
        == 0x202f || code == 0x205f || code == 0x3000
}

/// Where the run that starts at `from` ends, looking no further than `to`.
fn run_end(chars: &[char], from: usize, to: usize, run: Run) -> (end: usize)
    requires
        from <= to <= chars.len(),
    ensures
        from <= end <= to,
        end - from == prefix_len(chars@.subrange(from as int, to as int), run.members()),
        end < to ==> !(run.members())(chars@[end as int]),
{
    let mut end: usize = from;
    while end < to && run.has(chars[end])
        invariant
            from <= end <= to <= chars.len(),
            forall|k: int| from <= k < end ==> (run.members())(#[trigger] chars@[k]),
        decreases to - end,
    {
        end += 1;
    }
    proof {
        lemma_prefix_len_is(chars@.subrange(from as int, to as int), run.members(), end - from);
    }
    end
}

/// The port that the characters from `from` up to `to` write.
fn scan_port(chars: &[char], from: usize, to: usize) -> (port: Option<u16>)
    requires
        from <= to <= chars.len(),
    ensures
        port == parse_port(chars@.subrange(from as int, to as int)),
{
    let start: usize = if from < to && chars[from] == '+' {
        from + 1
    } else {
        from
    };
    let ghost digits = chars@.subrange(start as int, to as int);
    if start == to {
        return None;
    }
    let mut value: u32 = 0;
    let mut at: usize = start;
    while at < to
        invariant
            from <= start <= at <= to <= chars.len(),
            digits == chars@.subrange(start as int, to as int),
            digits == unsigned_part(chars@.subrange(from as int, to as int)),
            all_digits(digits.take(at - start)),
            value == decimal_value(digits.take(at - start)),
            value <= 65535,
        decreases to - at,
    {
        let c: char = chars[at];
        let ghost before = digits.take(at - start);
        let ghost upto = digits.take(at + 1 - start);
        assert(upto.drop_last() =~= before);
        if !(c >= '0' && c <= '9') {
            assert(digits[at - start] == c);
            return None;
        }
        let digit: u32 = c as u32 - '0' as u32;
        value = value * 10 + digit;
        if value > 65535 {
            proof {
                lemma_decimal_value_grows(digits, at + 1 - start);
            }
            return None;
        }
        assert(all_digits(upto));
        at += 1;
    }
    assert(digits.take(at - start) =~= digits);
    Some(value as u16)
}

/// The port that the address from `from` up to `to` names.
fn scan_address(chars: &[char], from: usize, to: usize) -> (port: Option<u16>)
    requires
        from <= to <= chars.len(),
    ensures
        port == address_port(chars@.subrange(from as int, to as int)),
{
    let ghost address = chars@.subrange(from as int, to as int);
    let mut after: usize = to;
    while after > from && chars[after - 1] != ':'
        invariant
            from <= after <= to <= chars.len(),
            forall|k: int| after <= k < to ==> #[trigger] chars@[k] != ':',
        decreases after,
    {
        after -= 1;
    }
    if after == from {
        assert(forall|at: int| !is_last_colon(address, at));
        None
    } else {
        proof {
            let colon = after - 1 - from;
            assert(is_last_colon(address, colon));
            assert(address.skip(colon + 1) =~= chars@.subrange(after as int, to as int));
        }
        scan_port(chars, after, to)
    }
}

/// The port that the line from `from` up to `to` reports as listening.
fn scan_line(chars: &[char], from: usize, to: usize) -> (port: Option<u16>)
    requires
        from <= to <= chars.len(),
    ensures
        port == line_port(chars@.subrange(from as int, to as int)),
{
    let ghost line = chars@.subrange(from as int, to as int);
    let ghost mut passed: Seq<Seq<char>> = Seq::empty();
    let mut count: usize = 0;
    let mut at: usize = from;
    loop
        invariant
            from <= at <= to <= chars.len(),
            line == chars@.subrange(from as int, to as int),
            count <= 3,
            passed.len() == count,
            fields(line) == passed + fields(chars@.subrange(at as int, to as int)),
        decreases to - at,
    {
        let ghost rest = chars@.subrange(at as int, to as int);
        let start: usize = run_end(chars, at, to, Run::Gap);
        let ghost tail = chars@.subrange(start as int, to as int);
        proof {
            lemma_fields_skip_gap(rest);
            assert(rest.skip(start - at) =~= tail);
        }
        if start == to {
            return None;
        }
        let end: usize = run_end(chars, start, to, Run::Field);
        let ghost field = chars@.subrange(start as int, end as int);
        proof {
            lemma_fields_first(tail);
            assert(tail.take(end - start) =~= field);
            assert(tail.skip(end - start) =~= chars@.subrange(end as int, to as int));
        }
        if count == 3 {
            return scan_address(chars, start, end);
        }
        proof {
            passed = passed.push(field);
        }
        count += 1;
        at = end;
    }
}

/// The ports of `range` that the snapshot `chars` reports as listening.
pub(crate) fn scan(chars: &[char], range: PortRange) -> (found: HashSet<u16>)
    ensures
        found@ == listening(chars@).intersect(range.ports()),
{
    let mut found: HashSet<u16> = HashSet::new();
    let ghost mut passed: Seq<Seq<char>> = Seq::empty();
    let mut at: usize = 0;
    assert(chars@.subrange(0, chars@.len() as int) =~= chars@);
    while at < chars.len()
        invariant
            at <= chars.len(),
            lines(chars@) == passed + lines(chars@.subrange(at as int, chars@.len() as int)),
            found@ == reported(passed).intersect(range.ports()),
        decreases chars.len() - at,
    {
        let ghost rest = chars@.subrange(at as int, chars@.len() as int);
        let end: usize = run_end(chars, at, chars.len(), Run::Line);
        let ghost line = chars@.subrange(at as int, end as int);
        let port = scan_line(chars, at, end);
        let next: usize = if end < chars.len() {
            end + 1
        } else {
            end
        };
        proof {
            lemma_lines_first(rest);
            lemma_reported_push(passed, line);
            assert(rest.take(end - at) =~= line);
            if end < chars.len() {
                assert(rest.skip(end - at + 1) =~= chars@.subrange(
                    next as int,
                    chars@.len() as int,
                ));
            }
        }
        match port {
            Some(p) => {
                if range.contains(p) {
                    found.insert(p);
                }
            },
            None => {},
        }
        proof {
            passed = passed.push(line);
        }
        at = next;
    }
    found
}

/// The characters of `text`, in order.
pub(crate) fn characters(text: &str) -> (chars: Vec<char>)
    ensures
        chars@ == text@,
{
    let mut chars: Vec<char> = Vec::new();
    for c in it: text.chars()
        invariant
            chars@ == it.seq().take(it.index()),
            it.seq() == text@,
    {
        chars.push(c);
    }
    chars
}

} // verus!
