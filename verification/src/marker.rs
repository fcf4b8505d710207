//! The text of the marker file: a process id in decimal, which may be
//! surrounded by blanks.

use vstd::prelude::*;
use crate::decimal::{
    all_digits, decimal_text, decimal_value, is_digit, lemma_text_denotes, lemma_value_of_prefix,
    to_decimal,
};

verus! {

/// Whether `byte` is blank: a space, a tab, a line feed, a vertical tab, a
/// form feed or a carriage return.
pub open spec fn is_blank(byte: u8) -> bool {
    byte == 0x20 || 0x09 <= byte <= 0x0d
}

/// Whether every byte of `text` is blank.
pub open spec fn all_blank(text: Seq<u8>) -> bool {
    forall|i: int| 0 <= i < text.len() ==> is_blank(#[trigger] text[i])
}

/// `text` without its leading blanks.
pub open spec fn trim_start(text: Seq<u8>) -> Seq<u8>
    decreases text.len(),
{
    if text.len() > 0 && is_blank(text[0]) {
        trim_start(text.drop_first())
    } else {
        text
    }
}

/// `text` without its trailing blanks.
pub open spec fn trim_end(text: Seq<u8>) -> Seq<u8>
    decreases text.len(),
{
    if text.len() > 0 && is_blank(text.last()) {
        trim_end(text.drop_last())
    } else {
        text
    }
}

/// `text` without the blanks at either end.
pub open spec fn trimmed(text: Seq<u8>) -> Seq<u8> {
    trim_end(trim_start(text))
}

/// The content of a marker that records `pid`: its decimal notation and
/// nothing else.
pub open spec fn marker_content(pid: u32) -> Seq<u8> {
    decimal_text(pid as nat)
}

/// The process id that a marker with this content records, if it records
/// one: the content, blanks at either end aside, is a non-empty run of
/// decimal digits whose value fits in 32 bits.
pub open spec fn marker_pid(content: Seq<u8>) -> Option<u32> {
    let digits = trimmed(content);
    if digits.len() > 0 && all_digits(digits) && decimal_value(digits) <= u32::MAX {
        Some(decimal_value(digits) as u32)
    } else {
        None
    }
}

fn blank(byte: u8) -> (b: bool)
    ensures
        b == is_blank(byte),
{
    byte == 0x20 || (0x09 <= byte && byte <= 0x0d)
}

/// Reads the process id out of a marker's content.
pub fn parse_marker(content: &[u8]) -> (pid: Option<u32>)
    ensures
        pid == marker_pid(content@),
{
    let len: usize = content.len();
    let mut start: usize = 0;
    assert(content@.subrange(0, len as int) =~= content@);
    while start < len && blank(content[start])
        invariant
            start <= len == content@.len(),
            trim_start(content@) == trim_start(content@.subrange(start as int, len as int)),
        decreases len - start,
    {
        proof {
            let rest = content@.subrange(start as int, len as int);
            assert(rest.drop_first() =~= content@.subrange(start + 1, len as int));
        }
        start += 1;
    }
    let mut end: usize = len;
    while end > start && blank(content[end - 1])
        invariant
            start <= end <= len == content@.len(),
            trimmed(content@) == trim_end(content@.subrange(start as int, end as int)),
        decreases end,
    {
        proof {
            let rest = content@.subrange(start as int, end as int);
            assert(rest.drop_last() =~= content@.subrange(start as int, end - 1));
        }
        end -= 1;
    }
    let ghost digits = content@.subrange(start as int, end as int);
    assert(trimmed(content@) == digits);
    if start == end {
        return None;
    }
    let mut value: u64 = 0;
    let mut at: usize = start;
    while at < end
        invariant
            start <= at <= end <= len == content@.len(),
            digits == content@.subrange(start as int, end as int),
            digits == trimmed(content@),
            all_digits(digits.subrange(0, at - start)),
            value == decimal_value(digits.subrange(0, at - start)),
            value <= u32::MAX,
        decreases end - at,
    {
        let byte: u8 = content[at];
        if byte < 0x30 || byte > 0x39 {
            assert(!is_digit(digits[at - start]));
            return None;
        }
        let ghost seen = digits.subrange(0, at - start + 1);
        proof {
            assert(seen.drop_last() =~= digits.subrange(0, at - start));
            assert(seen.last() == byte);
        }
        let longer: u64 = value * 10 + (byte - 0x30) as u64;
        if longer > 0xffff_ffff {
            proof {
                if all_digits(digits) {
                    lemma_value_of_prefix(digits, at - start + 1);
                }
            }
            return None;
        }
        value = longer;
        at += 1;
    }
    assert(digits.subrange(0, at - start) =~= digits);
    Some(value as u32)
}

/// The content to write into a marker that records `pid`.
pub fn encode_pid(pid: u32) -> (content: Vec<u8>)
    ensures
        content@ == marker_content(pid),
{
    to_decimal(pid)
}

proof fn lemma_trim_start_of_blanks(text: Seq<u8>)
    requires
        all_blank(text),
    ensures
        trim_start(text).len() == 0,
    decreases text.len(),
{
    if text.len() > 0 {
        lemma_trim_start_of_blanks(text.drop_first());
    }
}

proof fn lemma_trim_start_of_concat(head: Seq<u8>, tail: Seq<u8>)
    ensures
        trim_start(head + tail) == if all_blank(head) {
            trim_start(tail)
        } else {
            trim_start(head) + tail
        },
        !all_blank(head) ==> trim_start(head).len() > 0,
    decreases head.len(),
{
    if head.len() == 0 {
        assert(head + tail =~= tail);
    } else if is_blank(head[0]) {
        let rest = head.drop_first();
        assert((head + tail).drop_first() =~= rest + tail);
        lemma_trim_start_of_concat(rest, tail);
        if all_blank(rest) {
            assert forall|i: int| 0 <= i < head.len() implies is_blank(#[trigger] head[i]) by {
                if i > 0 {
                    assert(head[i] == rest[i - 1]);
                }
            }
        } else {
            let i = choose|i: int| 0 <= i < rest.len() && !is_blank(#[trigger] rest[i]);
            assert(head[i + 1] == rest[i]);
        }
    } else {
        assert((head + tail)[0] == head[0]);
    }
}

proof fn lemma_trim_end_of_concat(head: Seq<u8>, tail: Seq<u8>)
    requires
        all_blank(tail),
    ensures
        trim_end(head + tail) == trim_end(head),
    decreases tail.len(),
{
    if tail.len() == 0 {
        assert(head + tail =~= head);
    } else {
        let shorter = tail.drop_last();
        assert((head + tail).last() == tail.last());
        assert((head + tail).drop_last() =~= head + shorter);
        lemma_trim_end_of_concat(head, shorter);
    }
}

/// A marker that holds the decimal notation of a process id records that
/// process id.
pub proof fn lemma_marker_round_trip(pid: u32)
    ensures
        marker_pid(marker_content(pid)) == Some(pid),
{
    let text = marker_content(pid);
    lemma_text_denotes(pid as nat);
    assert(is_digit(text[0]));
    assert(is_digit(text.last()));
}

/// Blanks before and after the content of a marker do not change what it
/// records.
pub proof fn lemma_blanks_ignored(before: Seq<u8>, content: Seq<u8>, after: Seq<u8>)
    requires
        all_blank(before),
        all_blank(after),
    ensures
        marker_pid(before + content + after) == marker_pid(content),
{
    assert(before + content + after =~= before + (content + after));
    lemma_trim_start_of_concat(before, content + after);
    lemma_trim_start_of_concat(content, after);
    if all_blank(content) {
        lemma_trim_start_of_blanks(after);
        lemma_trim_start_of_blanks(content);
        assert(trim_start(after) =~= trim_start(content));
    } else {
        lemma_trim_end_of_concat(trim_start(content), after);
    }
}

} // verus!
