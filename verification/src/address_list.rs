//! The address list: a text of one address to a line.

use crate::text::texts;
use vstd::prelude::*;
use vstd::slice::slice_subrange;
use vstd::string::StringExecFns;
use vstd::utf8::{decode_utf8, encode_utf8, valid_utf8};

verus! {

/// The byte that ends a line.
pub const NEWLINE: u8 = 0x0a;

/// The byte that may stand before the one that ends a line.
pub const CARRIAGE_RETURN: u8 = 0x0d;

/// Whether `byte` is a space, a tab, a line feed, a vertical tab, a form
/// feed or a carriage return.
pub open spec fn is_space(byte: u8) -> bool {
    byte == 0x20 || (0x09 <= byte <= 0x0d)
}

/// Whether `line` is empty or made of spaces only.
pub open spec fn is_blank(line: Seq<u8>) -> bool {
    forall|i: int| 0 <= i < line.len() ==> is_space(#[trigger] line[i])
}

/// The index of the first newline of `bytes`, or the length of `bytes` if
/// it has none.
pub open spec fn first_newline(bytes: Seq<u8>) -> int
    decreases bytes.len(),
{
    if bytes.len() == 0 || bytes[0] == NEWLINE {
        0
    } else {
        1 + first_newline(bytes.skip(1))
    }
}

/// The first newline stands within `bytes`, or at its end.
pub proof fn lemma_first_newline_in_range(bytes: Seq<u8>)
    ensures
        0 <= first_newline(bytes) <= bytes.len(),
    decreases bytes.len(),
{
    if bytes.len() > 0 && bytes[0] != NEWLINE {
        lemma_first_newline_in_range(bytes.skip(1));
    }
}

/// `line` without the carriage return at its end, if it has one.
pub open spec fn without_carriage_return(line: Seq<u8>) -> Seq<u8> {
    if line.len() > 0 && line.last() == CARRIAGE_RETURN {
        line.drop_last()
    } else {
        line
    }
}

/// What a line gives to the list: its text, or nothing where it is blank
/// or no valid UTF-8.
pub open spec fn kept(line: Seq<u8>) -> Seq<Seq<char>> {
    if valid_utf8(line) && !is_blank(line) {
        seq![decode_utf8(line)]
    } else {
        Seq::empty()
    }
}

/// The addresses that the list `bytes` names, in its order. A line ends at
/// a newline, and a carriage return just before that newline is no part of
/// it; what follows the last newline is a line too, unless it is empty.
/// Blank lines and lines that are no valid UTF-8 are passed over.
pub open spec fn address_lines(bytes: Seq<u8>) -> Seq<Seq<char>>
    decreases bytes.len(),
{
    if bytes.len() == 0 {
        Seq::empty()
    } else {
        let end = first_newline(bytes);
        if end >= bytes.len() {
            kept(bytes)
        } else {
            proof {
                lemma_first_newline_in_range(bytes);
            }
            kept(without_carriage_return(bytes.take(end))) + address_lines(bytes.skip(end + 1))
        }
    }
}

/// The first newline of `bytes` stands at `end` where no byte before `end`
/// is a newline and `end` is a newline or the end of `bytes`.
proof fn lemma_first_newline(bytes: Seq<u8>, end: int)
    requires
        0 <= end <= bytes.len(),
        forall|k: int| 0 <= k < end ==> bytes[k] != NEWLINE,
        end < bytes.len() ==> bytes[end] == NEWLINE,
    ensures
        first_newline(bytes) == end,
    decreases end,
{
    if end > 0 {
        lemma_first_newline(bytes.skip(1), end - 1);
    }
}

/// Calls `std::str::from_utf8`, which tests whether the bytes are valid UTF-8
/// and, where they are, gives the same bytes as a string slice.
#[verifier::external_body]
fn str_from_utf8(bytes: &[u8]) -> (text: Option<&str>)
    ensures
        text is Some <==> valid_utf8(bytes@),
        text matches Some(t) ==> encode_utf8(t@) == bytes@,
{
    std::str::from_utf8(bytes).ok()
}

/// Whether `line` is empty or made of spaces only.
fn line_is_blank(line: &[u8]) -> (blank: bool)
    ensures
        blank == is_blank(line@),
{
    let mut i: usize = 0;
    while i < line.len()
        invariant
            i <= line.len(),
            forall|k: int| 0 <= k < i ==> is_space(#[trigger] line@[k]),
        decreases line.len() - i,
    {
        let byte = line[i];
        if !(byte == 0x20 || (0x09 <= byte && byte <= 0x0d)) {
            return false;
        }
        i += 1;
    }
    true
}

/// Adds to `addresses` what `line` gives to the list.
fn keep_line(addresses: &mut Vec<String>, line: &[u8])
    ensures
        texts(final(addresses)@) == texts(old(addresses)@) + kept(line@),
{
    if line_is_blank(line) {
        assert(texts(addresses@) + kept(line@) =~= texts(addresses@));
        return ;
    }
    match str_from_utf8(line) {
        Some(text) => {
            let ghost before = addresses@;
            addresses.push(String::from_str(text));
            proof {
                vstd::utf8::encode_utf8_decode_utf8(text@);
                assert(texts(addresses@) =~= texts(before) + kept(line@));
            }
        },
        None => {
            assert(texts(addresses@) + kept(line@) =~= texts(addresses@));
        },
    }
}

/// The addresses that the list `contents` names, one for each line that is
/// neither blank nor invalid as a text, in the order of the lines.
pub fn read_addresses(contents: &[u8]) -> (addresses: Vec<String>)
    ensures
        texts(addresses@) == address_lines(contents@),
{
    let mut addresses: Vec<String> = Vec::new();
    let mut start: usize = 0;
    let mut i: usize = 0;
    proof {
        assert(contents@.skip(0) =~= contents@);
        assert(texts(addresses@) + address_lines(contents@) =~= address_lines(contents@));
    }
    while i < contents.len()
        invariant
            start <= i <= contents.len(),
            forall|k: int| start <= k < i ==> contents@[k] != NEWLINE,
            address_lines(contents@) == texts(addresses@) + address_lines(
                contents@.skip(start as int),
            ),
        decreases contents.len() - i,
    {
        if contents[i] == NEWLINE {
            let whole = slice_subrange(contents, start, i);
            let line = if whole.len() > 0 && whole[whole.len() - 1] == CARRIAGE_RETURN {
                slice_subrange(whole, 0, whole.len() - 1)
            } else {
                whole
            };
            let ghost before = addresses@;
            keep_line(&mut addresses, line);
            proof {
                let rest = contents@.skip(start as int);
                lemma_first_newline(rest, i - start);
                assert(rest.take(i - start) =~= whole@);
                assert(line@ =~= without_carriage_return(whole@));
                assert(rest.skip(i - start + 1) =~= contents@.skip(i + 1));
                assert(texts(addresses@) + address_lines(contents@.skip(i + 1)) =~= texts(before)
                    + address_lines(rest));
            }
            start = i + 1;
        }
        i += 1;
    }
    if start < contents.len() {
        let line = slice_subrange(contents, start, contents.len());
        let ghost before = addresses@;
        keep_line(&mut addresses, line);
        proof {
            let rest = contents@.skip(start as int);
            lemma_first_newline(rest, rest.len() as int);
            assert(line@ =~= rest);
        }
    } else {
        proof {
            assert(texts(addresses@) + address_lines(contents@.skip(start as int)) =~= texts(
                addresses@,
            ));
        }
    }
    addresses
}

} // verus!
