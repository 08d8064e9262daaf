//! Decimal rendering of identifiers.

use vstd::prelude::*;
use vstd::string::*;
use vstd::utf8::*;

verus! {

/// The character that stands for the digit `d`.
pub open spec fn digit_char(d: nat) -> char
    recommends
        d < 10,
{
    if d == 0 {
        '0'
    } else if d == 1 {
        '1'
    } else if d == 2 {
        '2'
    } else if d == 3 {
        '3'
    } else if d == 4 {
        '4'
    } else if d == 5 {
        '5'
    } else if d == 6 {
        '6'
    } else if d == 7 {
        '7'
    } else if d == 8 {
        '8'
    } else {
        '9'
    }
}

/// The decimal digits of `n`, most significant first, without leading zeros.
pub open spec fn decimal(n: nat) -> Seq<char>
    decreases n,
{
    if n < 10 {
        seq![digit_char(n)]
    } else {
        decimal(n / 10).push(digit_char(n % 10))
    }
}

fn digit_str(d: u64) -> (s: &'static str)
    requires
        d < 10,
    ensures
        s@ == seq![digit_char(d as nat)],
{
    proof {
        reveal_strlit("0");
        reveal_strlit("1");
        reveal_strlit("2");
        reveal_strlit("3");
        reveal_strlit("4");
        reveal_strlit("5");
        reveal_strlit("6");
        reveal_strlit("7");
        reveal_strlit("8");
        reveal_strlit("9");
    }
    let s = if d == 0 {
        "0"
    } else if d == 1 {
        "1"
    } else if d == 2 {
        "2"
    } else if d == 3 {
        "3"
    } else if d == 4 {
        "4"
    } else if d == 5 {
        "5"
    } else if d == 6 {
        "6"
    } else if d == 7 {
        "7"
    } else if d == 8 {
        "8"
    } else {
        "9"
    };
    assert(s@ =~= seq![digit_char(d as nat)]);
    s
}

/// Writes `n` in decimal.
pub fn decimal_string(n: u64) -> (s: String)
    ensures
        s@ == decimal(n as nat),
    decreases n,
{
    if n < 10 {
        String::from_str(digit_str(n))
    } else {
        let mut s = decimal_string(n / 10);
        s.append(digit_str(n % 10));
        assert(s@ =~= decimal(n as nat));
        s
    }
}

/// `parts` one after the other with `separator` between each two.
pub open spec fn joined(parts: Seq<Seq<char>>, separator: Seq<char>) -> Seq<char>
    decreases parts.len(),
{
    if parts.len() == 0 {
        Seq::empty()
    } else if parts.len() == 1 {
        parts[0]
    } else {
        joined(parts.drop_last(), separator) + separator + parts.last()
    }
}

/// Joins `parts` with `separator` between each two.
pub fn join(parts: &Vec<String>, separator: &str) -> (text: String)
    ensures
        text@ == joined(parts.deep_view(), separator@),
{
    let mut text = String::new();
    let mut i: usize = 0;
    while i < parts.len()
        invariant
            i <= parts.len(),
            text@ == joined(parts.deep_view().take(i as int), separator@),
        decreases parts.len() - i,
    {
        if i > 0 {
            text.append(separator);
        }
        text.append(parts[i].as_str());
        proof {
            let all = parts.deep_view();
            assert(all.take(i + 1).drop_last() =~= all.take(i as int));
            assert(all.take(i + 1).last() == parts@[i as int]@);
            if i == 0 {
                assert(text@ =~= parts@[0]@);
            }
        }
        i += 1;
    }
    assert(parts.deep_view().take(parts.len() as int) =~= parts.deep_view());
    text
}

/// Whether the bytes of `text` from `from` up to `to` are a text themselves:
/// both ends lie inside `text`, in this order, and between characters.
pub open spec fn can_cut(text: Seq<char>, from: int, to: int) -> bool {
    &&& 0 <= from <= to <= encode_utf8(text).len()
    &&& is_char_boundary(encode_utf8(text), from)
    &&& is_char_boundary(encode_utf8(text), to)
}

/// The text whose bytes are the bytes of `text` from `from` up to `to`.
pub open spec fn cut(text: Seq<char>, from: int, to: int) -> Seq<char>
    recommends
        can_cut(text, from, to),
{
    decode_utf8(encode_utf8(text).subrange(from, to))
}

/// The part of `text` from byte `from` up to byte `to`.
pub fn byte_slice<'a>(text: &'a str, from: usize, to: usize) -> (part: &'a str)
    requires
        can_cut(text@, from as int, to as int),
    ensures
        part@ == cut(text@, from as int, to as int),
{
    broadcast use {
        encode_utf8_valid_utf8,
        encode_utf8_decode_utf8,
        valid_utf8_split,
        is_char_boundary_start_end_of_seq,
    };

    let ghost bytes = text.spec_bytes();
    let (head, _) = text.split_at(to);
    proof {
        let kept = bytes.subrange(0, to as int);
        assert(head.spec_bytes() == kept);
        assert(valid_utf8(kept));
        if 0 < from && from < to {
            is_char_boundary_iff_not_is_continuation_byte(bytes, from as int);
            is_char_boundary_iff_not_is_continuation_byte(kept, from as int);
        }
        assert(is_char_boundary(kept, from as int));
    }
    let (_, part) = head.split_at(from);
    proof {
        assert(part.spec_bytes() =~= bytes.subrange(from as int, to as int));
        assert(decode_utf8(encode_utf8(part@)) == part@);
    }
    part
}

/// The part of `text` from byte `from` up to byte `to`, where there is one.
pub fn try_byte_slice<'a>(text: &'a str, from: usize, to: usize) -> (part: Option<&'a str>)
    ensures
        part is Some <==> can_cut(text@, from as int, to as int),
        part matches Some(part) ==> part@ == cut(text@, from as int, to as int),
{
    broadcast use encode_utf8_valid_utf8;

    if from <= to && text.is_char_boundary(from) && text.is_char_boundary(to) {
        Some(byte_slice(text, from, to))
    } else {
        None
    }
}

} // verus!
