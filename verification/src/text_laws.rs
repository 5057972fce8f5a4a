//! What numerals, trimming and searching mean.

use crate::text::{
    decimal, decimal_nat, occurs_at, occurs_in, trimmed, trimmed_end, trimmed_start, white_space,
};
use vstd::prelude::*;

verus! {

/// The number that a sequence of decimal digits stands for.
pub open spec fn numeral_value(numeral: Seq<char>) -> int
    decreases numeral.len(),
{
    if numeral.len() == 0 {
        0
    } else {
        10 * numeral_value(numeral.drop_last()) + (numeral.last() as int - '0' as int)
    }
}

/// The numeral of a natural number consists of decimal digits, has no leading
/// zero, and stands for the number.
pub proof fn law_numeral_reads_back(n: nat)
    ensures
        decimal_nat(n).len() > 0,
        forall|i: int|
            0 <= i < decimal_nat(n).len() ==> '0' <= (#[trigger] decimal_nat(n)[i]) <= '9',
        n > 0 ==> decimal_nat(n)[0] != '0',
        numeral_value(decimal_nat(n)) == n,
    decreases n,
{
    reveal_with_fuel(numeral_value, 2);
    if n >= 10 {
        law_numeral_reads_back(n / 10);
        assert(decimal_nat(n).drop_last() =~= decimal_nat(n / 10));
        assert(decimal_nat(n)[0] == decimal_nat(n / 10)[0]);
    } else {
        assert(decimal_nat(n).drop_last() =~= Seq::empty());
    }
}

/// The numeral of a negative integer is a minus sign before the numeral of its
/// absolute value; that of any other integer is the numeral of the number.
pub proof fn law_sign_of_numeral(n: int)
    ensures
        n >= 0 ==> numeral_value(decimal(n)) == n && '0' <= decimal(n)[0] <= '9' && (n > 0
            ==> decimal(n)[0] != '0') && decimal(n).len() > 0,
        n < 0 ==> decimal(n).len() > 1 && decimal(n)[0] == '-' && decimal(n).skip(1) == decimal(-n),
{
    if n >= 0 {
        law_numeral_reads_back(n as nat);
    } else {
        law_numeral_reads_back((-n) as nat);
        assert(decimal(n).skip(1) =~= decimal(-n));
    }
}

/// The code points of the characters that count as white space.
pub open spec fn white_space_codes() -> Seq<u32> {
    seq![
        9u32, 10, 11, 12, 13, 32, 0x85, 0xa0, 0x1680, 0x2000, 0x2001, 0x2002, 0x2003, 0x2004,
        0x2005, 0x2006, 0x2007, 0x2008, 0x2009, 0x200a, 0x2028, 0x2029, 0x202f, 0x205f, 0x3000,
    ]
}

/// Exactly these characters count as white space.
pub proof fn law_white_space(c: char)
    ensures
        white_space(c) <==> white_space_codes().contains(c as u32),
{
    let codes = white_space_codes();
    let code = c as u32;
    if white_space(c) {
        let at: int = if code <= 13 {
            code - 9
        } else if code == 32 {
            5
        } else if code == 0x85 {
            6
        } else if code == 0xa0 {
            7
        } else if code == 0x1680 {
            8
        } else if code <= 0x200a {
            code - 0x2000 + 9
        } else if code == 0x2028 {
            20
        } else if code == 0x2029 {
            21
        } else if code == 0x202f {
            22
        } else if code == 0x205f {
            23
        } else {
            24
        };
        assert(codes[at] == code);
    }
    if codes.contains(code) {
        let at = choose|i: int| 0 <= i < codes.len() && codes[i] == code;
        assert(codes[at] == code);
    }
}

/// `text` holds nothing but white space.
pub open spec fn blank(text: Seq<char>) -> bool {
    forall|i: int| 0 <= i < text.len() ==> white_space(#[trigger] text[i])
}

/// `kept` is `text` without `before` and `after`, which are blank.
pub open spec fn is_trimmed(
    text: Seq<char>,
    before: Seq<char>,
    kept: Seq<char>,
    after: Seq<char>,
) -> bool {
    text == before + kept + after && blank(before) && blank(after)
}

/// Trimming cuts off white space and nothing else, at both ends, and all of it.
pub proof fn law_trimming_cuts_white_space(text: Seq<char>)
    ensures
        exists|before: Seq<char>, after: Seq<char>| #[trigger]
            is_trimmed(text, before, trimmed(text), after),
        trimmed(text).len() > 0 ==> !white_space(trimmed(text)[0]) && !white_space(
            trimmed(text).last(),
        ),
        trimmed(text).len() == 0 <==> blank(text),
{
    let start = trimmed_start(text);
    let before = lemma_trimmed_start(text);
    let after = lemma_trimmed_end(start);
    assert(text =~= before + trimmed(text) + after);
    assert(is_trimmed(text, before, trimmed(text), after));
    if trimmed(text).len() > 0 {
        assert(start[0] == trimmed(text)[0]);
        assert(text[before.len() as int] == trimmed(text)[0]);
    } else {
        assert forall|i: int| 0 <= i < text.len() implies white_space(#[trigger] text[i]) by {
            if i < before.len() {
                assert(text[i] == before[i]);
            } else {
                assert(text[i] == after[i - before.len()]);
            }
        }
    }
}

/// What is cut off at the start.
proof fn lemma_trimmed_start(text: Seq<char>) -> (before: Seq<char>)
    ensures
        text == before + trimmed_start(text),
        blank(before),
        trimmed_start(text).len() > 0 ==> !white_space(trimmed_start(text)[0]),
    decreases text.len(),
{
    if text.len() > 0 && white_space(text[0]) {
        let rest = lemma_trimmed_start(text.drop_first());
        let before = seq![text[0]] + rest;
        assert(text =~= seq![text[0]] + text.drop_first());
        assert(text =~= before + trimmed_start(text));
        before
    } else {
        assert(text =~= Seq::<char>::empty() + text);
        Seq::empty()
    }
}

/// What is cut off at the end.
proof fn lemma_trimmed_end(text: Seq<char>) -> (after: Seq<char>)
    ensures
        text == trimmed_end(text) + after,
        blank(after),
        trimmed_end(text).len() > 0 ==> !white_space(trimmed_end(text).last()),
    decreases text.len(),
{
    if text.len() > 0 && white_space(text.last()) {
        let rest = lemma_trimmed_end(text.drop_last());
        let after = rest.push(text.last());
        assert(text =~= text.drop_last().push(text.last()));
        assert(text =~= trimmed_end(text) + after);
        after
    } else {
        assert(text =~= text + Seq::<char>::empty());
        Seq::empty()
    }
}

/// `text` is `pattern` between `before` and `after`.
pub open spec fn surrounds(
    text: Seq<char>,
    before: Seq<char>,
    pattern: Seq<char>,
    after: Seq<char>,
) -> bool {
    text == before + pattern + after
}

/// A pattern occurs in a text exactly when the text is the pattern between two
/// others.
pub proof fn law_occurrence(text: Seq<char>, pattern: Seq<char>)
    ensures
        occurs_in(text, pattern) <==> exists|before: Seq<char>, after: Seq<char>| #[trigger]
            surrounds(text, before, pattern, after),
{
    if occurs_in(text, pattern) {
        let at = choose|at: int| occurs_at(text, pattern, at);
        let before = text.take(at);
        let after = text.skip(at + pattern.len());
        assert(text =~= before + text.subrange(at, at + pattern.len()) + after);
        assert(surrounds(text, before, pattern, after));
    }
    if exists|before: Seq<char>, after: Seq<char>| #[trigger]
        surrounds(text, before, pattern, after) {
        let (before, after) = choose|before: Seq<char>, after: Seq<char>| #[trigger]
            surrounds(text, before, pattern, after);
        let at = before.len() as int;
        assert(text.subrange(at, at + pattern.len()) =~= pattern);
        assert(occurs_at(text, pattern, at));
    }
}

} // verus!
