//! Text building and searching.
//!
//! Messages are described by the character sequences that they hold.

use vstd::prelude::*;

verus! {

/// The character that stands for the decimal digit `d`.
pub open spec fn digit(d: nat) -> char {
    if d == 0 {
        '0'
    } else if d == 1 {
        '1'
    } else if d == 2 {
        '2'
    } else if d == 3 {
        '3'
    } else if d == 4 {
        '4'
    } else if d == 5 {
        '5'
    } else if d == 6 {
        '6'
    } else if d == 7 {
        '7'
    } else if d == 8 {
        '8'
    } else {
        '9'
    }
}

/// The decimal numeral of a natural number, without leading zeros.
pub open spec fn decimal_nat(n: nat) -> Seq<char>
    decreases n,
{
    if n < 10 {
        seq![digit(n)]
    } else {
        decimal_nat(n / 10).push(digit(n % 10))
    }
}

/// The decimal numeral of an integer.
pub open spec fn decimal(n: int) -> Seq<char> {
    if n < 0 {
        seq!['-'] + decimal_nat((-n) as nat)
    } else {
        decimal_nat(n as nat)
    }
}

/// `pattern` occurs somewhere in `text`.
pub open spec fn occurs_in(text: Seq<char>, pattern: Seq<char>) -> bool {
    exists|at: int| occurs_at(text, pattern, at)
}

/// `pattern` occurs in `text` at index `at`.
pub open spec fn occurs_at(text: Seq<char>, pattern: Seq<char>, at: int) -> bool {
    &&& 0 <= at
    &&& at + pattern.len() <= text.len()
    &&& text.subrange(at, at + pattern.len()) == pattern
}

/// The characters with the Unicode property `White_Space`.
pub open spec fn white_space(c: char) -> bool {
    ||| 0x09 <= c as u32 <= 0x0d
    ||| c as u32 == 0x20
    ||| c as u32 == 0x85
    ||| c as u32 == 0xa0
    ||| c as u32 == 0x1680
    ||| 0x2000 <= c as u32 <= 0x200a
    ||| c as u32 == 0x2028
    ||| c as u32 == 0x2029
    ||| c as u32 == 0x202f
    ||| c as u32 == 0x205f
    ||| c as u32 == 0x3000
}

/// `text` without its leading white space.
pub open spec fn trimmed_start(text: Seq<char>) -> Seq<char>
    decreases text.len(),
{
    if text.len() > 0 && white_space(text[0]) {
        trimmed_start(text.drop_first())
    } else {
        text
    }
}

/// `text` without its trailing white space.
pub open spec fn trimmed_end(text: Seq<char>) -> Seq<char>
    decreases text.len(),
{
    if text.len() > 0 && white_space(text.last()) {
        trimmed_end(text.drop_last())
    } else {
        text
    }
}

/// `text` without leading and trailing white space.
pub open spec fn trimmed(text: Seq<char>) -> Seq<char> {
    trimmed_end(trimmed_start(text))
}

/// Appends the decimal digit `d` to `text`.
fn append_digit(text: &mut String, d: u8)
    requires
        d < 10,
    ensures
        final(text)@ == old(text)@.push(digit(d as nat)),
{
    proof {
        reveal_strlit("0");
        reveal_strlit("1");
        reveal_strlit("2");
        reveal_strlit("3");
        reveal_strlit("4");
        reveal_strlit("5");
        reveal_strlit("6");
        reveal_strlit("7");
        reveal_strlit("8");
        reveal_strlit("9");
    }
    let numeral = match d {
        0 => "0",
        1 => "1",
        2 => "2",
        3 => "3",
        4 => "4",
        5 => "5",
        6 => "6",
        7 => "7",
        8 => "8",
        _ => "9",
    };
    text.append(numeral);
    assert(text@ =~= old(text)@.push(digit(d as nat)));
}

/// Appends the decimal numeral of `n` to `text`.
pub fn append_unsigned(text: &mut String, n: u128)
    ensures
        final(text)@ == old(text)@ + decimal(n as int),
    decreases n,
{
    if n >= 10 {
        append_unsigned(text, n / 10);
    }
    append_digit(text, (n % 10) as u8);
    assert(text@ =~= old(text)@ + decimal(n as int));
}

/// Appends the decimal numeral of `n` to `text`.
pub fn append_signed(text: &mut String, n: i64)
    ensures
        final(text)@ == old(text)@ + decimal(n as int),
{
    if n < 0 {
        proof {
            reveal_strlit("-");
        }
        text.append("-");
        append_unsigned(text, (-(n as i128)) as u128);
        assert(text@ =~= old(text)@ + decimal(n as int));
    } else {
        append_unsigned(text, n as u128);
    }
}

/// The characters of `text`, in order.
pub(crate) fn characters(text: &str) -> (chars: Vec<char>)
    ensures
        chars@ == text@,
{
    let mut chars: Vec<char> = Vec::new();
    for c in it: text.chars()
        invariant
            it.seq() == text@,
            chars@ == text@.take(it.index() as int),
    {
        chars.push(c);
    }
    assert(text@.take(text@.len() as int) =~= text@);
    chars
}

/// Whether `pattern` occurs in `text`.
pub fn contains(text: &str, pattern: &str) -> (found: bool)
    ensures
        found == occurs_in(text@, pattern@),
{
    let chars = characters(text);
    let wanted = characters(pattern);
    if wanted.len() > chars.len() {
        return false;
    }
    let last: usize = chars.len() - wanted.len();
    let mut at: usize = 0;
    while at <= last
        invariant
            chars@ == text@,
            wanted@ == pattern@,
            wanted.len() <= chars.len(),
            last == chars.len() - wanted.len(),
            at <= last + 1,
            forall|i: int| 0 <= i < at ==> !occurs_at(text@, pattern@, i),
        decreases last + 1 - at,
    {
        let mut matched: usize = 0;
        while matched < wanted.len() && chars[at + matched] == wanted[matched]
            invariant
                chars@ == text@,
                wanted@ == pattern@,
                at + wanted.len() <= chars.len(),
                matched <= wanted.len(),
                forall|i: int| 0 <= i < matched ==> text@[at + i] == pattern@[i],
            decreases wanted.len() - matched,
        {
            matched += 1;
        }
        if matched == wanted.len() {
            assert(text@.subrange(at as int, at + pattern@.len()) =~= pattern@);
            assert(occurs_at(text@, pattern@, at as int));
            return true;
        }
        assert(!occurs_at(text@, pattern@, at as int)) by {
            assert(text@.subrange(at as int, at + pattern@.len())[matched as int] == text@[at
                + matched]);
        }
        if at == last {
            return false;
        }
        at += 1;
    }
    false
}

/// Whether `c` has the Unicode property `White_Space`.
fn is_white_space(c: char) -> (white: bool)
    ensures
        white == white_space(c),
{
    let code: u32 = c as u32;
    (0x09 <= code && code <= 0x0d) || code == 0x20 || code == 0x85 || code == 0xa0 || code == 0x1680
        || (0x2000 <= code && code <= 0x200a) || code == 0x2028 || code == 0x2029 || code == 0x202f
        || code == 0x205f || code == 0x3000
}

/// `text` without leading and trailing white space.
pub fn trim(text: &str) -> (kept: String)
    ensures
        kept@ == trimmed(text@),
{
    let chars = characters(text);
    let mut from: usize = 0;
    let mut to: usize = chars.len();
    assert(text@.skip(0) =~= text@);
    while from < to && is_white_space(chars[from])
        invariant
            chars@ == text@,
            from <= to == chars.len(),
            trimmed_start(text@) == trimmed_start(text@.skip(from as int)),
        decreases to - from,
    {
        assert(text@.skip(from as int).drop_first() =~= text@.skip(from + 1));
        from += 1;
    }
    assert(trimmed_start(text@) =~= text@.subrange(from as int, to as int));
    while from < to && is_white_space(chars[to - 1])
        invariant
            chars@ == text@,
            from <= to <= chars.len(),
            trimmed(text@) == trimmed_end(text@.subrange(from as int, to as int)),
        decreases to - from,
    {
        assert(text@.subrange(from as int, to as int).drop_last() =~= text@.subrange(
            from as int,
            to - 1,
        ));
        to -= 1;
    }
    text.substring_char(from, to).to_string()
}

} // verus!
