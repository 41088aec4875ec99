//! Text helpers shared by the naming and serialisation code: ASCII case
//! mapping, snake case, and decimal rendering of numbers.

use vstd::prelude::*;
use vstd::string::StringExecFns;

verus! {

/// `String::push` appends one character to the end of the string.
pub assume_specification[ String::push ](s: &mut String, c: char)
    ensures
        final(s)@ == old(s)@.push(c),
;

/// `==` on string slices compares their characters.
pub assume_specification[ <str as PartialEq>::eq ](a: &str, b: &str) -> (r: bool)
    ensures
        r == (a@ == b@),
;

/// Whether the character is an ASCII capital letter.
pub open spec fn is_ascii_upper(c: char) -> bool {
    'A' <= c && c <= 'Z'
}

/// Whether the character is an ASCII small letter.
pub open spec fn is_ascii_lower(c: char) -> bool {
    'a' <= c && c <= 'z'
}

/// Lower-case form of one character; only the ASCII letters change.
pub open spec fn lower_char(c: char) -> char {
    if is_ascii_upper(c) {
        ((c as u8) + 32) as char
    } else {
        c
    }
}

/// Upper-case form of one character; only the ASCII letters change.
pub open spec fn upper_char(c: char) -> char {
    if is_ascii_lower(c) {
        ((c as u8) - 32) as char
    } else {
        c
    }
}

/// The text with every character in lower case.
pub open spec fn lower_text(s: Seq<char>) -> Seq<char> {
    Seq::new(s.len(), |i: int| lower_char(s[i]))
}

/// The text with every character in upper case.
pub open spec fn upper_text(s: Seq<char>) -> Seq<char> {
    Seq::new(s.len(), |i: int| upper_char(s[i]))
}

/// Snake case: every character in lower case, with an underscore in front
/// of each upper-case letter that is not the first character.
pub open spec fn snake_text(s: Seq<char>) -> Seq<char>
    decreases s.len(),
{
    if s.len() == 0 {
        s
    } else if s.len() > 1 && is_ascii_upper(s.last()) {
        snake_text(s.drop_last()).push('_').push(lower_char(s.last()))
    } else {
        snake_text(s.drop_last()).push(lower_char(s.last()))
    }
}

/// The decimal digit for a value below ten.
pub open spec fn digit_char(d: nat) -> char
    recommends
        d < 10,
{
    ((d + 48) as u8) as char
}

/// Decimal notation of a number, without leading zeros.
pub open spec fn decimal_text(n: nat) -> Seq<char>
    decreases n,
{
    if n < 10 {
        seq![digit_char(n)]
    } else {
        decimal_text(n / 10).push(digit_char(n % 10))
    }
}

/// The lower-case form of a character.
pub fn to_lower_char(c: char) -> (r: char)
    ensures
        r == lower_char(c),
{
    if 'A' <= c && c <= 'Z' {
        ((c as u8) + 32) as char
    } else {
        c
    }
}

/// The upper-case form of a character.
pub fn to_upper_char(c: char) -> (r: char)
    ensures
        r == upper_char(c),
{
    if 'a' <= c && c <= 'z' {
        ((c as u8) - 32) as char
    } else {
        c
    }
}

/// The text in lower case.
pub fn to_lower(s: &str) -> (r: String)
    ensures
        r@ == lower_text(s@),
{
    let mut out = String::new();
    for c in it: s.chars()
        invariant
            it.seq() == s@,
            out@ == lower_text(s@.take(it.index())),
    {
        out.push(to_lower_char(c));
    }
    out
}

/// The text in upper case.
pub fn to_upper(s: &str) -> (r: String)
    ensures
        r@ == upper_text(s@),
{
    let mut out = String::new();
    for c in it: s.chars()
        invariant
            it.seq() == s@,
            out@ == upper_text(s@.take(it.index())),
    {
        out.push(to_upper_char(c));
    }
    out
}

/// The text in snake case.
pub fn to_snake_case(s: &str) -> (r: String)
    ensures
        r@ == snake_text(s@),
{
    let mut out = String::new();
    let mut first = true;
    for c in it: s.chars()
        invariant
            it.seq() == s@,
            first == (it.index() == 0),
            out@ == snake_text(s@.take(it.index())),
    {
        proof {
            let next = s@.take(it.index() + 1);
            assert(next.drop_last() =~= s@.take(it.index()));
        }
        if !first && 'A' <= c && c <= 'Z' {
            out.push('_');
        }
        out.push(to_lower_char(c));
        first = false;
    }
    assert(s@.take(s@.len() as int) =~= s@);
    out
}

/// The number in decimal notation.
pub fn u32_to_decimal(n: u32) -> (r: String)
    ensures
        r@ == decimal_text(n as nat),
    decreases n,
{
    if n < 10 {
        let mut out = String::new();
        out.push((n as u8 + 48) as char);
        out
    } else {
        let mut out = u32_to_decimal(n / 10);
        out.push(((n % 10) as u8 + 48) as char);
        out
    }
}

/// The first text with the second behind it.
pub fn join(a: &str, b: &str) -> (r: String)
    ensures
        r@ == a@ + b@,
{
    let mut out = String::from_str(a);
    out.append(b);
    out
}

/// The text without its first `count` characters; nothing where it has
/// fewer.
pub open spec fn after(text: Seq<char>, count: nat) -> Seq<char> {
    if count <= text.len() {
        text.skip(count as int)
    } else {
        seq![]
    }
}

/// The text without its first `count` characters.
pub fn skip_text(text: &str, count: usize) -> (rest: String)
    ensures
        rest@ == after(text@, count as nat),
{
    let mut rest = String::new();
    let mut seen: usize = 0;
    for c in it: text.chars()
        invariant
            it.seq() == text@,
            seen == if it.index() < count {
                it.index()
            } else {
                count as int
            },
            rest@ == if it.index() <= count {
                Seq::<char>::empty()
            } else {
                text@.subrange(count as int, it.index())
            },
    {
        if seen < count {
            seen = seen + 1;
        } else {
            rest.push(c);
            assert(text@.subrange(count as int, it.index() + 1) =~= text@.subrange(
                count as int,
                it.index(),
            ).push(c));
        }
    }
    assert(count <= text@.len() ==> text@.subrange(count as int, text@.len() as int) =~= text@.skip(
        count as int,
    ));
    rest
}

} // verus!
