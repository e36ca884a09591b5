//! Text primitives shared by the emitters: appending to a `String`, comparing
//! names, and quoting a value as a string literal.

use vstd::prelude::*;
use vstd::string::*;

verus! {

/// `String::push` appends one character to the end of the string.
pub assume_specification[ String::push ](s: &mut String, c: char)
    ensures
        final(s)@ == old(s)@.push(c),
;

/// The source text of the string literal whose value is `value`: the value
/// between double quotes, with the characters that cannot stand in a literal
/// escaped.
pub uninterp spec fn string_literal(value: Seq<char>) -> Seq<char>;

/// Quotes `value` with `proc_macro2::Literal::string` and prints the literal.
/// The contract only names the resulting text; how each character is escaped is
/// left to `proc_macro2`.
#[verifier::external_body]
pub(crate) fn quote_string(value: &str) -> (literal: String)
    ensures
        literal@ == string_literal(value@),
{
    proc_macro2::Literal::string(value).to_string()
}

/// Whether `text` spells exactly `name`.
pub fn is_name(text: &String, name: &str) -> (same: bool)
    ensures
        same == (text@ == name@),
{
    let expected = String::from_str(name);
    *text == expected
}

/// The first `n` of `parts`, with `separator` between each two.
pub open spec fn joined(parts: Seq<Seq<char>>, separator: Seq<char>, n: int) -> Seq<char>
    decreases n,
{
    if n <= 0 || n > parts.len() {
        Seq::empty()
    } else if n == 1 {
        parts[0]
    } else {
        joined(parts, separator, n - 1) + separator + parts[n - 1]
    }
}

/// The first `n` of `parts`, one after the other.
pub open spec fn concat(parts: Seq<Seq<char>>, n: int) -> Seq<char>
    decreases n,
{
    if n <= 0 || n > parts.len() {
        Seq::empty()
    } else {
        concat(parts, n - 1) + parts[n - 1]
    }
}

/// Appends the characters of `chars` to `out`.
pub fn push_chars(out: &mut String, chars: &Vec<char>)
    ensures
        final(out)@ == old(out)@ + chars@,
{
    let ghost start = out@;
    let mut i: usize = 0;
    while i < chars.len()
        invariant
            i <= chars.len(),
            out@ == start + chars@.take(i as int),
        decreases chars.len() - i,
    {
        out.push(chars[i]);
        assert(chars@.take(i + 1) =~= chars@.take(i as int).push(chars@[i as int]));
        i += 1;
    }
    assert(chars@.take(chars@.len() as int) =~= chars@);
}

/// The characters of `text`, in order.
pub fn chars_of(text: &str) -> (chars: Vec<char>)
    ensures
        chars@ == text@,
{
    broadcast use vstd::string::group_string_axioms;

    let mut chars: Vec<char> = Vec::new();
    for c in it: text.chars()
        invariant
            it.seq() == text@,
            chars@ == text@.take(it.index() as int),
    {
        assert(text@.take(it.index() + 1) =~= text@.take(it.index() as int).push(c));
        chars.push(c);
    }
    assert(text@.take(text@.len() as int) =~= text@);
    chars
}

} // verus!
