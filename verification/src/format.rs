//! Format strings: one placeholder between literal text, and the substitution
//! of a value into it.

use crate::text::{chars_of, push_chars};
use crate::value::{FormatSpec, Style, Value, ValueView};
use vstd::prelude::*;
use vstd::string::*;

verus! {

/// The widest width that a placeholder can ask for.
pub const MAX_WIDTH: usize = 65535;

/// A parsed format string: the literal text before the placeholder, the
/// options of the placeholder, and the literal text after it.
pub struct Template {
    pub prefix: Seq<char>,
    pub spec: FormatSpec,
    pub suffix: Seq<char>,
}

/// `c` before the text of `rest`.
pub open spec fn prepend(c: char, rest: Option<(Seq<char>, int)>) -> Option<(Seq<char>, int)> {
    match rest {
        Some((text, stop)) => Some((seq![c] + text, stop)),
        None => None,
    }
}

/// The literal text of `format` from `from` on, with the index where it stops:
/// at the `{` that opens a placeholder, or at the end. `{{` stands for `{` and
/// `}}` for `}`. `None` where a single `}` stands in the text.
pub open spec fn literal(format: Seq<char>, from: int) -> Option<(Seq<char>, int)>
    decreases format.len() - from,
{
    if from < 0 || from >= format.len() {
        Some((Seq::empty(), format.len() as int))
    } else if format[from] == '{' {
        if from + 1 < format.len() && format[from + 1] == '{' {
            prepend('{', literal(format, from + 2))
        } else {
            Some((Seq::empty(), from))
        }
    } else if format[from] == '}' {
        if from + 1 < format.len() && format[from + 1] == '}' {
            prepend('}', literal(format, from + 2))
        } else {
            None
        }
    } else {
        prepend(format[from], literal(format, from + 1))
    }
}

/// The index of the first `}` from `from` on, or the length of `format`.
pub open spec fn closing(format: Seq<char>, from: int) -> int
    decreases format.len() - from,
{
    if from < 0 || from >= format.len() {
        format.len() as int
    } else if format[from] == '}' {
        from
    } else {
        closing(format, from + 1)
    }
}

/// Whether `c` is a decimal digit.
pub open spec fn is_digit(c: char) -> bool {
    '0' <= c <= '9'
}

/// The index of the first character from `from` on that is not a digit, or
/// the length of `body`.
pub open spec fn digits_end(body: Seq<char>, from: int) -> int
    decreases body.len() - from,
{
    if from < 0 || from >= body.len() {
        body.len() as int
    } else if !is_digit(body[from]) {
        from
    } else {
        digits_end(body, from + 1)
    }
}

/// The number that the digits of `body` from `from` up to `to` write in
/// decimal; 0 where there are none.
pub open spec fn number(body: Seq<char>, from: int, to: int) -> nat
    decreases to - from,
{
    if to <= from {
        0
    } else {
        number(body, from, to - 1) * 10 + (body[to - 1] as int - '0' as int) as nat
    }
}

/// The style that the end of a placeholder asks for: nothing for `{}`, or one
/// of `?`, `b`, `o`, `x` and `X`.
pub open spec fn style_of(rest: Seq<char>) -> Option<Style> {
    if rest.len() == 0 {
        Some(Style::Display)
    } else if rest.len() == 1 {
        if rest[0] == '?' {
            Some(Style::Debug)
        } else if rest[0] == 'b' {
            Some(Style::Binary)
        } else if rest[0] == 'o' {
            Some(Style::Octal)
        } else if rest[0] == 'x' {
            Some(Style::LowerHex)
        } else if rest[0] == 'X' {
            Some(Style::UpperHex)
        } else {
            None
        }
    } else {
        None
    }
}

/// The options that the inside of a placeholder asks for.
///
/// The inside is empty, or a colon followed, in this order and each
/// optional, by `#`, by `0`, by a width of at most [`MAX_WIDTH`] and by a
/// style. Everything else, such as an argument name or position, a fill, an
/// alignment, a sign or a precision, is `None`.
pub open spec fn parse_spec(body: Seq<char>) -> Option<FormatSpec> {
    if body.len() == 0 {
        Some(FormatSpec { alternate: false, zero: false, width: 0, style: Style::Display })
    } else if body[0] != ':' {
        None
    } else {
        let alternate = 1 < body.len() && body[1] == '#';
        let after_alternate = if alternate {
            2int
        } else {
            1int
        };
        let zero = after_alternate < body.len() && body[after_alternate] == '0';
        let after_zero = if zero {
            after_alternate + 1
        } else {
            after_alternate
        };
        let after_width = digits_end(body, after_zero);
        let width = number(body, after_zero, after_width);
        match style_of(body.subrange(after_width, body.len() as int)) {
            Some(style) => if width <= MAX_WIDTH {
                Some(FormatSpec { alternate, zero, width: width as usize, style })
            } else {
                None
            },
            None => None,
        }
    }
}

/// The template that a format string writes: literal text, one placeholder,
/// literal text. `None` where the string has no placeholder or more than one,
/// a brace that matches no other, or a placeholder that [`parse_spec`] does
/// not take.
pub open spec fn parse_format(format: Seq<char>) -> Option<Template> {
    match literal(format, 0) {
        Some((prefix, open)) => if open >= format.len() {
            None
        } else {
            let close = closing(format, open + 1);
            if close >= format.len() {
                None
            } else {
                match parse_spec(format.subrange(open + 1, close)) {
                    Some(spec) => match literal(format, close + 1) {
                        Some((suffix, stop)) => if stop >= format.len() {
                            Some(Template { prefix, spec, suffix })
                        } else {
                            None
                        },
                        None => None,
                    },
                    None => None,
                }
            }
        },
        None => None,
    }
}

/// `value` substituted into `format`: the text before the placeholder, the
/// value under the placeholder's options, the text after it. `None` where the
/// format string is not a template or its options do not apply to the value.
pub open spec fn formatted(format: Seq<char>, value: ValueView) -> Option<Seq<char>> {
    match parse_format(format) {
        Some(template) => match value.text(template.spec) {
            Some(text) => Some(template.prefix + text + template.suffix),
            None => None,
        },
        None => None,
    }
}

/// `text` before the text of `rest`.
spec fn extend(text: Seq<char>, rest: Option<(Seq<char>, int)>) -> Option<(Seq<char>, int)> {
    match rest {
        Some((more, stop)) => Some((text + more, stop)),
        None => None,
    }
}

/// A character can go to the end of the text so far or to the start of the
/// text to come.
proof fn lemma_extend_prepend(text: Seq<char>, c: char, rest: Option<(Seq<char>, int)>)
    ensures
        extend(text, prepend(c, rest)) == extend(text.push(c), rest),
{
    if let Some((more, stop)) = rest {
        assert(text + (seq![c] + more) =~= text.push(c) + more);
    }
}

/// Scans the literal text of `format` from `from` on.
fn scan_literal(format: &Vec<char>, from: usize) -> (result: Option<(Vec<char>, usize)>)
    requires
        from <= format.len(),
    ensures
        match result {
            Some((text, stop)) => literal(format@, from as int) == Some((text@, stop as int))
                && from <= stop <= format.len(),
            None => literal(format@, from as int) is None,
        },
{
    let mut text: Vec<char> = Vec::new();
    let mut i: usize = from;
    while i < format.len()
        invariant
            from <= i <= format.len(),
            literal(format@, from as int) == extend(text@, literal(format@, i as int)),
        decreases format.len() - i,
    {
        let c = format[i];
        if c == '{' || c == '}' {
            if i + 1 < format.len() && format[i + 1] == c {
                proof {
                    lemma_extend_prepend(text@, c, literal(format@, i + 2));
                }
                text.push(c);
                i += 2;
            } else if c == '{' {
                assert(text@ + Seq::<char>::empty() =~= text@);
                return Some((text, i));
            } else {
                return None;
            }
        } else {
            proof {
                lemma_extend_prepend(text@, c, literal(format@, i + 1));
            }
            text.push(c);
            i += 1;
        }
    }
    assert(text@ + Seq::<char>::empty() =~= text@);
    Some((text, i))
}

/// Finds the first `}` of `format` from `from` on.
fn find_closing(format: &Vec<char>, from: usize) -> (close: usize)
    requires
        from <= format.len(),
    ensures
        close == closing(format@, from as int),
        from <= close <= format.len(),
{
    let mut i: usize = from;
    while i < format.len() && format[i] != '}'
        invariant
            from <= i <= format.len(),
            closing(format@, from as int) == closing(format@, i as int),
        decreases format.len() - i,
    {
        i += 1;
    }
    i
}

/// More digits do not write a smaller number.
proof fn lemma_number_grows(body: Seq<char>, from: int, middle: int, to: int)
    requires
        0 <= from <= middle <= to <= body.len(),
        forall|i: int| from <= i < to ==> is_digit(#[trigger] body[i]),
    ensures
        number(body, from, middle) <= number(body, from, to),
    decreases to - middle,
{
    if middle < to {
        lemma_number_grows(body, from, middle, to - 1);
        assert(is_digit(body[to - 1]));
    }
}

/// Where [`digits_end`] points: after digits only, and not at a digit.
proof fn lemma_digits_end(body: Seq<char>, from: int)
    requires
        0 <= from <= body.len(),
    ensures
        from <= digits_end(body, from) <= body.len(),
        forall|i: int| from <= i < digits_end(body, from) ==> is_digit(#[trigger] body[i]),
        digits_end(body, from) < body.len() ==> !is_digit(body[digits_end(body, from)]),
    decreases body.len() - from,
{
    if from < body.len() && is_digit(body[from]) {
        lemma_digits_end(body, from + 1);
    }
}

/// Reads the options inside a placeholder.
fn read_spec(body: &Vec<char>) -> (spec: Option<FormatSpec>)
    ensures
        spec == parse_spec(body@),
{
    if body.len() == 0 {
        return Some(FormatSpec { alternate: false, zero: false, width: 0, style: Style::Display });
    }
    if body[0] != ':' {
        return None;
    }
    let mut i: usize = 1;
    let alternate = i < body.len() && body[i] == '#';
    if alternate {
        i += 1;
    }
    let zero = i < body.len() && body[i] == '0';
    if zero {
        i += 1;
    }
    let start = i;
    let mut width: usize = 0;
    let mut wide = false;
    proof {
        lemma_digits_end(body@, start as int);
    }
    while i < body.len() && body[i] >= '0' && body[i] <= '9'
        invariant
            start <= i <= body.len(),
            start <= digits_end(body@, start as int) <= body.len(),
            forall|k: int|
                start <= k < digits_end(body@, start as int) ==> is_digit(#[trigger] body@[k]),
            digits_end(body@, start as int) == digits_end(body@, i as int),
            i <= digits_end(body@, start as int),
            wide ==> number(body@, start as int, i as int) > MAX_WIDTH,
            !wide ==> width == number(body@, start as int, i as int) && width <= MAX_WIDTH,
        decreases body.len() - i,
    {
        proof {
            lemma_digits_end(body@, i + 1);
        }
        let d: usize = (body[i] as u32 - '0' as u32) as usize;
        if !wide {
            width = width * 10 + d;
            if width > MAX_WIDTH {
                wide = true;
            }
        } else {
            proof {
                lemma_number_grows(body@, start as int, i as int, i + 1);
            }
        }
        i += 1;
    }
    proof {
        lemma_digits_end(body@, i as int);
    }
    assert(i == digits_end(body@, start as int));
    let ghost rest = body@.subrange(i as int, body@.len() as int);
    let style = if i == body.len() {
        Some(Style::Display)
    } else if i + 1 == body.len() {
        assert(rest.len() == 1 && rest[0] == body@[i as int]);
        let c = body[i];
        if c == '?' {
            Some(Style::Debug)
        } else if c == 'b' {
            Some(Style::Binary)
        } else if c == 'o' {
            Some(Style::Octal)
        } else if c == 'x' {
            Some(Style::LowerHex)
        } else if c == 'X' {
            Some(Style::UpperHex)
        } else {
            None
        }
    } else {
        None
    };
    assert(style == style_of(rest));
    match style {
        Some(style) => if wide {
            None
        } else {
            Some(FormatSpec { alternate, zero, width, style })
        },
        None => None,
    }
}

/// Substitutes `value` into `format`, as [`formatted`] says.
pub fn format_value(format: &str, value: &Value) -> (result: Option<String>)
    ensures
        result.deep_view() == formatted(format@, value@),
{
    let chars = chars_of(format);
    let (prefix, open) = match scan_literal(&chars, 0) {
        Some(found) => found,
        None => {
            return None;
        },
    };
    if open >= chars.len() {
        return None;
    }
    let close = find_closing(&chars, open + 1);
    if close >= chars.len() {
        return None;
    }
    let mut body: Vec<char> = Vec::new();
    let mut i: usize = open + 1;
    while i < close
        invariant
            open + 1 <= i <= close <= chars.len(),
            body@ == chars@.subrange(open + 1, i as int),
        decreases close - i,
    {
        body.push(chars[i]);
        assert(body@ =~= chars@.subrange(open + 1, i + 1));
        i += 1;
    }
    let spec = match read_spec(&body) {
        Some(spec) => spec,
        None => {
            return None;
        },
    };
    let (suffix, stop) = match scan_literal(&chars, close + 1) {
        Some(found) => found,
        None => {
            return None;
        },
    };
    if stop < chars.len() {
        return None;
    }
    let text = match value.render(spec) {
        Some(text) => text,
        None => {
            return None;
        },
    };
    let mut out = String::new();
    push_chars(&mut out, &prefix);
    out.append(text.as_str());
    push_chars(&mut out, &suffix);
    assert(out@ =~= prefix@ + text@ + suffix@);
    Some(out)
}

} // verus!
