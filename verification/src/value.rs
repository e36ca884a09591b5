//! Field values and how one value is rendered: by default, or under the
//! options of a format placeholder.

use crate::text::push_chars;
use vstd::prelude::*;
use vstd::string::*;

verus! {

/// A field value that a formatter can render.
#[derive(Debug, PartialEq, Eq)]
pub enum Value {
    /// An unsigned integer.
    Unsigned(u64),
    /// A signed integer of 64 bits.
    Signed(i64),
    Bool(bool),
    Text(String),
}

/// The mathematical value of a [`Value`].
pub enum ValueView {
    Unsigned(u64),
    Signed(i64),
    Bool(bool),
    Text(Seq<char>),
}

impl View for Value {
    type V = ValueView;

    open spec fn view(&self) -> ValueView {
        match self {
            Value::Unsigned(n) => ValueView::Unsigned(*n),
            Value::Signed(n) => ValueView::Signed(*n),
            Value::Bool(b) => ValueView::Bool(*b),
            Value::Text(text) => ValueView::Text(text@),
        }
    }
}

impl DeepView for Value {
    type V = ValueView;

    open spec fn deep_view(&self) -> ValueView {
        self@
    }
}

/// The way a placeholder asks for its value to be written.
#[derive(Clone, Copy, Debug, PartialEq, Eq, Structural)]
pub enum Style {
    /// `{}`
    Display,
    /// `{:?}`
    Debug,
    /// `{:b}`
    Binary,
    /// `{:o}`
    Octal,
    /// `{:x}`
    LowerHex,
    /// `{:X}`
    UpperHex,
}

/// The options of a placeholder.
#[derive(Clone, Copy, Debug, PartialEq, Eq, Structural)]
pub struct FormatSpec {
    /// The `#` flag: write the prefix of the radix.
    pub alternate: bool,
    /// The `0` flag: pad with zeros after the sign and the prefix.
    pub zero: bool,
    /// The least number of characters to write; 0 where none is asked for.
    pub width: usize,
    pub style: Style,
}

impl Style {
    /// The radix that integers are written in.
    pub open spec fn radix(self) -> nat {
        match self {
            Style::Display | Style::Debug => 10,
            Style::Binary => 2,
            Style::Octal => 8,
            Style::LowerHex | Style::UpperHex => 16,
        }
    }

    /// The prefix that the `#` flag puts before the digits.
    pub open spec fn prefix(self) -> Seq<char> {
        match self {
            Style::Display | Style::Debug => Seq::empty(),
            Style::Binary => seq!['0', 'b'],
            Style::Octal => seq!['0', 'o'],
            Style::LowerHex | Style::UpperHex => seq!['0', 'x'],
        }
    }

    /// Whether integers are written in decimal, with a sign.
    pub open spec fn decimal(self) -> bool {
        self == Style::Display || self == Style::Debug
    }
}

/// The character of the digit `d`, below 16; letters are capitals if `upper`.
pub open spec fn digit(d: int, upper: bool) -> char {
    if d < 10 {
        ('0' as u8 + d) as char
    } else if upper {
        ('A' as u8 + (d - 10)) as char
    } else {
        ('a' as u8 + (d - 10)) as char
    }
}

/// The digits of `n` in `radix`, most significant first, without leading
/// zeros.
pub open spec fn digits(n: nat, radix: nat, upper: bool) -> Seq<char>
    decreases n,
{
    if radix < 2 || n < radix {
        seq![digit(n as int, upper)]
    } else {
        proof {
            assert(n / radix < n) by (nonlinear_arith)
                requires
                    radix >= 2,
                    n >= radix,
            ;
        }
        digits(n / radix, radix, upper).push(digit((n % radix) as int, upper))
    }
}

/// `count` copies of `c`.
pub open spec fn repeated(c: char, count: nat) -> Seq<char> {
    Seq::new(count, |i: int| c)
}

/// A number written under a width: `sign`, `prefix` and `digits`, padded to
/// `width` characters. The padding is zeros between the prefix and the
/// digits if `zero`, spaces before the sign if not.
pub open spec fn padded(
    sign: Seq<char>,
    prefix: Seq<char>,
    digits: Seq<char>,
    zero: bool,
    width: nat,
) -> Seq<char> {
    let written = sign.len() + prefix.len() + digits.len();
    let padding = if width > written {
        (width - written) as nat
    } else {
        0
    };
    if zero {
        sign + prefix + repeated('0', padding) + digits
    } else {
        repeated(' ', padding) + sign + prefix + digits
    }
}

/// What an integer is written as: its sign, which only decimal has, and the
/// number whose digits follow. In the other radixes a negative number is
/// written as its two's complement of 64 bits.
pub open spec fn magnitude(value: int, style: Style) -> (bool, nat) {
    if value >= 0 {
        (false, value as nat)
    } else if style.decimal() {
        (true, (-value) as nat)
    } else {
        (false, (value + 0x1_0000_0000_0000_0000) as nat)
    }
}

/// An integer written under the options `spec`.
pub open spec fn integer_text(value: int, spec: FormatSpec) -> Seq<char> {
    let (negative, number) = magnitude(value, spec.style);
    padded(
        if negative {
            seq!['-']
        } else {
            Seq::empty()
        },
        if spec.alternate {
            spec.style.prefix()
        } else {
            Seq::empty()
        },
        digits(number, spec.style.radix(), spec.style == Style::UpperHex),
        spec.zero,
        spec.width as nat,
    )
}

/// The character of the digit `d`.
fn digit_char(d: u64, upper: bool) -> (c: char)
    requires
        d < 16,
    ensures
        c == digit(d as int, upper),
{
    let d = d as u8;
    if d < 10 {
        (48u8 + d) as char
    } else if upper {
        (65u8 + (d - 10)) as char
    } else {
        (97u8 + (d - 10)) as char
    }
}

/// Appends the digits of `n` in `radix`.
fn push_digits(n: u64, radix: u64, upper: bool, out: &mut Vec<char>)
    requires
        2 <= radix <= 16,
    ensures
        final(out)@ == old(out)@ + digits(n as nat, radix as nat, upper),
    decreases n,
{
    let ghost start = out@;
    if n >= radix {
        assert(n / radix < n) by (nonlinear_arith)
            requires
                radix >= 2,
                n >= radix,
        ;
        push_digits(n / radix, radix, upper, out);
        out.push(digit_char(n % radix, upper));
        assert(out@ =~= start + digits(n as nat, radix as nat, upper));
    } else {
        out.push(digit_char(n, upper));
        assert(out@ =~= start + digits(n as nat, radix as nat, upper));
    }
}

/// The debug rendering of a string: the text between double quotes, with the
/// characters that cannot be shown as they are escaped.
pub uninterp spec fn escaped_text(text: Seq<char>) -> Seq<char>;

/// Renders `text` with the `Debug` implementation of `str`. The contract only
/// names the result; which characters are escaped, and how, is left to the
/// standard library.
#[verifier::external_body]
fn escape_text(text: &str) -> (rendered: String)
    ensures
        rendered@ == escaped_text(text@),
{
    format!("{:?}", text)
}

impl FormatSpec {
    /// The options of `{:?}`: what a field without a format string is
    /// rendered under.
    pub open spec fn debug() -> FormatSpec {
        FormatSpec { alternate: false, zero: false, width: 0, style: Style::Debug }
    }

    /// Whether the options ask for neither a flag nor a width.
    pub open spec fn bare(self) -> bool {
        !self.alternate && !self.zero && self.width == 0
    }
}

impl ValueView {
    /// The value written under the options `spec`, or `None` where the
    /// options do not apply to the value.
    ///
    /// Integers take every option. A boolean and a text take `{}` and `{:?}`
    /// only, without flags or width.
    pub open spec fn text(self, spec: FormatSpec) -> Option<Seq<char>> {
        match self {
            ValueView::Unsigned(n) => Some(integer_text(n as int, spec)),
            ValueView::Signed(n) => Some(integer_text(n as int, spec)),
            ValueView::Bool(b) => if spec.bare() && spec.style.decimal() {
                Some(
                    if b {
                        "true"@
                    } else {
                        "false"@
                    },
                )
            } else {
                None
            },
            ValueView::Text(text) => if spec.bare() && spec.style == Style::Display {
                Some(text)
            } else if spec.bare() && spec.style == Style::Debug {
                Some(escaped_text(text))
            } else {
                None
            },
        }
    }

    /// The default rendering of the value: under `{:?}`.
    pub open spec fn default_text(self) -> Seq<char> {
        self.text(FormatSpec::debug())->Some_0
    }
}

/// Appends `count` copies of `c`.
fn push_repeated(out: &mut String, c: char, count: usize)
    ensures
        final(out)@ == old(out)@ + repeated(c, count as nat),
{
    let ghost start = out@;
    let mut i: usize = 0;
    while i < count
        invariant
            i <= count,
            out@ == start + repeated(c, i as nat),
        decreases count - i,
    {
        out.push(c);
        assert(out@ =~= start + repeated(c, (i + 1) as nat));
        i += 1;
    }
}

/// Appends a number under a width, as [`padded`] says.
fn write_padded(
    sign: &Vec<char>,
    prefix: &Vec<char>,
    written: &Vec<char>,
    zero: bool,
    width: usize,
    out: &mut String,
)
    requires
        sign@.len() <= 1,
        prefix@.len() <= 2,
    ensures
        final(out)@ == old(out)@ + padded(sign@, prefix@, written@, zero, width as nat),
{
    let ghost start = out@;
    let before: usize = sign.len() + prefix.len();
    let padding: usize = if width > before && width - before > written.len() {
        width - before - written.len()
    } else {
        0
    };
    if zero {
        push_chars(out, sign);
        push_chars(out, prefix);
        push_repeated(out, '0', padding);
        push_chars(out, written);
        assert(out@ =~= start + (sign@ + prefix@ + repeated('0', padding as nat) + written@));
    } else {
        push_repeated(out, ' ', padding);
        push_chars(out, sign);
        push_chars(out, prefix);
        push_chars(out, written);
        assert(out@ =~= start + (repeated(' ', padding as nat) + sign@ + prefix@ + written@));
    }
}

/// The sign of a number: `-` or nothing.
fn sign_chars(negative: bool) -> (sign: Vec<char>)
    ensures
        sign@ == (if negative {
            seq!['-']
        } else {
            Seq::<char>::empty()
        }),
{
    let mut sign: Vec<char> = Vec::new();
    if negative {
        sign.push('-');
    }
    assert(sign@ =~= (if negative {
        seq!['-']
    } else {
        Seq::<char>::empty()
    }));
    sign
}

/// The prefix that the options ask for: that of the radix under `#`, or
/// nothing.
fn prefix_chars(spec: FormatSpec) -> (prefix: Vec<char>)
    ensures
        prefix@ == (if spec.alternate {
            spec.style.prefix()
        } else {
            Seq::<char>::empty()
        }),
{
    let mut prefix: Vec<char> = Vec::new();
    if spec.alternate {
        match spec.style {
            Style::Display | Style::Debug => {},
            Style::Binary => {
                prefix.push('0');
                prefix.push('b');
            },
            Style::Octal => {
                prefix.push('0');
                prefix.push('o');
            },
            Style::LowerHex | Style::UpperHex => {
                prefix.push('0');
                prefix.push('x');
            },
        }
    }
    assert(prefix@ =~= (if spec.alternate {
        spec.style.prefix()
    } else {
        Seq::<char>::empty()
    }));
    prefix
}

/// Appends `number`, after `-` if `negative`, under the options `spec`.
fn write_integer(negative: bool, number: u64, spec: FormatSpec, out: &mut String)
    ensures
        final(out)@ == old(out)@ + padded(
            if negative {
                seq!['-']
            } else {
                Seq::empty()
            },
            if spec.alternate {
                spec.style.prefix()
            } else {
                Seq::empty()
            },
            digits(number as nat, spec.style.radix(), spec.style == Style::UpperHex),
            spec.zero,
            spec.width as nat,
        ),
{
    let radix: u64 = match spec.style {
        Style::Display | Style::Debug => 10,
        Style::Binary => 2,
        Style::Octal => 8,
        Style::LowerHex | Style::UpperHex => 16,
    };
    let upper = match spec.style {
        Style::UpperHex => true,
        _ => false,
    };
    let mut written: Vec<char> = Vec::new();
    push_digits(number, radix, upper, &mut written);
    assert(written@ =~= digits(number as nat, spec.style.radix(), spec.style == Style::UpperHex));
    let sign = sign_chars(negative);
    let prefix = prefix_chars(spec);
    write_padded(&sign, &prefix, &written, spec.zero, spec.width, out);
}

impl Value {
    /// Writes the value under the options `spec`, where they apply to it.
    pub fn render(&self, spec: FormatSpec) -> (rendered: Option<String>)
        ensures
            rendered.deep_view() == self@.text(spec),
    {
        let bare = !spec.alternate && !spec.zero && spec.width == 0;
        let decimal = match spec.style {
            Style::Display | Style::Debug => true,
            _ => false,
        };
        match self {
            Value::Unsigned(n) => {
                let mut out = String::new();
                write_integer(false, *n, spec, &mut out);
                assert(out@ =~= integer_text(*n as int, spec));
                Some(out)
            },
            Value::Signed(n) => {
                let mut out = String::new();
                if *n >= 0 {
                    write_integer(false, *n as u64, spec, &mut out);
                } else if decimal {
                    let number: u64 = if *n == i64::MIN {
                        0x8000_0000_0000_0000
                    } else {
                        (-*n) as u64
                    };
                    write_integer(true, number, spec, &mut out);
                } else {
                    let low: u64 = (*n - i64::MIN) as u64;
                    write_integer(false, low + 0x8000_0000_0000_0000, spec, &mut out);
                }
                assert(out@ =~= integer_text(*n as int, spec));
                Some(out)
            },
            Value::Bool(b) => {
                if bare && decimal {
                    Some(
                        String::from_str(
                            if *b {
                                "true"
                            } else {
                                "false"
                            },
                        ),
                    )
                } else {
                    None
                }
            },
            Value::Text(text) => {
                if !bare {
                    None
                } else {
                    match spec.style {
                        Style::Display => Some(text.clone()),
                        Style::Debug => Some(escape_text(text.as_str())),
                        _ => None,
                    }
                }
            },
        }
    }

    /// Writes the value the default way: under `{:?}`.
    pub fn render_default(&self) -> (rendered: String)
        ensures
            rendered@ == self@.default_text(),
    {
        let spec = FormatSpec { alternate: false, zero: false, width: 0, style: Style::Debug };
        match self.render(spec) {
            Some(rendered) => rendered,
            None => String::new(),
        }
    }
}

} // verus!
