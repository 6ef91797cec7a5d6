//! Values that a program prints, and the numbers that a criterion compares them with.
use vstd::prelude::*;
use crate::text::{push_char, debug_str, str_debug};
use crate::render::DebugText;

verus! {

/// A floating-point number, held by its IEEE-754 bit pattern together with the texts that
/// its `Display` and `Debug` renderings give; this library does no floating-point arithmetic.
#[derive(Debug, PartialEq)]
pub struct FloatNum {
    pub bits: u64,
    pub display: String,
    pub debug: String,
}

/// A value that a program printed.
#[derive(Debug, PartialEq)]
pub enum SValue {
    Int(i64),
    Float(FloatNum),
    Bool(bool),
    Text(String),
}

/// A number that a program's output is compared with.
#[derive(Debug, PartialEq)]
pub enum Number {
    Int(i64),
    Float(FloatNum),
}

/// The mathematical content of a `FloatNum`.
pub struct FloatNumView {
    pub bits: u64,
    pub display: Seq<char>,
    pub debug: Seq<char>,
}

/// The mathematical content of a `SValue`.
pub enum SValueView {
    Int(i64),
    Float(FloatNumView),
    Bool(bool),
    Text(Seq<char>),
}

/// The mathematical content of a `Number`.
pub enum NumberView {
    Int(i64),
    Float(FloatNumView),
}

impl View for FloatNum {
    type V = FloatNumView;

    open spec fn view(&self) -> FloatNumView {
        FloatNumView { bits: self.bits, display: self.display@, debug: self.debug@ }
    }
}

impl View for SValue {
    type V = SValueView;

    open spec fn view(&self) -> SValueView {
        match self {
            SValue::Int(i) => SValueView::Int(*i),
            SValue::Float(f) => SValueView::Float(f@),
            SValue::Bool(b) => SValueView::Bool(*b),
            SValue::Text(t) => SValueView::Text(t@),
        }
    }
}

impl View for Number {
    type V = NumberView;

    open spec fn view(&self) -> NumberView {
        match self {
            Number::Int(i) => NumberView::Int(*i),
            Number::Float(f) => NumberView::Float(f@),
        }
    }
}

impl Clone for FloatNum {
    fn clone(&self) -> (r: Self)
        ensures
            r == *self,
    {
        FloatNum { bits: self.bits, display: self.display.clone(), debug: self.debug.clone() }
    }
}

impl Clone for SValue {
    fn clone(&self) -> (r: Self)
        ensures
            r == *self,
    {
        match self {
            SValue::Int(i) => SValue::Int(*i),
            SValue::Float(f) => SValue::Float(f.clone()),
            SValue::Bool(b) => SValue::Bool(*b),
            SValue::Text(t) => SValue::Text(t.clone()),
        }
    }
}

impl Clone for Number {
    fn clone(&self) -> (r: Self)
        ensures
            r == *self,
    {
        match self {
            Number::Int(i) => Number::Int(*i),
            Number::Float(f) => Number::Float(f.clone()),
        }
    }
}

/// The decimal digit `d` (for `0 <= d < 10`).
pub open spec fn digit_char(d: int) -> char {
    seq!['0', '1', '2', '3', '4', '5', '6', '7', '8', '9'][d]
}

/// The decimal digits of `n`, most significant first, without leading zeros.
pub open spec fn digits(n: nat) -> Seq<char>
    decreases n,
{
    if n < 10 {
        seq![digit_char(n as int)]
    } else {
        digits(n / 10).push(digit_char((n % 10) as int))
    }
}

/// The decimal rendering of `i`, with a leading `-` for negative numbers.
pub open spec fn decimal(i: int) -> Seq<char> {
    if i < 0 {
        seq!['-'] + digits((-i) as nat)
    } else {
        digits(i as nat)
    }
}

pub open spec fn true_text() -> Seq<char> {
    "true"@
}

pub open spec fn false_text() -> Seq<char> {
    "false"@
}

/// `s` wrapped as `name(s)`.
pub open spec fn wrapped(name: Seq<char>, s: Seq<char>) -> Seq<char> {
    name + seq!['('] + s + seq![')']
}

impl SValueView {
    /// The text of the value, as a criterion reads it.
    pub open spec fn spec_text(&self) -> Seq<char> {
        match self {
            SValueView::Int(i) => decimal(*i as int),
            SValueView::Float(f) => f.display,
            SValueView::Bool(b) => if *b { true_text() } else { false_text() },
            SValueView::Text(t) => *t,
        }
    }

    /// The rendering of the value in explanations: its variant and its content.
    pub open spec fn shown(&self) -> Seq<char> {
        match self {
            SValueView::Int(i) => wrapped("Int"@, decimal(*i as int)),
            SValueView::Float(f) => wrapped("Float"@, f.debug),
            SValueView::Bool(b) => wrapped(
                "Bool"@,
                if *b { true_text() } else { false_text() },
            ),
            SValueView::Text(t) => wrapped("Text"@, str_debug(*t)),
        }
    }
}

impl SValue {
    /// The text of the value.
    pub fn to_text(&self) -> (r: String)
        ensures
            r@ == self@.spec_text(),
    {
        match self {
            SValue::Int(i) => int_text(*i),
            SValue::Float(f) => f.display.clone(),
            SValue::Bool(b) => bool_text(*b),
            SValue::Text(t) => t.clone(),
        }
    }

}

impl DebugText for SValue {
    open spec fn spec_debug(&self) -> Seq<char> {
        self@.shown()
    }

    fn debug_text(&self) -> (r: String) {
        let mut r = String::new();
        match self {
            SValue::Int(i) => {
                r.append("Int");
                wrap_into(&mut r, int_text(*i).as_str());
                assert(r@ == self@.shown());
            },
            SValue::Float(f) => {
                r.append("Float");
                wrap_into(&mut r, f.debug.as_str());
                assert(r@ == self@.shown());
            },
            SValue::Bool(b) => {
                r.append("Bool");
                wrap_into(&mut r, bool_text(*b).as_str());
                assert(r@ == self@.shown());
            },
            SValue::Text(t) => {
                r.append("Text");
                wrap_into(&mut r, debug_str(t.as_str()).as_str());
                assert(r@ == self@.shown());
            },
        }
        assert(r@ == self.spec_debug());
        r
    }
}

impl NumberView {
    /// The rendering of the number in explanations.
    pub open spec fn shown(&self) -> Seq<char> {
        match self {
            NumberView::Int(i) => wrapped("Int"@, decimal(*i as int)),
            NumberView::Float(f) => wrapped("Float"@, f.debug),
        }
    }

}

impl DebugText for Number {
    open spec fn spec_debug(&self) -> Seq<char> {
        self@.shown()
    }

    fn debug_text(&self) -> (r: String) {
        let mut r = String::new();
        match self {
            Number::Int(i) => {
                r.append("Int");
                wrap_into(&mut r, int_text(*i).as_str());
                assert(r@ == self@.shown());
            },
            Number::Float(f) => {
                r.append("Float");
                wrap_into(&mut r, f.debug.as_str());
                assert(r@ == self@.shown());
            },
        }
        assert(r@ == self@.shown());
        assert(self.spec_debug() == self@.shown());
        r
    }
}

/// The rendering of an optional float: `Some(x)` or `None`.
pub open spec fn optional_float_debug(f: Option<FloatNumView>) -> Seq<char> {
    match f {
        Some(x) => wrapped("Some"@, x.debug),
        None => "None"@,
    }
}

/// The rendering of an optional float.
pub fn optional_float_text(f: &Option<FloatNum>) -> (r: String)
    ensures
        r@ == optional_float_debug(match f { Some(x) => Some(x@), None => None }),
{
    let mut r = String::new();
    match f {
        Some(x) => {
            r.append("Some");
            wrap_into(&mut r, x.debug.as_str());
        },
        None => {
            r.append("None");
        },
    }
    proof {
        reveal_strlit("Some");
        reveal_strlit("None");
    }
    r
}

/// Appends `(s)` to `r`.
fn wrap_into(r: &mut String, s: &str)
    ensures
        final(r)@ == old(r)@ + seq!['('] + s@ + seq![')'],
{
    push_char(r, '(');
    r.append(s);
    push_char(r, ')');
}

/// `true` or `false`.
pub fn bool_text(b: bool) -> (r: String)
    ensures
        r@ == (if b { true_text() } else { false_text() }),
{
    if b {
        String::from_str("true")
    } else {
        String::from_str("false")
    }
}

/// The decimal digit of `d`.
fn digit(d: u64) -> (c: char)
    requires
        d < 10,
    ensures
        c == digit_char(d as int),
{
    let table: [char; 10] = ['0', '1', '2', '3', '4', '5', '6', '7', '8', '9'];
    assert(table@ =~= seq!['0', '1', '2', '3', '4', '5', '6', '7', '8', '9']);
    table[d as usize]
}

/// Appends the decimal digits of `n` to `s`.
fn push_digits(s: &mut String, n: u64)
    ensures
        final(s)@ == old(s)@ + digits(n as nat),
    decreases n,
{
    if n >= 10 {
        push_digits(s, n / 10);
    }
    push_char(s, digit(n % 10));
    proof {
        if n >= 10 {
            assert(digits(n as nat) == digits((n / 10) as nat).push(digit_char((n % 10) as int)));
        }
    }
}

/// The decimal rendering of the natural number `n`.
pub fn nat_text(n: u64) -> (r: String)
    ensures
        r@ == digits(n as nat),
{
    let mut r = String::new();
    push_digits(&mut r, n);
    r
}

/// The decimal rendering of `i`.
pub fn int_text(i: i64) -> (r: String)
    ensures
        r@ == decimal(i as int),
{
    let mut r = String::new();
    if i < 0 {
        push_char(&mut r, '-');
        let magnitude: u64 = ((-(i + 1)) as u64) + 1;
        push_digits(&mut r, magnitude);
    } else {
        push_digits(&mut r, i as u64);
    }
    r
}

} // verus!
