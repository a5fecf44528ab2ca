//! Sizes in bytes for people to read: three digits or so, and a binary unit.

use vstd::arithmetic::div_mod::lemma_div_is_ordered_by_denominator;
use vstd::prelude::*;
use vstd::string::*;

use crate::ansi::{Color, Theme};
use crate::text::{decimal, decimal_string, digit, digit_str, push_two_digits, two_digits};

verus! {

/// A binary unit: each is 1024 times the one before.
#[derive(Clone, Copy, Debug, PartialEq, Eq, Structural)]
pub enum Unit {
    Kilo,
    Mega,
    Giga,
    Tera,
    Peta,
    Exa,
}

impl Unit {
    /// The number of bytes in one unit.
    pub open spec fn value(self) -> nat {
        match self {
            Unit::Kilo => 0x400,
            Unit::Mega => 0x10_0000,
            Unit::Giga => 0x4000_0000,
            Unit::Tera => 0x100_0000_0000,
            Unit::Peta => 0x4_0000_0000_0000,
            Unit::Exa => 0x1000_0000_0000_0000,
        }
    }

    /// The unit's letter.
    pub open spec fn name(self) -> Seq<char> {
        match self {
            Unit::Kilo => seq!['k'],
            Unit::Mega => seq!['M'],
            Unit::Giga => seq!['G'],
            Unit::Tera => seq!['T'],
            Unit::Peta => seq!['P'],
            Unit::Exa => seq!['E'],
        }
    }

    /// The colour that sizes in this unit are shown in.
    pub open spec fn color(self) -> Color {
        match self {
            Unit::Kilo => Color::Blue,
            Unit::Mega => Color::Cyan,
            Unit::Giga => Color::Magenta,
            _ => Color::Red,
        }
    }

    /// The largest unit that is not above `size`, and the smallest unit for
    /// a size below them all.
    pub open spec fn of(size: nat) -> Unit {
        if size >= Unit::Exa.value() {
            Unit::Exa
        } else if size >= Unit::Peta.value() {
            Unit::Peta
        } else if size >= Unit::Tera.value() {
            Unit::Tera
        } else if size >= Unit::Giga.value() {
            Unit::Giga
        } else if size >= Unit::Mega.value() {
            Unit::Mega
        } else {
            Unit::Kilo
        }
    }

    /// The number of bytes in one unit.
    pub fn bytes(self) -> (value: u64)
        ensures
            value == self.value(),
    {
        match self {
            Unit::Kilo => 0x400,
            Unit::Mega => 0x10_0000,
            Unit::Giga => 0x4000_0000,
            Unit::Tera => 0x100_0000_0000,
            Unit::Peta => 0x4_0000_0000_0000,
            Unit::Exa => 0x1000_0000_0000_0000,
        }
    }

    /// The unit's letter.
    pub fn letter(self) -> (name: &'static str)
        ensures
            name@ == self.name(),
    {
        proof {
            reveal_strlit("k");
            reveal_strlit("M");
            reveal_strlit("G");
            reveal_strlit("T");
            reveal_strlit("P");
            reveal_strlit("E");
        }
        let name = match self {
            Unit::Kilo => "k",
            Unit::Mega => "M",
            Unit::Giga => "G",
            Unit::Tera => "T",
            Unit::Peta => "P",
            Unit::Exa => "E",
        };
        assert(name@ =~= self.name());
        name
    }

    /// The colour that sizes in this unit are shown in.
    pub fn paint(self) -> (color: Color)
        ensures
            color == self.color(),
    {
        match self {
            Unit::Kilo => Color::Blue,
            Unit::Mega => Color::Cyan,
            Unit::Giga => Color::Magenta,
            _ => Color::Red,
        }
    }
}

/// The largest step between neighbouring single-precision numbers that a
/// 64-bit size meets: two to the fortieth.
pub const STEP_LIMIT: u64 = 0x100_0000_0000;

/// The number of steps that single precision has between one power of two and
/// the next: two to the twenty-fourth.
pub const STEPS: u64 = 0x100_0000;

/// The step between the single-precision numbers around `size`, found by
/// doubling from `step`: the first step that leaves fewer than `STEPS` of
/// them below `size`.
pub open spec fn step_from(size: nat, step: nat) -> nat
    decreases STEP_LIMIT - step,
{
    if step == 0 || 2 * step > STEP_LIMIT || size / step < STEPS {
        step
    } else {
        step_from(size, 2 * step)
    }
}

/// `amount` over `unit`, rounded to the nearest whole number, a half to the
/// even one.
pub open spec fn rounded_quotient(amount: nat, unit: nat) -> nat {
    let whole = amount / unit;
    let rest = amount % unit;
    if 2 * rest > unit || (2 * rest == unit && whole % 2 == 1) {
        whole + 1
    } else {
        whole
    }
}

/// The single-precision number nearest to `size`, a tie going to the one
/// with the even last place.
pub open spec fn nearest_single(size: nat) -> nat {
    let step = step_from(size, 1);
    rounded_quotient(size, step) * step
}

/// How many decimals a size of `size` bytes is shown with in a unit of
/// `unit` bytes: two below ten units, one below a hundred, else none.
pub open spec fn decimals(size: nat, unit: nat) -> nat {
    if size < 10 * unit {
        2
    } else if size < 100 * unit {
        1
    } else {
        0
    }
}

/// `hundredths` hundredths, `tenths` tenths or `whole` units as a decimal
/// number with that many decimals; a number without decimals keeps its
/// point.
pub open spec fn fixed(scaled: nat, decimals: nat) -> Seq<char> {
    if decimals == 2 {
        decimal(scaled / 100) + seq!['.'] + two_digits((scaled % 100) as int)
    } else if decimals == 1 {
        decimal(scaled / 10) + seq!['.', digit((scaled % 10) as int)]
    } else {
        decimal(scaled) + seq!['.']
    }
}

/// Ten to the `decimals`.
pub open spec fn scale(decimals: nat) -> nat {
    if decimals == 2 {
        100
    } else if decimals == 1 {
        10
    } else {
        1
    }
}

/// A size as it is shown, without its colour: the size is taken to single
/// precision, put in the largest unit that fits, and written with three
/// digits or so, the unit's letter behind it.
pub open spec fn size_text(bytes: u64) -> Seq<char> {
    let size = nearest_single(bytes as nat);
    let unit = Unit::of(size);
    let places = decimals(size, unit.value());
    fixed(rounded_quotient(size * scale(places), unit.value()), places) + seq![' '] + unit.name()
}

/// A size as it is shown: in the colour of its unit.
pub open spec fn formatted(theme: Theme, bytes: u64) -> Seq<char> {
    theme.paint(Unit::of(nearest_single(bytes as nat)).color(), size_text(bytes))
}

/// The step between the single-precision numbers around `size`.
fn step_of(size: u64) -> (step: u64)
    ensures
        step == step_from(size as nat, 1),
        1 <= step <= STEP_LIMIT,
{
    let mut step: u64 = 1;
    while 2 * step <= STEP_LIMIT && size / step >= STEPS
        invariant
            1 <= step <= STEP_LIMIT,
            step_from(size as nat, 1) == step_from(size as nat, step as nat),
        decreases STEP_LIMIT - step,
    {
        step = 2 * step;
    }
    step
}

/// `amount` over `unit`, rounded to the nearest whole number, a half to the
/// even one.
fn round_div(amount: u128, unit: u128) -> (quotient: u128)
    requires
        0 < unit <= 0x1000_0000_0000_0000,
        amount <= 0xffff_ffff_ffff_ffff_ffff,
    ensures
        quotient == rounded_quotient(amount as nat, unit as nat),
        quotient <= amount / unit + 1,
{
    let whole = amount / unit;
    let rest = amount % unit;
    assert(whole <= amount) by (nonlinear_arith)
        requires
            whole == amount / unit,
            unit > 0,
    ;
    if 2 * rest > unit || (2 * rest == unit && whole % 2 == 1) {
        whole + 1
    } else {
        whole
    }
}

/// The single-precision number nearest to `size`.
fn to_single(size: u64) -> (single: u128)
    ensures
        single == nearest_single(size as nat),
        single <= 0x2_0000_0000_0000_0000,
{
    let step = step_of(size);
    let whole = size / step;
    let rest = size % step;
    assert(rest <= size) by (nonlinear_arith)
        requires
            rest == size % step,
            step > 0,
    ;
    let below: u64 = size - rest;
    assert(below == whole * step) by (nonlinear_arith)
        requires
            whole == size / step,
            rest == size % step,
            below == size - rest,
            step > 0,
    ;
    if 2 * rest > step || (2 * rest == step && whole % 2 == 1) {
        assert((whole + 1) * step == below + step) by (nonlinear_arith)
            requires
                below == whole * step,
        ;
        below as u128 + step as u128
    } else {
        below as u128
    }
}

/// The largest unit that is not above `size`.
fn unit_for(size: u128) -> (unit: Unit)
    ensures
        unit == Unit::of(size as nat),
{
    if size >= 0x1000_0000_0000_0000 {
        Unit::Exa
    } else if size >= 0x4_0000_0000_0000 {
        Unit::Peta
    } else if size >= 0x100_0000_0000 {
        Unit::Tera
    } else if size >= 0x4000_0000 {
        Unit::Giga
    } else if size >= 0x10_0000 {
        Unit::Mega
    } else {
        Unit::Kilo
    }
}

/// How many decimals `size` is shown with in `unit`, and `size` in that many
/// decimals of the unit.
fn in_unit(size: u128, unit: Unit) -> (shown: (u64, u8))
    requires
        size <= 0x2_0000_0000_0000_0000,
    ensures
        shown.1 == decimals(size as nat, unit.value()),
        shown.0 == rounded_quotient((size * scale(shown.1 as nat)) as nat, unit.value()),
{
    let value = unit.bytes() as u128;
    let (amount, places): (u128, u8) = if size < 10 * value {
        (size * 100, 2)
    } else if size < 100 * value {
        (size * 10, 1)
    } else {
        (size, 0)
    };
    let scaled = round_div(amount, value);
    proof {
        lemma_div_is_ordered_by_denominator(amount as int, 1024, value as int);
    }
    (scaled as u64, places)
}

/// Appends `scaled` as a decimal number with `places` decimals.
fn push_fixed(number: &mut String, scaled: u64, places: u8)
    requires
        places <= 2,
    ensures
        final(number)@ == old(number)@ + fixed(scaled as nat, places as nat),
{
    proof {
        reveal_strlit(".");
    }
    if places == 2 {
        number.append(decimal_string(scaled / 100).as_str());
        number.append(".");
        push_two_digits(number, (scaled % 100) as u8);
    } else if places == 1 {
        number.append(decimal_string(scaled / 10).as_str());
        number.append(".");
        number.append(digit_str((scaled % 10) as u8));
    } else {
        number.append(decimal_string(scaled).as_str());
        number.append(".");
    }
    assert(number@ =~= old(number)@ + fixed(scaled as nat, places as nat));
}

/// Writes a size for people to read, in the colour of its unit.
pub fn format_bytes(theme: &Theme, bytes: u64) -> (text: String)
    ensures
        text@ == formatted(*theme, bytes),
{
    let size = to_single(bytes);
    let unit = unit_for(size);
    let (scaled, places) = in_unit(size, unit);
    let mut number = String::new();
    push_fixed(&mut number, scaled, places);
    proof {
        reveal_strlit(" ");
    }
    number.append(" ");
    number.append(unit.letter());
    assert(number@ =~= size_text(bytes));
    let mut text = String::new();
    theme.push_painted(&mut text, unit.paint(), number.as_str());
    text
}

} // verus!
