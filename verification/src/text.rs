//! Verified text building: decimal and hexadecimal numerals and error messages.

use vstd::prelude::*;

verus! {

/// A failure described by its message.
#[derive(Debug)]
pub struct Error {
    pub message: String,
}

impl View for Error {
    type V = Seq<char>;

    open spec fn view(&self) -> Seq<char> {
        self.message@
    }
}

/// A result seen through its views: the value's view, or the message text.
pub open spec fn outcome<T: View>(result: Result<T, Error>) -> Result<T::V, Seq<char>> {
    match result {
        Ok(value) => Ok(value@),
        Err(error) => Err(error@),
    }
}

/// The character of one digit in a base up to sixteen.
pub open spec fn digit_char(digit: nat, upper: bool) -> char {
    if digit < 10 {
        (('0' as u32) + digit) as char
    } else if upper {
        (('A' as u32) + (digit - 10)) as char
    } else {
        (('a' as u32) + (digit - 10)) as char
    }
}

/// The numeral of `value` in `base`, without leading zeros.
pub open spec fn numeral(value: nat, base: nat, upper: bool) -> Seq<char>
    decreases value,
{
    if base < 2 || value < base {
        seq![digit_char(value, upper)]
    } else {
        proof {
            assert(value / base < value) by (nonlinear_arith)
                requires
                    2 <= base <= value,
            ;
        }
        numeral(value / base, base, upper).push(digit_char(value % base, upper))
    }
}

pub open spec fn decimal_text(value: nat) -> Seq<char> {
    numeral(value, 10, false)
}

pub open spec fn hex_text(value: nat) -> Seq<char> {
    numeral(value, 16, true)
}

/// The low `width` hexadecimal digits of `value`, zeros included.
pub open spec fn hex_fixed_text(value: nat, width: nat, upper: bool) -> Seq<char>
    decreases width,
{
    if width == 0 {
        seq![]
    } else {
        hex_fixed_text(value / 16, (width - 1) as nat, upper).push(digit_char(value % 16, upper))
    }
}

fn digit_str(digit: u64, upper: bool) -> (text: &'static str)
    requires
        digit < 16,
    ensures
        text@ == seq![digit_char(digit as nat, upper)],
{
    proof {
        reveal_strlit("0"); reveal_strlit("1"); reveal_strlit("2"); reveal_strlit("3");
        reveal_strlit("4"); reveal_strlit("5"); reveal_strlit("6"); reveal_strlit("7");
        reveal_strlit("8"); reveal_strlit("9");
        reveal_strlit("A"); reveal_strlit("B"); reveal_strlit("C");
        reveal_strlit("D"); reveal_strlit("E"); reveal_strlit("F");
        reveal_strlit("a"); reveal_strlit("b"); reveal_strlit("c");
        reveal_strlit("d"); reveal_strlit("e"); reveal_strlit("f");
    }
    match digit {
        0 => "0",
        1 => "1",
        2 => "2",
        3 => "3",
        4 => "4",
        5 => "5",
        6 => "6",
        7 => "7",
        8 => "8",
        9 => "9",
        10 => if upper { "A" } else { "a" },
        11 => if upper { "B" } else { "b" },
        12 => if upper { "C" } else { "c" },
        13 => if upper { "D" } else { "d" },
        14 => if upper { "E" } else { "e" },
        _ => if upper { "F" } else { "f" },
    }
}

fn push_numeral(text: &mut String, value: u64, base: u64, upper: bool)
    requires
        2 <= base <= 16,
    ensures
        final(text)@ == old(text)@ + numeral(value as nat, base as nat, upper),
    decreases value,
{
    if value < base {
        text.append(digit_str(value, upper));
    } else {
        let quotient: u64 = value / base;
        assert(quotient < value) by (nonlinear_arith)
            requires
                quotient == value / base,
                2 <= base <= value,
        ;
        let rest: u64 = value % base;
        assert(rest < base) by (nonlinear_arith)
            requires
                rest == value % base,
                base >= 2,
        ;
        push_numeral(text, quotient, base, upper);
        text.append(digit_str(rest, upper));
        assert(text@ == old(text)@ + numeral(value as nat, base as nat, upper));
    }
}

/// The decimal numeral of `value`.
pub fn decimal(value: u64) -> (text: String)
    ensures
        text@ == decimal_text(value as nat),
{
    let mut text = String::new();
    push_numeral(&mut text, value, 10, false);
    text
}

/// The upper-case hexadecimal numeral of `value`.
pub fn hex(value: u64) -> (text: String)
    ensures
        text@ == hex_text(value as nat),
{
    let mut text = String::new();
    push_numeral(&mut text, value, 16, true);
    text
}

fn push_hex_fixed(text: &mut String, value: u64, width: usize, upper: bool)
    ensures
        final(text)@ == old(text)@ + hex_fixed_text(value as nat, width as nat, upper),
    decreases width,
{
    if width > 0 {
        push_hex_fixed(text, value / 16, width - 1, upper);
        text.append(digit_str(value % 16, upper));
        assert(text@ == old(text)@ + hex_fixed_text(value as nat, width as nat, upper));
    } else {
        assert(text@ == old(text)@ + hex_fixed_text(value as nat, 0, upper));
    }
}

/// The eight-digit upper-case hexadecimal numeral of a 32-bit word.
pub fn hex_word(value: u32) -> (text: String)
    ensures
        text@ == hex_fixed_text(value as nat, 8, true),
{
    let mut text = String::new();
    push_hex_fixed(&mut text, value as u64, 8, true);
    text
}

/// The two-digit upper-case hexadecimal numeral of a byte.
pub fn hex_byte(value: u8) -> (text: String)
    ensures
        text@ == hex_fixed_text(value as nat, 2, true),
{
    let mut text = String::new();
    push_hex_fixed(&mut text, value as u64, 2, true);
    text
}

/// The lower-case two-digit hexadecimal numerals of all bytes, in order.
pub open spec fn hex_dump_text(bytes: Seq<u8>) -> Seq<char>
    decreases bytes.len(),
{
    if bytes.len() == 0 {
        seq![]
    } else {
        hex_dump_text(bytes.drop_last()) + hex_fixed_text(bytes.last() as nat, 2, false)
    }
}

/// Spell out a byte string in lower-case hexadecimal.
pub fn hex_dump(bytes: &[u8]) -> (text: String)
    ensures
        text@ == hex_dump_text(bytes@),
{
    let mut text = String::new();
    let mut i: usize = 0;
    while i < bytes.len()
        invariant
            i <= bytes@.len(),
            text@ == hex_dump_text(bytes@.take(i as int)),
        decreases bytes@.len() - i,
    {
        assert(bytes@.take(i + 1).drop_last() == bytes@.take(i as int));
        push_hex_fixed(&mut text, bytes[i] as u64, 2, false);
        i = i + 1;
    }
    assert(bytes@.take(bytes@.len() as int) == bytes@);
    text
}


/// Whether two texts are the same.
pub fn same_text(a: &str, b: &str) -> (result: bool)
    ensures
        result == (a@ == b@),
{
    a.to_owned() == b.to_owned()
}


/// Values that can be compared for saying the same.
pub trait SameView: View {
    fn same_view(&self, other: &Self) -> (result: bool)
        ensures
            result == (self@ == other@),
    ;
}

impl SameView for u32 {
    fn same_view(&self, other: &Self) -> (result: bool) {
        *self == *other
    }
}

impl SameView for usize {
    fn same_view(&self, other: &Self) -> (result: bool) {
        *self == *other
    }
}

impl SameView for String {
    fn same_view(&self, other: &Self) -> (result: bool) {
        *self == *other
    }
}

/// What the items of a list say.
pub open spec fn views<T: View>(items: Seq<T>) -> Seq<T::V> {
    items.map_values(|item: T| item@)
}

/// Whether two lists say the same, item by item.
pub fn same_items<T: SameView>(a: &Vec<T>, b: &Vec<T>) -> (result: bool)
    ensures
        result == (views(a@) == views(b@)),
{
    if a.len() != b.len() {
        assert(views(a@).len() != views(b@).len());
        return false;
    }
    let mut i: usize = 0;
    while i < a.len()
        invariant
            i <= a@.len(),
            a@.len() == b@.len(),
            forall|j: int| 0 <= j < i ==> (#[trigger] a@[j])@ == b@[j]@,
        decreases a@.len() - i,
    {
        if !a[i].same_view(&b[i]) {
            assert(views(a@)[i as int] != views(b@)[i as int]);
            return false;
        }
        i = i + 1;
    }
    assert(views(a@) =~= views(b@));
    true
}

/// The number that a digit stands for.
pub open spec fn digit_value(digit: char) -> int {
    if '0' <= digit && digit <= '9' {
        digit as int - '0' as int
    } else if 'A' <= digit && digit <= 'F' {
        digit as int - 'A' as int + 10
    } else {
        digit as int - 'a' as int + 10
    }
}

/// The number that digits stand for, highest first.
pub open spec fn digits_value(digits: Seq<char>, base: int) -> int
    decreases digits.len(),
{
    if digits.len() == 0 {
        0
    } else {
        digits_value(digits.drop_last(), base) * base + digit_value(digits.last())
    }
}

/// The digits of a number stand for it, and do not begin with a zero unless it is zero.
pub proof fn law_numerals_stand_for_their_number(value: nat, base: nat, upper: bool)
    requires
        2 <= base <= 16,
    ensures
        numeral(value, base, upper).len() > 0,
        digits_value(numeral(value, base, upper), base as int) == value,
        value > 0 ==> numeral(value, base, upper)[0] != '0',
        value == 0 ==> numeral(value, base, upper).len() == 1,
    decreases value,
{
    let digits = numeral(value, base, upper);
    if value < base {
        assert(digits.drop_last() =~= Seq::<char>::empty());
        assert(digits.last() == digit_char(value, upper));
        assert(digits_value(digits.drop_last(), base as int) == 0);
        assert(0 * base == 0);
    } else {
        assert(value / base < value && value / base > 0) by (nonlinear_arith)
            requires
                2 <= base <= value,
        ;
        law_numerals_stand_for_their_number(value / base, base, upper);
        assert(digits.drop_last() =~= numeral(value / base, base, upper));
        assert(value % base < base) by (nonlinear_arith)
            requires
                base > 0,
        ;
        assert((value / base) * base + value % base == value) by (nonlinear_arith)
            requires
                base > 0,
        ;
    }
}

/// A word of a fixed number of hexadecimal digits has that many, and stands for its number where
/// they suffice.
pub proof fn law_fixed_digits_stand_for_their_number(value: nat, width: nat, upper: bool)
    ensures
        hex_fixed_text(value, width, upper).len() == width,
        value < vstd::arithmetic::power::pow(16, width) ==> digits_value(
            hex_fixed_text(value, width, upper),
            16,
        ) == value,
    decreases width,
{
    vstd::arithmetic::power::lemma_pow0(16);
    if width > 0 {
        let less = (width - 1) as nat;
        vstd::arithmetic::power::lemma_pow_adds(16, 1, less);
        vstd::arithmetic::power::lemma_pow1(16);
        law_fixed_digits_stand_for_their_number(value / 16, less, upper);
        let digits = hex_fixed_text(value, width, upper);
        assert(digits.drop_last() =~= hex_fixed_text(value / 16, less, upper));
        if value < vstd::arithmetic::power::pow(16, width) {
            assert(vstd::arithmetic::power::pow(16, width) == 16 * vstd::arithmetic::power::pow(
                16,
                less,
            ));
            assert(value / 16 < vstd::arithmetic::power::pow(16, less));
        }
    }
}

} // verus!
