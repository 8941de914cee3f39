//! Small exercises: functions, ownership and borrowing, slices, structs,
//! error handling, generics, traits and closures.
use std::cmp::Ordering;
use std::num::IntErrorKind;
use vstd::prelude::*;
use vstd::std_specs::cmp::PartialOrdSpec;

verus! {

/// Whether an integer fits in an `i32`.
pub open spec fn fits_i32(x: int) -> bool {
    i32::MIN <= x && x <= i32::MAX
}

/// The greeting for `name`: "Salam, <name>!".
pub fn greeting(name: &str) -> (g: String)
    ensures
        g@ == "Salam, "@ + name@ + "!"@,
{
    let mut g = String::from_str("Salam, ");
    g.append(name);
    g.append("!");
    g
}

/// The sum of two integers.
pub fn add(a: i32, b: i32) -> (r: i32)
    requires
        fits_i32(a + b),
    ensures
        r == a + b,
{
    a + b
}

/// The square of an integer.
pub fn square(n: i32) -> (r: i32)
    requires
        fits_i32(n * n),
    ensures
        r == n * n,
{
    n * n
}

/// Integer division by two, rounding toward zero.
pub open spec fn half_toward_zero(x: int) -> int {
    if x >= 0 {
        x / 2
    } else {
        -((-x) / 2)
    }
}

/// The average of two integers, rounded toward zero.
pub fn average(a: i32, b: i32) -> (r: i32)
    requires
        fits_i32(a + b),
    ensures
        r == half_toward_zero(a + b),
{
    (a + b) / 2
}

/// A newly made string, handed to the caller.
pub fn gives_ownership() -> (s: String)
    ensures
        s@ == "yours"@,
{
    String::from_str("yours")
}

/// The length of a string in bytes (its UTF-8 encoding).
pub fn calculate_length(s: &String) -> (n: usize)
    ensures
        n == vstd::utf8::encode_utf8(s@).len() as usize,
{
    s.as_str().len()
}

/// Appends ", world" to a borrowed string.
pub fn change(some_string: &mut String)
    ensures
        final(some_string)@ == old(some_string)@ + ", world"@,
{
    some_string.append(", world");
}

/// The position of the first space in `s`, or its length if it has none.
pub open spec fn first_space(s: Seq<char>) -> int
    decreases s.len(),
{
    if s.len() == 0 {
        0
    } else if s[0] == ' ' {
        0
    } else {
        1 + first_space(s.drop_first())
    }
}

proof fn lemma_first_space(s: Seq<char>, i: int)
    requires
        0 <= i <= s.len(),
        forall|j: int| 0 <= j < i ==> s[j] != ' ',
        i == s.len() || s[i] == ' ',
    ensures
        first_space(s) == i,
    decreases s.len(),
{
    if s.len() > 0 && s[0] != ' ' {
        lemma_first_space(s.drop_first(), i - 1);
    }
}

/// The first word of `s`: everything before its first space.
pub fn first_word(s: &str) -> (w: &str)
    ensures
        w@ == s@.subrange(0, first_space(s@)),
{
    let n: usize = s.unicode_len();
    let mut i: usize = 0;
    while i < n
        invariant
            n == s@.len(),
            0 <= i <= n,
            forall|j: int| 0 <= j < i ==> s@[j] != ' ',
        decreases n - i,
    {
        if s.get_char(i) == ' ' {
            proof {
                lemma_first_space(s@, i as int);
            }
            return s.substring_char(0, i);
        }
        i = i + 1;
    }
    proof {
        lemma_first_space(s@, i as int);
    }
    s.substring_char(0, n)
}

/// A rectangle with whole-number sides.
#[derive(Clone, Copy, Debug, PartialEq, Eq, Structural)]
pub struct Rectangle {
    pub width: u32,
    pub height: u32,
}

/// Whether `outer` holds `inner`: wider and taller.
pub open spec fn holds(outer: Rectangle, inner: Rectangle) -> bool {
    outer.width > inner.width && outer.height > inner.height
}

impl Rectangle {
    /// The rectangle's area.
    pub fn area(&self) -> (a: u32)
        requires
            self.width * self.height <= u32::MAX,
        ensures
            a == self.width * self.height,
    {
        self.width * self.height
    }

    /// Whether `other` fits strictly inside this rectangle, side by side.
    pub fn can_hold(&self, other: &Rectangle) -> (b: bool)
        ensures
            b == holds(*self, *other),
    {
        self.width > other.width && self.height > other.height
    }

    /// The square with sides `size`.
    pub fn square(size: u32) -> (r: Rectangle)
        ensures
            r == (Rectangle { width: size, height: size }),
    {
        Rectangle { width: size, height: size }
    }
}

/// Law: holding is a strict order; no rectangle holds itself, none holds a
/// rectangle that holds it, and what a held rectangle holds is held too.
pub proof fn law_can_hold_strict_order(a: Rectangle, b: Rectangle, c: Rectangle)
    ensures
        !holds(a, a),
        holds(a, b) ==> !holds(b, a),
        holds(a, b) && holds(b, c) ==> holds(a, c),
{
}

/// Applies `func` to `value`.
pub fn apply<F: Fn(i32) -> i32>(value: i32, func: F) -> (r: i32)
    requires
        call_requires(func, (value,)),
    ensures
        call_ensures(func, (value,), r),
{
    func(value)
}

/// Why a string is not an `i32` numeral.
#[derive(Clone, Copy, Debug, PartialEq, Eq, Structural)]
pub enum IntParseError {
    /// The string is empty.
    Empty,
    /// The string holds a character that is not a digit where a digit belongs.
    InvalidDigit,
    /// The numeral is above `i32::MAX`.
    PosOverflow,
    /// The numeral is below `i32::MIN`.
    NegOverflow,
}

/// Whether `c` is an ASCII decimal digit.
pub open spec fn is_digit(c: char) -> bool {
    '0' <= c && c <= '9'
}

/// The position of the first non-digit in `s`, or its length.
pub open spec fn first_non_digit(s: Seq<char>) -> int
    decreases s.len(),
{
    if s.len() == 0 {
        0
    } else if !is_digit(s[0]) {
        0
    } else {
        1 + first_non_digit(s.drop_first())
    }
}

/// The value of a string of decimal digits.
pub open spec fn digits_value(s: Seq<char>) -> int
    decreases s.len(),
{
    if s.len() == 0 {
        0
    } else {
        digits_value(s.drop_last()) * 10 + (s.last() as int - '0' as int)
    }
}

/// A string read as an `i32`: an optional sign and decimal digits. Read left to
/// right, the first problem met decides the error: a value out of range before
/// the first non-digit is an overflow, otherwise a non-digit (or a lone sign) is
/// an invalid digit.
pub open spec fn spec_parse_i32(s: Seq<char>) -> Result<i32, IntParseError> {
    if s.len() == 0 {
        Err(IntParseError::Empty)
    } else if (s[0] == '+' || s[0] == '-') && s.len() == 1 {
        Err(IntParseError::InvalidDigit)
    } else {
        let negative = s[0] == '-';
        let digits = if s[0] == '+' || s[0] == '-' {
            s.drop_first()
        } else {
            s
        };
        let p: int = first_non_digit(digits);
        let v: int = digits_value(digits.take(p));
        if !negative && v > i32::MAX {
            Err(IntParseError::PosOverflow)
        } else if negative && -v < i32::MIN {
            Err(IntParseError::NegOverflow)
        } else if p < digits.len() {
            Err(IntParseError::InvalidDigit)
        } else if negative {
            Ok((-v) as i32)
        } else {
            Ok(v as i32)
        }
    }
}

/// Whether `s` holds a non-digit after its sign and digits, and the digits
/// before that non-digit are already out of range: `spec_parse_i32` reports the
/// overflow, but the kind of error is open there (see `parse_i32_outcome`).
pub open spec fn overflows_before_non_digit(s: Seq<char>) -> bool {
    &&& spec_parse_i32(s) matches Err(e) && (e == IntParseError::PosOverflow || e == IntParseError::NegOverflow)
    &&& {
        let digits = if s[0] == '+' || s[0] == '-' {
            s.drop_first()
        } else {
            s
        };
        first_non_digit(digits) < digits.len()
    }
}

/// The results `str::parse::<i32>` may give for `s`: the one `spec_parse_i32`
/// gives, or, where a non-digit follows digits already out of range, an
/// invalid digit instead of the overflow.
pub open spec fn parse_i32_outcome(s: Seq<char>, r: Result<i32, IntParseError>) -> bool {
    ||| r == spec_parse_i32(s)
    ||| overflows_before_non_digit(s) && r == Err::<i32, IntParseError>(IntParseError::InvalidDigit)
}

/// Calls `str::parse::<i32>` and tells the kinds of its error apart. The claim
/// is that it reads the string as its documentation says: an optional `+` or
/// `-` followed by decimal digits, an empty string being `Empty`, a lone sign or
/// any other character an invalid digit, and a value out of range an overflow of
/// its sign. The documentation does not say which error comes when a string both
/// holds a non-digit and overflows before it; the contract admits both kinds
/// there. The kind `Zero` is made only for non-zero integer types, and the kind
/// enum is non-exhaustive: any kind but the three named is read as an invalid
/// digit.
#[verifier::external_body]
fn parse_i32(text: &str) -> (r: Result<i32, IntParseError>)
    ensures
        parse_i32_outcome(text@, r),
{
    match text.parse::<i32>() {
        Ok(n) => Ok(n),
        Err(e) => Err(
            match e.kind() {
                IntErrorKind::Empty => IntParseError::Empty,
                IntErrorKind::PosOverflow => IntParseError::PosOverflow,
                IntErrorKind::NegOverflow => IntParseError::NegOverflow,
                _ => IntParseError::InvalidDigit,
            },
        ),
    }
}

/// Parses `text` as an `i32` and doubles it; a parse error is passed on.
pub fn parse_and_double(text: &str) -> (r: Result<i32, IntParseError>)
    requires
        spec_parse_i32(text@) matches Ok(n) ==> fits_i32(2 * n),
    ensures
        match spec_parse_i32(text@) {
            Ok(n) => r == Ok::<i32, IntParseError>((2 * n) as i32),
            Err(_) => r is Err && parse_i32_outcome(text@, r),
        },
{
    let number: i32 = parse_i32(text)?;
    Ok(number * 2)
}

/// The largest of the first `k` items of `s`, scanning from `s[0]` and
/// replacing the candidate only by an item greater than it.
pub open spec fn largest_prefix<T: PartialOrd>(s: Seq<T>, k: int) -> T
    decreases k,
{
    if k <= 0 {
        s[0]
    } else {
        let b = largest_prefix(s, k - 1);
        if s[k - 1].partial_cmp_spec(&b) == Some(Ordering::Greater) {
            s[k - 1]
        } else {
            b
        }
    }
}

/// The result of scanning all of `s`.
pub open spec fn largest_of<T: PartialOrd>(s: Seq<T>) -> T {
    largest_prefix(s, s.len() as int)
}

/// The result of scanning the first `i` items of `s`.
pub open spec fn largest_upto<T: PartialOrd>(s: Seq<T>, i: usize) -> T {
    largest_prefix(s, i as int)
}

/// Whether "greater than", as `T`'s comparison states it, is a strict order:
/// nothing is greater than itself, and it is transitive.
pub open spec fn greater_is_strict_order<T: PartialOrd>() -> bool {
    &&& forall|x: T| #[trigger] x.partial_cmp_spec(&x) != Some(Ordering::Greater)
    &&& forall|x: T, y: T, z: T|
        #![trigger x.partial_cmp_spec(&y), y.partial_cmp_spec(&z)]
        x.partial_cmp_spec(&y) == Some(Ordering::Greater) && y.partial_cmp_spec(&z) == Some(
            Ordering::Greater,
        ) ==> x.partial_cmp_spec(&z) == Some(Ordering::Greater)
}

/// Whether none of the first `k` items of `s` is greater than `x`.
pub open spec fn none_greater_upto<T: PartialOrd>(s: Seq<T>, k: int, x: T) -> bool {
    forall|j: int| 0 <= j < k ==> #[trigger] s[j].partial_cmp_spec(&x) != Some(Ordering::Greater)
}

/// Whether no item of `s` is greater than `x`.
pub open spec fn none_greater<T: PartialOrd>(s: Seq<T>, x: T) -> bool {
    none_greater_upto(s, s.len() as int, x)
}

/// Whether `x` is one of the items of `s`.
pub open spec fn is_item<T>(s: Seq<T>, x: T) -> bool {
    exists|j: int| 0 <= j < s.len() && s[j] == x
}

proof fn lemma_largest_prefix_bound<T: PartialOrd>(s: Seq<T>, k: int)
    requires
        s.len() > 0,
        0 <= k <= s.len(),
        greater_is_strict_order::<T>(),
    ensures
        none_greater_upto(s, k, largest_prefix(s, k)),
        is_item(s, largest_prefix(s, k)),
    decreases k,
{
    if k > 0 {
        lemma_largest_prefix_bound(s, k - 1);
        let b = largest_prefix(s, k - 1);
        let last = s[k - 1];
        assert forall|j: int| 0 <= j < k implies s[j].partial_cmp_spec(&largest_prefix(s, k)) != Some(
            Ordering::Greater,
        ) by {
            if last.partial_cmp_spec(&b) == Some(Ordering::Greater) {
                if j < k - 1 && s[j].partial_cmp_spec(&last) == Some(Ordering::Greater) {
                    assert(s[j].partial_cmp_spec(&b) == Some(Ordering::Greater));
                }
                assert(last.partial_cmp_spec(&last) != Some(Ordering::Greater));
            } else if j < k - 1 {
                assert(s[j].partial_cmp_spec(&b) != Some(Ordering::Greater));
            }
        }
        if last.partial_cmp_spec(&b) == Some(Ordering::Greater) {
            assert(largest_prefix(s, k) == s[k - 1]);
        }
    } else {
        assert(s[0] == largest_prefix(s, k));
    }
}

/// Law: what `largest` picks is an item of the list that no item of the list
/// is greater than, for any type whose "greater than" is a strict order.
pub proof fn law_largest_has_no_greater_item<T: PartialOrd>(s: Seq<T>)
    requires
        s.len() > 0,
        greater_is_strict_order::<T>(),
    ensures
        none_greater(s, largest_of(s)),
        is_item(s, largest_of(s)),
{
    lemma_largest_prefix_bound(s, s.len() as int);
}

/// Law: on integers, `largest` picks the maximum of the list: an item of the
/// list at least as large as every item.
pub proof fn law_largest_is_maximum_i32(s: Seq<i32>)
    requires
        s.len() > 0,
    ensures
        forall|i: int| 0 <= i < s.len() ==> s[i] <= largest_of(s),
        exists|i: int| 0 <= i < s.len() && largest_of(s) == s[i],
{
    law_largest_has_no_greater_item(s);
    assert forall|i: int| 0 <= i < s.len() implies s[i] <= largest_of(s) by {
        assert(s[i].partial_cmp_spec(&largest_of(s)) != Some(Ordering::Greater));
    }
    assert(is_item(s, largest_of(s)));
}

/// The largest item of a non-empty list: the first item no later item is
/// greater than. Whatever `T`'s comparison does, the result is an item of the
/// list; where "greater than" is a strict order, no item is greater than it.
pub fn largest<T: PartialOrd + Copy>(list: &[T]) -> (r: T)
    requires
        list@.len() > 0,
    ensures
        exists|i: int| 0 <= i < list@.len() && r == list@[i],
        T::obeys_partial_cmp_spec() ==> r == largest_of(list@),
        T::obeys_partial_cmp_spec() && greater_is_strict_order::<T>() ==> none_greater(list@, r),
{
    let mut biggest = list[0];
    let mut i: usize = 0;
    while i < list.len()
        invariant
            0 <= i <= list@.len(),
            list@.len() > 0,
            exists|j: int| 0 <= j < list@.len() && biggest == list@[j],
            T::obeys_partial_cmp_spec() ==> biggest == largest_upto(list@, i),
        decreases list@.len() - i,
    {
        let item = list[i];
        if item > biggest {
            biggest = item;
        }
        i = i + 1;
    }
    proof {
        if T::obeys_partial_cmp_spec() && greater_is_strict_order::<T>() {
            law_largest_has_no_greater_item(list@);
        }
    }
    biggest
}

/// Something that can be summed up in a line.
pub trait Summary {
    /// A one-line summary.
    fn summarize(&self) -> String;

    /// A teaser shown before the summary.
    fn preview(&self) -> (p: String)
        ensures
            p@ == "(padho...)"@,
    {
        String::from_str("(padho...)")
    }
}

/// An article with a title and an author.
#[derive(Clone, Debug)]
pub struct Article {
    pub title: String,
    pub author: String,
}

/// A short post by a user.
#[derive(Clone, Debug)]
pub struct Tweet {
    pub username: String,
    pub content: String,
}

impl Summary for Article {
    /// "<title> by <author>".
    fn summarize(&self) -> (s: String)
        ensures
            s@ == self.title@ + " by "@ + self.author@,
    {
        let mut s = self.title.clone();
        s.append(" by ");
        s.append(self.author.as_str());
        s
    }
}

impl Summary for Tweet {
    /// "@<username>: <content>".
    fn summarize(&self) -> (s: String)
        ensures
            s@ == "@"@ + self.username@ + ": "@ + self.content@,
    {
        let mut s = String::from_str("@");
        s.append(self.username.as_str());
        s.append(": ");
        s.append(self.content.as_str());
        s
    }
}

// ----------------------------------------------------------------------------
// laws of the exercises
// ----------------------------------------------------------------------------

/// Law: the average rounds toward zero. Half of `x` doubled falls short of `x`
/// by at most one, on the side of zero, and halving commutes with negation.
pub proof fn law_half_rounds_toward_zero(x: int)
    ensures
        x >= 0 ==> 0 <= x - 2 * half_toward_zero(x) <= 1,
        x < 0 ==> -1 <= x - 2 * half_toward_zero(x) <= 0,
        half_toward_zero(-x) == -half_toward_zero(x),
{
}

/// Law: the first word ends at the first space. No character before that
/// position is a space, and the position is a space or the end of the string.
pub proof fn law_first_word_ends_at_first_space(s: Seq<char>)
    ensures
        0 <= first_space(s) <= s.len(),
        forall|j: int| 0 <= j < first_space(s) ==> s[j] != ' ',
        first_space(s) < s.len() ==> s[first_space(s)] == ' ',
    decreases s.len(),
{
    if s.len() > 0 && s[0] != ' ' {
        law_first_word_ends_at_first_space(s.drop_first());
        assert forall|j: int| 0 <= j < first_space(s) implies s[j] != ' ' by {
            if j > 0 {
                assert(s[j] == s.drop_first()[j - 1]);
            }
        }
    }
}

/// Law: one rectangle holds another exactly when it is both wider and taller.
pub proof fn law_holds_means_wider_and_taller(outer: Rectangle, inner: Rectangle)
    ensures
        holds(outer, inner) <==> (outer.width > inner.width && outer.height > inner.height),
        holds(Rectangle { width: outer.width, height: outer.width }, Rectangle { width: inner.width, height: inner.width })
            <==> outer.width > inner.width,
{
}

proof fn lemma_first_non_digit_bounds(s: Seq<char>)
    ensures
        0 <= first_non_digit(s) <= s.len(),
        forall|j: int| 0 <= j < first_non_digit(s) ==> is_digit(#[trigger] s[j]),
        first_non_digit(s) < s.len() ==> !is_digit(s[first_non_digit(s)]),
    decreases s.len(),
{
    if s.len() > 0 && is_digit(s[0]) {
        lemma_first_non_digit_bounds(s.drop_first());
        assert forall|j: int| 0 <= j < first_non_digit(s) implies is_digit(#[trigger] s[j]) by {
            if j > 0 {
                assert(s[j] == s.drop_first()[j - 1]);
            }
        }
    }
}

proof fn lemma_digits_value_nonnegative(t: Seq<char>)
    requires
        forall|j: int| 0 <= j < t.len() ==> is_digit(#[trigger] t[j]),
    ensures
        digits_value(t) >= 0,
    decreases t.len(),
{
    if t.len() > 0 {
        lemma_digits_value_nonnegative(t.drop_last());
        assert(is_digit(t[t.len() - 1]));
    }
}

/// Law: a single decimal digit reads as its value.
pub proof fn law_parse_single_digit(d: char)
    requires
        is_digit(d),
    ensures
        spec_parse_i32(seq![d]) == Ok::<i32, IntParseError>((d as int - '0' as int) as i32),
{
    let s = seq![d];
    assert(s.drop_first() =~= Seq::<char>::empty());
    assert(first_non_digit(s.drop_first()) == 0);
    assert(first_non_digit(s) == 1);
    assert(s.take(1) =~= s);
    assert(s.drop_last() =~= Seq::<char>::empty());
    assert(digits_value(s.drop_last()) == 0);
    assert(digits_value(s) == d as int - '0' as int);
    assert(s[0] != '+' && s[0] != '-');
}

/// Law: a string that holds a character other than a digit after its sign
/// never reads as a number.
pub proof fn law_parse_rejects_non_digits(s: Seq<char>, j: int)
    requires
        0 <= j < s.len(),
        !is_digit(s[j]),
        j > 0 || (s[0] != '+' && s[0] != '-'),
    ensures
        spec_parse_i32(s) is Err,
{
    let digits = if s[0] == '+' || s[0] == '-' {
        s.drop_first()
    } else {
        s
    };
    lemma_first_non_digit_bounds(digits);
    if s[0] == '+' || s[0] == '-' {
        if s.len() > 1 {
            assert(!is_digit(digits[j - 1]));
        }
    } else {
        assert(!is_digit(digits[j]));
    }
}

/// Law: a `+` sign changes nothing, and a `-` sign negates: where a string of
/// digits reads as `v`, with `+` before it it reads as `v` and with `-` before
/// it as `-v`.
pub proof fn law_parse_signs(s: Seq<char>)
    requires
        s.len() > 0,
        is_digit(s[0]),
    ensures
        spec_parse_i32(seq!['+'] + s) == spec_parse_i32(s),
        spec_parse_i32(s) matches Ok(v) ==> (spec_parse_i32(seq!['-'] + s) matches Ok(w) && w == -v),
{
    assert((seq!['+'] + s).drop_first() =~= s);
    assert((seq!['-'] + s).drop_first() =~= s);
    assert((seq!['+'] + s)[0] == '+');
    assert((seq!['-'] + s)[0] == '-');
    assert(s[0] != '+' && s[0] != '-');
    let p: int = first_non_digit(s);
    let v0: int = digits_value(s.take(p));
    lemma_first_non_digit_bounds(s);
    assert forall|j: int| 0 <= j < s.take(p).len() implies is_digit(#[trigger] s.take(p)[j]) by {
        assert(s.take(p)[j] == s[j]);
    }
    lemma_digits_value_nonnegative(s.take(p));
    if spec_parse_i32(s) is Ok {
        assert(p == s.len());
        assert(0 <= v0 <= i32::MAX);
        assert(spec_parse_i32(s) == Ok::<i32, IntParseError>(v0 as i32));
        assert(spec_parse_i32(seq!['-'] + s) == Ok::<i32, IntParseError>((-v0) as i32));
    }
}

} // verus!
