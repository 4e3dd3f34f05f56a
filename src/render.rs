//! The textual rendering of values: the source text that rebuilds them.
use vstd::prelude::*;
use vstd::string::*;

verus! {

/// A value that can be written as the source text of an expression that
/// rebuilds it.
///
/// The rendering is a function of the value's deep view: values with equal
/// deep views render equally.
pub trait Render: DeepView {
    /// The source text of a value whose deep view is `v`.
    spec fn render_view(v: Self::V) -> Seq<char>;

    /// Renders `self` as source text.
    fn render(&self) -> (r: String)
        ensures
            r@ == Self::render_view(self.deep_view()),
    ;
}

/// The decimal digit that stands for `d`.
pub open spec fn digit_char(d: nat) -> char {
    if d == 0 { '0' }
    else if d == 1 { '1' }
    else if d == 2 { '2' }
    else if d == 3 { '3' }
    else if d == 4 { '4' }
    else if d == 5 { '5' }
    else if d == 6 { '6' }
    else if d == 7 { '7' }
    else if d == 8 { '8' }
    else { '9' }
}

/// The decimal notation of `n`, most significant digit first, without
/// leading zeros.
pub open spec fn decimal(n: nat) -> Seq<char>
    decreases n,
{
    if n < 10 {
        seq![digit_char(n)]
    } else {
        decimal(n / 10).push(digit_char(n % 10))
    }
}

/// The one-character string of the decimal digit `d`.
fn digit_str(d: u64) -> (r: &'static str)
    requires
        d < 10,
    ensures
        r@ == seq![digit_char(d as nat)],
{
    proof {
        reveal_strlit("0");
        reveal_strlit("1");
        reveal_strlit("2");
        reveal_strlit("3");
        reveal_strlit("4");
        reveal_strlit("5");
        reveal_strlit("6");
        reveal_strlit("7");
        reveal_strlit("8");
        reveal_strlit("9");
    }
    let r = if d == 0 { "0" }
    else if d == 1 { "1" }
    else if d == 2 { "2" }
    else if d == 3 { "3" }
    else if d == 4 { "4" }
    else if d == 5 { "5" }
    else if d == 6 { "6" }
    else if d == 7 { "7" }
    else if d == 8 { "8" }
    else { "9" };
    assert(r@ =~= seq![digit_char(d as nat)]);
    r
}

/// Writes the decimal notation of `n`.
pub fn decimal_string(n: u64) -> (r: String)
    ensures
        r@ == decimal(n as nat),
    decreases n,
{
    if n < 10 {
        String::from_str(digit_str(n))
    } else {
        let mut s = decimal_string(n / 10);
        s.append(digit_str(n % 10));
        s
    }
}

/// The decimal notation of `i`, with a minus sign in front when it is
/// negative.
pub open spec fn signed_decimal(i: int) -> Seq<char> {
    if i < 0 {
        seq!['-'] + decimal((-i) as nat)
    } else {
        decimal(i as nat)
    }
}

/// Writes the decimal notation of `n`, with a minus sign when it is negative.
pub fn signed_decimal_string(n: i64) -> (r: String)
    ensures
        r@ == signed_decimal(n as int),
{
    if n < 0 {
        let magnitude = (0i128 - n as i128) as u64;
        let digits = decimal_string(magnitude);
        let r = String::from_str("-").concat(digits.as_str());
        proof {
            reveal_strlit("-");
            assert(r@ =~= signed_decimal(n as int));
        }
        r
    } else {
        decimal_string(n as u64)
    }
}

impl Render for u8 {
    open spec fn render_view(v: u8) -> Seq<char> {
        decimal(v as nat)
    }

    fn render(&self) -> (r: String) {
        decimal_string(*self as u64)
    }
}

impl Render for u16 {
    open spec fn render_view(v: u16) -> Seq<char> {
        decimal(v as nat)
    }

    fn render(&self) -> (r: String) {
        decimal_string(*self as u64)
    }
}

impl Render for u32 {
    open spec fn render_view(v: u32) -> Seq<char> {
        decimal(v as nat)
    }

    fn render(&self) -> (r: String) {
        decimal_string(*self as u64)
    }
}

impl Render for u64 {
    open spec fn render_view(v: u64) -> Seq<char> {
        decimal(v as nat)
    }

    fn render(&self) -> (r: String) {
        decimal_string(*self as u64)
    }
}

impl Render for usize {
    open spec fn render_view(v: usize) -> Seq<char> {
        decimal(v as nat)
    }

    fn render(&self) -> (r: String) {
        decimal_string(*self as u64)
    }
}

impl Render for i8 {
    open spec fn render_view(v: i8) -> Seq<char> {
        signed_decimal(v as int)
    }

    fn render(&self) -> (r: String) {
        signed_decimal_string(*self as i64)
    }
}

impl Render for i16 {
    open spec fn render_view(v: i16) -> Seq<char> {
        signed_decimal(v as int)
    }

    fn render(&self) -> (r: String) {
        signed_decimal_string(*self as i64)
    }
}

impl Render for i32 {
    open spec fn render_view(v: i32) -> Seq<char> {
        signed_decimal(v as int)
    }

    fn render(&self) -> (r: String) {
        signed_decimal_string(*self as i64)
    }
}

impl Render for i64 {
    open spec fn render_view(v: i64) -> Seq<char> {
        signed_decimal(v as int)
    }

    fn render(&self) -> (r: String) {
        signed_decimal_string(*self as i64)
    }
}

/// The quoted, escaped literal that `str`'s `Debug` writes for the text `s`.
pub uninterp spec fn debug_str(s: Seq<char>) -> Seq<char>;

/// Relies on `str`'s `Debug` impl: it writes the text as a quoted string
/// literal with its special characters escaped, a function of the text alone.
#[verifier::external_body]
fn quoted_literal(s: &str) -> (r: String)
    ensures
        r@ == debug_str(s@),
{
    format!("{:?}", s)
}

impl Render for str {
    open spec fn render_view(v: Seq<char>) -> Seq<char> {
        debug_str(v)
    }

    fn render(&self) -> (r: String) {
        quoted_literal(self)
    }
}

impl Render for String {
    open spec fn render_view(v: Seq<char>) -> Seq<char> {
        debug_str(v)
    }

    fn render(&self) -> (r: String) {
        quoted_literal(self.as_str())
    }
}

/// The quoted, escaped literal that `char`'s `Debug` writes for `c`.
pub uninterp spec fn debug_char(c: char) -> Seq<char>;

/// Relies on `char`'s `Debug` impl: it writes the character as a quoted
/// character literal, escaped where needed, a function of the character
/// alone.
#[verifier::external_body]
fn char_literal(c: char) -> (r: String)
    ensures
        r@ == debug_char(c),
{
    format!("{:?}", c)
}

impl Render for char {
    open spec fn render_view(v: char) -> Seq<char> {
        debug_char(v)
    }

    fn render(&self) -> (r: String) {
        char_literal(*self)
    }
}

impl Render for bool {
    open spec fn render_view(v: bool) -> Seq<char> {
        if v {
            "true"@
        } else {
            "false"@
        }
    }

    fn render(&self) -> (r: String) {
        if *self {
            String::from_str("true")
        } else {
            String::from_str("false")
        }
    }
}

/// The renderings of the items whose deep views are `v`, separated by a
/// comma and a space.
pub open spec fn list_items<T: Render>(v: Seq<T::V>) -> Seq<char>
    decreases v.len(),
{
    if v.len() == 0 {
        Seq::empty()
    } else if v.len() == 1 {
        T::render_view(v[0])
    } else {
        list_items::<T>(v.drop_last()) + seq![',', ' '] + T::render_view(v.last())
    }
}

/// The bracketed list notation of the items whose deep views are `v`.
pub open spec fn list_literal<T: Render>(v: Seq<T::V>) -> Seq<char> {
    seq!['['] + list_items::<T>(v) + seq![']']
}

/// Writes the bracketed list notation of the items of `v`.
fn render_list<T: Render>(v: &[T]) -> (r: String)
    ensures
        r@ == list_literal::<T>(v.deep_view()),
{
    proof {
        reveal_strlit("[");
        reveal_strlit("]");
    }
    let ghost dv = v.deep_view();
    let mut s = String::from_str("[");
    let mut i: usize = 0;
    while i < v.len()
        invariant
            0 <= i <= v@.len(),
            dv == v.deep_view(),
            s@ == seq!['['] + list_items::<T>(dv.subrange(0, i as int)),
        decreases v@.len() - i,
    {
        if i > 0 {
            s.append(", ");
        }
        let item = v[i].render();
        s.append(item.as_str());
        proof {
            let next = dv.subrange(0, i + 1);
            assert(next.len() == i + 1);
            assert(next.drop_last() =~= dv.subrange(0, i as int));
            assert(next.last() == v@[i as int].deep_view());
            if i == 0 {
                assert(s@ =~= seq!['['] + list_items::<T>(next));
            } else {
                reveal_strlit(", ");
                assert(", "@ =~= seq![',', ' ']);
                assert(s@ =~= seq!['['] + list_items::<T>(next));
            }
        }
        i = i + 1;
    }
    assert(dv.subrange(0, dv.len() as int) =~= dv);
    s.append("]");
    s
}

impl<T: Render> Render for [T] {
    open spec fn render_view(v: Seq<T::V>) -> Seq<char> {
        list_literal::<T>(v)
    }

    fn render(&self) -> (r: String) {
        render_list(self)
    }
}

impl<T: Render> Render for Box<[T]> {
    open spec fn render_view(v: Seq<T::V>) -> Seq<char> {
        list_literal::<T>(v)
    }

    fn render(&self) -> (r: String) {
        render_list(&**self)
    }
}

impl<T: Render, const N: usize> Render for [T; N] {
    open spec fn render_view(v: Seq<T::V>) -> Seq<char> {
        list_literal::<T>(v)
    }

    fn render(&self) -> (r: String) {
        broadcast use vstd::array::axiom_spec_array_as_slice;

        render_list(vstd::array::array_as_slice(self))
    }
}

impl<T: Render> Render for Vec<T> {
    open spec fn render_view(v: Seq<T::V>) -> Seq<char> {
        list_literal::<T>(v)
    }

    fn render(&self) -> (r: String) {
        render_list(self.as_slice())
    }
}

} // verus!
