//! Reading rendered text back: the renderings of integers, of lists of
//! unsigned integers, and of containers holding them determine the values
//! rendered.
use vstd::prelude::*;

use crate::render::{decimal, digit_char, list_items, list_literal, signed_decimal, Render};
use crate::uneval_cow::UnevalCow;

verus! {

/// The value of the decimal digit `c`.
pub open spec fn digit_value(c: char) -> nat {
    if c == '1' { 1 }
    else if c == '2' { 2 }
    else if c == '3' { 3 }
    else if c == '4' { 4 }
    else if c == '5' { 5 }
    else if c == '6' { 6 }
    else if c == '7' { 7 }
    else if c == '8' { 8 }
    else if c == '9' { 9 }
    else { 0 }
}

/// The value of the decimal notation `s`.
pub open spec fn decimal_value(s: Seq<char>) -> nat
    decreases s.len(),
{
    if s.len() == 0 {
        0
    } else {
        decimal_value(s.drop_last()) * 10 + digit_value(s.last())
    }
}

/// The value of the decimal notation `s`, negative when it starts with a
/// minus sign.
pub open spec fn signed_decimal_value(s: Seq<char>) -> int {
    if s.len() > 0 && s[0] == '-' {
        -decimal_value(s.drop_first())
    } else {
        decimal_value(s) as int
    }
}

/// The position of the last comma in `s`, or -1 when it has none.
pub open spec fn last_comma(s: Seq<char>) -> int
    decreases s.len(),
{
    if s.len() == 0 {
        -1
    } else if s.last() == ',' {
        s.len() - 1
    } else {
        last_comma(s.drop_last())
    }
}

/// The values of the decimal notations in `s`, separated by a comma and a
/// space.
pub open spec fn list_values(s: Seq<char>) -> Seq<nat>
    decreases s.len(),
{
    let k = last_comma(s);
    if s.len() == 0 {
        Seq::empty()
    } else if 0 <= k < s.len() {
        list_values(s.subrange(0, k)).push(decimal_value(s.subrange(k + 2, s.len() as int)))
    } else {
        seq![decimal_value(s)]
    }
}

/// The values of the bracketed list notation `s`.
pub open spec fn read_list(s: Seq<char>) -> Seq<nat> {
    list_values(s.subrange(1, s.len() - 1))
}

/// The text that a container of a non-text shape puts around the rendering
/// of its data, `UnevalCow::Borrowed( &` and ` )`, removed from `s`.
pub open spec fn unwrap_reference(s: Seq<char>) -> Seq<char> {
    s.subrange(22, s.len() - 2)
}

/// The unsigned integers `v`, as natural numbers.
pub open spec fn naturals(v: Seq<u64>) -> Seq<nat> {
    v.map_values(|x: u64| x as nat)
}

proof fn lemma_digit(d: nat)
    requires
        d < 10,
    ensures
        digit_value(digit_char(d)) == d,
        digit_char(d) != ',',
{
}

/// The decimal notation of `n` reads back as `n`, and holds no comma.
pub proof fn lemma_decimal_round_trip(n: nat)
    ensures
        decimal_value(decimal(n)) == n,
        decimal(n).len() > 0,
        last_comma(decimal(n)) == -1,
    decreases n,
{
    let s = decimal(n);
    if n < 10 {
        lemma_digit(n);
        assert(s.drop_last() =~= Seq::<char>::empty());
        assert(s.last() == digit_char(n));
        assert(decimal_value(Seq::<char>::empty()) == 0);
        assert(last_comma(Seq::<char>::empty()) == -1);
    } else {
        lemma_decimal_round_trip(n / 10);
        lemma_digit(n % 10);
        assert(s.drop_last() =~= decimal(n / 10));
        assert(s.last() == digit_char(n % 10));
        assert(n == (n / 10) * 10 + n % 10);
    }
}

proof fn lemma_decimal_starts_with_digit(n: nat)
    ensures
        decimal(n).len() > 0,
        decimal(n)[0] != '-',
    decreases n,
{
    if n >= 10 {
        lemma_decimal_starts_with_digit(n / 10);
    }
}

/// The decimal notation of the integer `i`, with its sign, reads back as
/// `i`.
pub proof fn lemma_signed_decimal_round_trip(i: int)
    ensures
        signed_decimal_value(signed_decimal(i)) == i,
{
    if i < 0 {
        let s = signed_decimal(i);
        assert(s.drop_first() =~= decimal((-i) as nat));
        lemma_decimal_round_trip((-i) as nat);
    } else {
        lemma_decimal_starts_with_digit(i as nat);
        lemma_decimal_round_trip(i as nat);
    }
}

proof fn lemma_last_comma_after(a: Seq<char>, d: Seq<char>)
    requires
        last_comma(d) == -1,
    ensures
        last_comma(a + seq![',', ' '] + d) == a.len(),
    decreases d.len(),
{
    let s = a + seq![',', ' '] + d;
    if d.len() == 0 {
        assert(s =~= a + seq![',', ' ']);
        assert(s.last() == ' ');
        let t = a + seq![','];
        assert(s.drop_last() =~= t);
        assert(t.last() == ',');
        assert(last_comma(t) == a.len());
    } else {
        assert(last_comma(d) == last_comma(d.drop_last()));
        assert(s.last() == d.last());
        assert(s.drop_last() =~= a + seq![',', ' '] + d.drop_last());
        lemma_last_comma_after(a, d.drop_last());
    }
}

/// The list of unsigned integers `v`, rendered without brackets, reads back
/// as `v`.
pub proof fn lemma_list_items_round_trip(v: Seq<u64>)
    ensures
        list_values(list_items::<u64>(v)) == naturals(v),
    decreases v.len(),
{
    if v.len() == 0 {
        assert(naturals(v) =~= Seq::<nat>::empty());
    } else if v.len() == 1 {
        lemma_decimal_round_trip(v[0] as nat);
        assert(naturals(v) =~= seq![v[0] as nat]);
    } else {
        let init = list_items::<u64>(v.drop_last());
        let last = decimal(v.last() as nat);
        let s = list_items::<u64>(v);
        assert(s == init + seq![',', ' '] + last);
        lemma_decimal_round_trip(v.last() as nat);
        lemma_last_comma_after(init, last);
        assert(s.subrange(0, init.len() as int) =~= init);
        assert(s.subrange(init.len() as int + 2, s.len() as int) =~= last);
        lemma_list_items_round_trip(v.drop_last());
        assert(naturals(v) =~= naturals(v.drop_last()).push(v.last() as nat));
    }
}

/// The bracketed list notation of the unsigned integers `v` reads back as
/// `v`.
pub proof fn lemma_list_round_trip(v: Seq<u64>)
    ensures
        read_list(<[u64] as Render>::render_view(v)) == naturals(v),
{
    let s = list_literal::<u64>(v);
    assert(s.subrange(1, s.len() - 1) =~= list_items::<u64>(v));
    lemma_list_items_round_trip(v);
}

proof fn lemma_unwrap_reference(body: Seq<char>)
    ensures
        unwrap_reference("UnevalCow::Borrowed( "@ + ("&"@ + body) + " )"@) == body,
{
    reveal_strlit("UnevalCow::Borrowed( ");
    reveal_strlit("&");
    reveal_strlit(" )");
    let s = "UnevalCow::Borrowed( "@ + ("&"@ + body) + " )"@;
    assert(s.subrange(22, s.len() - 2) =~= body);
}

/// The rendering of a truth value reads back as that value: it is `true`
/// exactly when the value is.
pub proof fn lemma_bool_round_trip(b: bool)
    ensures
        (<bool as Render>::render_view(b) == "true"@) == b,
{
    reveal_strlit("true");
    reveal_strlit("false");
    if !b {
        assert(<bool as Render>::render_view(b).len() != "true"@.len());
    }
}

/// The rendering of a container of an unsigned integer, borrowed or owned,
/// reads back as that integer.
pub proof fn lemma_scalar_container_round_trip<'a>(c: UnevalCow<'a, u64>)
    ensures
        decimal_value(unwrap_reference(UnevalCow::<'a, u64>::render_view(c@))) == c@ as nat,
{
    lemma_unwrap_reference(decimal(c@ as nat));
    lemma_decimal_round_trip(c@ as nat);
}

/// The rendering of a container of a signed integer, borrowed or owned,
/// reads back as that integer.
pub proof fn lemma_signed_container_round_trip<'a>(c: UnevalCow<'a, i64>)
    ensures
        signed_decimal_value(unwrap_reference(UnevalCow::<'a, i64>::render_view(c@))) == c@ as int,
{
    lemma_unwrap_reference(signed_decimal(c@ as int));
    lemma_signed_decimal_round_trip(c@ as int);
}

/// The rendering of a container of a list of unsigned integers, borrowed or
/// owned, reads back as that list.
pub proof fn lemma_list_container_round_trip<'a>(c: UnevalCow<'a, [u64]>)
    ensures
        read_list(unwrap_reference(UnevalCow::<'a, [u64]>::render_view(c@))) == naturals(c@),
{
    lemma_unwrap_reference(list_literal::<u64>(c@));
    lemma_list_round_trip(c@);
}

} // verus!
