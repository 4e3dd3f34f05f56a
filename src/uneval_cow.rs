//! A clone-on-write container whose rendering always spells the borrowed
//! variant.
use vstd::prelude::*;

use core::borrow::Borrow;
use core::cmp::Ordering;
use core::ops::Deref;

use crate::render::Render;
use crate::shape::{Borrowable, Duplicate};

verus! {

/// A clone-on-write smart pointer: it either borrows data owned elsewhere or
/// owns a copy of it, and reads the same either way.
///
/// Mutable access through [`UnevalCow::to_mut`] copies borrowed data into
/// owned storage once; owned data is never copied again.
///
/// Its rendering always spells `UnevalCow::Borrowed( .. )`, whichever
/// variant holds the data, since a constant cannot hold an allocation:
/// - text renders as `UnevalCow::Borrowed( "..." )`;
/// - any other shape renders as `UnevalCow::Borrowed( &.. )`.
pub enum UnevalCow<'a, B: ?Sized + Borrowable + 'a> {
    /// Borrowed data.
    Borrowed(&'a B),
    /// Owned data.
    Owned(B::Owned),
}

impl<'a, B: ?Sized + Borrowable> View for UnevalCow<'a, B> {
    type V = <B as DeepView>::V;

    /// The data the container reads as, whichever variant holds it.
    open spec fn view(&self) -> <B as DeepView>::V {
        match self {
            UnevalCow::Borrowed(b) => b.deep_view(),
            UnevalCow::Owned(o) => o.deep_view(),
        }
    }
}

impl<'a, B: ?Sized + Borrowable> DeepView for UnevalCow<'a, B> {
    type V = <B as DeepView>::V;

    open spec fn deep_view(&self) -> <B as DeepView>::V {
        self@
    }
}

impl<'a, B: ?Sized + Borrowable> UnevalCow<'a, B> {
    /// Whether mutable access copies the data: only borrowed data is copied.
    pub open spec fn copies_on_mut_access(&self) -> bool {
        self is Borrowed
    }

    /// What one mutable access does: it hands out owned data `handed` equal
    /// to the data of `before`, and `before`'s own owned data, not a copy,
    /// when nothing has to be copied; the container is then `after`, owning
    /// what was `written` through the reference by the time it is released.
    pub open spec fn mut_access(
        before: Self,
        handed: B::Owned,
        written: B::Owned,
        after: Self,
    ) -> bool {
        &&& handed.deep_view() == before@
        &&& !before.copies_on_mut_access() ==> handed == before->Owned_0
        &&& after == UnevalCow::<'a, B>::Owned(written)
    }

    /// Reads the data, whichever variant holds it.
    pub fn as_borrowed(&self) -> (r: &B)
        ensures
            r.deep_view() == self@,
            self is Borrowed ==> r == self->Borrowed_0,
    {
        match self {
            UnevalCow::Borrowed(b) => *b,
            UnevalCow::Owned(o) => B::borrow_owned(o),
        }
    }

    /// Gives mutable access to owned data, first copying borrowed data into
    /// owned storage. Owned data is handed out as it is, with no copy.
    pub fn to_mut(&mut self) -> (r: &mut B::Owned)
        ensures
            Self::mut_access(*old(self), *r, *final(r), *final(self)),
    {
        if let UnevalCow::Borrowed(b) = *self {
            *self = UnevalCow::Owned(b.clone_owned());
        }
        match self {
            UnevalCow::Owned(o) => o,
            UnevalCow::Borrowed(_) => unreached(),
        }
    }

    /// Extracts the owned data, copying it if it is borrowed. Owned data is
    /// handed out as it is, with no copy.
    pub fn into_owned(self) -> (r: B::Owned)
        ensures
            r.deep_view() == self@,
            self is Owned ==> r == self->Owned_0,
    {
        match self {
            UnevalCow::Borrowed(b) => b.clone_owned(),
            UnevalCow::Owned(o) => o,
        }
    }
}

/// The borrowed spelling of a container around `data`, the rendering of
/// what it holds: `UnevalCow::Borrowed( "..." )` for text, and
/// `UnevalCow::Borrowed( &.. )` for every other shape.
pub open spec fn borrowed_spelling(data: Seq<char>, text: bool) -> Seq<char> {
    let reference = if text {
        data
    } else {
        "&"@ + data
    };
    "UnevalCow::Borrowed( "@ + reference + " )"@
}

/// The rendering of a container whose data has the deep view `v`: always the
/// borrowed spelling, whichever variant holds the data.
pub open spec fn borrowed_notation<B: ?Sized + Borrowable>(v: <B as DeepView>::V) -> Seq<char> {
    borrowed_spelling(B::render_view(v), B::spec_is_text())
}

/// Writes the borrowed spelling of a container around `data`, the rendering
/// of what it holds; `text` tells whether that rendering is a text literal.
pub fn spell_borrowed(data: &str, text: bool) -> (r: String)
    ensures
        r@ == borrowed_spelling(data@, text),
{
    let mut s = String::from_str("UnevalCow::Borrowed( ");
    if !text {
        s.append("&");
    }
    s.append(data);
    s.append(" )");
    s
}

impl<'a, B: ?Sized + Borrowable> Render for UnevalCow<'a, B> {
    open spec fn render_view(v: <B as DeepView>::V) -> Seq<char> {
        borrowed_notation::<B>(v)
    }

    fn render(&self) -> (r: String) {
        let data = self.as_borrowed().render();
        spell_borrowed(data.as_str(), B::is_text())
    }
}

impl<'a, B: ?Sized + Borrowable> Duplicate for UnevalCow<'a, B> {
    /// A borrowed container copies the reference; an owned one copies its
    /// data into new owned storage.
    fn duplicate(&self) -> (r: Self)
        ensures
            r@ == self@,
            self is Borrowed ==> r == *self,
            self is Owned ==> r is Owned,
    {
        match self {
            UnevalCow::Borrowed(b) => UnevalCow::Borrowed(*b),
            UnevalCow::Owned(o) => UnevalCow::Owned(B::borrow_owned(o).clone_owned()),
        }
    }

    fn same_value(&self, other: &Self) -> (r: bool) {
        self.as_borrowed().same_data(other.as_borrowed())
    }

    open spec fn value_order(a: <B as DeepView>::V, b: <B as DeepView>::V) -> Ordering {
        B::data_order(a, b)
    }

    fn compare_value(&self, other: &Self) -> (r: Ordering) {
        self.as_borrowed().compare_data(other.as_borrowed())
    }
}

impl<'a, B: ?Sized + Borrowable> Clone for UnevalCow<'a, B> {
    fn clone(&self) -> (r: Self)
        ensures
            r@ == self@,
            self is Borrowed ==> r == *self,
            self is Owned ==> r is Owned,
    {
        self.duplicate()
    }
}

impl<'a, B: ?Sized + Borrowable> Deref for UnevalCow<'a, B> {
    type Target = B;

    fn deref(&self) -> (r: &B)
        ensures
            r.deep_view() == self@,
            self is Borrowed ==> r == self->Borrowed_0,
    {
        self.as_borrowed()
    }
}

impl<'a, B: ?Sized + Borrowable> AsRef<B> for UnevalCow<'a, B> {
    fn as_ref(&self) -> (r: &B)
        ensures
            r.deep_view() == self@,
            self is Borrowed ==> r == self->Borrowed_0,
    {
        self.as_borrowed()
    }
}

impl<'a, B: ?Sized + Borrowable> Borrow<B> for UnevalCow<'a, B> {
    fn borrow(&self) -> (r: &B)
        ensures
            <B as DeepView>::deep_view(r) == self@,
            self is Borrowed ==> r == self->Borrowed_0,
    {
        self.as_borrowed()
    }
}

impl<'a, 'b, B: ?Sized + Borrowable> PartialEq<UnevalCow<'b, B>> for UnevalCow<'a, B> {
    /// Compares the data, whichever variants hold it.
    fn eq(&self, other: &UnevalCow<'b, B>) -> (r: bool)
        ensures
            r == (self@ == other@),
    {
        self.as_borrowed().same_data(other.as_borrowed())
    }
}

impl<'a, 'b, B: ?Sized + Borrowable> vstd::std_specs::cmp::PartialEqSpecImpl<UnevalCow<'b, B>> for UnevalCow<'a, B> {
    open spec fn obeys_eq_spec() -> bool {
        true
    }

    open spec fn eq_spec(&self, other: &UnevalCow<'b, B>) -> bool {
        self@ == other@
    }
}

impl<'a, B: ?Sized + Borrowable> Eq for UnevalCow<'a, B> {
}

impl<'a, B: ?Sized + Borrowable> PartialOrd for UnevalCow<'a, B> {
    /// Orders by the data, whichever variants hold it.
    fn partial_cmp(&self, other: &UnevalCow<'a, B>) -> (r: Option<Ordering>)
        ensures
            r == Some(B::data_order(self@, other@)),
    {
        Some(self.as_borrowed().compare_data(other.as_borrowed()))
    }
}

impl<'a, B: ?Sized + Borrowable> vstd::std_specs::cmp::PartialOrdSpecImpl for UnevalCow<'a, B> {
    open spec fn obeys_partial_cmp_spec() -> bool {
        true
    }

    open spec fn partial_cmp_spec(&self, other: &UnevalCow<'a, B>) -> Option<Ordering> {
        Some(B::data_order(self@, other@))
    }
}

impl<'a, B: ?Sized + Borrowable> Default for UnevalCow<'a, B> where B::Owned: Default {
    /// An owned container holding the default of the owned shape: there is
    /// nothing to borrow from.
    fn default() -> (r: Self)
        ensures
            r is Owned,
            call_ensures(B::Owned::default, (), r->Owned_0),
    {
        UnevalCow::Owned(B::Owned::default())
    }
}

/// Reading through a container gives back the data it was made from, both
/// when it borrows that data and when it owns a copy of it.
pub proof fn lemma_read_back<'a, B: ?Sized + Borrowable>(v: &'a B, copy: B::Owned)
    requires
        copy.deep_view() == v.deep_view(),
    ensures
        UnevalCow::<'a, B>::Borrowed(v)@ == v.deep_view(),
        UnevalCow::<'a, B>::Owned(copy)@ == v.deep_view(),
{
}

/// Two mutable accesses in a row copy the data at most once: the first
/// copies only if `first` borrows, the container then owns its data, and the
/// second hands out exactly what was written through the first, with no copy.
pub proof fn lemma_mut_access_copies_once<'a, B: ?Sized + Borrowable>(
    first: UnevalCow<'a, B>,
    handed1: B::Owned,
    written1: B::Owned,
    second: UnevalCow<'a, B>,
    handed2: B::Owned,
    written2: B::Owned,
    last: UnevalCow<'a, B>,
)
    requires
        UnevalCow::<'a, B>::mut_access(first, handed1, written1, second),
        UnevalCow::<'a, B>::mut_access(second, handed2, written2, last),
    ensures
        !second.copies_on_mut_access(),
        (if first.copies_on_mut_access() { 1int } else { 0int }) + (if second.copies_on_mut_access() {
            1int
        } else {
            0int
        }) <= 1,
        handed2 == written1,
{
}

/// The rendering does not depend on the variant: a container borrowing some
/// data and one owning a copy of it render the same text.
pub proof fn lemma_render_variant_independent<'a, B: ?Sized + Borrowable>(
    v: &'a B,
    copy: B::Owned,
)
    requires
        copy.deep_view() == v.deep_view(),
    ensures
        UnevalCow::<'a, B>::render_view(UnevalCow::<'a, B>::Borrowed(v)@)
            == UnevalCow::<'a, B>::render_view(UnevalCow::<'a, B>::Owned(copy)@),
{
}

} // verus!
