//! The shapes of data a clone-on-write container can wrap, each with its
//! owned counterpart.
use vstd::prelude::*;
use vstd::string::*;

use core::cmp::Ordering;

use crate::render::Render;

verus! {

/// A value that can be copied into a new, separate value with the same deep
/// view.
pub trait Duplicate: DeepView + Sized {
    /// Makes a separate copy of `self`.
    fn duplicate(&self) -> (r: Self)
        ensures
            r.deep_view() == self.deep_view(),
    ;

    /// Tells whether `self` and `other` hold the same data.
    fn same_value(&self, other: &Self) -> (r: bool)
        ensures
            r == (self.deep_view() == other.deep_view()),
    ;

    /// How values with the deep views `a` and `b` are ordered.
    spec fn value_order(a: Self::V, b: Self::V) -> Ordering;

    /// Orders `self` against `other`.
    fn compare_value(&self, other: &Self) -> (r: Ordering)
        ensures
            r == Self::value_order(self.deep_view(), other.deep_view()),
    ;
}

/// The numeric order of `a` and `b`.
pub open spec fn number_order(a: int, b: int) -> Ordering {
    if a < b {
        Ordering::Less
    } else if a == b {
        Ordering::Equal
    } else {
        Ordering::Greater
    }
}

/// The order of `a` and `b`, with `false` first.
pub open spec fn bool_order(a: bool, b: bool) -> Ordering {
    if a == b {
        Ordering::Equal
    } else if !a {
        Ordering::Less
    } else {
        Ordering::Greater
    }
}

/// The lexicographic order of the items whose deep views are `a` and `b`:
/// the first unequal pair decides, and a proper prefix comes first.
pub open spec fn items_order<T: Duplicate>(a: Seq<T::V>, b: Seq<T::V>) -> Ordering
    decreases a.len(),
{
    if a.len() == 0 {
        if b.len() == 0 {
            Ordering::Equal
        } else {
            Ordering::Less
        }
    } else if b.len() == 0 {
        Ordering::Greater
    } else if T::value_order(a[0], b[0]) == Ordering::Equal {
        items_order::<T>(a.drop_first(), b.drop_first())
    } else {
        T::value_order(a[0], b[0])
    }
}

/// The order that `str`'s `Ord` gives the texts `a` and `b`.
pub uninterp spec fn text_order(a: Seq<char>, b: Seq<char>) -> Ordering;

/// Relies on `str`'s `Ord` impl: it orders texts by their bytes, a function
/// of the two texts alone.
#[verifier::external_body]
fn compare_text(a: &str, b: &str) -> (r: Ordering)
    ensures
        r == text_order(a@, b@),
{
    a.cmp(b)
}

/// Orders the items of `a` against those of `b` lexicographically.
pub fn compare_items<T: Duplicate>(a: &[T], b: &[T]) -> (r: Ordering)
    ensures
        r == items_order::<T>(a.deep_view(), b.deep_view()),
{
    let ghost da = a.deep_view();
    let ghost db = b.deep_view();
    let mut i: usize = 0;
    assert(da.skip(0) =~= da);
    assert(db.skip(0) =~= db);
    loop
        invariant
            0 <= i <= a@.len(),
            i <= b@.len(),
            da == a.deep_view(),
            db == b.deep_view(),
            items_order::<T>(da, db) == items_order::<T>(da.skip(i as int), db.skip(i as int)),
        decreases a@.len() - i,
    {
        let ghost ra = da.skip(i as int);
        let ghost rb = db.skip(i as int);
        if i == a.len() {
            if i == b.len() {
                assert(ra.len() == 0 && rb.len() == 0);
                return Ordering::Equal;
            }
            assert(ra.len() == 0 && rb.len() > 0);
            return Ordering::Less;
        }
        if i == b.len() {
            assert(ra.len() > 0 && rb.len() == 0);
            return Ordering::Greater;
        }
        assert(ra[0] == a@[i as int].deep_view());
        assert(rb[0] == b@[i as int].deep_view());
        assert(ra.len() > 0 && rb.len() > 0);
        let o = a[i].compare_value(&b[i]);
        match o {
            Ordering::Equal => {},
            _ => {
                return o;
            },
        }
        assert(ra.drop_first() =~= da.skip(i + 1));
        assert(rb.drop_first() =~= db.skip(i + 1));
        assert(items_order::<T>(ra, rb) == items_order::<T>(ra.drop_first(), rb.drop_first()));
        i = i + 1;
    }
}

/// Data that can be borrowed, with an owned counterpart that holds the same
/// data and borrows back as `Self`.
pub trait Borrowable: Render {
    /// The owned counterpart: a `Vec` for a slice, a `String` for text.
    type Owned: DeepView<V = Self::V>;

    /// Whether the rendering of this shape is a text literal, which already
    /// stands for a reference and so takes no `&` in front.
    spec fn spec_is_text() -> bool;

    /// Tells whether this shape is text.
    fn is_text() -> (r: bool)
        ensures
            r == Self::spec_is_text(),
    ;

    /// Copies the borrowed data into new owned storage.
    fn clone_owned(&self) -> (r: Self::Owned)
        ensures
            r.deep_view() == self.deep_view(),
    ;

    /// Tells whether `self` and `other` hold the same data.
    fn same_data(&self, other: &Self) -> (r: bool)
        ensures
            r == (self.deep_view() == other.deep_view()),
    ;

    /// How data with the deep views `a` and `b` is ordered.
    spec fn data_order(a: Self::V, b: Self::V) -> Ordering;

    /// Orders `self` against `other`.
    fn compare_data(&self, other: &Self) -> (r: Ordering)
        ensures
            r == Self::data_order(self.deep_view(), other.deep_view()),
    ;

    /// Borrows owned data as `Self`.
    fn borrow_owned(o: &Self::Owned) -> (r: &Self)
        ensures
            r.deep_view() == o.deep_view(),
    ;
}

impl Duplicate for u8 {
    fn duplicate(&self) -> (r: u8) {
        *self
    }

    fn same_value(&self, other: &u8) -> (r: bool) {
        *self == *other
    }

    open spec fn value_order(a: u8, b: u8) -> Ordering {
        number_order(a as int, b as int)
    }

    fn compare_value(&self, other: &u8) -> (r: Ordering) {
        if *self < *other {
            Ordering::Less
        } else if *self == *other {
            Ordering::Equal
        } else {
            Ordering::Greater
        }
    }
}

impl Borrowable for u8 {
    type Owned = u8;

    open spec fn spec_is_text() -> bool {
        false
    }

    fn is_text() -> (r: bool) {
        false
    }

    fn clone_owned(&self) -> (r: u8) {
        *self
    }

    fn same_data(&self, other: &u8) -> (r: bool) {
        *self == *other
    }

    open spec fn data_order(a: u8, b: u8) -> Ordering {
        number_order(a as int, b as int)
    }

    fn compare_data(&self, other: &u8) -> (r: Ordering) {
        self.compare_value(other)
    }

    fn borrow_owned(o: &u8) -> (r: &u8) {
        o
    }
}

impl Duplicate for u16 {
    fn duplicate(&self) -> (r: u16) {
        *self
    }

    fn same_value(&self, other: &u16) -> (r: bool) {
        *self == *other
    }

    open spec fn value_order(a: u16, b: u16) -> Ordering {
        number_order(a as int, b as int)
    }

    fn compare_value(&self, other: &u16) -> (r: Ordering) {
        if *self < *other {
            Ordering::Less
        } else if *self == *other {
            Ordering::Equal
        } else {
            Ordering::Greater
        }
    }
}

impl Borrowable for u16 {
    type Owned = u16;

    open spec fn spec_is_text() -> bool {
        false
    }

    fn is_text() -> (r: bool) {
        false
    }

    fn clone_owned(&self) -> (r: u16) {
        *self
    }

    fn same_data(&self, other: &u16) -> (r: bool) {
        *self == *other
    }

    open spec fn data_order(a: u16, b: u16) -> Ordering {
        number_order(a as int, b as int)
    }

    fn compare_data(&self, other: &u16) -> (r: Ordering) {
        self.compare_value(other)
    }

    fn borrow_owned(o: &u16) -> (r: &u16) {
        o
    }
}

impl Duplicate for u32 {
    fn duplicate(&self) -> (r: u32) {
        *self
    }

    fn same_value(&self, other: &u32) -> (r: bool) {
        *self == *other
    }

    open spec fn value_order(a: u32, b: u32) -> Ordering {
        number_order(a as int, b as int)
    }

    fn compare_value(&self, other: &u32) -> (r: Ordering) {
        if *self < *other {
            Ordering::Less
        } else if *self == *other {
            Ordering::Equal
        } else {
            Ordering::Greater
        }
    }
}

impl Borrowable for u32 {
    type Owned = u32;

    open spec fn spec_is_text() -> bool {
        false
    }

    fn is_text() -> (r: bool) {
        false
    }

    fn clone_owned(&self) -> (r: u32) {
        *self
    }

    fn same_data(&self, other: &u32) -> (r: bool) {
        *self == *other
    }

    open spec fn data_order(a: u32, b: u32) -> Ordering {
        number_order(a as int, b as int)
    }

    fn compare_data(&self, other: &u32) -> (r: Ordering) {
        self.compare_value(other)
    }

    fn borrow_owned(o: &u32) -> (r: &u32) {
        o
    }
}

impl Duplicate for u64 {
    fn duplicate(&self) -> (r: u64) {
        *self
    }

    fn same_value(&self, other: &u64) -> (r: bool) {
        *self == *other
    }

    open spec fn value_order(a: u64, b: u64) -> Ordering {
        number_order(a as int, b as int)
    }

    fn compare_value(&self, other: &u64) -> (r: Ordering) {
        if *self < *other {
            Ordering::Less
        } else if *self == *other {
            Ordering::Equal
        } else {
            Ordering::Greater
        }
    }
}

impl Borrowable for u64 {
    type Owned = u64;

    open spec fn spec_is_text() -> bool {
        false
    }

    fn is_text() -> (r: bool) {
        false
    }

    fn clone_owned(&self) -> (r: u64) {
        *self
    }

    fn same_data(&self, other: &u64) -> (r: bool) {
        *self == *other
    }

    open spec fn data_order(a: u64, b: u64) -> Ordering {
        number_order(a as int, b as int)
    }

    fn compare_data(&self, other: &u64) -> (r: Ordering) {
        self.compare_value(other)
    }

    fn borrow_owned(o: &u64) -> (r: &u64) {
        o
    }
}

impl Duplicate for usize {
    fn duplicate(&self) -> (r: usize) {
        *self
    }

    fn same_value(&self, other: &usize) -> (r: bool) {
        *self == *other
    }

    open spec fn value_order(a: usize, b: usize) -> Ordering {
        number_order(a as int, b as int)
    }

    fn compare_value(&self, other: &usize) -> (r: Ordering) {
        if *self < *other {
            Ordering::Less
        } else if *self == *other {
            Ordering::Equal
        } else {
            Ordering::Greater
        }
    }
}

impl Borrowable for usize {
    type Owned = usize;

    open spec fn spec_is_text() -> bool {
        false
    }

    fn is_text() -> (r: bool) {
        false
    }

    fn clone_owned(&self) -> (r: usize) {
        *self
    }

    fn same_data(&self, other: &usize) -> (r: bool) {
        *self == *other
    }

    open spec fn data_order(a: usize, b: usize) -> Ordering {
        number_order(a as int, b as int)
    }

    fn compare_data(&self, other: &usize) -> (r: Ordering) {
        self.compare_value(other)
    }

    fn borrow_owned(o: &usize) -> (r: &usize) {
        o
    }
}

impl Duplicate for i8 {
    fn duplicate(&self) -> (r: i8) {
        *self
    }

    fn same_value(&self, other: &i8) -> (r: bool) {
        *self == *other
    }

    open spec fn value_order(a: i8, b: i8) -> Ordering {
        number_order(a as int, b as int)
    }

    fn compare_value(&self, other: &i8) -> (r: Ordering) {
        if *self < *other {
            Ordering::Less
        } else if *self == *other {
            Ordering::Equal
        } else {
            Ordering::Greater
        }
    }
}

impl Borrowable for i8 {
    type Owned = i8;

    open spec fn spec_is_text() -> bool {
        false
    }

    fn is_text() -> (r: bool) {
        false
    }

    fn clone_owned(&self) -> (r: i8) {
        *self
    }

    fn same_data(&self, other: &i8) -> (r: bool) {
        *self == *other
    }

    open spec fn data_order(a: i8, b: i8) -> Ordering {
        number_order(a as int, b as int)
    }

    fn compare_data(&self, other: &i8) -> (r: Ordering) {
        self.compare_value(other)
    }

    fn borrow_owned(o: &i8) -> (r: &i8) {
        o
    }
}

impl Duplicate for i16 {
    fn duplicate(&self) -> (r: i16) {
        *self
    }

    fn same_value(&self, other: &i16) -> (r: bool) {
        *self == *other
    }

    open spec fn value_order(a: i16, b: i16) -> Ordering {
        number_order(a as int, b as int)
    }

    fn compare_value(&self, other: &i16) -> (r: Ordering) {
        if *self < *other {
            Ordering::Less
        } else if *self == *other {
            Ordering::Equal
        } else {
            Ordering::Greater
        }
    }
}

impl Borrowable for i16 {
    type Owned = i16;

    open spec fn spec_is_text() -> bool {
        false
    }

    fn is_text() -> (r: bool) {
        false
    }

    fn clone_owned(&self) -> (r: i16) {
        *self
    }

    fn same_data(&self, other: &i16) -> (r: bool) {
        *self == *other
    }

    open spec fn data_order(a: i16, b: i16) -> Ordering {
        number_order(a as int, b as int)
    }

    fn compare_data(&self, other: &i16) -> (r: Ordering) {
        self.compare_value(other)
    }

    fn borrow_owned(o: &i16) -> (r: &i16) {
        o
    }
}

impl Duplicate for i32 {
    fn duplicate(&self) -> (r: i32) {
        *self
    }

    fn same_value(&self, other: &i32) -> (r: bool) {
        *self == *other
    }

    open spec fn value_order(a: i32, b: i32) -> Ordering {
        number_order(a as int, b as int)
    }

    fn compare_value(&self, other: &i32) -> (r: Ordering) {
        if *self < *other {
            Ordering::Less
        } else if *self == *other {
            Ordering::Equal
        } else {
            Ordering::Greater
        }
    }
}

impl Borrowable for i32 {
    type Owned = i32;

    open spec fn spec_is_text() -> bool {
        false
    }

    fn is_text() -> (r: bool) {
        false
    }

    fn clone_owned(&self) -> (r: i32) {
        *self
    }

    fn same_data(&self, other: &i32) -> (r: bool) {
        *self == *other
    }

    open spec fn data_order(a: i32, b: i32) -> Ordering {
        number_order(a as int, b as int)
    }

    fn compare_data(&self, other: &i32) -> (r: Ordering) {
        self.compare_value(other)
    }

    fn borrow_owned(o: &i32) -> (r: &i32) {
        o
    }
}

impl Duplicate for i64 {
    fn duplicate(&self) -> (r: i64) {
        *self
    }

    fn same_value(&self, other: &i64) -> (r: bool) {
        *self == *other
    }

    open spec fn value_order(a: i64, b: i64) -> Ordering {
        number_order(a as int, b as int)
    }

    fn compare_value(&self, other: &i64) -> (r: Ordering) {
        if *self < *other {
            Ordering::Less
        } else if *self == *other {
            Ordering::Equal
        } else {
            Ordering::Greater
        }
    }
}

impl Borrowable for i64 {
    type Owned = i64;

    open spec fn spec_is_text() -> bool {
        false
    }

    fn is_text() -> (r: bool) {
        false
    }

    fn clone_owned(&self) -> (r: i64) {
        *self
    }

    fn same_data(&self, other: &i64) -> (r: bool) {
        *self == *other
    }

    open spec fn data_order(a: i64, b: i64) -> Ordering {
        number_order(a as int, b as int)
    }

    fn compare_data(&self, other: &i64) -> (r: Ordering) {
        self.compare_value(other)
    }

    fn borrow_owned(o: &i64) -> (r: &i64) {
        o
    }
}

impl Duplicate for bool {
    fn duplicate(&self) -> (r: bool) {
        *self
    }

    fn same_value(&self, other: &bool) -> (r: bool) {
        *self == *other
    }

    open spec fn value_order(a: bool, b: bool) -> Ordering {
        bool_order(a, b)
    }

    fn compare_value(&self, other: &bool) -> (r: Ordering) {
        if *self == *other {
            Ordering::Equal
        } else if !*self {
            Ordering::Less
        } else {
            Ordering::Greater
        }
    }
}

impl Borrowable for bool {
    type Owned = bool;

    open spec fn spec_is_text() -> bool {
        false
    }

    fn is_text() -> (r: bool) {
        false
    }

    fn clone_owned(&self) -> (r: bool) {
        *self
    }

    fn same_data(&self, other: &bool) -> (r: bool) {
        *self == *other
    }

    open spec fn data_order(a: bool, b: bool) -> Ordering {
        bool_order(a, b)
    }

    fn compare_data(&self, other: &bool) -> (r: Ordering) {
        self.compare_value(other)
    }

    fn borrow_owned(o: &bool) -> (r: &bool) {
        o
    }
}

impl Duplicate for char {
    fn duplicate(&self) -> (r: char) {
        *self
    }

    fn same_value(&self, other: &char) -> (r: bool) {
        *self == *other
    }

    open spec fn value_order(a: char, b: char) -> Ordering {
        number_order(a as u32 as int, b as u32 as int)
    }

    fn compare_value(&self, other: &char) -> (r: Ordering) {
        let x: u32 = *self as u32;
        let y: u32 = *other as u32;
        if x < y {
            Ordering::Less
        } else if x == y {
            Ordering::Equal
        } else {
            Ordering::Greater
        }
    }
}

impl Borrowable for char {
    type Owned = char;

    open spec fn spec_is_text() -> bool {
        false
    }

    fn is_text() -> (r: bool) {
        false
    }

    fn clone_owned(&self) -> (r: char) {
        *self
    }

    fn same_data(&self, other: &char) -> (r: bool) {
        *self == *other
    }

    open spec fn data_order(a: char, b: char) -> Ordering {
        number_order(a as u32 as int, b as u32 as int)
    }

    fn compare_data(&self, other: &char) -> (r: Ordering) {
        self.compare_value(other)
    }

    fn borrow_owned(o: &char) -> (r: &char) {
        o
    }
}

impl Borrowable for str {
    type Owned = String;

    open spec fn spec_is_text() -> bool {
        true
    }

    fn is_text() -> (r: bool) {
        true
    }

    fn clone_owned(&self) -> (r: String) {
        String::from_str(self)
    }

    fn same_data(&self, other: &str) -> (r: bool) {
        String::from_str(self) == String::from_str(other)
    }

    open spec fn data_order(a: Seq<char>, b: Seq<char>) -> Ordering {
        text_order(a, b)
    }

    fn compare_data(&self, other: &str) -> (r: Ordering) {
        compare_text(self, other)
    }

    fn borrow_owned(o: &String) -> (r: &str) {
        o.as_str()
    }
}

impl Duplicate for String {
    fn duplicate(&self) -> (r: String) {
        self.clone()
    }

    fn same_value(&self, other: &String) -> (r: bool) {
        *self == *other
    }

    open spec fn value_order(a: Seq<char>, b: Seq<char>) -> Ordering {
        text_order(a, b)
    }

    fn compare_value(&self, other: &String) -> (r: Ordering) {
        compare_text(self.as_str(), other.as_str())
    }
}

/// Tells whether the items of `a` and `b` hold the same data, pairwise.
pub fn same_items<T: Duplicate>(a: &[T], b: &[T]) -> (r: bool)
    ensures
        r == (a.deep_view() == b.deep_view()),
{
    if a.len() != b.len() {
        assert(a.deep_view().len() != b.deep_view().len());
        return false;
    }
    let mut i: usize = 0;
    while i < a.len()
        invariant
            0 <= i <= a@.len(),
            a@.len() == b@.len(),
            forall|j: int| 0 <= j < i ==> #[trigger] a@[j].deep_view() == b@[j].deep_view(),
        decreases a@.len() - i,
    {
        if !a[i].same_value(&b[i]) {
            assert(a.deep_view()[i as int] != b.deep_view()[i as int]);
            return false;
        }
        i = i + 1;
    }
    assert(a.deep_view() =~= b.deep_view());
    true
}

/// Copies the items of `s` into a new `Vec`, one `duplicate` each.
pub fn duplicate_items<T: Duplicate>(s: &[T]) -> (r: Vec<T>)
    ensures
        r.deep_view() == s.deep_view(),
{
    let mut r: Vec<T> = Vec::new();
    let mut i: usize = 0;
    while i < s.len()
        invariant
            0 <= i <= s@.len(),
            r@.len() == i,
            forall|j: int| 0 <= j < i ==> #[trigger] r@[j].deep_view() == s@[j].deep_view(),
        decreases s@.len() - i,
    {
        r.push(s[i].duplicate());
        i = i + 1;
    }
    assert(r.deep_view() =~= s.deep_view());
    r
}

/// Relies on `Vec::into_boxed_slice`: the boxed slice holds the items of the
/// vector, in order.
#[verifier::external_body]
pub(crate) fn boxed_slice<T>(v: Vec<T>) -> (r: Box<[T]>)
    ensures
        r@ == v@,
{
    v.into_boxed_slice()
}

impl<T: Duplicate + Render> Borrowable for [T] {
    type Owned = Vec<T>;

    open spec fn spec_is_text() -> bool {
        false
    }

    fn is_text() -> (r: bool) {
        false
    }

    fn clone_owned(&self) -> (r: Vec<T>) {
        duplicate_items(self)
    }

    fn same_data(&self, other: &[T]) -> (r: bool) {
        same_items(self, other)
    }

    open spec fn data_order(a: Seq<T::V>, b: Seq<T::V>) -> Ordering {
        items_order::<T>(a, b)
    }

    fn compare_data(&self, other: &[T]) -> (r: Ordering) {
        compare_items(self, other)
    }

    fn borrow_owned(o: &Vec<T>) -> (r: &[T]) {
        o.as_slice()
    }
}

impl<T: Duplicate + Render> Borrowable for Box<[T]> {
    type Owned = Box<[T]>;

    open spec fn spec_is_text() -> bool {
        false
    }

    fn is_text() -> (r: bool) {
        false
    }

    fn clone_owned(&self) -> (r: Box<[T]>) {
        let items = duplicate_items(&**self);
        boxed_slice(items)
    }

    fn same_data(&self, other: &Box<[T]>) -> (r: bool) {
        same_items(&**self, &**other)
    }

    open spec fn data_order(a: Seq<T::V>, b: Seq<T::V>) -> Ordering {
        items_order::<T>(a, b)
    }

    fn compare_data(&self, other: &Box<[T]>) -> (r: Ordering) {
        compare_items(&**self, &**other)
    }

    fn borrow_owned(o: &Box<[T]>) -> (r: &Box<[T]>) {
        o
    }
}

impl<T: Duplicate> Duplicate for Vec<T> {
    fn duplicate(&self) -> (r: Vec<T>) {
        duplicate_items(self.as_slice())
    }

    fn same_value(&self, other: &Vec<T>) -> (r: bool) {
        same_items(self.as_slice(), other.as_slice())
    }

    open spec fn value_order(a: Seq<T::V>, b: Seq<T::V>) -> Ordering {
        items_order::<T>(a, b)
    }

    fn compare_value(&self, other: &Vec<T>) -> (r: Ordering) {
        compare_items(self.as_slice(), other.as_slice())
    }
}

} // verus!
