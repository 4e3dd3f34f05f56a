//! Conversions between clone-on-write containers and the standard owning
//! pointers.
use vstd::prelude::*;
use vstd::string::*;

use std::rc::Rc;
use std::sync::Arc;

use crate::render::Render;
use crate::shape::{boxed_slice, Duplicate};
use crate::uneval_cow::UnevalCow;

verus! {

/// Relies on `Box::<str>::from(String)`: the boxed text is the text of the
/// string.
#[verifier::external_body]
fn boxed_str(s: String) -> (r: Box<str>)
    ensures
        r@ == s@,
{
    Box::from(s)
}

/// Relies on `Rc::<[T]>::from(Vec<T>)`, which moves the items into a new
/// reference-counted slice.
#[verifier::external_body]
fn rc_slice<T>(v: Vec<T>) -> (r: Rc<[T]>)
    ensures
        (*r)@ == v@,
{
    Rc::from(v)
}

/// Relies on `Arc::<[T]>::from(Vec<T>)`, which moves the items into a new
/// atomically reference-counted slice.
#[verifier::external_body]
fn arc_slice<T>(v: Vec<T>) -> (r: Arc<[T]>)
    ensures
        (*r)@ == v@,
{
    Arc::from(v)
}

/// Relies on `Rc::<str>::from(String)`, which copies the text into a new
/// reference-counted `str`.
#[verifier::external_body]
fn rc_str(s: String) -> (r: Rc<str>)
    ensures
        (*r)@ == s@,
{
    Rc::from(s)
}

/// Relies on `Arc::<str>::from(String)`, which copies the text into a new
/// atomically reference-counted `str`.
#[verifier::external_body]
fn arc_str(s: String) -> (r: Arc<str>)
    ensures
        (*r)@ == s@,
{
    Arc::from(s)
}

impl<'a, T: Duplicate + Render> UnevalCow<'a, [T]> {
    /// Moves the items into a boxed slice, copying them if they are borrowed.
    pub fn into_boxed_slice(self) -> (r: Box<[T]>)
        ensures
            r.deep_view() == self@,
    {
        let items = self.into_owned();
        boxed_slice(items)
    }
}

impl<'a> UnevalCow<'a, str> {
    /// Moves the text into a boxed `str`, copying it if it is borrowed.
    pub fn into_boxed_str(self) -> (r: Box<str>)
        ensures
            r@ == self@,
    {
        let text = self.into_owned();
        boxed_str(text)
    }
}

impl<'a, T: Duplicate + Render> From<UnevalCow<'a, [T]>> for Box<[T]> {
    fn from(v: UnevalCow<'a, [T]>) -> (r: Box<[T]>)
        ensures
            r.deep_view() == v@,
    {
        v.into_boxed_slice()
    }
}

impl<'a, T: Duplicate + Render> vstd::std_specs::convert::FromSpecImpl<UnevalCow<'a, [T]>> for Box<[T]> {
    open spec fn obeys_from_spec() -> bool {
        false
    }

    open spec fn from_spec(v: UnevalCow<'a, [T]>) -> Box<[T]> {
        arbitrary()
    }
}

impl<'a, T: Duplicate + Render> From<UnevalCow<'a, [T]>> for Rc<[T]> {
    fn from(v: UnevalCow<'a, [T]>) -> (r: Rc<[T]>)
        ensures
            (*r).deep_view() == v@,
    {
        rc_slice(v.into_owned())
    }
}

impl<'a, T: Duplicate + Render> vstd::std_specs::convert::FromSpecImpl<UnevalCow<'a, [T]>> for Rc<[T]> {
    open spec fn obeys_from_spec() -> bool {
        false
    }

    open spec fn from_spec(v: UnevalCow<'a, [T]>) -> Rc<[T]> {
        arbitrary()
    }
}

impl<'a, T: Duplicate + Render> From<UnevalCow<'a, [T]>> for Arc<[T]> {
    fn from(v: UnevalCow<'a, [T]>) -> (r: Arc<[T]>)
        ensures
            (*r).deep_view() == v@,
    {
        arc_slice(v.into_owned())
    }
}

impl<'a, T: Duplicate + Render> vstd::std_specs::convert::FromSpecImpl<UnevalCow<'a, [T]>> for Arc<[T]> {
    open spec fn obeys_from_spec() -> bool {
        false
    }

    open spec fn from_spec(v: UnevalCow<'a, [T]>) -> Arc<[T]> {
        arbitrary()
    }
}

impl<'a> From<UnevalCow<'a, str>> for Box<str> {
    fn from(v: UnevalCow<'a, str>) -> (r: Box<str>)
        ensures
            r@ == v@,
    {
        v.into_boxed_str()
    }
}

impl<'a> vstd::std_specs::convert::FromSpecImpl<UnevalCow<'a, str>> for Box<str> {
    open spec fn obeys_from_spec() -> bool {
        false
    }

    open spec fn from_spec(v: UnevalCow<'a, str>) -> Box<str> {
        arbitrary()
    }
}

impl<'a> From<UnevalCow<'a, str>> for Rc<str> {
    fn from(v: UnevalCow<'a, str>) -> (r: Rc<str>)
        ensures
            (*r)@ == v@,
    {
        rc_str(v.into_owned())
    }
}

impl<'a> vstd::std_specs::convert::FromSpecImpl<UnevalCow<'a, str>> for Rc<str> {
    open spec fn obeys_from_spec() -> bool {
        false
    }

    open spec fn from_spec(v: UnevalCow<'a, str>) -> Rc<str> {
        arbitrary()
    }
}

impl<'a> From<UnevalCow<'a, str>> for Arc<str> {
    fn from(v: UnevalCow<'a, str>) -> (r: Arc<str>)
        ensures
            (*r)@ == v@,
    {
        arc_str(v.into_owned())
    }
}

impl<'a> vstd::std_specs::convert::FromSpecImpl<UnevalCow<'a, str>> for Arc<str> {
    open spec fn obeys_from_spec() -> bool {
        false
    }

    open spec fn from_spec(v: UnevalCow<'a, str>) -> Arc<str> {
        arbitrary()
    }
}

impl<'a, T: Duplicate + Render> From<&'a [T]> for UnevalCow<'a, [T]> {
    fn from(v: &'a [T]) -> UnevalCow<'a, [T]> {
        UnevalCow::Borrowed(v)
    }
}

impl<'a, T: Duplicate + Render> vstd::std_specs::convert::FromSpecImpl<&'a [T]> for UnevalCow<'a, [T]> {
    open spec fn obeys_from_spec() -> bool {
        true
    }

    open spec fn from_spec(v: &'a [T]) -> UnevalCow<'a, [T]> {
        UnevalCow::Borrowed(v)
    }
}

impl<'a, T: Duplicate + Render> From<Vec<T>> for UnevalCow<'a, [T]> {
    fn from(v: Vec<T>) -> UnevalCow<'a, [T]> {
        UnevalCow::Owned(v)
    }
}

impl<'a, T: Duplicate + Render> vstd::std_specs::convert::FromSpecImpl<Vec<T>> for UnevalCow<'a, [T]> {
    open spec fn obeys_from_spec() -> bool {
        true
    }

    open spec fn from_spec(v: Vec<T>) -> UnevalCow<'a, [T]> {
        UnevalCow::Owned(v)
    }
}

impl<'a, T: Duplicate + Render> From<&'a Vec<T>> for UnevalCow<'a, [T]> {
    fn from(v: &'a Vec<T>) -> (r: UnevalCow<'a, [T]>)
        ensures
            r is Borrowed,
            r@ == v.deep_view(),
    {
        UnevalCow::Borrowed(v.as_slice())
    }
}

impl<'a, T: Duplicate + Render> vstd::std_specs::convert::FromSpecImpl<&'a Vec<T>> for UnevalCow<'a, [T]> {
    open spec fn obeys_from_spec() -> bool {
        false
    }

    open spec fn from_spec(v: &'a Vec<T>) -> UnevalCow<'a, [T]> {
        arbitrary()
    }
}

impl<'a> From<&'a str> for UnevalCow<'a, str> {
    fn from(v: &'a str) -> UnevalCow<'a, str> {
        UnevalCow::Borrowed(v)
    }
}

impl<'a> vstd::std_specs::convert::FromSpecImpl<&'a str> for UnevalCow<'a, str> {
    open spec fn obeys_from_spec() -> bool {
        true
    }

    open spec fn from_spec(v: &'a str) -> UnevalCow<'a, str> {
        UnevalCow::Borrowed(v)
    }
}

impl<'a> From<String> for UnevalCow<'a, str> {
    fn from(v: String) -> UnevalCow<'a, str> {
        UnevalCow::Owned(v)
    }
}

impl<'a> vstd::std_specs::convert::FromSpecImpl<String> for UnevalCow<'a, str> {
    open spec fn obeys_from_spec() -> bool {
        true
    }

    open spec fn from_spec(v: String) -> UnevalCow<'a, str> {
        UnevalCow::Owned(v)
    }
}

impl<'a> From<&'a String> for UnevalCow<'a, str> {
    fn from(v: &'a String) -> (r: UnevalCow<'a, str>)
        ensures
            r is Borrowed,
            r@ == v@,
    {
        UnevalCow::Borrowed(v.as_str())
    }
}

impl<'a> vstd::std_specs::convert::FromSpecImpl<&'a String> for UnevalCow<'a, str> {
    open spec fn obeys_from_spec() -> bool {
        false
    }

    open spec fn from_spec(v: &'a String) -> UnevalCow<'a, str> {
        arbitrary()
    }
}

} // verus!
