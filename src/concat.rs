//! Concatenation of clone-on-write text, with the same lazy copying as
//! mutable access.
use vstd::prelude::*;
use vstd::string::*;

use core::ops::{Add, AddAssign};

use crate::uneval_cow::UnevalCow;

verus! {

impl<'a> UnevalCow<'a, str> {
    /// Appends `rhs`. Empty text takes `rhs` over as a borrow, with no copy;
    /// borrowed non-empty text is copied once into owned storage before
    /// non-empty `rhs` is appended; owned text is appended to in place.
    pub fn append_str(&mut self, rhs: &'a str)
        ensures
            old(self)@.len() == 0 ==> *final(self) == UnevalCow::<'a, str>::Borrowed(rhs),
            old(self)@.len() != 0 && rhs@.len() == 0 ==> *final(self) == *old(self),
            old(self)@.len() != 0 && rhs@.len() != 0 ==> *final(self) is Owned,
            old(self)@.len() != 0 ==> final(self)@ == old(self)@ + rhs@,
    {
        if self.as_borrowed().is_empty() {
            *self = UnevalCow::Borrowed(rhs);
        } else if !rhs.is_empty() {
            if let UnevalCow::Borrowed(lhs) = *self {
                *self = UnevalCow::Owned(String::from_str(lhs));
            }
            self.to_mut().append(rhs);
        } else {
            assert(rhs@ =~= Seq::<char>::empty());
            assert(self@ + rhs@ =~= self@);
        }
    }

    /// Appends the text of `rhs`. Empty text takes `rhs` over as it is, with
    /// no copy; otherwise as [`UnevalCow::append_str`].
    pub fn append_cow(&mut self, rhs: UnevalCow<'a, str>)
        ensures
            old(self)@.len() == 0 ==> *final(self) == rhs,
            old(self)@.len() != 0 && rhs@.len() == 0 ==> *final(self) == *old(self),
            old(self)@.len() != 0 && rhs@.len() != 0 ==> *final(self) is Owned,
            old(self)@.len() != 0 ==> final(self)@ == old(self)@ + rhs@,
    {
        if self.as_borrowed().is_empty() {
            *self = rhs;
        } else if !rhs.as_borrowed().is_empty() {
            if let UnevalCow::Borrowed(lhs) = *self {
                *self = UnevalCow::Owned(String::from_str(lhs));
            }
            self.to_mut().append(rhs.as_borrowed());
        } else {
            assert(rhs@ =~= Seq::<char>::empty());
            assert(self@ + rhs@ =~= self@);
        }
    }
}

impl<'a> AddAssign<&'a str> for UnevalCow<'a, str> {
    fn add_assign(&mut self, rhs: &'a str)
        ensures
            old(self)@.len() == 0 ==> *final(self) == UnevalCow::<'a, str>::Borrowed(rhs),
            old(self)@.len() != 0 && rhs@.len() == 0 ==> *final(self) == *old(self),
            old(self)@.len() != 0 && rhs@.len() != 0 ==> *final(self) is Owned,
            old(self)@.len() != 0 ==> final(self)@ == old(self)@ + rhs@,
    {
        self.append_str(rhs)
    }
}

impl<'a> AddAssign<UnevalCow<'a, str>> for UnevalCow<'a, str> {
    fn add_assign(&mut self, rhs: UnevalCow<'a, str>)
        ensures
            old(self)@.len() == 0 ==> *final(self) == rhs,
            old(self)@.len() != 0 && rhs@.len() == 0 ==> *final(self) == *old(self),
            old(self)@.len() != 0 && rhs@.len() != 0 ==> *final(self) is Owned,
            old(self)@.len() != 0 ==> final(self)@ == old(self)@ + rhs@,
    {
        self.append_cow(rhs)
    }
}

impl<'a> Add<&'a str> for UnevalCow<'a, str> {
    type Output = UnevalCow<'a, str>;

    fn add(self, rhs: &'a str) -> (r: UnevalCow<'a, str>)
        ensures
            self@.len() == 0 ==> r == UnevalCow::<'a, str>::Borrowed(rhs),
            self@.len() != 0 && rhs@.len() == 0 ==> r == self,
            self@.len() != 0 && rhs@.len() != 0 ==> r is Owned,
            self@.len() != 0 ==> r@ == self@ + rhs@,
    {
        let mut r = self;
        r.append_str(rhs);
        r
    }
}

impl<'a> Add<UnevalCow<'a, str>> for UnevalCow<'a, str> {
    type Output = UnevalCow<'a, str>;

    fn add(self, rhs: UnevalCow<'a, str>) -> (r: UnevalCow<'a, str>)
        ensures
            self@.len() == 0 ==> r == rhs,
            self@.len() != 0 && rhs@.len() == 0 ==> r == self,
            self@.len() != 0 && rhs@.len() != 0 ==> r is Owned,
            self@.len() != 0 ==> r@ == self@ + rhs@,
    {
        let mut r = self;
        r.append_cow(rhs);
        r
    }
}

impl<'a> vstd::std_specs::ops::AddSpecImpl<&'a str> for UnevalCow<'a, str> {
    open spec fn obeys_add_spec() -> bool {
        false
    }

    open spec fn add_req(self, rhs: &'a str) -> bool {
        true
    }

    open spec fn add_spec(self, rhs: &'a str) -> UnevalCow<'a, str> {
        arbitrary()
    }
}

impl<'a> vstd::std_specs::ops::AddSpecImpl<UnevalCow<'a, str>> for UnevalCow<'a, str> {
    open spec fn obeys_add_spec() -> bool {
        false
    }

    open spec fn add_req(self, rhs: UnevalCow<'a, str>) -> bool {
        true
    }

    open spec fn add_spec(self, rhs: UnevalCow<'a, str>) -> UnevalCow<'a, str> {
        arbitrary()
    }
}

} // verus!
