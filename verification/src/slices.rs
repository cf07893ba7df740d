//! Borrowed slice wrappers handed across the host boundary.
//!
//! Arguments that carry text or bytes are passed to the host as views into
//! memory that stays valid only for the duration of the call; the borrow
//! carried by these types expresses exactly that.

use vstd::prelude::*;

verus! {

/// A borrowed run of bytes, valid only for the duration of the call it is
/// passed to.
#[derive(Copy, Clone)]
pub struct BytesSlice<'a> {
    bytes: &'a [u8],
}

impl<'a> View for BytesSlice<'a> {
    type V = Seq<u8>;

    closed spec fn view(&self) -> Seq<u8> {
        self.bytes@
    }
}

impl<'a> BytesSlice<'a> {
    pub fn from_slice(slice: &'a [u8]) -> (r: BytesSlice<'a>)
        ensures
            r@ == slice@,
    {
        BytesSlice { bytes: slice }
    }

    pub fn as_slice(&self) -> (r: &'a [u8])
        ensures
            r@ == self@,
    {
        self.bytes
    }
}

/// A borrowed run of well-formed UTF-8 text, valid only for the duration of
/// the call it is passed to.
#[derive(Copy, Clone)]
pub struct Utf8Slice<'a> {
    text: &'a str,
}

impl<'a> View for Utf8Slice<'a> {
    type V = Seq<char>;

    closed spec fn view(&self) -> Seq<char> {
        self.text@
    }
}

impl<'a> Utf8Slice<'a> {
    pub fn from_str(s: &'a str) -> (r: Utf8Slice<'a>)
        ensures
            r@ == s@,
    {
        Utf8Slice { text: s }
    }

    pub fn as_str(&self) -> (r: &'a str)
        ensures
            r@ == self@,
    {
        self.text
    }
}

} // verus!
