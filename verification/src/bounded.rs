//! Texts of fixed capacity, which need no heap. They are kept in `heapless` strings.
use vstd::prelude::*;

verus! {

/// How many bytes a [`CellText`] has room for.
pub const CELL_CAPACITY: usize = 24;

/// How many bytes a [`LengthText`] has room for.
pub const LENGTH_CAPACITY: usize = 10;

/// One coloured cell of the distance picture: a `heapless::String` of 24 bytes.
#[verifier::external_body]
pub struct CellText {
    inner: heapless::String<CELL_CAPACITY>,
}

/// The characters that a [`CellText`] holds.
pub uninterp spec fn cell_text(cell: CellText) -> Seq<char>;

impl CellText {
    /// `heapless::String::new`: the string holds nothing.
    #[verifier::external_body]
    pub(crate) fn new() -> (cell: CellText)
        ensures
            cell_text(cell) == Seq::<char>::empty(),
    {
        CellText { inner: heapless::String::new() }
    }

    /// `heapless::String::push_str`: appends `string` and returns true if the bytes of both fit
    /// into the capacity, and otherwise changes nothing and returns false.
    #[verifier::external_body]
    pub(crate) fn push_str(&mut self, string: &str) -> (fits: bool)
        ensures
            fits == (vstd::utf8::encode_utf8(cell_text(*old(self))).len()
                + vstd::utf8::encode_utf8(string@).len() <= CELL_CAPACITY),
            cell_text(*final(self)) == if fits {
                cell_text(*old(self)) + string@
            } else {
                cell_text(*old(self))
            },
    {
        self.inner.push_str(string).is_ok()
    }

    /// `heapless::String::as_str`: the characters that the string holds.
    #[verifier::external_body]
    fn held(&self) -> (s: &str)
        ensures
            s@ == cell_text(*self),
    {
        self.inner.as_str()
    }

    /// The characters as a string slice.
    pub fn as_str(&self) -> (s: &str)
        ensures
            s@ == cell_text(*self),
    {
        self.held()
    }
}

/// The value of a `Content-Length` header: a `heapless::String` of 10 bytes.
#[verifier::external_body]
pub struct LengthText {
    inner: heapless::String<LENGTH_CAPACITY>,
}

/// The characters that a [`LengthText`] holds.
pub uninterp spec fn length_text(text: LengthText) -> Seq<char>;

impl LengthText {
    /// `heapless::String::new`: the string holds nothing.
    #[verifier::external_body]
    pub(crate) fn new() -> (text: LengthText)
        ensures
            length_text(text) == Seq::<char>::empty(),
    {
        LengthText { inner: heapless::String::new() }
    }

    /// `heapless::String::push_str`: appends `string` and returns true if the bytes of both fit
    /// into the capacity, and otherwise changes nothing and returns false.
    #[verifier::external_body]
    pub(crate) fn push_str(&mut self, string: &str) -> (fits: bool)
        ensures
            fits == (vstd::utf8::encode_utf8(length_text(*old(self))).len()
                + vstd::utf8::encode_utf8(string@).len() <= LENGTH_CAPACITY),
            length_text(*final(self)) == if fits {
                length_text(*old(self)) + string@
            } else {
                length_text(*old(self))
            },
    {
        self.inner.push_str(string).is_ok()
    }

    /// `heapless::String::as_str`: the characters that the string holds.
    #[verifier::external_body]
    fn held(&self) -> (s: &str)
        ensures
            s@ == length_text(*self),
    {
        self.inner.as_str()
    }

    /// The characters as a string slice.
    pub fn as_str(&self) -> (s: &str)
        ensures
            s@ == length_text(*self),
    {
        self.held()
    }
}

/// A text of ASCII characters takes one byte for each of them.
pub proof fn lemma_ascii_len(s: Seq<char>)
    requires
        vstd::utf8::is_ascii_chars(s),
    ensures
        vstd::utf8::encode_utf8(s).len() == s.len(),
{
    vstd::utf8::is_ascii_chars_encode_utf8(s);
}

} // verus!
