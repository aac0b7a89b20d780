//! Text and byte strings of bounded length, held inline in the containers
//! of the `heapless` crate.

use vstd::prelude::*;
use vstd::string::StringSliceAdditionalSpecFns;

verus! {

/// Number of bytes that an `InlineText` has room for.
pub const INLINE_TEXT_CAPACITY: usize = 64;

/// Number of bytes that an `InlineBytes` has room for.
pub const INLINE_BYTES_CAPACITY: usize = 31;

/// UTF-8 text of at most 64 bytes, held in a `heapless::String<64>`.
#[verifier::external_body]
pub struct InlineText {
    text: heapless::String<64>,
}

/// The bytes of the text that an `InlineText` holds.
pub uninterp spec fn inline_text(text: InlineText) -> Seq<u8>;

/// Calls `heapless::String::new`, which makes an empty string.
#[verifier::external_body]
fn text_new() -> (r: InlineText)
    ensures
        inline_text(r) == Seq::<u8>::empty(),
{
    InlineText { text: heapless::String::new() }
}

/// Calls `heapless::String::clear`, which removes all text and does not
/// panic.
#[verifier::external_body]
fn text_clear(text: &mut InlineText)
    ensures
        inline_text(*final(text)) == Seq::<u8>::empty(),
    no_unwind
{
    text.text.clear()
}

/// Calls `heapless::String::push_str`, which appends the bytes of `more`
/// where the string has room for all of them, and otherwise changes nothing
/// and reports an error; it does not panic. Returns whether the text was
/// appended.
#[verifier::external_body]
fn text_push_str(text: &mut InlineText, more: &str) -> (r: bool)
    ensures
        r == (inline_text(*old(text)).len() + more.spec_bytes().len() <= 64),
        r ==> inline_text(*final(text)) == inline_text(*old(text)) + more.spec_bytes(),
        !r ==> inline_text(*final(text)) == inline_text(*old(text)),
    no_unwind
{
    text.text.push_str(more).is_ok()
}

/// Calls `heapless::String::as_str`, which gives the text that the string
/// holds: at most the 64 bytes that it has room for.
#[verifier::external_body]
fn text_as_str(text: &InlineText) -> (r: &str)
    ensures
        r.spec_bytes() == inline_text(*text),
        r.spec_bytes().len() <= 64,
{
    text.text.as_str()
}

/// Calls the `clone` of `heapless::String`, which gives a string with the
/// same text.
#[verifier::external_body]
fn text_clone(text: &InlineText) -> (r: InlineText)
    ensures
        inline_text(r) == inline_text(*text),
{
    InlineText { text: text.text.clone() }
}

/// UTF-8 text of at most `N` bytes, and of at most 64.
pub struct BoundedText<const N: usize> {
    text: InlineText,
}

impl<const N: usize> View for BoundedText<N> {
    type V = Seq<u8>;

    /// The bytes of the text.
    closed spec fn view(&self) -> Seq<u8> {
        inline_text(self.text)
    }
}

/// Whether text of `len` bytes fits a `BoundedText<N>`.
pub open spec fn text_fits(len: int, limit: int) -> bool {
    len <= limit && len <= INLINE_TEXT_CAPACITY
}

impl<const N: usize> BoundedText<N> {
    /// The text has at most `N` bytes.
    #[verifier::type_invariant]
    spec fn bounded(&self) -> bool {
        inline_text(self.text).len() <= N
    }

    /// The empty text.
    pub fn new() -> (r: Self)
        ensures
            r@ == Seq::<u8>::empty(),
    {
        BoundedText { text: text_new() }
    }

    /// The text `text`, or `None` where it does not fit.
    pub fn try_from_str(text: &str) -> (r: Option<Self>)
        ensures
            r is Some == text_fits(text.spec_bytes().len() as int, N as int),
            r matches Some(t) ==> t@ == text.spec_bytes(),
    {
        let mut made = Self::new();
        if made.assign(text) {
            Some(made)
        } else {
            None
        }
    }

    /// Replaces the text by `text` where that fits, and by the empty text
    /// where it does not. Returns whether it fitted.
    pub fn assign(&mut self, text: &str) -> (r: bool)
        ensures
            r == text_fits(text.spec_bytes().len() as int, N as int),
            final(self)@ == if r {
                text.spec_bytes()
            } else {
                Seq::<u8>::empty()
            },
    {
        text_clear(&mut self.text);
        if text.len() > N {
            return false;
        }
        let fitted = text_push_str(&mut self.text, text);
        proof {
            assert(Seq::<u8>::empty() + text.spec_bytes() =~= text.spec_bytes());
        }
        fitted
    }

    /// Removes all text.
    pub fn clear(&mut self)
        ensures
            final(self)@ == Seq::<u8>::empty(),
    {
        text_clear(&mut self.text);
    }

    /// The text.
    pub fn as_str(&self) -> (r: &str)
        ensures
            r.spec_bytes() == self@,
            self@.len() <= INLINE_TEXT_CAPACITY,
            self@.len() <= N,
    {
        proof {
            use_type_invariant(self);
        }
        text_as_str(&self.text)
    }

    /// Number of bytes of the text.
    pub fn len(&self) -> (r: usize)
        ensures
            r == self@.len(),
    {
        self.as_str().len()
    }
}

impl<const N: usize> Clone for BoundedText<N> {
    fn clone(&self) -> (r: Self)
        ensures
            r@ == self@,
    {
        proof {
            use_type_invariant(self);
        }
        BoundedText { text: text_clone(&self.text) }
    }
}

/// A byte string of at most 31 bytes, held in a `heapless::Vec<u8, 31>`.
#[verifier::external_body]
pub struct InlineBytes {
    bytes: heapless::Vec<u8, 31>,
}

/// The bytes that an `InlineBytes` holds.
pub uninterp spec fn inline_bytes(bytes: InlineBytes) -> Seq<u8>;

/// Calls `heapless::Vec::new`, which makes an empty vector.
#[verifier::external_body]
fn bytes_new() -> (r: InlineBytes)
    ensures
        inline_bytes(r) == Seq::<u8>::empty(),
{
    InlineBytes { bytes: heapless::Vec::new() }
}

/// Calls `heapless::Vec::clear`, which removes all elements.
#[verifier::external_body]
fn bytes_clear(bytes: &mut InlineBytes)
    ensures
        inline_bytes(*final(bytes)) == Seq::<u8>::empty(),
{
    bytes.bytes.clear()
}

/// Calls `heapless::Vec::extend_from_slice`, which appends the elements of
/// `more` in order where the vector has room for all of them, and otherwise
/// changes nothing and reports an error. Returns whether they were
/// appended.
#[verifier::external_body]
fn bytes_extend_from_slice(bytes: &mut InlineBytes, more: &[u8]) -> (r: bool)
    ensures
        r == (inline_bytes(*old(bytes)).len() + more@.len() <= 31),
        r ==> inline_bytes(*final(bytes)) == inline_bytes(*old(bytes)) + more@,
        !r ==> inline_bytes(*final(bytes)) == inline_bytes(*old(bytes)),
{
    bytes.bytes.extend_from_slice(more).is_ok()
}

/// Calls `heapless::Vec::as_slice`, which gives the elements that the
/// vector holds.
#[verifier::external_body]
fn bytes_as_slice(bytes: &InlineBytes) -> (r: &[u8])
    ensures
        r@ == inline_bytes(*bytes),
{
    bytes.bytes.as_slice()
}

/// Calls the `clone` of `heapless::Vec`, which gives a vector with the same
/// elements.
#[verifier::external_body]
fn bytes_clone(bytes: &InlineBytes) -> (r: InlineBytes)
    ensures
        inline_bytes(r) == inline_bytes(*bytes),
{
    InlineBytes { bytes: bytes.bytes.clone() }
}

impl View for InlineBytes {
    type V = Seq<u8>;

    /// The bytes.
    open spec fn view(&self) -> Seq<u8> {
        inline_bytes(*self)
    }
}

impl InlineBytes {
    /// The empty byte string.
    pub fn new() -> (r: Self)
        ensures
            r@ == Seq::<u8>::empty(),
    {
        bytes_new()
    }

    /// Replaces the bytes by `data` where that fits 31 bytes, and by
    /// nothing where it does not. Returns whether it fitted.
    pub fn assign(&mut self, data: &[u8]) -> (r: bool)
        ensures
            r == (data@.len() <= INLINE_BYTES_CAPACITY),
            final(self)@ == if r {
                data@
            } else {
                Seq::<u8>::empty()
            },
    {
        bytes_clear(self);
        let fitted = bytes_extend_from_slice(self, data);
        proof {
            assert(Seq::<u8>::empty() + data@ =~= data@);
        }
        fitted
    }

    /// Removes all bytes.
    pub fn clear(&mut self)
        ensures
            final(self)@ == Seq::<u8>::empty(),
    {
        bytes_clear(self);
    }

    /// The bytes.
    pub fn as_slice(&self) -> (r: &[u8])
        ensures
            r@ == self@,
    {
        bytes_as_slice(self)
    }
}

impl Clone for InlineBytes {
    fn clone(&self) -> (r: Self)
        ensures
            r@ == self@,
    {
        bytes_clone(self)
    }
}

} // verus!
