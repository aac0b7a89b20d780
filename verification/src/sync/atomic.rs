//! The atomic words of the `portable_atomic` crate, as the lock-free
//! structures use them.
//!
//! A word is shared between tasks, interrupt handlers and cores, so nothing
//! is known of what a load returns. What is known is how an update relates
//! to the function that computed it.

use vstd::prelude::*;
use core::sync::atomic::Ordering;

verus! {

/// Declares `portable_atomic::AtomicBool`, a flag that contexts share. Nothing is
/// known of what it holds.
#[verifier::external_type_specification]
#[verifier::external_body]
pub struct ExAtomicBool(portable_atomic::AtomicBool);

/// Declares `portable_atomic::AtomicU8`, a word of 8 bits that contexts share. Nothing is
/// known of what it holds.
#[verifier::external_type_specification]
#[verifier::external_body]
pub struct ExAtomicU8(portable_atomic::AtomicU8);

/// Declares `portable_atomic::AtomicU64`, a word of 64 bits that contexts share. Nothing is
/// known of what it holds.
#[verifier::external_type_specification]
#[verifier::external_body]
pub struct ExAtomicU64(portable_atomic::AtomicU64);

/// Declares `portable_atomic::AtomicUsize`, a word of the machine's size that contexts share. Nothing is
/// known of what it holds.
#[verifier::external_type_specification]
#[verifier::external_body]
pub struct ExAtomicUsize(portable_atomic::AtomicUsize);

/// Calls `portable_atomic::AtomicBool::new`, which makes a flag.
#[verifier::external_body]
pub(crate) fn bool_new(value: bool) -> portable_atomic::AtomicBool {
    portable_atomic::AtomicBool::new(value)
}

/// Calls `portable_atomic::AtomicBool::load` with acquire ordering, which
/// returns the flag as it is at that moment.
#[verifier::external_body]
pub(crate) fn bool_load(flag: &portable_atomic::AtomicBool) -> bool {
    flag.load(Ordering::Acquire)
}

/// Calls `portable_atomic::AtomicBool::store` with release ordering, which
/// sets the flag.
#[verifier::external_body]
pub(crate) fn bool_store(flag: &portable_atomic::AtomicBool, value: bool) {
    flag.store(value, Ordering::Release)
}

/// Calls `portable_atomic::AtomicBool::swap` with acquire and release
/// ordering, which sets the flag and returns what it was.
#[verifier::external_body]
pub(crate) fn bool_swap(flag: &portable_atomic::AtomicBool, value: bool) -> bool {
    flag.swap(value, Ordering::AcqRel)
}

/// Calls `portable_atomic::AtomicU8::new`, which makes a word.
#[verifier::external_body]
pub(crate) fn u8_new(value: u8) -> portable_atomic::AtomicU8 {
    portable_atomic::AtomicU8::new(value)
}

/// Calls `portable_atomic::AtomicU8::load` with acquire ordering, which
/// returns the word as it is at that moment.
#[verifier::external_body]
pub(crate) fn u8_load(word: &portable_atomic::AtomicU8) -> u8 {
    word.load(Ordering::Acquire)
}

/// Calls `portable_atomic::AtomicU8::fetch_update`, which applies `f` to the
/// word, again where another context changed the word in between, and
/// stores what `f` returns. It returns the word that `f` was last applied
/// to: as `Ok` where `f` returned a new word for it, which was stored, and
/// as `Err` where `f` returned `None` for it, and nothing was stored.
#[verifier::external_body]
pub(crate) fn u8_fetch_update<F: Fn(u8) -> Option<u8>>(word: &portable_atomic::AtomicU8, f: F) -> (r:
    Result<u8, u8>)
    requires
        forall|x: u8| call_requires(f, (x,)),
    ensures
        r matches Ok(previous) ==> exists|next: u8| call_ensures(f, (previous,), Some(next)),
        r matches Err(previous) ==> call_ensures(f, (previous,), None::<u8>),
{
    word.fetch_update(Ordering::AcqRel, Ordering::Acquire, f)
}

/// Calls `portable_atomic::AtomicU64::new`, which makes a word.
#[verifier::external_body]
pub(crate) fn u64_new(value: u64) -> portable_atomic::AtomicU64 {
    portable_atomic::AtomicU64::new(value)
}

/// Calls `portable_atomic::AtomicU64::load` with acquire ordering, which
/// returns the word as it is at that moment.
#[verifier::external_body]
pub(crate) fn u64_load(word: &portable_atomic::AtomicU64) -> u64 {
    word.load(Ordering::Acquire)
}

/// Calls `portable_atomic::AtomicU64::store` with release ordering, which
/// sets the word.
#[verifier::external_body]
pub(crate) fn u64_store(word: &portable_atomic::AtomicU64, value: u64) {
    word.store(value, Ordering::Release)
}

/// Calls `portable_atomic::AtomicU64::fetch_add` with acquire and release
/// ordering, which adds `value` to the word, wrapping around, and returns
/// what the word was.
#[verifier::external_body]
pub(crate) fn u64_fetch_add(word: &portable_atomic::AtomicU64, value: u64) -> u64 {
    word.fetch_add(value, Ordering::AcqRel)
}

/// Calls `portable_atomic::AtomicU64::fetch_update`, which applies `f` to
/// the word, again where another context changed the word in between, and
/// stores what `f` returns. It returns the word that `f` was last applied
/// to: as `Ok` where `f` returned a new word for it, which was stored, and
/// as `Err` where `f` returned `None` for it, and nothing was stored.
#[verifier::external_body]
pub(crate) fn u64_fetch_update<F: Fn(u64) -> Option<u64>>(
    word: &portable_atomic::AtomicU64,
    f: F,
) -> (r: Result<u64, u64>)
    requires
        forall|x: u64| call_requires(f, (x,)),
    ensures
        r matches Ok(previous) ==> exists|next: u64| call_ensures(f, (previous,), Some(next)),
        r matches Err(previous) ==> call_ensures(f, (previous,), None::<u64>),
{
    word.fetch_update(Ordering::AcqRel, Ordering::Acquire, f)
}

/// Calls `portable_atomic::AtomicUsize::new`, which makes a word.
#[verifier::external_body]
pub(crate) fn usize_new(value: usize) -> portable_atomic::AtomicUsize {
    portable_atomic::AtomicUsize::new(value)
}

/// Calls `portable_atomic::AtomicUsize::load` with acquire ordering, which
/// returns the word as it is at that moment.
#[verifier::external_body]
pub(crate) fn usize_load(word: &portable_atomic::AtomicUsize) -> usize {
    word.load(Ordering::Acquire)
}

/// Calls `portable_atomic::AtomicUsize::store` with release ordering, which
/// sets the word.
#[verifier::external_body]
pub(crate) fn usize_store(word: &portable_atomic::AtomicUsize, value: usize) {
    word.store(value, Ordering::Release)
}

/// Calls `portable_atomic::AtomicUsize::fetch_update`, which applies `f` to
/// the word, again where another context changed the word in between, and
/// stores what `f` returns. It returns the word that `f` was last applied
/// to: as `Ok` where `f` returned a new word for it, which was stored, and
/// as `Err` where `f` returned `None` for it, and nothing was stored.
#[verifier::external_body]
pub(crate) fn usize_fetch_update<F: Fn(usize) -> Option<usize>>(
    word: &portable_atomic::AtomicUsize,
    f: F,
) -> (r: Result<usize, usize>)
    requires
        forall|x: usize| call_requires(f, (x,)),
    ensures
        r matches Ok(previous) ==> exists|next: usize| call_ensures(f, (previous,), Some(next)),
        r matches Err(previous) ==> call_ensures(f, (previous,), None::<usize>),
{
    word.fetch_update(Ordering::AcqRel, Ordering::Acquire, f)
}

} // verus!
