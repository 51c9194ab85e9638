//! The fixed-capacity storage of the `heapless` crate, and the UTF-8 check of the standard
//! library.
//!
//! What is stated here of functions outside this crate is believed, not proved.

use vstd::prelude::*;

use crate::thread::scan::OwnedScanResult;

verus! {

/// The fixed-capacity vector of `heapless`.
#[verifier::external_type_specification]
#[verifier::external_body]
#[verifier::reject_recursive_types(T)]
pub struct ExHeaplessVec<T, const N: usize>(heapless::Vec<T, N>);

/// The fixed-capacity string of `heapless`.
#[verifier::external_type_specification]
#[verifier::external_body]
pub struct ExHeaplessString<const N: usize>(heapless::String<N>);

/// The characters that a string with room for sixteen bytes holds.
pub uninterp spec fn string_chars(s: heapless::String<16>) -> Seq<char>;

/// The scan results that a vector with room for five of them holds, in order.
pub uninterp spec fn scan_items(v: heapless::Vec<OwnedScanResult, 5>) -> Seq<OwnedScanResult>;

/// `heapless::String::try_from`: the string holds the characters of `s`, if their UTF-8 encoding
/// takes at most sixteen bytes. A longer one is refused.
#[verifier::external_body]
pub(crate) fn string_try_from(s: &str) -> (result: Result<heapless::String<16>, ()>)
    ensures
        result is Ok <==> vstd::utf8::encode_utf8(s@).len() <= 16,
        result matches Ok(string) ==> string_chars(string) == s@,
{
    heapless::String::try_from(s)
}

/// `heapless::String::as_str`: a view of the characters that the string holds.
#[verifier::external_body]
pub(crate) fn string_as_str(string: &heapless::String<16>) -> (s: &str)
    ensures
        s@ == string_chars(*string),
{
    string.as_str()
}

/// `heapless::Vec::new`: the vector is empty.
#[verifier::external_body]
pub(crate) fn scan_items_new() -> (v: heapless::Vec<OwnedScanResult, 5>)
    ensures
        scan_items(v) == Seq::<OwnedScanResult>::empty(),
{
    heapless::Vec::new()
}

/// `heapless::Vec::push`: the item is appended, if there are fewer than five yet. Otherwise the
/// vector stays as it is, and the item is handed back.
#[verifier::external_body]
pub(crate) fn scan_items_push(
    v: &mut heapless::Vec<OwnedScanResult, 5>,
    item: OwnedScanResult,
) -> (result: Result<(), OwnedScanResult>)
    ensures
        result is Ok <==> scan_items(*old(v)).len() < 5,
        result is Ok ==> scan_items(*final(v)) == scan_items(*old(v)).push(item),
        result matches Err(refused) ==> refused == item && scan_items(*final(v)) == scan_items(
            *old(v),
        ),
{
    v.push(item)
}

/// `heapless::Vec::as_slice`: a view of the items that the vector holds, in order.
#[verifier::external_body]
pub(crate) fn scan_items_as_slice(v: &heapless::Vec<OwnedScanResult, 5>) -> (items:
    &[OwnedScanResult])
    ensures
        items@ == scan_items(*v),
{
    v.as_slice()
}

/// `core::str::from_utf8`: the string that the bytes encode, if they are valid UTF-8.
#[verifier::external_body]
pub(crate) fn str_from_utf8(bytes: &[u8]) -> (result: Option<&str>)
    ensures
        result is Some <==> vstd::utf8::valid_utf8(bytes@),
        result matches Some(s) ==> vstd::utf8::encode_utf8(s@) == bytes@,
{
    core::str::from_utf8(bytes).ok()
}

} // verus!
