use vstd::prelude::*;
use vstd::utf8::{decode_utf8, valid_utf8};
use smol_str::SmolStr;

verus! {

#[verifier::external_type_specification]
#[verifier::external_body]
pub struct ExSmolStr(SmolStr);

/// The characters a `SmolStr` holds.
pub uninterp spec fn smol_chars(s: SmolStr) -> Seq<char>;

/// Relies on `str::from_utf8`: it succeeds exactly on well-formed UTF-8
/// input, and the resulting string slice holds the decoded scalar values.
#[verifier::external_body]
pub(crate) fn utf8_to_str(v: &Vec<u8>) -> (r: Option<&str>)
    ensures
        r is Some <==> valid_utf8(v@),
        r matches Some(s) ==> s@ == decode_utf8(v@),
{
    std::str::from_utf8(v).ok()
}

/// Relies on `smol_str::SmolStr::from`: the new string holds exactly the
/// characters of its argument, in independently owned storage.
#[verifier::external_body]
pub(crate) fn smol_from_str(s: &str) -> (r: SmolStr)
    ensures
        smol_chars(r) == s@,
{
    SmolStr::from(s)
}

} // verus!
