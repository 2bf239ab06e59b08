use crate::error::Error;
use vstd::prelude::*;

verus! {

/// First byte (`_`) of a method name that callers may not invoke.
pub const PRIVATE_METHOD_PREFIX: u8 = 95;

/// What UTF-8 decoding makes of `b`: `None` where `b` is not valid UTF-8.
pub uninterp spec fn utf8_decoded(b: Seq<u8>) -> Option<Seq<char>>;

/// Whether `name` is the name of a private method.
pub open spec fn is_private_name(name: Seq<u8>) -> bool {
    name.len() > 0 && name[0] == PRIVATE_METHOD_PREFIX
}

/// Relies on `std::str::from_utf8`: `Ok` exactly for valid UTF-8, holding the decoded text.
#[verifier::external_body]
fn decode_utf8(b: &[u8]) -> (r: Option<String>)
    ensures
        r is Some <==> utf8_decoded(b@) is Some,
        r matches Some(s) ==> utf8_decoded(b@) == Some(s@),
{
    match std::str::from_utf8(b) {
        Ok(s) => Some(s.to_owned()),
        Err(_) => None,
    }
}

/// Decides on a method name, given what UTF-8 decoding made of it.
///
/// An empty name is refused first, then a private one, then one that did not
/// decode; otherwise the decoded name comes back.
pub fn classify_method_name(name: &[u8], decoded: Option<String>) -> (r: Result<String, Error>)
    ensures
        name@.len() == 0 ==> r matches Err(Error::EmptyMethodName),
        is_private_name(name@) ==> r matches Err(Error::PrivateMethod),
        name@.len() > 0 && !is_private_name(name@) && decoded is None ==> r matches Err(
            Error::BadUtf8,
        ),
        name@.len() > 0 && !is_private_name(name@) && decoded is Some ==> (r matches Ok(
            s) && s@ == decoded->0@),
{
    if name.len() == 0 {
        return Err(Error::EmptyMethodName);
    }
    if name[0] == PRIVATE_METHOD_PREFIX {
        return Err(Error::PrivateMethod);
    }
    match decoded {
        Some(s) => Ok(s),
        None => Err(Error::BadUtf8),
    }
}

/// Checks that `name` may be invoked, and decodes it.
pub fn check_method_name(name: &[u8]) -> (r: Result<String, Error>)
    ensures
        name@.len() == 0 ==> r matches Err(Error::EmptyMethodName),
        is_private_name(name@) ==> r matches Err(Error::PrivateMethod),
        name@.len() > 0 && !is_private_name(name@) && utf8_decoded(name@) is None ==> r matches Err(
            Error::BadUtf8,
        ),
        name@.len() > 0 && !is_private_name(name@) && utf8_decoded(name@) is Some ==> (r matches Ok(
            s) && utf8_decoded(name@) == Some(s@)),
{
    classify_method_name(name, decode_utf8(name))
}

} // verus!
