use vstd::prelude::*;
use crate::error::Error;
use crate::id::Id;
use crate::tokeniser::{service_verdict, token_verdict, Claims, Tokeniser};

verus! {

/// The caller's identity, when the verdict on the presented token is `v`.
pub open spec fn caller_of(v: Result<Claims, Error>) -> Result<Option<Id>, Error> {
    match v {
        Ok(c) => Ok(Some(c.sub)),
        Err(e) => Err(e),
    }
}

/// The authenticated identity of a request. With no bearer token the caller
/// is anonymous; with one, given as the claims it reads as and whether its
/// signature checks, the caller is the token's subject, or the request is
/// refused with the token's error.
pub fn authenticate(tokeniser: &Tokeniser, presented: Option<(Option<Claims>, bool)>) -> (r: Result<
    Option<Id>,
    Error,
>)
    ensures
        presented is None ==> r == Ok::<Option<Id>, Error>(None),
        presented matches Some((payload, signature_valid)) ==> exists|now: i64|
            r == #[trigger] caller_of(
                service_verdict(token_verdict(payload, signature_valid, tokeniser.issuer_view(), now)),
            ),
{
    match presented {
        None => Ok(None),
        Some((payload, signature_valid)) => {
            let ghost read = payload;
            let v = tokeniser.verify(payload, signature_valid);
            let ghost now = choose|now: i64|
                v == #[trigger] service_verdict(
                    token_verdict(read, signature_valid, tokeniser.issuer_view(), now),
                );
            let r = match v {
                Ok(c) => Ok(Some(c.sub)),
                Err(e) => Err(e),
            };
            assert(r == caller_of(
                service_verdict(token_verdict(read, signature_valid, tokeniser.issuer_view(), now)),
            ));
            r
        },
    }
}

} // verus!
