//! Authenticator: verifies a request's bearer credential against the
//! process-configured shared secret. A pure comparison, run before any
//! validation or publishing.

use vstd::prelude::*;
use vstd::string::StringExecFns;

verus! {

/// Why authentication failed. Both variants map to an unauthorized response;
/// they are distinguished internally so each can be observed on its own.
#[derive(Clone, Copy, Debug, PartialEq, Eq, Structural)]
pub enum AuthError {
    /// The request carried no Authorization header.
    Missing,
    /// The header was present but did not equal the expected bearer string.
    Mismatch,
}

/// The header value of an incoming request, as a sequence of characters, or
/// `None` where the request carried no such header.
pub open spec fn header_view(header: Option<&str>) -> Option<Seq<char>> {
    match header {
        Some(h) => Some(h@),
        None => None,
    }
}

/// The exact credential string a request must present: the literal
/// `"Bearer "` followed by the shared secret, case-sensitive, untrimmed.
pub open spec fn expected_bearer(secret: Seq<char>) -> Seq<char> {
    "Bearer "@ + secret
}

/// Authentication succeeds exactly when the header is present and equals the
/// expected bearer string; an absent header is `Missing`, any other value is
/// `Mismatch`.
pub open spec fn spec_authenticate(header: Option<Seq<char>>, secret: Seq<char>) -> Result<
    (),
    AuthError,
> {
    match header {
        None => Err(AuthError::Missing),
        Some(h) => if h == expected_bearer(secret) {
            Ok(())
        } else {
            Err(AuthError::Mismatch)
        },
    }
}

/// Verifies the Authorization header value against the shared secret.
pub fn authenticate(header: Option<&str>, secret: &str) -> (r: Result<(), AuthError>)
    ensures
        r == spec_authenticate(header_view(header), secret@),
{
    match header {
        None => Err(AuthError::Missing),
        Some(h) => {
            let mut expected = String::from_str("Bearer ");
            expected.append(secret);
            if h.to_owned() == expected {
                Ok(())
            } else {
                Err(AuthError::Mismatch)
            }
        },
    }
}

} // verus!
