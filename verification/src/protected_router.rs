//! The handlers behind the guard.

use crate::auth_claim::{claims_text, AuthError, Claims};
use vstd::prelude::*;

verus! {

/// Greets the caller and echoes the claims of its token.
pub fn protected(claims: Claims) -> (r: Result<String, AuthError>)
    ensures
        r matches Ok(text) && text@ == "Welcome to the protected area :)\nYour data:\n"@
            + claims_text(claims@),
{
    let mut text = String::from_str("Welcome to the protected area :)\nYour data:\n");
    text.append(claims.to_text().as_str());
    Ok(text)
}

/// Hands the request body back unchanged.
pub fn protected_norm(claims: Claims, input_text: String) -> (r: Result<String, u16>)
    ensures
        r == Ok::<String, u16>(input_text),
{
    Ok(input_text)
}

} // verus!
