//! The token record that is kept between runs.

use vstd::prelude::*;

verus! {

/// The tokens that the bank issued, with their lifetimes in seconds.
#[derive(Clone, Debug, PartialEq, Eq)]
pub struct TokenData {
    pub access_token: String,
    pub expires_in: u64,
    pub refresh_token_expires_in: u64,
    pub refresh_token_absolute_expires_in: u64,
    pub token_type: String,
    pub refresh_token: String,
}

impl TokenData {
    /// A copy of the record.
    pub fn duplicate(&self) -> (copy: TokenData)
        ensures
            copy == *self,
    {
        TokenData {
            access_token: self.access_token.clone(),
            expires_in: self.expires_in,
            refresh_token_expires_in: self.refresh_token_expires_in,
            refresh_token_absolute_expires_in: self.refresh_token_absolute_expires_in,
            token_type: self.token_type.clone(),
            refresh_token: self.refresh_token.clone(),
        }
    }
}

} // verus!
