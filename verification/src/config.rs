//! The credentials that the user configures.

use vstd::prelude::*;

verus! {

/// The application's registration with the bank.
#[derive(Clone, Debug, PartialEq, Eq)]
pub struct AppConfig {
    pub client_id: String,
    pub client_secret: String,
    /// The identifier of the user's bank within the alliance, such as `fid-smn`.
    pub financial_institution: String,
}

} // verus!
