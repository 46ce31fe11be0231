//! The persisted credential record: one row per service name.

use vstd::prelude::*;

verus! {

use vstd::string::StrSliceExecFns;
use vstd::string::StringExecFns;

/// The mathematical value of a credential row.
pub ghost struct CredView {
    /// The service name the row is keyed by.
    pub service: Seq<char>,
    /// The bearer token presented to the service's API.
    pub access_token: Seq<char>,
    /// The token a refresh exchange spends, if one was ever granted.
    pub refresh_token: Option<Seq<char>>,
    /// Absolute expiry in seconds; absent when no expiry is tracked.
    pub expires_at: Option<i64>,
}

/// One stored credential row. The service name is the primary key: the
/// store holds at most one row per service, and an upsert replaces all the
/// other fields of an existing row.
#[derive(Debug)]
pub struct UserCredentials {
    /// The service name the row is keyed by.
    pub service: String,
    /// The bearer token presented to the service's API.
    pub access_token: String,
    /// The token a refresh exchange spends, if one was ever granted.
    pub refresh_token: Option<String>,
    /// Absolute expiry in seconds; absent when no expiry is tracked.
    pub expires_at: Option<i64>,
}

/// An optional string seen as an optional character sequence.
pub open spec fn view_opt_string(o: Option<String>) -> Option<Seq<char>> {
    match o {
        Some(s) => Some(s@),
        None => None,
    }
}

impl View for UserCredentials {
    type V = CredView;

    open spec fn view(&self) -> CredView {
        CredView {
            service: self.service@,
            access_token: self.access_token@,
            refresh_token: view_opt_string(self.refresh_token),
            expires_at: self.expires_at,
        }
    }
}

impl UserCredentials {
    /// A copy of the row with the same value.
    pub fn duplicate(&self) -> (r: UserCredentials)
        ensures
            r@ == self@,
    {
        UserCredentials {
            service: String::from_str(self.service.as_str()),
            access_token: String::from_str(self.access_token.as_str()),
            refresh_token: match &self.refresh_token {
                Some(s) => Some(String::from_str(s.as_str())),
                None => None,
            },
            expires_at: self.expires_at,
        }
    }
}

/// Whether two string slices hold the same characters.
pub fn str_eq(a: &str, b: &str) -> (r: bool)
    ensures
        r == (a@ == b@),
{
    let alen = a.unicode_len();
    let blen = b.unicode_len();
    if alen != blen {
        return false;
    }
    for i in 0..alen
        invariant
            alen == a@.len(),
            alen == b@.len(),
            forall|j: int| 0 <= j < i ==> a@[j] == b@[j],
    {
        if a.get_char(i) != b.get_char(i) {
            return false;
        }
    }
    proof {
        assert(a@ =~= b@);
    }
    true
}

} // verus!
