//! The network the dryer joins: its name, its password, and how the access
//! point is picked out of a scan.

use vstd::prelude::*;

verus! {

/// The name and the password of the network.
pub struct Credentials {
    ssid: String,
    password: String,
}

/// Credentials as plain values.
pub struct CredentialsView {
    pub ssid: Seq<char>,
    pub password: Seq<char>,
}

impl View for Credentials {
    type V = CredentialsView;

    closed spec fn view(&self) -> CredentialsView {
        CredentialsView { ssid: self.ssid@, password: self.password@ }
    }
}

/// Whether `found` is where the first of `names` that equals `wanted`
/// stands; `None` where none of them does.
pub open spec fn first_match(names: Seq<Seq<char>>, wanted: Seq<char>, found: Option<usize>) -> bool {
    match found {
        Some(at) => {
            &&& at < names.len()
            &&& names[at as int] == wanted
            &&& forall|i: int| 0 <= i < at ==> names[i] != wanted
        },
        None => forall|i: int| 0 <= i < names.len() ==> names[i] != wanted,
    }
}

impl Credentials {
    pub fn new(ssid: String, password: String) -> (credentials: Credentials)
        ensures
            credentials@ == (CredentialsView { ssid: ssid@, password: password@ }),
    {
        Credentials { ssid, password }
    }

    pub fn ssid(&self) -> (ssid: &str)
        ensures
            ssid@ == self@.ssid,
    {
        self.ssid.as_str()
    }

    pub fn password(&self) -> (password: &str)
        ensures
            password@ == self@.password,
    {
        self.password.as_str()
    }

    /// Whether the network is joined without authentication: it is where no
    /// password is set.
    pub fn is_open(&self) -> (open: bool)
        ensures
            open == (self@.password.len() == 0),
    {
        self.password.as_str().is_empty()
    }

    /// Picks the access point of this network out of the names that a scan
    /// found: the first that bears the network's name.
    pub fn access_point(&self, names: &Vec<String>) -> (found: Option<usize>)
        ensures
            first_match(names.deep_view(), self@.ssid, found),
    {
        let mut at: usize = 0;
        while at < names.len()
            invariant
                at <= names.len(),
                forall|i: int| 0 <= i < at ==> names.deep_view()[i] != self@.ssid,
            decreases names.len() - at,
        {
            if names[at] == self.ssid {
                assert(names.deep_view()[at as int] == names[at as int]@);
                return Some(at);
            }
            assert(names.deep_view()[at as int] == names[at as int]@);
            at = at + 1;
        }
        None
    }
}

} // verus!
