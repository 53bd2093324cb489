//! Identities of the parties to a lease.

use vstd::prelude::*;
use vstd::std_specs::cmp::PartialEqSpecImpl;

verus! {

/// The identity of a party, held as the text of its key.
///
/// Two identities are the same party exactly when their keys are the same
/// text. The model of an identity is that text.
#[derive(Debug)]
pub struct Identity {
    key: String,
}

impl View for Identity {
    type V = Seq<char>;

    closed spec fn view(&self) -> Seq<char> {
        self.key@
    }
}

impl Identity {
    /// The identity with the given key.
    pub fn new(key: String) -> (id: Identity)
        ensures
            id@ == key@,
    {
        Identity { key }
    }

    /// The key of this identity.
    pub fn key(&self) -> (key: &String)
        ensures
            key@ == self@,
    {
        &self.key
    }
}

impl Clone for Identity {
    fn clone(&self) -> (copy: Identity)
        ensures
            copy@ == self@,
    {
        Identity { key: self.key.clone() }
    }
}

impl PartialEq for Identity {
    fn eq(&self, other: &Identity) -> (same: bool) {
        self.key == other.key
    }
}

impl PartialEqSpecImpl for Identity {
    open spec fn obeys_eq_spec() -> bool {
        true
    }

    open spec fn eq_spec(&self, other: &Identity) -> bool {
        self@ == other@
    }
}

} // verus!
