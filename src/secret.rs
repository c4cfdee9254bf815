//! A string that is handed out only on explicit request.

use vstd::prelude::*;

verus! {

/// A secret value (a password, an API token). It has no `Debug` and no
/// `Display`, so it cannot end up in a log by accident; `expose_secret` is the
/// one way to read it.
pub struct SecretString {
    value: String,
}

impl View for SecretString {
    type V = Seq<char>;

    closed spec fn view(&self) -> Seq<char> {
        self.value@
    }
}

impl SecretString {
    pub fn new(value: String) -> (r: SecretString)
        ensures
            r@ == value@,
    {
        SecretString { value }
    }

    pub fn expose_secret(&self) -> (r: &String)
        ensures
            r@ == self@,
    {
        &self.value
    }
}

impl Clone for SecretString {
    fn clone(&self) -> (r: SecretString)
        ensures
            r == *self,
    {
        SecretString { value: self.value.clone() }
    }
}

} // verus!
