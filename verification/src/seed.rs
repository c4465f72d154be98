//! Root seeds and the passwords that unlock them.

use crate::secret::{
    expose_bytes, expose_text, seal_bytes, seal_text, secret_bytes, secret_text, SecretBytes,
    SecretText,
};
use vstd::prelude::*;
use vstd::std_specs::cmp::PartialEqSpecImpl;

verus! {

/// Root Seed
pub struct RootSeed {
    secret: SecretBytes,
}

impl View for RootSeed {
    type V = Seq<u8>;

    closed spec fn view(&self) -> Seq<u8> {
        secret_bytes(self.secret)
    }
}

impl RootSeed {
    /// Builds a new [`RootSeed`] from its `bytes`.
    pub fn new(bytes: Vec<u8>) -> (seed: Self)
        ensures
            seed@ == bytes@,
    {
        Self { secret: seal_bytes(bytes) }
    }

    /// Exposes the bytes of the seed.
    pub fn expose_secret(&self) -> (bytes: &Vec<u8>)
        ensures
            bytes@ == self@,
    {
        expose_bytes(&self.secret)
    }
}

impl Clone for RootSeed {
    fn clone(&self) -> (seed: Self)
        ensures
            seed@ == self@,
    {
        let bytes = self.expose_secret().clone();
        assert(bytes@ =~= self@);
        Self::new(bytes)
    }
}

impl PartialEq for RootSeed {
    /// Compares all bytes of two seeds of equal length, wherever the first difference is.
    fn eq(&self, other: &Self) -> (same: bool) {
        let ours = self.expose_secret();
        let theirs = other.expose_secret();
        if ours.len() != theirs.len() {
            return false;
        }
        let mut same = true;
        let mut i: usize = 0;
        while i < ours.len()
            invariant
                i <= ours@.len(),
                ours@.len() == theirs@.len(),
                same <==> (forall|j: int| 0 <= j < i ==> ours@[j] == theirs@[j]),
            decreases ours@.len() - i,
        {
            if ours[i] != theirs[i] {
                same = false;
            }
            i += 1;
        }
        assert(same <==> ours@ =~= theirs@);
        same
    }
}

impl Eq for RootSeed {

}

impl PartialEqSpecImpl for RootSeed {
    open spec fn obeys_eq_spec() -> bool {
        true
    }

    open spec fn eq_spec(&self, other: &Self) -> bool {
        self@ == other@
    }
}

/// The bytes of an optional seed.
pub open spec fn optional_bytes(seed: Option<RootSeed>) -> Option<Seq<u8>> {
    match seed {
        Some(s) => Some(s@),
        None => None,
    }
}

/// Returns a copy of an optional seed.
pub fn clone_optional(seed: &Option<RootSeed>) -> (copy: Option<RootSeed>)
    ensures
        optional_bytes(copy) == optional_bytes(*seed),
{
    match seed {
        Some(s) => Some(s.clone()),
        None => None,
    }
}

/// The text of a password
pub struct KnownPassword {
    secret: SecretText,
}

impl View for KnownPassword {
    type V = Seq<char>;

    closed spec fn view(&self) -> Seq<char> {
        secret_text(self.secret)
    }
}

impl KnownPassword {
    /// Exposes the text of the password.
    pub fn expose_secret(&self) -> (text: &String)
        ensures
            text@ == self@,
    {
        expose_text(&self.secret)
    }
}

/// A password as the user gave it: known, or withheld.
pub struct Password {
    known: Option<KnownPassword>,
}

impl View for Password {
    type V = Option<Seq<char>>;

    closed spec fn view(&self) -> Option<Seq<char>> {
        match self.known {
            Some(password) => Some(password@),
            None => None,
        }
    }
}

impl Password {
    /// Builds a known password.
    pub fn from_known(text: String) -> (password: Self)
        ensures
            password@ == Some(text@),
    {
        Self { known: Some(KnownPassword { secret: seal_text(text) }) }
    }

    /// Builds the password of a user who withheld it.
    pub fn from_unknown() -> (password: Self)
        ensures
            password@ is None,
    {
        Self { known: None }
    }

    /// Returns the text of the password if it is known.
    pub fn known(self) -> (password: Option<KnownPassword>)
        ensures
            self@ == (match password {
                Some(p) => Some(p@),
                None => None,
            }),
    {
        self.known
    }
}

} // verus!
