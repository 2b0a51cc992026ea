use vstd::prelude::*;
use crate::error::Error;

verus! {

/// An external, human-readable address is well formed exactly when it is
/// non-empty. The host's address translator accepts any non-empty string;
/// the empty string is the one malformed input.
pub open spec fn valid_addr(s: Seq<char>) -> bool {
    s.len() > 0
}

/// The internal, canonical form of an address: the storage key under which
/// an instance record is filed. A value of this type exists only for
/// addresses that passed canonicalization, so it always denotes a well
/// formed address.
#[derive(Debug)]
pub struct CanonAddr {
    addr: String,
}

impl View for CanonAddr {
    type V = Seq<char>;

    closed spec fn view(&self) -> Seq<char> {
        self.addr@
    }
}

impl CanonAddr {
    /// Canonicalize a human-readable address. Pure: succeeds exactly on
    /// well formed (non-empty) input and keeps the address's characters.
    pub fn canonize(addr: &str) -> (r: Result<CanonAddr, Error>)
        ensures
            valid_addr(addr@) ==> (r matches Ok(c) && c@ == addr@),
            !valid_addr(addr@) ==> r === Err(Error::InvalidAddress),
    {
        if addr.is_empty() {
            Err(Error::InvalidAddress)
        } else {
            Ok(CanonAddr { addr: addr.to_owned() })
        }
    }

    /// Translate the canonical form back to the human-readable form.
    pub fn humanize(&self) -> (r: String)
        ensures
            r@ == self@,
    {
        self.addr.clone()
    }

    /// Two canonical addresses are the same key exactly when their
    /// character sequences agree.
    pub fn same_key(&self, other: &CanonAddr) -> (r: bool)
        ensures
            r == (self@ == other@),
    {
        self.addr == other.addr
    }
}

} // verus!
