//! Account and contract addresses, held as the bytes of their strkey
//! encoding (for example `"GA…"` or `"CA…"`).
use vstd::prelude::*;

use crate::encoding::bytes_equal;

verus! {

/// An address, held as the bytes of its strkey text.
#[derive(Debug)]
pub struct Address {
    strkey: Vec<u8>,
}

impl View for Address {
    type V = Seq<u8>;

    closed spec fn view(&self) -> Seq<u8> {
        self.strkey@
    }
}

impl Address {
    /// The address whose strkey text is `strkey`.
    pub fn from_strkey(strkey: Vec<u8>) -> (a: Address)
        ensures
            a@ == strkey@,
    {
        Address { strkey }
    }

    /// The bytes of the strkey text.
    pub fn strkey(&self) -> (s: &[u8])
        ensures
            s@ == self@,
    {
        self.strkey.as_slice()
    }

    /// Whether two addresses are the same.
    pub fn same_as(&self, other: &Address) -> (eq: bool)
        ensures
            eq == (self@ == other@),
    {
        bytes_equal(self.strkey.as_slice(), other.strkey.as_slice())
    }
}

impl Clone for Address {
    fn clone(&self) -> (c: Address)
        ensures
            c@ == self@,
    {
        let strkey = self.strkey.clone();
        assert(strkey@ =~= self.strkey@);
        Address { strkey }
    }
}

}
