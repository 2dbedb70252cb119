use vstd::prelude::*;

use vstd::std_specs::cmp::PartialEqSpecImpl;

verus! {

/// An account or contract address, held as its strkey text
/// (`G...` for accounts, `C...` for contracts).  Two addresses are the same
/// exactly when their texts are.
#[derive(Debug)]
pub struct Address {
    pub strkey: String,
}

impl View for Address {
    type V = Seq<char>;

    open spec fn view(&self) -> Seq<char> {
        self.strkey@
    }
}

impl Address {
    /// The address whose strkey text is `s`.
    pub fn from_strkey(s: &str) -> (a: Address)
        ensures
            a@ == s@,
    {
        Address { strkey: s.to_owned() }
    }

    /// Whether `self` and `other` name the same address.
    pub fn same(&self, other: &Address) -> (r: bool)
        ensures
            r == (self@ == other@),
    {
        self.strkey == other.strkey
    }

    /// A copy of this address.
    pub fn copied(&self) -> (a: Address)
        ensures
            a@ == self@,
    {
        Address { strkey: self.strkey.clone() }
    }
}

impl Clone for Address {
    fn clone(&self) -> (a: Self)
        ensures
            a@ == self@,
    {
        self.copied()
    }
}

impl PartialEq for Address {
    fn eq(&self, other: &Address) -> (r: bool) {
        self.same(other)
    }
}

impl PartialEqSpecImpl for Address {
    open spec fn obeys_eq_spec() -> bool {
        true
    }

    open spec fn eq_spec(&self, other: &Address) -> bool {
        self@ == other@
    }
}

impl Eq for Address {
}

} // verus!
