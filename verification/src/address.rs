//! Addresses, as they go into a path.
use std::fmt::Display;
use vstd::prelude::*;
use vstd::string::to_string_from_display_ensures;

verus! {

/// An address, held as the text that it is written as.
#[derive(Debug)]
pub struct Address {
    /// The text of the address.
    pub text: String,
}

impl View for Address {
    type V = Seq<char>;

    open spec fn view(&self) -> Seq<char> {
        self.text@
    }
}

impl Address {
    /// Takes an address over as it writes itself out.
    pub fn new<A: Display>(address: &A) -> (r: Address)
        ensures
            to_string_from_display_ensures(address, r.text),
    {
        Address { text: address.to_string() }
    }
}

/// An address stands for its text, all of it and as it is.
pub proof fn law_address_is_its_text(address: Address)
    ensures
        address@ == address.text@,
{
}

} // verus!
