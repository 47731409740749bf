//! A named, aligned span of output: a place for generated bytes at a fixed
//! start address.

use vstd::prelude::*;
use vstd::string::StringExecFns;

verus! {

/// One output section: its name, start address, contents and alignment.
pub struct Section {
    name: String,
    address: u32,
    data: Vec<u8>,
    align: u32,
}

impl Section {
    /// The section's name.
    pub closed spec fn spec_name(&self) -> Seq<char> {
        self.name@
    }

    /// The section's start address.
    pub closed spec fn spec_address(&self) -> u32 {
        self.address
    }

    /// The bytes placed in the section so far.
    pub closed spec fn spec_data(&self) -> Seq<u8> {
        self.data@
    }

    /// The section's alignment.
    pub closed spec fn spec_align(&self) -> u32 {
        self.align
    }

    /// An empty section with the given name, start address and alignment.
    pub fn new(name: &str, address: u32, align: u32) -> (r: Self)
        ensures
            r.spec_name() == name@,
            r.spec_address() == address,
            r.spec_data() == Seq::<u8>::empty(),
            r.spec_align() == align,
    {
        Self { name: name.to_owned(), address, data: Vec::new(), align }
    }
}

} // verus!
