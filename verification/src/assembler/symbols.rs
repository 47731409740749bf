//! The symbol table: label name to byte address, built from scratch in the
//! driver's first pass and read during its second. A label written twice
//! keeps its last definition, matching a plain map insert.

use vstd::prelude::*;
use vstd::string::StrSliceExecFns;
use crate::assembler::text::str_eq;

verus! {

/// Label name to byte address.
pub struct SymbolTable {
    entries: Vec<(String, u32)>,
}

/// The map an entry list denotes: later entries overwrite earlier ones.
pub open spec fn spec_entries_map(s: Seq<(String, u32)>) -> Map<Seq<char>, u32>
    decreases s.len(),
{
    if s.len() == 0 {
        Map::empty()
    } else {
        spec_entries_map(s.drop_last()).insert(s.last().0@, s.last().1)
    }
}

impl View for SymbolTable {
    type V = Map<Seq<char>, u32>;

    closed spec fn view(&self) -> Map<Seq<char>, u32> {
        spec_entries_map(self.entries@)
    }
}

impl SymbolTable {
    /// An empty table.
    pub fn new() -> (r: SymbolTable)
        ensures
            r@ == Map::<Seq<char>, u32>::empty(),
    {
        SymbolTable { entries: Vec::new() }
    }

    /// Drop every entry.
    pub fn clear(&mut self)
        ensures
            final(self)@ == Map::<Seq<char>, u32>::empty(),
    {
        self.entries = Vec::new();
    }

    /// Record `name` at `address`; a later insert of the same name wins.
    pub fn insert(&mut self, name: &str, address: u32)
        ensures
            final(self)@ == old(self)@.insert(name@, address),
    {
        self.entries.push((name.to_owned(), address));
        proof {
            assert(self.entries@.drop_last() =~= old(self).entries@);
        }
    }

    /// The address of `name`, if `name` is defined.
    pub fn get(&self, name: &str) -> (r: Option<u32>)
        ensures
            r == if self@.dom().contains(name@) {
                Some(self@[name@])
            } else {
                None::<u32>
            },
    {
        let mut i: usize = self.entries.len();
        proof {
            assert(self.entries@.take(i as int) =~= self.entries@);
        }
        while i > 0
            invariant
                i <= self.entries@.len(),
                self@.dom().contains(name@) == spec_entries_map(self.entries@.take(i as int)).dom()
                    .contains(name@),
                self@.dom().contains(name@) ==> self@[name@] == spec_entries_map(
                    self.entries@.take(i as int),
                )[name@],
            decreases i,
        {
            i -= 1;
            let entry_name: &String = &self.entries[i].0;
            proof {
                assert(self.entries@.take(i + 1).drop_last() =~= self.entries@.take(i as int));
                assert(self.entries@.take(i + 1).last() == self.entries@[i as int]);
            }
            if str_eq(entry_name.as_str(), name) {
                return Some(self.entries[i].1);
            }
        }
        proof {
            assert(self.entries@.take(0) =~= Seq::<(String, u32)>::empty());
        }
        None
    }
}

} // verus!
