//! The data memory model: a sparse map from 16-bit addresses to 16-bit words,
//! in which every address not yet written reads as zero.
use vstd::prelude::*;
use std::collections::HashMap;

verus! {

pub struct RAM {
    /// The words written so far, by address.
    pub memory: HashMap<i16, i16>,
}

impl RAM {
    /// The word at `address`: the last one written there, or zero.
    pub fn read(&self, address: i16) -> (r: i16)
        ensures
            r == if self.memory@.contains_key(address) {
                self.memory@[address]
            } else {
                0
            },
    {
        broadcast use vstd::std_specs::hash::group_hash_axioms;

        match self.memory.get(&address) {
            Some(value) => *value,
            None => 0,
        }
    }

    /// Stores `value` at `address`.
    pub fn write(&mut self, address: i16, value: i16)
        ensures
            final(self).memory@ == old(self).memory@.insert(address, value),
    {
        broadcast use vstd::std_specs::hash::group_hash_axioms;

        self.memory.insert(address, value);
    }
}

} // verus!
