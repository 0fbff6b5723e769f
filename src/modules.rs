use vstd::prelude::*;

use std::collections::HashMap;

use crate::hex::{hex_address, hex_digits};
use crate::record::StackFrame;

verus! {

broadcast use vstd::std_specs::hash::group_hash_axioms;

/// The module names a list of `(base address, name)` entries gives: each
/// base maps to the name of its last entry.
pub open spec fn registry_of(entries: Seq<(u64, String)>) -> Map<u64, String>
    decreases entries.len(),
{
    if entries.len() == 0 {
        Map::empty()
    } else {
        registry_of(entries.drop_last()).insert(entries.last().0, entries.last().1)
    }
}

/// How a module base is shown: the module's name where it is known, the raw
/// address otherwise.
pub open spec fn module_label(names: Map<u64, String>, base: u64) -> Seq<char> {
    if names.contains_key(base) {
        names[base]@
    } else {
        seq!['0', 'x'] + hex_digits(base as nat)
    }
}

/// A stack frame resolved against known modules: the module's name and the
/// frame's offset in it, or nothing where the module is not known.
pub open spec fn resolve_spec(names: Map<u64, String>, f: StackFrame) -> Option<(Seq<char>, u64)> {
    match f.module_base {
        Some(b) => if names.contains_key(b) {
            Some((names[b]@, offset_from(f.address, b)))
        } else {
            None
        },
        None => None,
    }
}

/// The module base a frame is displayed against: the one it reports, or zero.
pub open spec fn frame_base(f: StackFrame) -> u64 {
    match f.module_base {
        Some(b) => b,
        None => 0,
    }
}

/// The offset of `address` from `base`, modulo 2^64.
pub open spec fn offset_from(address: u64, base: u64) -> u64 {
    if address >= base {
        (address - base) as u64
    } else {
        (address + 0x1_0000_0000_0000_0000 - base) as u64
    }
}

/// The offset of `address` from `base`, modulo 2^64.
pub fn offset(address: u64, base: u64) -> (r: u64)
    ensures
        r == offset_from(address, base),
{
    if address >= base {
        address - base
    } else {
        (u64::MAX - base) + address + 1
    }
}

/// A read-only snapshot of the loaded modules, by base address, taken once.
pub struct ModuleRegistry {
    names: HashMap<u64, String>,
}

impl View for ModuleRegistry {
    type V = Map<u64, String>;

    closed spec fn view(&self) -> Map<u64, String> {
        self.names@
    }
}

impl ModuleRegistry {
    /// The registry of `entries`; where two share a base, the later wins.
    pub fn new(entries: Vec<(u64, String)>) -> (r: ModuleRegistry)
        ensures
            r@ == registry_of(entries@),
    {
        let mut names: HashMap<u64, String> = HashMap::new();
        let mut i: usize = 0;
        while i < entries.len()
            invariant
                i <= entries@.len(),
                names@ == registry_of(entries@.take(i as int)),
            decreases entries@.len() - i,
        {
            let base = entries[i].0;
            let name = entries[i].1.clone();
            names.insert(base, name);
            assert(entries@.take(i + 1).drop_last() =~= entries@.take(i as int));
            i = i + 1;
        }
        assert(entries@.take(i as int) =~= entries@);
        ModuleRegistry { names }
    }

    /// The name of the module based at `mba`, or `mba` as an address.
    pub fn module_name_from_mba(&self, mba: u64) -> (r: String)
        ensures
            r@ == module_label(self@, mba),
    {
        match self.names.get(&mba) {
            Some(name) => name.clone(),
            None => hex_address(mba),
        }
    }

    /// Resolves a frame to its module's name and its offset there; `None`
    /// where the frame's module is not known.
    pub fn resolve(&self, frame: StackFrame) -> (r: Option<(String, u64)>)
        ensures
            match (r, resolve_spec(self@, frame)) {
                (Some((name, offset)), Some((n, o))) => name@ == n && offset == o,
                (None, None) => true,
                _ => false,
            },
    {
        match frame.module_base {
            Some(b) => match self.names.get(&b) {
                Some(name) => Some((name.clone(), offset(frame.address, b))),
                None => None,
            },
            None => None,
        }
    }
}

} // verus!
