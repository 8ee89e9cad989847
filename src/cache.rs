use vstd::prelude::*;

use std::collections::HashMap;

use crate::serial::Serial;
use crate::serial_map::{lemma_push, lemma_set_value, SerialMap};

verus! {

broadcast use vstd::std_specs::hash::group_hash_axioms;

/// Last known value of each holding register, per datalog; the last write wins.
pub struct RegisterCache {
    pub map: SerialMap<HashMap<u16, u16>>,
}

/// The value cached for `register` of `datalog`.
pub open spec fn cached(m: Map<Seq<u8>, HashMap<u16, u16>>, datalog: Seq<u8>, register: u16) -> Option<
    u16,
> {
    if m.contains_key(datalog) && m[datalog]@.contains_key(register) {
        Some(m[datalog]@[register])
    } else {
        None
    }
}

impl RegisterCache {
    pub open spec fn wf(&self) -> bool {
        self.map.wf()
    }

    pub fn new() -> (r: RegisterCache)
        ensures
            r.wf(),
            forall|d: Seq<u8>, reg: u16| cached(r.map.view(), d, reg) is None,
    {
        RegisterCache { map: SerialMap::new() }
    }

    /// Records `value` as the last known value of `register` on `datalog`.
    pub fn write(&mut self, datalog: Serial, register: u16, value: u16)
        requires
            old(self).wf(),
        ensures
            final(self).wf(),
            forall|d: Seq<u8>, reg: u16|
                #[trigger] cached(final(self).map.view(), d, reg) == if d == datalog@ && reg
                    == register {
                    Some(value)
                } else {
                    cached(old(self).map.view(), d, reg)
                },
    {
        match self.map.find(&datalog) {
            Some(i) => {
                let ghost before = self.map.entries@;
                let ghost key = before[i as int].0;
                let mut regs = HashMap::new();
                std::mem::swap(&mut regs, &mut self.map.entries[i].1);
                regs.insert(register, value);
                proof {
                    lemma_set_value(before, i as int, regs);
                }
                self.map.entries.set(i, (key_of(&self.map.entries[i].0), regs));
                assert(self.map.entries@ == before.update(i as int, (key, regs)));
            },
            None => {
                let mut regs = HashMap::new();
                regs.insert(register, value);
                proof {
                    lemma_push(self.map.entries@, datalog, regs);
                }
                self.map.entries.push((datalog, regs));
            },
        }
    }

    /// The last known value of `register` on `datalog`.
    pub fn read(&self, datalog: &Serial, register: u16) -> (r: Option<u16>)
        requires
            self.wf(),
        ensures
            r == cached(self.map.view(), datalog@, register),
    {
        match self.map.get(datalog) {
            Some(regs) => match regs.get(&register) {
                Some(v) => Some(*v),
                None => None,
            },
            None => None,
        }
    }
}

fn key_of(s: &Serial) -> (r: Serial)
    ensures
        r == *s,
{
    *s
}

} // verus!
