//! The escrow registry: every escrow under its identifier.

use crate::errors::EscrowError;
use crate::types::{Escrow, EscrowModel};
use std::collections::HashMap;
use vstd::prelude::*;

verus! {

broadcast use vstd::std_specs::hash::group_hash_axioms;

/// The escrows by identifier. Records enter and change only through the
/// lifecycle engine, and none is ever deleted.
#[derive(Debug)]
pub struct Registry {
    escrows: HashMap<u64, Escrow>,
}

/// Every record of `escrows` is well formed and stands under its own
/// identifier.
pub open spec fn registry_wf(escrows: Map<u64, EscrowModel>) -> bool {
    forall|id: u64| #[trigger]
        escrows.contains_key(id) ==> escrows[id].wf() && escrows[id].id == id
}

impl View for Registry {
    type V = Map<u64, EscrowModel>;

    closed spec fn view(&self) -> Map<u64, EscrowModel> {
        Map::new(|id: u64| self.escrows@.contains_key(id), |id: u64| self.escrows@[id]@)
    }
}

impl Registry {
    /// A registry without escrows.
    pub fn new() -> (r: Registry)
        ensures
            r@ == Map::<u64, EscrowModel>::empty(),
    {
        let r = Registry { escrows: HashMap::new() };
        r
    }

    /// Whether an escrow stands under `id`.
    pub fn contains(&self, id: u64) -> (r: bool)
        ensures
            r == self@.contains_key(id),
    {
        self.escrows.contains_key(&id)
    }

    /// The escrow under `id`, or `EscrowNotFound`.
    pub fn get(&self, id: u64) -> (r: Result<&Escrow, EscrowError>)
        ensures
            match r {
                Ok(e) => self@.contains_key(id) && e@ == self@[id],
                Err(e) => !self@.contains_key(id) && e == EscrowError::EscrowNotFound,
            },
    {
        match self.escrows.get(&id) {
            Some(e) => Ok(e),
            None => Err(EscrowError::EscrowNotFound),
        }
    }

    /// Takes the escrow under `id` out, to be put back changed.
    pub(crate) fn take(&mut self, id: u64) -> (r: Option<Escrow>)
        ensures
            match r {
                Some(e) => old(self)@.contains_key(id) && e@ == old(self)@[id] && final(self)@
                    == old(self)@.remove(id),
                None => !old(self)@.contains_key(id) && final(self)@ == old(self)@,
            },
    {
        let r = self.escrows.remove(&id);
        r
    }

    /// Stores `escrow` under its identifier.
    pub(crate) fn put(&mut self, escrow: Escrow)
        ensures
            final(self)@ == old(self)@.insert(escrow@.id, escrow@),
    {
        self.escrows.insert(escrow.id, escrow);
    }
}

} // verus!
