//! The credential store: the single source of truth between invocations.
//!
//! This module carries the in-memory backend and the store's laws; the
//! on-disk backend lives with the surrounding program and follows the same
//! load/save contract.

use vstd::prelude::*;

use crate::credential::{empty_credential_model, Credential, CredentialModel};

verus! {

/// What the store holds after a save: exactly the saved credential, whatever
/// it held before. A save is atomic for the caller: there is no state in
/// which only part of the record is visible.
pub open spec fn stored_after_save(
    prior: Option<CredentialModel>,
    c: CredentialModel,
) -> Option<CredentialModel> {
    Option::Some(c)
}

/// What a load yields: the record on file, or the never-authorized default
/// when no record has ever been written. A missing record is not an error.
pub open spec fn loaded_from(s: Option<CredentialModel>) -> CredentialModel {
    match s {
        Option::Some(c) => c,
        Option::None => empty_credential_model(),
    }
}

/// An in-memory credential store.
#[derive(Debug)]
pub struct MemStore {
    pub record: Option<Credential>,
}

impl View for MemStore {
    type V = Option<CredentialModel>;

    open spec fn view(&self) -> Option<CredentialModel> {
        match self.record {
            Option::Some(c) => Option::Some(c@),
            Option::None => Option::None,
        }
    }
}

impl MemStore {
    /// A store with no record on file.
    pub fn new() -> (r: MemStore)
        ensures
            r@ is None,
    {
        MemStore { record: Option::None }
    }

    /// Persists the credential, replacing whatever was on file.
    pub fn save(&mut self, c: Credential)
        ensures
            final(self)@ == stored_after_save(old(self)@, c@),
    {
        self.record = Option::Some(c);
    }

    /// Yields the record on file, or the empty default when none exists.
    pub fn load(&self) -> (r: Credential)
        ensures
            r@ == loaded_from(self@),
    {
        match &self.record {
            Option::Some(c) => c.duplicate(),
            Option::None => Credential::default(),
        }
    }
}

/// Round trip: a credential saved and then loaded comes back equal in all
/// six fields, whatever the store held before the save.
pub proof fn lemma_store_round_trip(prior: Option<CredentialModel>, c: CredentialModel)
    ensures
        loaded_from(stored_after_save(prior, c)) == c,
{
}

} // verus!
