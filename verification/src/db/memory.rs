//! A store that lives in memory. It answers the three statements of a
//! repository as a relational store would: an insert under a stored identifier
//! is refused, and a conditional update changes a row only at the version it
//! was asked for.

use std::collections::HashMap;
use vstd::prelude::*;
use vstd::string::StringExecFns;
use crate::db::gift_card::{find_outcome, insert_failure, save_outcome, update_failure, update_outcome};
use crate::models::gift_card::{GiftCard, GiftCardView};
use crate::models::repository::{
    rows_after_update,
    version_matches,
    GiftCardRepository,
    RepositoryError,
};

verus! {

broadcast use vstd::std_specs::hash::group_hash_axioms;

/// What the store says of an insert under an identifier that is stored already.
pub open spec fn duplicate_key() -> Seq<char> {
    "duplicate key value violates unique constraint"@
}

/// What the store says of an update that would move a version past the
/// largest one.
pub open spec fn version_out_of_range() -> Seq<char> {
    "integer out of range"@
}

/// A repository that keeps its rows in memory, one per identifier.
pub struct InMemoryRepository {
    table: HashMap<u128, GiftCard>,
}

impl InMemoryRepository {
    /// Every row is stored under its own identifier.
    #[verifier::type_invariant]
    spec fn keyed_by_id(self) -> bool {
        forall|id: u128| #[trigger] self.table@.contains_key(id) ==> self.table@[id]@.id == id
    }

    /// A store without rows.
    pub fn new() -> (repository: InMemoryRepository)
        ensures
            repository.rows() == Map::<u128, GiftCardView>::empty(),
    {
        let repository = InMemoryRepository { table: HashMap::new() };
        assert(repository.rows() =~= Map::<u128, GiftCardView>::empty());
        repository
    }

    /// How many cards are stored.
    pub fn len(&self) -> (count: usize)
        ensures
            count == self.rows().len(),
            self.rows().dom().finite(),
    {
        assert(self.rows().dom() =~= self.table@.dom());
        self.table.len()
    }

    /// The insert statement: stores the card as a new row, unless a row is
    /// stored under its identifier.
    fn insert_row(&mut self, card: &GiftCard) -> (answer: Result<(), String>)
        ensures
            match answer {
                Ok(()) => {
                    &&& !old(self).rows().contains_key(card@.id)
                    &&& final(self).rows() == old(self).rows().insert(card@.id, card@)
                },
                Err(cause) => {
                    &&& old(self).rows().contains_key(card@.id)
                    &&& final(self).rows() == old(self).rows()
                    &&& cause@ == duplicate_key()
                },
            },
    {
        proof {
            use_type_invariant(&*self);
        }
        let id = card.id();
        if self.table.contains_key(&id) {
            Err(String::from_str("duplicate key value violates unique constraint"))
        } else {
            let mut table = HashMap::new();
            std::mem::swap(&mut self.table, &mut table);
            table.insert(id, card.duplicate());
            std::mem::swap(&mut self.table, &mut table);
            assert(self.rows() =~= old(self).rows().insert(card@.id, card@));
            Ok(())
        }
    }

    /// The select statement: the row under the identifier, if there is one.
    fn select_row(&self, id: u128) -> (row: Option<GiftCard>)
        ensures
            match row {
                Some(card) => self.rows().contains_key(id) && card@ == self.rows()[id] && card@.id
                    == id,
                None => !self.rows().contains_key(id),
            },
    {
        proof {
            use_type_invariant(self);
        }
        match self.table.get(&id) {
            Some(card) => Some(card.duplicate()),
            None => None,
        }
    }

    /// The conditional update statement: where a row has the card's identifier
    /// and version, it takes the card's status and the next version, and the
    /// new version is the answer. Where none has, the answer is nothing. A
    /// version that cannot go up is a failure.
    fn compare_and_set(&mut self, card: &GiftCard) -> (answer: Result<Option<i32>, String>)
        ensures
            match answer {
                Ok(Some(version)) => {
                    &&& version_matches(old(self).rows(), card@)
                    &&& version == card@.version + 1
                    &&& final(self).rows() == rows_after_update(old(self).rows(), card@)
                },
                Ok(None) => {
                    &&& !version_matches(old(self).rows(), card@)
                    &&& final(self).rows() == old(self).rows()
                },
                Err(cause) => {
                    &&& version_matches(old(self).rows(), card@)
                    &&& card@.version == i32::MAX
                    &&& final(self).rows() == old(self).rows()
                    &&& cause@ == version_out_of_range()
                },
            },
    {
        proof {
            use_type_invariant(&*self);
        }
        let id = card.id();
        let version = card.version();
        match self.table.get(&id) {
            Some(row) => {
                if row.version() != version {
                    Ok(None)
                } else if version == i32::MAX {
                    Err(String::from_str("integer out of range"))
                } else {
                    let next = row.restamped(card.status(), version + 1);
                    let mut table = HashMap::new();
                    std::mem::swap(&mut self.table, &mut table);
                    table.insert(id, next);
                    std::mem::swap(&mut self.table, &mut table);
                    assert(self.rows() =~= rows_after_update(old(self).rows(), card@));
                    Ok(Some(version + 1))
                }
            },
            None => Ok(None),
        }
    }
}

impl GiftCardRepository for InMemoryRepository {
    closed spec fn rows(&self) -> Map<u128, GiftCardView> {
        self.table@.map_values(|card: GiftCard| card@)
    }

    /// This store never fails on its own account.
    open spec fn dependable(&self) -> bool {
        true
    }

    /// Stores the card unless its identifier is stored already: that, and
    /// nothing else, makes this store fail.
    fn save(&mut self, card: &GiftCard) -> (saved: Result<(), RepositoryError>)
        ensures
            saved matches Err(RepositoryError::DatabaseError(text)) ==> text@ == insert_failure(
                card@.id,
                duplicate_key(),
            ),
    {
        let answer = self.insert_row(card);
        save_outcome(card, answer)
    }

    /// Looks the card up. This store never fails to answer.
    fn find_by_id(&self, id: u128) -> (found: Result<Option<GiftCard>, RepositoryError>) {
        find_outcome(id, Ok(self.select_row(id)))
    }

    /// Updates the card's row if the versions match. This store fails only
    /// where the version is the largest there is.
    fn update(&mut self, card: &mut GiftCard) -> (updated: Result<(), RepositoryError>)
        ensures
            updated matches Err(RepositoryError::DatabaseError(text)) ==> text@ == update_failure(
                old(card)@.id,
                version_out_of_range(),
            ),
    {
        let answer = self.compare_and_set(&*card);
        update_outcome(card, answer)
    }
}

} // verus!
