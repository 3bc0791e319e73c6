//! What a store of gift cards owes its callers.

use vstd::prelude::*;
use crate::messages::join3;
use crate::models::gift_card::{GiftCard, GiftCardView};
use crate::trusted::{id_to_text, uuid_text};

verus! {

/// Why a store operation did not go through.
#[derive(Debug, PartialEq, Eq)]
pub enum RepositoryError {
    /// The store failed; the text says how.
    DatabaseError(String),
    /// The card's version is not the stored one: another writer was first.
    OptimisticLockError { id: u128 },
}

impl RepositoryError {
    /// What the error says.
    pub open spec fn text(self) -> Seq<char> {
        match self {
            RepositoryError::DatabaseError(text) => text@,
            RepositoryError::OptimisticLockError { id } => "failed updating gift card "@
                + uuid_text(id) + ": version mismatch"@,
        }
    }

    /// The error as text.
    pub fn to_string(&self) -> (text: String)
        ensures
            text@ == self.text(),
    {
        match self {
            RepositoryError::DatabaseError(text) => text.clone(),
            RepositoryError::OptimisticLockError { id } => {
                let id = id_to_text(*id);
                join3("failed updating gift card ", id.as_str(), ": version mismatch")
            },
        }
    }
}

/// Whether the store holds a row under the card's identifier at the card's
/// version: the condition on which an update is let through.
pub open spec fn version_matches(rows: Map<u128, GiftCardView>, card: GiftCardView) -> bool {
    rows.contains_key(card.id) && rows[card.id].version == card.version
}

/// The rows after an update of `card` was let through: the row under the
/// card's identifier takes the card's status and the next version, and keeps
/// everything else.
pub open spec fn rows_after_update(rows: Map<u128, GiftCardView>, card: GiftCardView) -> Map<
    u128,
    GiftCardView,
> {
    rows.insert(
        card.id,
        GiftCardView { status: card.status, version: card.version + 1, ..rows[card.id] },
    )
}

/// Whether the store can let an update of `card` through: a row matches, and
/// its version is not the largest there is.
pub open spec fn can_update(rows: Map<u128, GiftCardView>, card: GiftCardView) -> bool {
    version_matches(rows, card) && card.version < i32::MAX
}

/// A store of gift cards, one row per identifier. Any operation may fail with
/// `DatabaseError`; the contracts say what holds of each outcome, and, of a
/// store that is `dependable`, which outcome it is.
pub trait GiftCardRepository {
    /// The stored cards, by identifier. A repository that does not say what
    /// it stores leaves this open.
    open spec fn rows(&self) -> Map<u128, GiftCardView> {
        arbitrary()
    }

    /// Whether the store never fails on its own account. It then refuses
    /// nothing but an insert under a stored identifier and an update that
    /// would take a version past the largest. A repository that does not say
    /// so is not taken to be dependable.
    open spec fn dependable(&self) -> bool {
        false
    }

    /// Stores a card that was not stored before. An identifier that is already
    /// stored is refused. On failure nothing is stored.
    fn save(&mut self, card: &GiftCard) -> (saved: Result<(), RepositoryError>)
        ensures
            match saved {
                Ok(()) => {
                    &&& !old(self).rows().contains_key(card@.id)
                    &&& final(self).rows() == old(self).rows().insert(card@.id, card@)
                },
                Err(failure) => {
                    &&& failure is DatabaseError
                    &&& final(self).rows() == old(self).rows()
                },
            },
            final(self).dependable() == old(self).dependable(),
            old(self).dependable() ==> (saved is Ok <==> !old(self).rows().contains_key(card@.id)),
    ;

    /// Looks a card up. A card that is handed back is the stored one, at its
    /// stored version; an identifier that is not stored gives `None`, which is
    /// no failure.
    fn find_by_id(&self, id: u128) -> (found: Result<Option<GiftCard>, RepositoryError>)
        ensures
            match found {
                Ok(Some(card)) => {
                    &&& self.rows().contains_key(id)
                    &&& card@ == self.rows()[id]
                    &&& card@.id == id
                },
                Ok(None) => !self.rows().contains_key(id),
                Err(failure) => failure is DatabaseError,
            },
            self.dependable() ==> found is Ok,
    ;

    /// Stores the card's status if the stored version is still the card's, and
    /// then moves both versions up by one. If it is not, the call fails with
    /// `OptimisticLockError`. On failure neither the card nor the store changes.
    fn update(&mut self, card: &mut GiftCard) -> (updated: Result<(), RepositoryError>)
        ensures
            match updated {
                Ok(()) => {
                    &&& can_update(old(self).rows(), old(card)@)
                    &&& final(card)@ == GiftCardView {
                        version: old(card)@.version + 1,
                        ..old(card)@
                    }
                    &&& final(self).rows() == rows_after_update(old(self).rows(), old(card)@)
                },
                Err(RepositoryError::OptimisticLockError { id }) => {
                    &&& id == old(card)@.id
                    &&& !version_matches(old(self).rows(), old(card)@)
                    &&& final(card)@ == old(card)@
                    &&& final(self).rows() == old(self).rows()
                },
                Err(RepositoryError::DatabaseError(_)) => {
                    &&& final(card)@ == old(card)@
                    &&& final(self).rows() == old(self).rows()
                },
            },
            final(self).dependable() == old(self).dependable(),
            old(self).dependable() ==> {
                &&& updated is Ok <==> can_update(old(self).rows(), old(card)@)
                &&& (updated matches Err(RepositoryError::OptimisticLockError { .. }))
                    <==> !version_matches(old(self).rows(), old(card)@)
            },
    ;
}

/// Of two writers that read a card at the same version, the one whose update
/// is let through shuts the other out: after it, the other's version no longer
/// matches, whichever of the two went first.
pub proof fn lemma_one_update_per_version(
    rows: Map<u128, GiftCardView>,
    winner: GiftCardView,
    loser: GiftCardView,
)
    requires
        winner.id == loser.id,
        winner.version == loser.version,
        version_matches(rows, winner),
    ensures
        version_matches(rows, loser),
        !version_matches(rows_after_update(rows, winner), loser),
        rows_after_update(rows, winner)[winner.id].version == winner.version + 1,
        rows_after_update(rows, winner)[winner.id].status == winner.status,
{
}

/// An update that is let through touches one row: that row's version goes up
/// by exactly one and its amount and creation time stay; every other
/// identifier keeps its row, and no identifier comes or goes. So no stored
/// version ever goes down, and rows that were well formed stay so.
pub proof fn lemma_update_touches_one_row(rows: Map<u128, GiftCardView>, card: GiftCardView)
    requires
        version_matches(rows, card),
    ensures
        rows_after_update(rows, card).dom() == rows.dom(),
        rows_after_update(rows, card)[card.id] == (GiftCardView {
            status: card.status,
            version: rows[card.id].version + 1,
            ..rows[card.id]
        }),
        forall|other: u128|
            rows.contains_key(other) && other != card.id ==> #[trigger] rows_after_update(
                rows,
                card,
            )[other] == rows[other],
        forall|id: u128|
            rows.contains_key(id) ==> #[trigger] rows_after_update(rows, card)[id].version
                >= rows[id].version,
        (forall|id: u128| rows.contains_key(id) ==> #[trigger] rows[id].well_formed()) ==> (forall|
            id: u128,
        |
            rows.contains_key(id) ==> #[trigger] rows_after_update(rows, card)[id].well_formed()),
{
    assert(rows_after_update(rows, card).dom() =~= rows.dom());
    if forall|id: u128| rows.contains_key(id) ==> #[trigger] rows[id].well_formed() {
        assert forall|id: u128| rows.contains_key(id) implies #[trigger] rows_after_update(
            rows,
            card,
        )[id].well_formed() by {
            assert(rows[id].well_formed());
            assert(rows[card.id].well_formed());
        }
    }
}

} // verus!
