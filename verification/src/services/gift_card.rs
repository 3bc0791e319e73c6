//! The use cases: create a card, sell it, redeem it. Each one loads or makes a
//! card, lets the domain decide, and persists; whatever goes wrong comes back
//! as one kind of error. Nothing is retried.

use vstd::prelude::*;
use crate::messages::join3;
use crate::models::amount::Amount;
use crate::models::gift_card::{GiftCard, GiftCardError, GiftCardStatus, GiftCardView};
use crate::models::repository::{can_update, GiftCardRepository, RepositoryError};
use crate::trusted::{id_to_text, is_random_uuid, uuid_text};

verus! {

/// Why a use case did not go through.
#[derive(Debug, PartialEq, Eq)]
pub enum ServiceError {
    /// The domain refused: an amount or a transition was not allowed.
    Domain(GiftCardError),
    /// The store failed, or another writer was first.
    Repository(RepositoryError),
    /// No card is stored under the identifier.
    NotFound(u128),
}

impl ServiceError {
    /// What the error says: a domain or repository error speaks for itself.
    pub open spec fn text(self) -> Seq<char> {
        match self {
            ServiceError::Domain(refusal) => refusal.text(),
            ServiceError::Repository(failure) => failure.text(),
            ServiceError::NotFound(id) => "gift card with id "@ + uuid_text(id) + " not found"@,
        }
    }

    /// The error as text.
    pub fn to_string(&self) -> (text: String)
        ensures
            text@ == self.text(),
    {
        match self {
            ServiceError::Domain(refusal) => refusal.to_string(),
            ServiceError::Repository(failure) => failure.to_string(),
            ServiceError::NotFound(id) => {
                let id = id_to_text(*id);
                join3("gift card with id ", id.as_str(), " not found")
            },
        }
    }
}

impl From<GiftCardError> for ServiceError {
    fn from(refusal: GiftCardError) -> (error: ServiceError) {
        ServiceError::Domain(refusal)
    }
}

impl vstd::std_specs::convert::FromSpecImpl<GiftCardError> for ServiceError {
    open spec fn obeys_from_spec() -> bool {
        true
    }

    open spec fn from_spec(refusal: GiftCardError) -> ServiceError {
        ServiceError::Domain(refusal)
    }
}

impl From<RepositoryError> for ServiceError {
    fn from(failure: RepositoryError) -> (error: ServiceError) {
        ServiceError::Repository(failure)
    }
}

impl vstd::std_specs::convert::FromSpecImpl<RepositoryError> for ServiceError {
    open spec fn obeys_from_spec() -> bool {
        true
    }

    open spec fn from_spec(failure: RepositoryError) -> ServiceError {
        ServiceError::Repository(failure)
    }
}

/// What selling makes of a lookup's result: a failed lookup is a `Repository`
/// error, a missing card is `NotFound`, a card that is not `Available` is a
/// `Domain` error, and an `Available` card comes back `Sold`, ready to be
/// persisted.
pub fn for_sale(id: u128, found: Result<Option<GiftCard>, RepositoryError>) -> (ready: Result<
    GiftCard,
    ServiceError,
>)
    ensures
        match found {
            Err(failure) => ready == Err::<GiftCard, _>(ServiceError::Repository(failure)),
            Ok(None) => ready == Err::<GiftCard, _>(ServiceError::NotFound(id)),
            Ok(Some(card)) => match card@.sold() {
                Ok(after) => ready matches Ok(sold) && sold@ == after,
                Err(refusal) => ready == Err::<GiftCard, _>(ServiceError::Domain(refusal)),
            },
        },
{
    match found {
        Err(failure) => Err(ServiceError::from(failure)),
        Ok(None) => Err(ServiceError::NotFound(id)),
        Ok(Some(card)) => {
            let mut card = card;
            match card.mark_as_sold() {
                Ok(()) => Ok(card),
                Err(refusal) => Err(ServiceError::from(refusal)),
            }
        },
    }
}

/// What redeeming makes of a lookup's result: a failed lookup is a
/// `Repository` error, a missing card is `NotFound`, a card that is not `Sold`
/// is a `Domain` error, and a `Sold` card comes back `Redeemed`, ready to be
/// persisted.
pub fn for_redemption(id: u128, found: Result<Option<GiftCard>, RepositoryError>) -> (ready:
    Result<GiftCard, ServiceError>)
    ensures
        match found {
            Err(failure) => ready == Err::<GiftCard, _>(ServiceError::Repository(failure)),
            Ok(None) => ready == Err::<GiftCard, _>(ServiceError::NotFound(id)),
            Ok(Some(card)) => match card@.redeemed() {
                Ok(after) => ready matches Ok(redeemed) && redeemed@ == after,
                Err(refusal) => ready == Err::<GiftCard, _>(ServiceError::Domain(refusal)),
            },
        },
{
    match found {
        Err(failure) => Err(ServiceError::from(failure)),
        Ok(None) => Err(ServiceError::NotFound(id)),
        Ok(Some(card)) => {
            let mut card = card;
            match card.mark_as_redeemed() {
                Ok(()) => Ok(card),
                Err(refusal) => Err(ServiceError::from(refusal)),
            }
        },
    }
}

/// What a use case returns once the store has answered: the card as the store
/// left it, or the store's failure as a `Repository` error.
pub fn concluded(card: GiftCard, persisted: Result<(), RepositoryError>) -> (outcome: Result<
    GiftCard,
    ServiceError,
>)
    ensures
        match persisted {
            Ok(()) => outcome == Ok::<_, ServiceError>(card),
            Err(failure) => outcome == Err::<GiftCard, _>(ServiceError::Repository(failure)),
        },
{
    match persisted {
        Ok(()) => Ok(card),
        Err(failure) => Err(ServiceError::from(failure)),
    }
}

/// The use cases over one repository.
pub struct GiftCardService<R: GiftCardRepository> {
    repository: R,
}

impl<R: GiftCardRepository> GiftCardService<R> {
    /// The cards that the service's repository holds, by identifier.
    pub closed spec fn rows(&self) -> Map<u128, GiftCardView> {
        self.repository.rows()
    }

    /// Whether the service's repository never fails on its own account.
    pub closed spec fn dependable(&self) -> bool {
        self.repository.dependable()
    }

    /// The use cases over the given repository.
    pub fn new(repository: R) -> (service: Self)
        ensures
            service.rows() == repository.rows(),
            service.dependable() == repository.dependable(),
    {
        GiftCardService { repository }
    }

    /// The repository that the service works on.
    pub fn repository(&self) -> (repository: &R)
        ensures
            repository.rows() == self.rows(),
            repository.dependable() == self.dependable(),
    {
        &self.repository
    }

    /// Makes a card of the given amount and stores it. An amount of zero or
    /// less is refused before the store is asked. Unless the card comes back,
    /// nothing was stored.
    pub fn create_gift_card(&mut self, amount: Amount) -> (created: Result<GiftCard, ServiceError>)
        ensures
            !amount.is_positive() ==> created == Err::<GiftCard, _>(
                ServiceError::Domain(GiftCardError::InvalidAmount(amount)),
            ),
            match created {
                Ok(card) => {
                    &&& amount.is_positive()
                    &&& card@ == GiftCardView::issued(card@.id, amount, card@.created_at)
                    &&& is_random_uuid(card@.id)
                    &&& !old(self).rows().contains_key(card@.id)
                    &&& final(self).rows() == old(self).rows().insert(card@.id, card@)
                },
                Err(error) => {
                    &&& final(self).rows() == old(self).rows()
                    &&& error matches ServiceError::Domain(_) ==> !amount.is_positive()
                    &&& error matches ServiceError::Repository(failure) ==> failure is DatabaseError
                    &&& !(error is NotFound)
                },
            },
            final(self).dependable() == old(self).dependable(),
    {
        let card = match GiftCard::new(amount) {
            Ok(card) => card,
            Err(refusal) => {
                return Err(ServiceError::from(refusal));
            },
        };
        let saved = self.repository.save(&card);
        concluded(card, saved)
    }

    /// Sells the card stored under `id`: it must be there and `Available`. The
    /// card that comes back is the stored one, `Sold` and one version up.
    /// Unless the card comes back, the store is as it was. Over a dependable
    /// store the outcome goes by the stored row alone.
    pub fn buy_gift_card(&mut self, id: u128) -> (bought: Result<GiftCard, ServiceError>)
        ensures
            match bought {
                Ok(card) => {
                    &&& old(self).rows().contains_key(id)
                    &&& old(self).rows()[id].sold() == Ok::<_, GiftCardError>(
                        GiftCardView { version: old(self).rows()[id].version, ..card@ },
                    )
                    &&& card@.version == old(self).rows()[id].version + 1
                    &&& final(self).rows() == old(self).rows().insert(id, card@)
                },
                Err(ServiceError::NotFound(missing)) => {
                    &&& missing == id
                    &&& !old(self).rows().contains_key(id)
                    &&& final(self).rows() == old(self).rows()
                },
                Err(ServiceError::Domain(refusal)) => {
                    &&& old(self).rows().contains_key(id)
                    &&& old(self).rows()[id].sold() == Err::<GiftCardView, _>(refusal)
                    &&& final(self).rows() == old(self).rows()
                },
                Err(ServiceError::Repository(failure)) => {
                    &&& final(self).rows() == old(self).rows()
                    &&& (failure matches RepositoryError::OptimisticLockError { id: locked }
                        ==> locked == id)
                },
            },
            final(self).dependable() == old(self).dependable(),
            old(self).dependable() ==> {
                &&& bought is Ok <==> sale_goes_through(old(self).rows(), id)
                &&& (bought matches Err(ServiceError::NotFound(_))) <==> !old(
                    self,
                ).rows().contains_key(id)
                &&& (bought matches Err(ServiceError::Domain(_))) <==> old(
                    self,
                ).rows().contains_key(id) && old(self).rows()[id].sold() is Err
            },
    {
        let found = self.repository.find_by_id(id);
        let mut card = match for_sale(id, found) {
            Ok(card) => card,
            Err(error) => {
                return Err(error);
            },
        };
        let updated = self.repository.update(&mut card);
        proof {
            if updated is Ok {
                assert(self.rows() =~= old(self).rows().insert(id, card@));
            }
        }
        concluded(card, updated)
    }

    /// Redeems the card stored under `id`: it must be there and `Sold`. The
    /// card that comes back is the stored one, `Redeemed` and one version up.
    /// Unless the card comes back, the store is as it was. Over a dependable
    /// store the outcome goes by the stored row alone.
    pub fn redeem_gift_card(&mut self, id: u128) -> (redeemed: Result<GiftCard, ServiceError>)
        ensures
            match redeemed {
                Ok(card) => {
                    &&& old(self).rows().contains_key(id)
                    &&& old(self).rows()[id].redeemed() == Ok::<_, GiftCardError>(
                        GiftCardView { version: old(self).rows()[id].version, ..card@ },
                    )
                    &&& card@.version == old(self).rows()[id].version + 1
                    &&& final(self).rows() == old(self).rows().insert(id, card@)
                },
                Err(ServiceError::NotFound(missing)) => {
                    &&& missing == id
                    &&& !old(self).rows().contains_key(id)
                    &&& final(self).rows() == old(self).rows()
                },
                Err(ServiceError::Domain(refusal)) => {
                    &&& old(self).rows().contains_key(id)
                    &&& old(self).rows()[id].redeemed() == Err::<GiftCardView, _>(refusal)
                    &&& final(self).rows() == old(self).rows()
                },
                Err(ServiceError::Repository(failure)) => {
                    &&& final(self).rows() == old(self).rows()
                    &&& (failure matches RepositoryError::OptimisticLockError { id: locked }
                        ==> locked == id)
                },
            },
            final(self).dependable() == old(self).dependable(),
            old(self).dependable() ==> {
                &&& redeemed is Ok <==> redemption_goes_through(old(self).rows(), id)
                &&& (redeemed matches Err(ServiceError::NotFound(_))) <==> !old(
                    self,
                ).rows().contains_key(id)
                &&& (redeemed matches Err(ServiceError::Domain(_))) <==> old(
                    self,
                ).rows().contains_key(id) && old(self).rows()[id].redeemed() is Err
            },
    {
        let found = self.repository.find_by_id(id);
        let mut card = match for_redemption(id, found) {
            Ok(card) => card,
            Err(error) => {
                return Err(error);
            },
        };
        let updated = self.repository.update(&mut card);
        proof {
            if updated is Ok {
                assert(self.rows() =~= old(self).rows().insert(id, card@));
            }
        }
        concluded(card, updated)
    }
}

/// Whether a sale of the card under `id` goes through over a dependable store:
/// the card is stored and `Available`, and its version can still go up.
pub open spec fn sale_goes_through(rows: Map<u128, GiftCardView>, id: u128) -> bool {
    &&& rows.contains_key(id)
    &&& rows[id].status == GiftCardStatus::Available
    &&& rows[id].version < i32::MAX
}

/// Whether a redemption of the card under `id` goes through over a dependable
/// store: the card is stored and `Sold`, and its version can still go up.
pub open spec fn redemption_goes_through(rows: Map<u128, GiftCardView>, id: u128) -> bool {
    &&& rows.contains_key(id)
    &&& rows[id].status == GiftCardStatus::Sold
    &&& rows[id].version < i32::MAX
}

} // verus!
