use rs_server::db::InMemoryRepository;
use rs_server::models::{
    Amount, GiftCard, GiftCardError, GiftCardRepository, GiftCardStatus, RepositoryError,
};
use rs_server::services::{concluded, for_redemption, for_sale, GiftCardService, ServiceError};
use time::OffsetDateTime;
use uuid::Uuid;

const ID: u128 = 0xa1a2a3a4_b1b2_c1c2_d1d2_d3d4d5d6d7d8;

fn card(id: u128, status: GiftCardStatus, version: i32) -> GiftCard {
    let at = OffsetDateTime::from_unix_timestamp(1_700_000_000).unwrap();
    GiftCard::from_parts(id, Amount::new(1_000, 2).unwrap(), status, at, version).unwrap()
}

/// A store that is down: every operation fails.
struct Unreachable;

impl GiftCardRepository for Unreachable {
    fn save(&mut self, _card: &GiftCard) -> Result<(), RepositoryError> {
        Err(RepositoryError::DatabaseError(String::from("save: store unreachable")))
    }

    fn find_by_id(&self, _id: u128) -> Result<Option<GiftCard>, RepositoryError> {
        Err(RepositoryError::DatabaseError(String::from("find: store unreachable")))
    }

    fn update(&mut self, _card: &mut GiftCard) -> Result<(), RepositoryError> {
        Err(RepositoryError::DatabaseError(String::from("update: store unreachable")))
    }
}

/// A store that answers lookups from memory and fails every update.
struct ReadOnly {
    inner: InMemoryRepository,
}

impl GiftCardRepository for ReadOnly {
    fn save(&mut self, card: &GiftCard) -> Result<(), RepositoryError> {
        self.inner.save(card)
    }

    fn find_by_id(&self, id: u128) -> Result<Option<GiftCard>, RepositoryError> {
        self.inner.find_by_id(id)
    }

    fn update(&mut self, _card: &mut GiftCard) -> Result<(), RepositoryError> {
        Err(RepositoryError::DatabaseError(String::from("update: read-only store")))
    }
}

#[test]
fn happy_path_create_buy_redeem() {
    let mut service = GiftCardService::new(InMemoryRepository::new());
    let amount = Amount::new(10_000, 2).unwrap();
    let created = service.create_gift_card(amount).unwrap();
    assert_eq!(created.status(), GiftCardStatus::Available);
    assert_eq!(created.version(), 0);
    assert_eq!(created.amount(), amount);
    let id = created.id();

    let bought = service.buy_gift_card(id).unwrap();
    assert_eq!(bought.status(), GiftCardStatus::Sold);
    assert_eq!(bought.version(), 1);
    assert_eq!(bought.id(), id);
    assert_eq!(bought.amount(), amount);
    assert_eq!(bought.created_at(), created.created_at());

    let redeemed = service.redeem_gift_card(id).unwrap();
    assert_eq!(redeemed.status(), GiftCardStatus::Redeemed);
    assert_eq!(redeemed.version(), 2);
    assert_eq!(redeemed.id(), id);

    let stored = service.repository().find_by_id(id).unwrap().unwrap();
    assert_eq!(stored.status(), GiftCardStatus::Redeemed);
    assert_eq!(stored.version(), 2);
    assert_eq!(service.repository().len(), 1);
}

#[test]
fn create_with_zero_amount_persists_nothing() {
    let mut service = GiftCardService::new(InMemoryRepository::new());
    let zero = Amount::new(0, 0).unwrap();
    assert_eq!(
        service.create_gift_card(zero).unwrap_err(),
        ServiceError::Domain(GiftCardError::InvalidAmount(zero))
    );
    assert_eq!(service.repository().len(), 0);
}

#[test]
fn create_with_negative_amount_persists_nothing() {
    let mut service = GiftCardService::new(InMemoryRepository::new());
    let negative = Amount::new(-2_500, 2).unwrap();
    assert_eq!(
        service.create_gift_card(negative).unwrap_err(),
        ServiceError::Domain(GiftCardError::InvalidAmount(negative))
    );
    assert_eq!(service.repository().len(), 0);
}

#[test]
fn created_card_is_stored_as_returned() {
    let mut service = GiftCardService::new(InMemoryRepository::new());
    let created = service.create_gift_card(Amount::new(1, 28).unwrap()).unwrap();
    let stored = service.repository().find_by_id(created.id()).unwrap().unwrap();
    assert_eq!(stored.id(), created.id());
    assert_eq!(stored.amount(), created.amount());
    assert_eq!(stored.status(), GiftCardStatus::Available);
    assert_eq!(stored.created_at(), created.created_at());
    assert_eq!(stored.version(), 0);
}

#[test]
fn double_sell_is_rejected_by_the_domain() {
    let mut service = GiftCardService::new(InMemoryRepository::new());
    let created = service.create_gift_card(Amount::new(5_000, 2).unwrap()).unwrap();
    let id = created.id();
    let bought = service.buy_gift_card(id).unwrap();
    assert_eq!(bought.status(), GiftCardStatus::Sold);
    assert_eq!(bought.version(), 1);
    assert_eq!(
        service.buy_gift_card(id).unwrap_err(),
        ServiceError::Domain(GiftCardError::NotAvailable { id, status: GiftCardStatus::Sold })
    );
    let stored = service.repository().find_by_id(id).unwrap().unwrap();
    assert_eq!(stored.version(), 1);
    assert_eq!(stored.status(), GiftCardStatus::Sold);
}

#[test]
fn redeem_before_sell_is_rejected() {
    let mut service = GiftCardService::new(InMemoryRepository::new());
    let created = service.create_gift_card(Amount::new(2_500, 2).unwrap()).unwrap();
    let id = created.id();
    assert_eq!(
        service.redeem_gift_card(id).unwrap_err(),
        ServiceError::Domain(GiftCardError::NotRedeemable {
            id,
            status: GiftCardStatus::Available
        })
    );
    let stored = service.repository().find_by_id(id).unwrap().unwrap();
    assert_eq!(stored.version(), 0);
    assert_eq!(stored.status(), GiftCardStatus::Available);
}

#[test]
fn redeem_twice_is_rejected() {
    let mut service = GiftCardService::new(InMemoryRepository::new());
    let id = service.create_gift_card(Amount::new(100, 0).unwrap()).unwrap().id();
    service.buy_gift_card(id).unwrap();
    service.redeem_gift_card(id).unwrap();
    assert_eq!(
        service.redeem_gift_card(id).unwrap_err(),
        ServiceError::Domain(GiftCardError::NotRedeemable {
            id,
            status: GiftCardStatus::Redeemed
        })
    );
    assert_eq!(
        service.buy_gift_card(id).unwrap_err(),
        ServiceError::Domain(GiftCardError::NotAvailable { id, status: GiftCardStatus::Redeemed })
    );
    assert_eq!(service.repository().find_by_id(id).unwrap().unwrap().version(), 2);
}

#[test]
fn optimistic_lock_race_has_one_winner() {
    let mut repository = InMemoryRepository::new();
    let created = GiftCard::new(Amount::new(1_000, 2).unwrap()).unwrap();
    let id = created.id();
    repository.save(&created).unwrap();
    assert_eq!(created.version(), 0);

    let first_found = repository.find_by_id(id);
    let second_found = repository.find_by_id(id);
    let mut first = for_sale(id, first_found).unwrap();
    let mut second = for_sale(id, second_found).unwrap();
    let first_updated = repository.update(&mut first);
    let second_updated = repository.update(&mut second);
    let first_outcome = concluded(first, first_updated);
    let second_outcome = concluded(second, second_updated);

    let winner = first_outcome.unwrap();
    assert_eq!(winner.status(), GiftCardStatus::Sold);
    assert_eq!(winner.version(), 1);
    assert_eq!(
        second_outcome.unwrap_err(),
        ServiceError::Repository(RepositoryError::OptimisticLockError { id })
    );
    let stored = repository.find_by_id(id).unwrap().unwrap();
    assert_eq!(stored.version(), 1);
    assert_eq!(stored.status(), GiftCardStatus::Sold);
}

#[test]
fn buy_of_an_unknown_identifier_is_not_found() {
    let mut service = GiftCardService::new(InMemoryRepository::new());
    let id = Uuid::new_v4().as_u128();
    assert_eq!(service.buy_gift_card(id).unwrap_err(), ServiceError::NotFound(id));
    assert_eq!(service.redeem_gift_card(id).unwrap_err(), ServiceError::NotFound(id));
    assert_eq!(service.repository().len(), 0);
}

#[test]
fn store_failures_surface_as_repository_errors() {
    let mut service = GiftCardService::new(Unreachable);
    assert_eq!(
        service.create_gift_card(Amount::new(100, 0).unwrap()).unwrap_err(),
        ServiceError::Repository(RepositoryError::DatabaseError(String::from(
            "save: store unreachable"
        )))
    );
    assert_eq!(
        service.buy_gift_card(ID).unwrap_err(),
        ServiceError::Repository(RepositoryError::DatabaseError(String::from(
            "find: store unreachable"
        )))
    );
    assert_eq!(
        service.redeem_gift_card(ID).unwrap_err(),
        ServiceError::Repository(RepositoryError::DatabaseError(String::from(
            "find: store unreachable"
        )))
    );
}

#[test]
fn invalid_amount_is_refused_before_the_store_is_asked() {
    let mut service = GiftCardService::new(Unreachable);
    let zero = Amount::new(0, 2).unwrap();
    assert_eq!(
        service.create_gift_card(zero).unwrap_err(),
        ServiceError::Domain(GiftCardError::InvalidAmount(zero))
    );
}

#[test]
fn a_failed_update_leaves_the_stored_card_as_it_was() {
    let mut inner = InMemoryRepository::new();
    inner.save(&card(ID, GiftCardStatus::Available, 0)).unwrap();
    let mut service = GiftCardService::new(ReadOnly { inner });
    assert_eq!(
        service.buy_gift_card(ID).unwrap_err(),
        ServiceError::Repository(RepositoryError::DatabaseError(String::from(
            "update: read-only store"
        )))
    );
    let stored = service.repository().find_by_id(ID).unwrap().unwrap();
    assert_eq!(stored.status(), GiftCardStatus::Available);
    assert_eq!(stored.version(), 0);
}

#[test]
fn for_sale_decides_on_each_lookup_result() {
    let sold = for_sale(ID, Ok(Some(card(ID, GiftCardStatus::Available, 6)))).unwrap();
    assert_eq!(sold.status(), GiftCardStatus::Sold);
    assert_eq!(sold.version(), 6);
    assert_eq!(sold.id(), ID);
    assert_eq!(for_sale(ID, Ok(None)).unwrap_err(), ServiceError::NotFound(ID));
    assert_eq!(
        for_sale(ID, Ok(Some(card(ID, GiftCardStatus::Sold, 1)))).unwrap_err(),
        ServiceError::Domain(GiftCardError::NotAvailable { id: ID, status: GiftCardStatus::Sold })
    );
    assert_eq!(
        for_sale(ID, Err(RepositoryError::DatabaseError(String::from("down")))).unwrap_err(),
        ServiceError::Repository(RepositoryError::DatabaseError(String::from("down")))
    );
}

#[test]
fn for_redemption_decides_on_each_lookup_result() {
    let redeemed = for_redemption(ID, Ok(Some(card(ID, GiftCardStatus::Sold, 1)))).unwrap();
    assert_eq!(redeemed.status(), GiftCardStatus::Redeemed);
    assert_eq!(redeemed.version(), 1);
    assert_eq!(for_redemption(ID, Ok(None)).unwrap_err(), ServiceError::NotFound(ID));
    assert_eq!(
        for_redemption(ID, Ok(Some(card(ID, GiftCardStatus::Available, 0)))).unwrap_err(),
        ServiceError::Domain(GiftCardError::NotRedeemable {
            id: ID,
            status: GiftCardStatus::Available
        })
    );
    assert_eq!(
        for_redemption(ID, Err(RepositoryError::DatabaseError(String::from("down"))))
            .unwrap_err(),
        ServiceError::Repository(RepositoryError::DatabaseError(String::from("down")))
    );
}

#[test]
fn concluded_hands_the_card_or_the_failure_on() {
    let done = concluded(card(ID, GiftCardStatus::Sold, 2), Ok(())).unwrap();
    assert_eq!(done.status(), GiftCardStatus::Sold);
    assert_eq!(done.version(), 2);
    assert_eq!(
        concluded(
            card(ID, GiftCardStatus::Sold, 2),
            Err(RepositoryError::OptimisticLockError { id: ID })
        )
        .unwrap_err(),
        ServiceError::Repository(RepositoryError::OptimisticLockError { id: ID })
    );
}

#[test]
fn service_errors_wrap_domain_and_repository_errors() {
    let refusal = GiftCardError::NotAvailable { id: ID, status: GiftCardStatus::Sold };
    assert_eq!(ServiceError::from(refusal), ServiceError::Domain(refusal));
    assert_eq!(
        ServiceError::from(RepositoryError::OptimisticLockError { id: ID }),
        ServiceError::Repository(RepositoryError::OptimisticLockError { id: ID })
    );
}

#[test]
fn service_errors_say_what_happened() {
    assert_eq!(
        ServiceError::NotFound(ID).to_string(),
        "gift card with id a1a2a3a4-b1b2-c1c2-d1d2-d3d4d5d6d7d8 not found"
    );
    assert_eq!(
        ServiceError::Domain(GiftCardError::NotAvailable { id: ID, status: GiftCardStatus::Sold })
            .to_string(),
        "gift card a1a2a3a4-b1b2-c1c2-d1d2-d3d4d5d6d7d8 is not available, status: Sold"
    );
    assert_eq!(
        ServiceError::Repository(RepositoryError::OptimisticLockError { id: ID }).to_string(),
        "failed updating gift card a1a2a3a4-b1b2-c1c2-d1d2-d3d4d5d6d7d8: version mismatch"
    );
    assert_eq!(
        ServiceError::Repository(RepositoryError::DatabaseError(String::from("down"))).to_string(),
        "down"
    );
}
