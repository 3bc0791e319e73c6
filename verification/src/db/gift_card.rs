//! What a repository makes of the store's answers. A repository that talks to
//! a store by statements gets back, for each statement, either the store's
//! answer or the text of a failure; the functions here turn that into the
//! repository's own result.

use vstd::prelude::*;
use crate::messages::join4;
use crate::models::gift_card::{GiftCard, GiftCardView};
use crate::models::repository::RepositoryError;
use crate::trusted::{id_to_text, uuid_text};

verus! {

/// The message for an insert that the store refused.
pub open spec fn insert_failure(id: u128, cause: Seq<char>) -> Seq<char> {
    "failed to insert gift card "@ + uuid_text(id) + ": "@ + cause
}

/// The message for a lookup that the store could not answer.
pub open spec fn lookup_failure(id: u128, cause: Seq<char>) -> Seq<char> {
    "gift card "@ + uuid_text(id) + " not found: "@ + cause
}

/// The message for an update that the store could not carry out.
pub open spec fn update_failure(id: u128, cause: Seq<char>) -> Seq<char> {
    "couldn't update gift card "@ + uuid_text(id) + ": "@ + cause
}

/// The result of `save`, from what the store answered to the insert: a failure
/// becomes a `DatabaseError` that names the card and the cause.
pub fn save_outcome(card: &GiftCard, answer: Result<(), String>) -> (saved: Result<
    (),
    RepositoryError,
>)
    ensures
        match answer {
            Ok(()) => saved is Ok,
            Err(cause) => saved matches Err(RepositoryError::DatabaseError(text)) && text@
                == insert_failure(card@.id, cause@),
        },
{
    match answer {
        Ok(()) => Ok(()),
        Err(cause) => {
            let id = id_to_text(card.id());
            Err(
                RepositoryError::DatabaseError(
                    join4("failed to insert gift card ", id.as_str(), ": ", cause.as_str()),
                ),
            )
        },
    }
}

/// The result of `find_by_id`, from what the store answered to the lookup: the
/// row or its absence is handed on, a failure becomes a `DatabaseError` that
/// names the identifier and the cause.
pub fn find_outcome(id: u128, answer: Result<Option<GiftCard>, String>) -> (found: Result<
    Option<GiftCard>,
    RepositoryError,
>)
    ensures
        match answer {
            Ok(row) => found == Ok::<_, RepositoryError>(row),
            Err(cause) => found matches Err(RepositoryError::DatabaseError(text)) && text@
                == lookup_failure(id, cause@),
        },
{
    match answer {
        Ok(row) => Ok(row),
        Err(cause) => {
            let id = id_to_text(id);
            Err(
                RepositoryError::DatabaseError(
                    join4("gift card ", id.as_str(), " not found: ", cause.as_str()),
                ),
            )
        },
    }
}

/// The result of `update`, from what the store answered to the conditional
/// update. The store answers with the new version of the row it changed, or
/// with nothing where no row had the card's identifier and version. A new
/// version is taken over into the card; no row is an `OptimisticLockError`; a
/// failure is a `DatabaseError` that names the card and the cause. But for the
/// version, the card is never changed.
pub fn update_outcome(card: &mut GiftCard, answer: Result<Option<i32>, String>) -> (updated:
    Result<(), RepositoryError>)
    ensures
        match answer {
            Ok(Some(version)) => {
                &&& updated is Ok
                &&& final(card)@ == GiftCardView { version: version as int, ..old(card)@ }
            },
            Ok(None) => {
                &&& updated == Err::<(), _>(
                    RepositoryError::OptimisticLockError { id: old(card)@.id },
                )
                &&& final(card)@ == old(card)@
            },
            Err(cause) => {
                &&& updated matches Err(RepositoryError::DatabaseError(text)) && text@
                    == update_failure(old(card)@.id, cause@)
                &&& final(card)@ == old(card)@
            },
        },
{
    match answer {
        Ok(Some(version)) => {
            card.set_version(version);
            Ok(())
        },
        Ok(None) => Err(RepositoryError::OptimisticLockError { id: card.id() }),
        Err(cause) => {
            let id = id_to_text(card.id());
            Err(
                RepositoryError::DatabaseError(
                    join4("couldn't update gift card ", id.as_str(), ": ", cause.as_str()),
                ),
            )
        },
    }
}

} // verus!
