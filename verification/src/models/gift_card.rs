//! The gift card aggregate and its state machine.

use vstd::prelude::*;
use time::OffsetDateTime;
use crate::messages::{join3, join4};
use crate::models::amount::Amount;
use crate::trusted::{fresh_id, id_to_text, is_random_uuid, uuid_text};

verus! {

/// Where a card stands in its life. The only moves are from `Available` to
/// `Sold` and from `Sold` to `Redeemed`.
#[derive(Debug, PartialEq, Eq, Clone, Copy, Structural)]
pub enum GiftCardStatus {
    Available,
    Sold,
    Redeemed,
}

impl GiftCardStatus {
    /// The position of the status in the order `Available`, `Sold`, `Redeemed`.
    pub open spec fn rank(self) -> nat {
        match self {
            GiftCardStatus::Available => 0,
            GiftCardStatus::Sold => 1,
            GiftCardStatus::Redeemed => 2,
        }
    }

    /// The name of the status, which is also the literal that a store keeps
    /// for it.
    pub open spec fn text(self) -> Seq<char> {
        match self {
            GiftCardStatus::Available => "Available"@,
            GiftCardStatus::Sold => "Sold"@,
            GiftCardStatus::Redeemed => "Redeemed"@,
        }
    }

    /// The name of the status.
    pub fn name(&self) -> (name: &'static str)
        ensures
            name@ == self.text(),
    {
        match self {
            GiftCardStatus::Available => "Available",
            GiftCardStatus::Sold => "Sold",
            GiftCardStatus::Redeemed => "Redeemed",
        }
    }

    /// Whether a card in this status may move to `next` in one transition.
    pub open spec fn may_become(self, next: GiftCardStatus) -> bool {
        ||| self == GiftCardStatus::Available && next == GiftCardStatus::Sold
        ||| self == GiftCardStatus::Sold && next == GiftCardStatus::Redeemed
    }
}

/// Why a card could not be made or moved.
#[derive(Debug, PartialEq, Eq, Clone, Copy, Structural)]
pub enum GiftCardError {
    /// Redeeming was asked of a card that is not `Sold`.
    NotRedeemable { id: u128, status: GiftCardStatus },
    /// Selling was asked of a card that is not `Available`.
    NotAvailable { id: u128, status: GiftCardStatus },
    /// A card was to be made with an amount of zero or less.
    InvalidAmount(Amount),
}

impl GiftCardError {
    /// What the error says.
    pub open spec fn text(self) -> Seq<char> {
        match self {
            GiftCardError::NotRedeemable { id, status } => "gift card "@ + uuid_text(id)
                + " is not reedemable, status: "@ + status.text(),
            GiftCardError::NotAvailable { id, status } => "gift card "@ + uuid_text(id)
                + " is not available, status: "@ + status.text(),
            GiftCardError::InvalidAmount(amount) => "invalid gift card amount, got "@
                + amount.text() + ")"@,
        }
    }

    /// The error as text.
    pub fn to_string(&self) -> (text: String)
        ensures
            text@ == self.text(),
    {
        match self {
            GiftCardError::NotRedeemable { id, status } => {
                let id = id_to_text(*id);
                join4("gift card ", id.as_str(), " is not reedemable, status: ", status.name())
            },
            GiftCardError::NotAvailable { id, status } => {
                let id = id_to_text(*id);
                join4("gift card ", id.as_str(), " is not available, status: ", status.name())
            },
            GiftCardError::InvalidAmount(amount) => {
                let amount = amount.to_string();
                join3("invalid gift card amount, got ", amount.as_str(), ")")
            },
        }
    }
}

/// What a gift card is, as a mathematical value.
pub struct GiftCardView {
    /// The 128-bit value of the card's universally unique identifier.
    pub id: u128,
    pub amount: Amount,
    pub status: GiftCardStatus,
    pub created_at: OffsetDateTime,
    /// How many updates of the card have been persisted.
    pub version: int,
}

impl GiftCardView {
    /// The card as `GiftCard::new` makes it.
    pub open spec fn issued(id: u128, amount: Amount, created_at: OffsetDateTime) -> GiftCardView {
        GiftCardView { id, amount, status: GiftCardStatus::Available, created_at, version: 0 }
    }

    /// What selling does: an `Available` card becomes `Sold`, any other is refused.
    pub open spec fn sold(self) -> Result<GiftCardView, GiftCardError> {
        if self.status == GiftCardStatus::Available {
            Ok(GiftCardView { status: GiftCardStatus::Sold, ..self })
        } else {
            Err(GiftCardError::NotAvailable { id: self.id, status: self.status })
        }
    }

    /// What redeeming does: a `Sold` card becomes `Redeemed`, any other is refused.
    pub open spec fn redeemed(self) -> Result<GiftCardView, GiftCardError> {
        if self.status == GiftCardStatus::Sold {
            Ok(GiftCardView { status: GiftCardStatus::Redeemed, ..self })
        } else {
            Err(GiftCardError::NotRedeemable { id: self.id, status: self.status })
        }
    }

    /// What holds of every card that was made by `GiftCard::new` and then
    /// moved by transitions and persisted updates only: its amount is positive
    /// and its version counts up from zero.
    pub open spec fn well_formed(self) -> bool {
        self.amount.is_positive() && self.version >= 0
    }
}

/// A monetary-value token. Its amount is positive. Its identifier, amount and
/// creation time never change; its status changes by `mark_as_sold` and
/// `mark_as_redeemed` only; its version follows the store.
#[derive(Debug)]
pub struct GiftCard {
    pub(crate) id: u128,
    pub(crate) amount: Amount,
    pub(crate) status: GiftCardStatus,
    pub(crate) created_at: OffsetDateTime,
    pub(crate) version: i32,
}

impl View for GiftCard {
    type V = GiftCardView;

    closed spec fn view(&self) -> GiftCardView {
        GiftCardView {
            id: self.id,
            amount: self.amount,
            status: self.status,
            created_at: self.created_at,
            version: self.version as int,
        }
    }
}

impl GiftCard {
    /// No card has an amount of zero or less.
    #[verifier::type_invariant]
    spec fn amount_is_positive(self) -> bool {
        self.amount.is_positive()
    }

    /// A new card of the given amount, with a fresh random identifier and the
    /// current time. An amount of zero or less is refused; nothing else is.
    pub fn new(amount: Amount) -> (made: Result<GiftCard, GiftCardError>)
        ensures
            amount.is_positive() ==> made is Ok,
            !amount.is_positive() ==> made == Err::<GiftCard, _>(GiftCardError::InvalidAmount(amount)),
            made matches Ok(card) ==> {
                &&& card@ == GiftCardView::issued(card@.id, amount, card@.created_at)
                &&& card@.well_formed()
                &&& is_random_uuid(card@.id)
            },
    {
        if amount.at_most_zero() {
            Err(GiftCardError::InvalidAmount(amount))
        } else {
            GiftCard::issue(fresh_id(), amount, OffsetDateTime::now_utc())
        }
    }

    /// A new card of the given amount under the given identifier and creation
    /// time. An amount of zero or less is refused; nothing else is.
    pub fn issue(id: u128, amount: Amount, created_at: OffsetDateTime) -> (made: Result<
        GiftCard,
        GiftCardError,
    >)
        ensures
            amount.is_positive() ==> (made matches Ok(card) && card@ == GiftCardView::issued(
                id,
                amount,
                created_at,
            )),
            !amount.is_positive() ==> made == Err::<GiftCard, _>(GiftCardError::InvalidAmount(amount)),
    {
        if amount.at_most_zero() {
            Err(GiftCardError::InvalidAmount(amount))
        } else {
            Ok(GiftCard { id, amount, status: GiftCardStatus::Available, created_at, version: 0 })
        }
    }

    /// The card that a store holds under these five values, or `None` where
    /// the amount is zero or less, which no card has. Status and version are
    /// taken as the store gives them.
    pub fn from_parts(
        id: u128,
        amount: Amount,
        status: GiftCardStatus,
        created_at: OffsetDateTime,
        version: i32,
    ) -> (card: Option<GiftCard>)
        ensures
            card is Some <==> amount.is_positive(),
            card matches Some(stored) ==> stored@ == (GiftCardView {
                id,
                amount,
                status,
                created_at,
                version: version as int,
            }),
    {
        if amount.at_most_zero() {
            None
        } else {
            Some(GiftCard { id, amount, status, created_at, version })
        }
    }

    /// A second copy of the card.
    pub(crate) fn duplicate(&self) -> (copy: GiftCard)
        ensures
            copy@ == self@,
    {
        proof {
            use_type_invariant(self);
        }
        GiftCard {
            id: self.id,
            amount: self.amount,
            status: self.status,
            created_at: self.created_at,
            version: self.version,
        }
    }

    /// The card with another status and version: what a store makes of a row
    /// when it lets an update through.
    pub(crate) fn restamped(&self, status: GiftCardStatus, version: i32) -> (row: GiftCard)
        ensures
            row@ == (GiftCardView { status, version: version as int, ..self@ }),
    {
        proof {
            use_type_invariant(self);
        }
        GiftCard { id: self.id, amount: self.amount, status, created_at: self.created_at, version }
    }

    /// The 128-bit value of the card's identifier.
    pub fn id(&self) -> (id: u128)
        ensures
            id == self@.id,
    {
        self.id
    }

    /// The card's amount, which is positive.
    pub fn amount(&self) -> (amount: Amount)
        ensures
            amount == self@.amount,
            amount.is_positive(),
    {
        proof {
            use_type_invariant(self);
        }
        self.amount
    }

    /// Where the card stands in its life.
    pub fn status(&self) -> (status: GiftCardStatus)
        ensures
            status == self@.status,
    {
        self.status
    }

    /// When the card was made.
    pub fn created_at(&self) -> (created_at: OffsetDateTime)
        ensures
            created_at == self@.created_at,
    {
        self.created_at
    }

    /// How many updates of the card the store has let through.
    pub fn version(&self) -> (version: i32)
        ensures
            version == self@.version,
    {
        self.version
    }

    /// Takes over the version that the store gave the card's row.
    pub(crate) fn set_version(&mut self, version: i32)
        ensures
            final(self)@ == (GiftCardView { version: version as int, ..old(self)@ }),
    {
        proof {
            use_type_invariant(&*self);
        }
        self.version = version;
    }

    /// Sells the card: `Available` becomes `Sold`. A card in any other status is
    /// refused and stays as it was. The version is not touched.
    pub fn mark_as_sold(&mut self) -> (done: Result<(), GiftCardError>)
        ensures
            match old(self)@.sold() {
                Ok(after) => done is Ok && final(self)@ == after,
                Err(refusal) => done == Err::<(), _>(refusal) && final(self)@ == old(self)@,
            },
            done is Ok ==> old(self)@.status.may_become(final(self)@.status),
    {
        proof {
            use_type_invariant(&*self);
        }
        match self.status {
            GiftCardStatus::Available => {
                self.status = GiftCardStatus::Sold;
                Ok(())
            },
            _ => Err(GiftCardError::NotAvailable { id: self.id, status: self.status }),
        }
    }

    /// Redeems the card: `Sold` becomes `Redeemed`. A card in any other status
    /// is refused and stays as it was. The version is not touched.
    pub fn mark_as_redeemed(&mut self) -> (done: Result<(), GiftCardError>)
        ensures
            match old(self)@.redeemed() {
                Ok(after) => done is Ok && final(self)@ == after,
                Err(refusal) => done == Err::<(), _>(refusal) && final(self)@ == old(self)@,
            },
            done is Ok ==> old(self)@.status.may_become(final(self)@.status),
    {
        proof {
            use_type_invariant(&*self);
        }
        match self.status {
            GiftCardStatus::Sold => {
                self.status = GiftCardStatus::Redeemed;
                Ok(())
            },
            _ => Err(GiftCardError::NotRedeemable { id: self.id, status: self.status }),
        }
    }
}

/// Whether each status of `path` may become the next one in one transition.
pub open spec fn legal_path(path: Seq<GiftCardStatus>) -> bool {
    forall|i: int| 0 <= i < path.len() - 1 ==> (#[trigger] path[i]).may_become(path[i + 1])
}

/// A card that starts `Available` and is moved by legal transitions only never
/// goes back: along the way its status climbs one rank at a time, so the path
/// is ordered by rank and visits no status twice.
pub proof fn lemma_legal_path_climbs(path: Seq<GiftCardStatus>)
    requires
        path.len() > 0,
        path[0] == GiftCardStatus::Available,
        legal_path(path),
    ensures
        forall|i: int| 0 <= i < path.len() ==> (#[trigger] path[i]).rank() == i,
        forall|i: int, j: int|
            0 <= i <= j < path.len() ==> (#[trigger] path[i]).rank() <= (#[trigger] path[j]).rank(),
        path.len() <= 3,
    decreases path.len(),
{
    if path.len() > 1 {
        let shorter = path.drop_last();
        assert forall|i: int| 0 <= i < shorter.len() - 1 implies (#[trigger] shorter[i]).may_become(
            shorter[i + 1],
        ) by {
            assert(path[i].may_become(path[i + 1]));
        }
        lemma_legal_path_climbs(shorter);
        let k = path.len() - 2;
        assert(path[k].may_become(path[k + 1]));
        assert(shorter[k].rank() == k);
        assert forall|i: int| 0 <= i < path.len() implies (#[trigger] path[i]).rank() == i by {
            if i < path.len() - 1 {
                assert(shorter[i].rank() == i);
            }
        }
    }
}

/// A transition changes the status and nothing else: where it goes through,
/// the status moves along a legal edge, one rank up, and a card that was well
/// formed stays so.
pub proof fn lemma_transition_climbs_one_rank(card: GiftCardView)
    ensures
        card.sold() matches Ok(after) ==> {
            &&& card.status.may_become(after.status)
            &&& after.status.rank() == card.status.rank() + 1
            &&& after == GiftCardView { status: after.status, ..card }
            &&& card.well_formed() ==> after.well_formed()
        },
        card.redeemed() matches Ok(after) ==> {
            &&& card.status.may_become(after.status)
            &&& after.status.rank() == card.status.rank() + 1
            &&& after == GiftCardView { status: after.status, ..card }
            &&& card.well_formed() ==> after.well_formed()
        },
{
}

/// The legal edges are exactly the steps from one rank to the next.
pub proof fn lemma_legal_edges(from: GiftCardStatus, to: GiftCardStatus)
    ensures
        from.may_become(to) <==> to.rank() == from.rank() + 1,
        !from.may_become(from),
        !GiftCardStatus::Redeemed.may_become(to),
{
}

} // verus!
