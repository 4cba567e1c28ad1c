//! The records of the escrow registry and their mathematical models.

use vstd::prelude::*;

verus! {

/// An identity on the ledger: a party, an asset or an administrator.
#[derive(Debug)]
pub struct Address {
    key: String,
}

impl View for Address {
    type V = Seq<char>;

    closed spec fn view(&self) -> Seq<char> {
        self.key@
    }
}

impl Address {
    /// The identity written as `key`.
    pub fn new(key: &str) -> (a: Address)
        ensures
            a@ == key@,
    {
        Address { key: key.to_owned() }
    }

    /// The text this identity was made from.
    pub fn as_str(&self) -> (key: &str)
        ensures
            key@ == self@,
    {
        self.key.as_str()
    }

    /// Whether two values name the same identity.
    pub fn same(&self, other: &Address) -> (r: bool)
        ensures
            r == (self@ == other@),
    {
        self.key == other.key
    }
}

impl Clone for Address {
    fn clone(&self) -> (r: Address)
        ensures
            r@ == self@,
    {
        Address { key: self.key.clone() }
    }
}

impl PartialEq for Address {
    fn eq(&self, other: &Address) -> (r: bool) {
        self.key == other.key
    }
}

impl Eq for Address {}

impl vstd::std_specs::cmp::PartialEqSpecImpl for Address {
    open spec fn obeys_eq_spec() -> bool {
        true
    }

    open spec fn eq_spec(&self, other: &Address) -> bool {
        self@ == other@
    }
}

/// How far a milestone has come.
#[derive(Clone, Copy, Debug, PartialEq, Eq, Structural)]
pub enum MilestoneStatus {
    /// Not paid out yet.
    Pending,
    /// Paid out to the recipient.
    Released,
    /// Closed by a dispute decided for the depositor; never payable.
    Disputed,
}

/// One portion of an escrow, payable on delivery.
#[derive(Clone, Debug, PartialEq, Eq)]
pub struct Milestone {
    pub amount: i128,
    pub status: MilestoneStatus,
    pub description: String,
}

/// The mathematical value of a [`Milestone`].
pub struct MilestoneModel {
    pub amount: int,
    pub status: MilestoneStatus,
    pub description: Seq<char>,
}

impl View for Milestone {
    type V = MilestoneModel;

    open spec fn view(&self) -> MilestoneModel {
        MilestoneModel {
            amount: self.amount as int,
            status: self.status,
            description: self.description@,
        }
    }
}

/// Where an escrow stands in its life.
#[derive(Clone, Copy, Debug, PartialEq, Eq, Structural)]
pub enum EscrowState {
    /// Registered; no funds held.
    Created,
    /// Funded; milestones may be released.
    Active,
    /// Frozen until the administrator decides.
    Disputed,
    /// Closed by the administrator's decision.
    Resolved,
    /// Closed after every milestone was released.
    Completed,
    /// Closed early; what was held went back to the depositor.
    Cancelled,
    /// Closed after the deadline; what was held went back to the depositor.
    Expired,
}

/// For whom a dispute was decided.
#[derive(Clone, Copy, Debug, PartialEq, Eq, Structural)]
pub enum Resolution {
    /// No dispute has been decided.
    Undecided,
    /// The depositor takes back what was still held.
    Depositor,
    /// The recipient is paid what was still held.
    Recipient,
}

/// The most milestones one escrow can have.
pub const MAX_MILESTONES: usize = 20;

/// One escrow as the registry keeps it.
#[derive(Clone, Debug, PartialEq, Eq)]
pub struct Escrow {
    pub id: u64,
    pub depositor: Address,
    pub recipient: Address,
    pub token_address: Address,
    pub milestones: Vec<Milestone>,
    pub total_amount: i128,
    pub total_released: i128,
    pub status: EscrowState,
    pub resolution: Resolution,
    pub deadline: u64,
    pub created_at: u64,
}

/// The mathematical value of an [`Escrow`].
pub struct EscrowModel {
    pub id: u64,
    pub depositor: Seq<char>,
    pub recipient: Seq<char>,
    pub token_address: Seq<char>,
    pub milestones: Seq<MilestoneModel>,
    pub total_amount: int,
    pub total_released: int,
    pub status: EscrowState,
    pub resolution: Resolution,
    pub deadline: u64,
    pub created_at: u64,
}

/// The models of a list of milestones, in order.
pub open spec fn milestone_models(milestones: Seq<Milestone>) -> Seq<MilestoneModel> {
    Seq::new(milestones.len(), |i: int| milestones[i]@)
}

impl View for Escrow {
    type V = EscrowModel;

    open spec fn view(&self) -> EscrowModel {
        EscrowModel {
            id: self.id,
            depositor: self.depositor@,
            recipient: self.recipient@,
            token_address: self.token_address@,
            milestones: milestone_models(self.milestones@),
            total_amount: self.total_amount as int,
            total_released: self.total_released as int,
            status: self.status,
            resolution: self.resolution,
            deadline: self.deadline,
            created_at: self.created_at,
        }
    }
}

/// The sum of the amounts of `milestones`.
pub open spec fn total_of(milestones: Seq<MilestoneModel>) -> int
    decreases milestones.len(),
{
    if milestones.len() == 0 {
        0
    } else {
        total_of(milestones.drop_last()) + milestones.last().amount
    }
}

/// The sum of the amounts of those of `milestones` that are released.
pub open spec fn released_of(milestones: Seq<MilestoneModel>) -> int
    decreases milestones.len(),
{
    if milestones.len() == 0 {
        0
    } else {
        released_of(milestones.drop_last()) + if milestones.last().status is Released {
            milestones.last().amount
        } else {
            0
        }
    }
}

/// Every amount of `milestones` is positive.
pub open spec fn all_positive(milestones: Seq<MilestoneModel>) -> bool {
    forall|i: int| 0 <= i < milestones.len() ==> (#[trigger] milestones[i]).amount > 0
}

/// No one of `milestones` is closed as disputed.
pub open spec fn none_disputed(milestones: Seq<MilestoneModel>) -> bool {
    forall|i: int| 0 <= i < milestones.len() ==> !((#[trigger] milestones[i]).status is Disputed)
}

/// Every one of `milestones` has the status `status`.
pub open spec fn all_have(milestones: Seq<MilestoneModel>, status: MilestoneStatus) -> bool {
    forall|i: int| 0 <= i < milestones.len() ==> (#[trigger] milestones[i]).status == status
}

/// `milestones` with every status replaced by `status`.
pub open spec fn with_status(milestones: Seq<MilestoneModel>, status: MilestoneStatus) -> Seq<
    MilestoneModel,
> {
    Seq::new(
        milestones.len(),
        |i: int| MilestoneModel { status: status, ..milestones[i] },
    )
}

impl EscrowModel {
    /// What is not released yet.
    pub open spec fn remainder(self) -> int {
        self.total_amount - self.total_released
    }

    /// What is held in custody for this escrow.
    pub open spec fn custody(self) -> int {
        if self.status is Active || self.status is Disputed {
            self.remainder()
        } else {
            0
        }
    }

    /// No further transition leaves this state.
    pub open spec fn is_closed(self) -> bool {
        self.status is Resolved || self.status is Completed || self.status is Cancelled
            || self.status is Expired
    }

    /// The amounts and parties are those an escrow can be created with.
    pub open spec fn well_funded(self) -> bool {
        &&& 1 <= self.milestones.len() <= MAX_MILESTONES
        &&& all_positive(self.milestones)
        &&& self.total_amount == total_of(self.milestones)
        &&& 0 <= self.total_released <= self.total_amount <= i128::MAX
        &&& self.depositor != self.recipient
    }

    /// The released total and the milestone statuses fit the state.
    pub open spec fn well_tracked(self) -> bool {
        &&& self.status is Resolved <==> !(self.resolution is Undecided)
        &&& match self.status {
            EscrowState::Created => self.total_released == 0 && all_have(
                self.milestones,
                MilestoneStatus::Pending,
            ),
            EscrowState::Active | EscrowState::Disputed | EscrowState::Cancelled => {
                &&& self.total_released == released_of(self.milestones)
                &&& none_disputed(self.milestones)
            },
            EscrowState::Completed => self.total_released == self.total_amount && all_have(
                self.milestones,
                MilestoneStatus::Released,
            ),
            EscrowState::Expired => self.total_released == self.total_amount,
            EscrowState::Resolved => match self.resolution {
                Resolution::Recipient => self.total_released == self.total_amount && all_have(
                    self.milestones,
                    MilestoneStatus::Released,
                ),
                Resolution::Depositor => all_have(self.milestones, MilestoneStatus::Disputed),
                Resolution::Undecided => false,
            },
        }
    }

    /// The invariant of every registered escrow.
    pub open spec fn wf(self) -> bool {
        self.well_funded() && self.well_tracked()
    }
}

/// Funds that the asset ledger is asked to move.
#[derive(Clone, Debug, PartialEq, Eq)]
pub enum Movement {
    /// From `from` into custody, on the allowance `from` gave.
    Collect { token: Address, from: Address, amount: i128 },
    /// Out of custody to `to`.
    Payout { token: Address, to: Address, amount: i128 },
}

/// The mathematical value of a [`Movement`].
pub enum MovementModel {
    Collect { token: Seq<char>, from: Seq<char>, amount: int },
    Payout { token: Seq<char>, to: Seq<char>, amount: int },
}

impl View for Movement {
    type V = MovementModel;

    open spec fn view(&self) -> MovementModel {
        match self {
            Movement::Collect { token, from, amount } => MovementModel::Collect {
                token: token@,
                from: from@,
                amount: *amount as int,
            },
            Movement::Payout { token, to, amount } => MovementModel::Payout {
                token: token@,
                to: to@,
                amount: *amount as int,
            },
        }
    }
}

/// The models of a list of movements, in order.
pub open spec fn movement_models(movements: Seq<Movement>) -> Seq<MovementModel> {
    Seq::new(movements.len(), |i: int| movements[i]@)
}

/// What `movements` add to custody: what they collect less what they pay out.
pub open spec fn net_into_custody(movements: Seq<MovementModel>) -> int
    decreases movements.len(),
{
    if movements.len() == 0 {
        0
    } else {
        net_into_custody(movements.drop_last()) + match movements.last() {
            MovementModel::Collect { amount, .. } => amount,
            MovementModel::Payout { amount, .. } => -amount,
        }
    }
}

/// What `movements` pay out of custody to `who`.
pub open spec fn paid_to(movements: Seq<MovementModel>, who: Seq<char>) -> int
    decreases movements.len(),
{
    if movements.len() == 0 {
        0
    } else {
        paid_to(movements.drop_last(), who) + match movements.last() {
            MovementModel::Payout { to, amount, .. } => if to == who {
                amount
            } else {
                0
            },
            MovementModel::Collect { .. } => 0,
        }
    }
}

/// The notice that an escrow was registered.
#[derive(Clone, Debug, PartialEq, Eq)]
pub struct EscrowCreated {
    pub id: u64,
    pub depositor: Address,
    pub recipient: Address,
    pub token_address: Address,
    pub total_amount: i128,
    pub deadline: u64,
}

} // verus!
