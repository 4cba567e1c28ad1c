//! The escrow state machine as mathematics: for each operation, when it is
//! accepted, which funds it asks the asset ledger to move, and which record
//! it leaves.

use crate::accounting::{
    lemma_none_released, lemma_release_one, lemma_released_within_total, lemma_with_status,
};
use crate::config::ConfigModel;
use crate::errors::EscrowError;
use crate::registry::registry_wf;
use crate::types::{
    all_have, all_positive, net_into_custody, total_of, with_status, EscrowModel, EscrowState,
    MilestoneModel, MilestoneStatus, MovementModel, Resolution, MAX_MILESTONES,
};
use vstd::prelude::*;

verus! {

/// The whole state: the settings and the registry.
pub struct StateModel {
    pub config: ConfigModel,
    pub escrows: Map<u64, EscrowModel>,
}

impl StateModel {
    /// Nothing configured, nothing registered.
    pub open spec fn initial() -> StateModel {
        StateModel { config: ConfigModel::initial(), escrows: Map::empty() }
    }

    /// The settings and every registered escrow are well formed.
    pub open spec fn wf(self) -> bool {
        self.config.wf() && registry_wf(self.escrows)
    }

    /// This state with `escrow` stored under its identifier.
    pub open spec fn with_escrow(self, escrow: EscrowModel) -> StateModel {
        StateModel { escrows: self.escrows.insert(escrow.id, escrow), ..self }
    }

    /// This state with other settings.
    pub open spec fn with_config(self, config: ConfigModel) -> StateModel {
        StateModel { config, ..self }
    }

    /// All that is held in custody for the escrow under `id`.
    pub open spec fn custody(self, id: u64) -> int {
        if self.escrows.contains_key(id) {
            self.escrows[id].custody()
        } else {
            0
        }
    }
}

/// What becomes of an accepted operation once the asset ledger has answered:
/// it fails with `InsufficientFunds` where funds had to move and did not.
pub open spec fn settle(plan: Result<Seq<MovementModel>, EscrowError>, settled: bool) -> Result<
    (),
    EscrowError,
> {
    match plan {
        Err(e) => Err(e),
        Ok(movements) => if movements.len() > 0 && !settled {
            Err(EscrowError::InsufficientFunds)
        } else {
            Ok(())
        },
    }
}

/// Whether an escrow can be created under `id`.
pub open spec fn create_check(
    s: StateModel,
    id: u64,
    depositor: Seq<char>,
    recipient: Seq<char>,
    milestones: Seq<MilestoneModel>,
) -> Result<(), EscrowError> {
    if s.escrows.contains_key(id) {
        Err(EscrowError::DuplicateEscrowId)
    } else if s.config.paused {
        Err(EscrowError::ContractPaused)
    } else if milestones.len() < 1 || milestones.len() > MAX_MILESTONES {
        Err(EscrowError::TooManyMilestones)
    } else if !all_positive(milestones) {
        Err(EscrowError::ZeroAmount)
    } else if depositor == recipient {
        Err(EscrowError::SelfDealing)
    } else if total_of(milestones) > i128::MAX {
        Err(EscrowError::InvalidMilestoneAmount)
    } else {
        Ok(())
    }
}

/// The record of a new escrow: every milestone pending, nothing released.
pub open spec fn created(
    id: u64,
    depositor: Seq<char>,
    recipient: Seq<char>,
    token_address: Seq<char>,
    milestones: Seq<MilestoneModel>,
    deadline: u64,
    now: u64,
) -> EscrowModel {
    EscrowModel {
        id,
        depositor,
        recipient,
        token_address,
        milestones: with_status(milestones, MilestoneStatus::Pending),
        total_amount: total_of(milestones),
        total_released: 0,
        status: EscrowState::Created,
        resolution: Resolution::Undecided,
        deadline,
        created_at: now,
    }
}

/// Whether the escrow under `id` can be funded, and the funds to collect.
pub open spec fn deposit_check(s: StateModel, id: u64) -> Result<Seq<MovementModel>, EscrowError> {
    if s.config.paused {
        Err(EscrowError::ContractPaused)
    } else if !s.escrows.contains_key(id) {
        Err(EscrowError::EscrowNotFound)
    } else if !(s.escrows[id].status is Created) {
        Err(EscrowError::EscrowAlreadyFunded)
    } else {
        Ok(
            seq![
                MovementModel::Collect {
                    token: s.escrows[id].token_address,
                    from: s.escrows[id].depositor,
                    amount: s.escrows[id].total_amount,
                },
            ],
        )
    }
}

/// The record after funding.
pub open spec fn deposited(e: EscrowModel) -> EscrowModel {
    EscrowModel { status: EscrowState::Active, ..e }
}

/// Whether milestone `index` of the escrow under `id` can be released, and
/// the payment to the recipient.
pub open spec fn release_check(s: StateModel, id: u64, index: int) -> Result<
    Seq<MovementModel>,
    EscrowError,
> {
    if !s.escrows.contains_key(id) {
        Err(EscrowError::EscrowNotFound)
    } else if !(s.escrows[id].status is Active) {
        Err(EscrowError::EscrowNotActive)
    } else if !(0 <= index < s.escrows[id].milestones.len()) {
        Err(EscrowError::EscrowNotActive)
    } else if !(s.escrows[id].milestones[index].status is Pending) {
        Err(EscrowError::MilestoneAlreadyReleased)
    } else {
        Ok(
            seq![
                MovementModel::Payout {
                    token: s.escrows[id].token_address,
                    to: s.escrows[id].recipient,
                    amount: s.escrows[id].milestones[index].amount,
                },
            ],
        )
    }
}

/// The record after milestone `index` was released.
pub open spec fn released(e: EscrowModel, index: int) -> EscrowModel {
    EscrowModel {
        milestones: e.milestones.update(
            index,
            MilestoneModel { status: MilestoneStatus::Released, ..e.milestones[index] },
        ),
        total_released: e.total_released + e.milestones[index].amount,
        ..e
    }
}

/// Whether `caller` can confirm delivery of milestone `index`: as for a
/// release, and only the depositor.
pub open spec fn confirm_check(s: StateModel, id: u64, index: int, caller: Seq<char>) -> Result<
    Seq<MovementModel>,
    EscrowError,
> {
    match release_check(s, id, index) {
        Err(e) => Err(e),
        Ok(movements) => if caller != s.escrows[id].depositor {
            Err(EscrowError::Unauthorized)
        } else {
            Ok(movements)
        },
    }
}

/// Whether the escrow under `id` can be completed: active, with every
/// milestone released.
pub open spec fn complete_check(s: StateModel, id: u64) -> Result<(), EscrowError> {
    if !s.escrows.contains_key(id) {
        Err(EscrowError::EscrowNotFound)
    } else if !(s.escrows[id].status is Active) {
        Err(EscrowError::EscrowNotActive)
    } else if !all_have(s.escrows[id].milestones, MilestoneStatus::Released) {
        Err(EscrowError::EscrowNotActive)
    } else {
        Ok(())
    }
}

/// The record after completion.
pub open spec fn completed(e: EscrowModel) -> EscrowModel {
    EscrowModel { status: EscrowState::Completed, ..e }
}

/// The payments that return what is left of `e` to its depositor: the fee to
/// the treasury and the rest to the depositor. Where there is no treasury
/// there is no fee, and all goes to the depositor.
pub open spec fn refund_movements(config: ConfigModel, e: EscrowModel) -> Seq<MovementModel> {
    if e.remainder() <= 0 {
        seq![]
    } else if config.treasury is Some {
        seq![
            MovementModel::Payout {
                token: e.token_address,
                to: config.treasury->0,
                amount: config.fee_on(e.remainder()),
            },
            MovementModel::Payout {
                token: e.token_address,
                to: e.depositor,
                amount: e.remainder() - config.fee_on(e.remainder()),
            },
        ]
    } else {
        seq![
            MovementModel::Payout {
                token: e.token_address,
                to: e.depositor,
                amount: e.remainder(),
            },
        ]
    }
}

/// Whether the escrow under `id` can be cancelled, and the refund. An
/// escrow that was never funded is cancelled without a payment.
pub open spec fn cancel_check(s: StateModel, id: u64) -> Result<Seq<MovementModel>, EscrowError> {
    if !s.escrows.contains_key(id) {
        Err(EscrowError::EscrowNotFound)
    } else if s.escrows[id].status is Active {
        Ok(refund_movements(s.config, s.escrows[id]))
    } else if s.escrows[id].status is Created {
        Ok(seq![])
    } else {
        Err(EscrowError::EscrowNotActive)
    }
}

/// The record after cancellation.
pub open spec fn cancelled(e: EscrowModel) -> EscrowModel {
    EscrowModel { status: EscrowState::Cancelled, ..e }
}

/// Whether `caller` can raise a dispute on the escrow under `id`.
pub open spec fn dispute_check(s: StateModel, id: u64, caller: Seq<char>) -> Result<
    (),
    EscrowError,
> {
    if !s.escrows.contains_key(id) {
        Err(EscrowError::EscrowNotFound)
    } else if !(s.escrows[id].status is Active) {
        Err(EscrowError::EscrowNotActive)
    } else if caller != s.escrows[id].depositor && caller != s.escrows[id].recipient {
        Err(EscrowError::Unauthorized)
    } else {
        Ok(())
    }
}

/// The record after a dispute was raised.
pub open spec fn disputed(e: EscrowModel) -> EscrowModel {
    EscrowModel { status: EscrowState::Disputed, ..e }
}

/// Whether `resolver` can decide the dispute on the escrow under `id` for
/// `winner`, and the payment of what is left to the winner.
pub open spec fn resolve_check(
    s: StateModel,
    id: u64,
    resolver: Seq<char>,
    winner: Seq<char>,
) -> Result<Seq<MovementModel>, EscrowError> {
    if !s.escrows.contains_key(id) {
        Err(EscrowError::EscrowNotFound)
    } else if !(s.escrows[id].status is Disputed) {
        Err(EscrowError::EscrowNotActive)
    } else if !s.config.admits(resolver) {
        Err(EscrowError::Unauthorized)
    } else if winner != s.escrows[id].depositor && winner != s.escrows[id].recipient {
        Err(EscrowError::EscrowNotActive)
    } else if s.escrows[id].remainder() <= 0 {
        Ok(seq![])
    } else {
        Ok(
            seq![
                MovementModel::Payout {
                    token: s.escrows[id].token_address,
                    to: winner,
                    amount: s.escrows[id].remainder(),
                },
            ],
        )
    }
}

/// The record after the dispute was decided for `winner`. For the recipient
/// every milestone is released and the whole amount counts as released; for
/// the depositor every milestone is closed as disputed and the released
/// total stays.
pub open spec fn resolved(e: EscrowModel, winner: Seq<char>) -> EscrowModel {
    if winner == e.recipient {
        EscrowModel {
            milestones: with_status(e.milestones, MilestoneStatus::Released),
            total_released: e.total_amount,
            status: EscrowState::Resolved,
            resolution: Resolution::Recipient,
            ..e
        }
    } else {
        EscrowModel {
            milestones: with_status(e.milestones, MilestoneStatus::Disputed),
            status: EscrowState::Resolved,
            resolution: Resolution::Depositor,
            ..e
        }
    }
}

/// Whether `caller` can take back at `now` what is left of the escrow under
/// `id`, and the refund. Only the depositor can, and whoever else asks is
/// told so whether or not the deadline has passed.
pub open spec fn refund_check(s: StateModel, id: u64, caller: Seq<char>, now: u64) -> Result<
    Seq<MovementModel>,
    EscrowError,
> {
    if !s.escrows.contains_key(id) {
        Err(EscrowError::EscrowNotFound)
    } else if !(s.escrows[id].status is Active) {
        Err(EscrowError::InvalidStatusForRefund)
    } else if caller != s.escrows[id].depositor {
        Err(EscrowError::Unauthorized)
    } else if now < s.escrows[id].deadline {
        Err(EscrowError::DeadlineNotReached)
    } else if s.escrows[id].remainder() <= 0 {
        Err(EscrowError::NoFundsToRefund)
    } else {
        Ok(refund_movements(s.config, s.escrows[id]))
    }
}

/// The record after the refund: the whole amount counts as disbursed.
pub open spec fn refunded(e: EscrowModel) -> EscrowModel {
    EscrowModel { total_released: e.total_amount, status: EscrowState::Expired, ..e }
}

/// One call of the service, with the arguments that decide what it does.
pub enum Call {
    Initialize { treasury: Seq<char>, fee_bps: Option<u32> },
    Init { admin: Seq<char> },
    SetPaused { caller: Seq<char>, paused: bool },
    UpdateFee { caller: Seq<char>, fee_bps: u32 },
    CreateEscrow {
        id: u64,
        depositor: Seq<char>,
        recipient: Seq<char>,
        token_address: Seq<char>,
        milestones: Seq<MilestoneModel>,
        deadline: u64,
        now: u64,
    },
    DepositFunds { id: u64 },
    ReleaseMilestone { id: u64, index: int },
    ConfirmDelivery { id: u64, index: int, caller: Seq<char> },
    CompleteEscrow { id: u64 },
    CancelEscrow { id: u64 },
    RaiseDispute { id: u64, caller: Seq<char> },
    ResolveDispute { id: u64, resolver: Seq<char>, winner: Seq<char> },
    RefundExpired { id: u64, caller: Seq<char>, now: u64 },
}

/// The funds that `call` asks the asset ledger to move in state `s`, or why
/// `call` is rejected. A call that moves no funds has an empty plan.
pub open spec fn plan_of(s: StateModel, call: Call) -> Result<Seq<MovementModel>, EscrowError> {
    match call {
        Call::Initialize { treasury, fee_bps } => match s.config.initialize_check(fee_bps) {
            Ok(_) => Ok(seq![]),
            Err(e) => Err(e),
        },
        Call::Init { admin } => match s.config.init_check() {
            Ok(_) => Ok(seq![]),
            Err(e) => Err(e),
        },
        Call::SetPaused { caller, paused } => match s.config.set_paused_check(caller) {
            Ok(_) => Ok(seq![]),
            Err(e) => Err(e),
        },
        Call::UpdateFee { caller, fee_bps } => match s.config.update_fee_check(caller, fee_bps) {
            Ok(_) => Ok(seq![]),
            Err(e) => Err(e),
        },
        Call::CreateEscrow { id, depositor, recipient, milestones, .. } => match create_check(
            s,
            id,
            depositor,
            recipient,
            milestones,
        ) {
            Ok(_) => Ok(seq![]),
            Err(e) => Err(e),
        },
        Call::DepositFunds { id } => deposit_check(s, id),
        Call::ReleaseMilestone { id, index } => release_check(s, id, index),
        Call::ConfirmDelivery { id, index, caller } => confirm_check(s, id, index, caller),
        Call::CompleteEscrow { id } => match complete_check(s, id) {
            Ok(_) => Ok(seq![]),
            Err(e) => Err(e),
        },
        Call::CancelEscrow { id } => cancel_check(s, id),
        Call::RaiseDispute { id, caller } => match dispute_check(s, id, caller) {
            Ok(_) => Ok(seq![]),
            Err(e) => Err(e),
        },
        Call::ResolveDispute { id, resolver, winner } => resolve_check(s, id, resolver, winner),
        Call::RefundExpired { id, caller, now } => refund_check(s, id, caller, now),
    }
}

/// The state that an accepted `call` leaves.
pub open spec fn effect_of(s: StateModel, call: Call) -> StateModel {
    match call {
        Call::Initialize { treasury, fee_bps } => s.with_config(
            s.config.initialized(treasury, fee_bps),
        ),
        Call::Init { admin } => s.with_config(ConfigModel { admin: Some(admin), ..s.config }),
        Call::SetPaused { caller, paused } => s.with_config(ConfigModel { paused, ..s.config }),
        Call::UpdateFee { caller, fee_bps } => s.with_config(
            ConfigModel { fee_bps: fee_bps as int, ..s.config },
        ),
        Call::CreateEscrow {
            id,
            depositor,
            recipient,
            token_address,
            milestones,
            deadline,
            now,
        } => s.with_escrow(
            created(id, depositor, recipient, token_address, milestones, deadline, now),
        ),
        Call::DepositFunds { id } => s.with_escrow(deposited(s.escrows[id])),
        Call::ReleaseMilestone { id, index } => s.with_escrow(released(s.escrows[id], index)),
        Call::ConfirmDelivery { id, index, caller } => s.with_escrow(
            released(s.escrows[id], index),
        ),
        Call::CompleteEscrow { id } => s.with_escrow(completed(s.escrows[id])),
        Call::CancelEscrow { id } => s.with_escrow(cancelled(s.escrows[id])),
        Call::RaiseDispute { id, caller } => s.with_escrow(disputed(s.escrows[id])),
        Call::ResolveDispute { id, resolver, winner } => s.with_escrow(
            resolved(s.escrows[id], winner),
        ),
        Call::RefundExpired { id, caller, now } => s.with_escrow(refunded(s.escrows[id])),
    }
}

/// What `call` returns in state `s`, the asset ledger having answered
/// `settled` to its plan.
pub open spec fn outcome_of(s: StateModel, call: Call, settled: bool) -> Result<(), EscrowError> {
    settle(plan_of(s, call), settled)
}

/// The state after `call`: that of its effect where it succeeds, and `s`
/// itself where it fails.
pub open spec fn step(s: StateModel, call: Call, settled: bool) -> StateModel {
    if outcome_of(s, call, settled) is Ok {
        effect_of(s, call)
    } else {
        s
    }
}

/// The state after each of `calls` in turn, from `s` on. Each call comes
/// with the answer of the asset ledger to its plan.
pub open spec fn run(s: StateModel, calls: Seq<(Call, bool)>) -> StateModel
    decreases calls.len(),
{
    if calls.len() == 0 {
        s
    } else {
        step(run(s, calls.drop_last()), calls.last().0, calls.last().1)
    }
}

/// The escrow that `call` is about, if it is about one.
pub open spec fn target_of(call: Call) -> Option<u64> {
    match call {
        Call::Initialize { .. } | Call::Init { .. } | Call::SetPaused { .. } | Call::UpdateFee {
            ..
        } => None,
        Call::CreateEscrow { id, .. } => Some(id),
        Call::DepositFunds { id } => Some(id),
        Call::ReleaseMilestone { id, .. } => Some(id),
        Call::ConfirmDelivery { id, .. } => Some(id),
        Call::CompleteEscrow { id } => Some(id),
        Call::CancelEscrow { id } => Some(id),
        Call::RaiseDispute { id, .. } => Some(id),
        Call::ResolveDispute { id, .. } => Some(id),
        Call::RefundExpired { id, .. } => Some(id),
    }
}

/// What `call` moves into custody for the escrow under `id`: the net of its
/// plan where it succeeds and is about that escrow, and nothing otherwise.
pub open spec fn moved_by(s: StateModel, call: Call, settled: bool, id: u64) -> int {
    if outcome_of(s, call, settled) is Ok && target_of(call) == Some(id) {
        net_into_custody(plan_of(s, call)->Ok_0)
    } else {
        0
    }
}

/// What `calls` in turn, from `s` on, move into custody for the escrow
/// under `id`.
pub open spec fn moved_by_all(s: StateModel, calls: Seq<(Call, bool)>, id: u64) -> int
    decreases calls.len(),
{
    if calls.len() == 0 {
        0
    } else {
        moved_by_all(s, calls.drop_last(), id) + moved_by(
            run(s, calls.drop_last()),
            calls.last().0,
            calls.last().1,
            id,
        )
    }
}

/// Funding keeps an escrow well formed.
pub proof fn lemma_deposited_wf(e: EscrowModel)
    requires
        e.wf(),
        e.status is Created,
    ensures
        deposited(e).wf(),
{
    lemma_none_released(e.milestones);
}

/// Releasing a pending milestone keeps an escrow well formed.
pub proof fn lemma_released_wf(e: EscrowModel, index: int)
    requires
        e.wf(),
        e.status is Active,
        0 <= index < e.milestones.len(),
        e.milestones[index].status is Pending,
    ensures
        released(e, index).wf(),
{
    let after = released(e, index);
    lemma_release_one(e.milestones, index);
    lemma_released_within_total(after.milestones);
}

/// Completion keeps an escrow well formed.
pub proof fn lemma_completed_wf(e: EscrowModel)
    requires
        e.wf(),
        e.status is Active,
        all_have(e.milestones, MilestoneStatus::Released),
    ensures
        completed(e).wf(),
{
    lemma_released_within_total(e.milestones);
}

/// Cancellation keeps an escrow well formed.
pub proof fn lemma_cancelled_wf(e: EscrowModel)
    requires
        e.wf(),
        e.status is Created || e.status is Active,
    ensures
        cancelled(e).wf(),
{
    if e.status is Created {
        lemma_none_released(e.milestones);
    }
}

/// Raising a dispute keeps an escrow well formed.
pub proof fn lemma_disputed_wf(e: EscrowModel)
    requires
        e.wf(),
        e.status is Active,
    ensures
        disputed(e).wf(),
{
}

/// Deciding a dispute keeps an escrow well formed.
pub proof fn lemma_resolved_wf(e: EscrowModel, winner: Seq<char>)
    requires
        e.wf(),
        e.status is Disputed,
    ensures
        resolved(e, winner).wf(),
{
    lemma_with_status(e.milestones, MilestoneStatus::Released);
    lemma_with_status(e.milestones, MilestoneStatus::Disputed);
}

/// A refund after the deadline keeps an escrow well formed.
pub proof fn lemma_refunded_wf(e: EscrowModel)
    requires
        e.wf(),
        e.status is Active,
    ensures
        refunded(e).wf(),
{
}

} // verus!
