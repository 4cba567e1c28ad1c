//! The escrow lifecycle engine: the operations on the settings and the
//! registry.
//!
//! The engine moves no funds itself. For an operation that moves funds, the
//! caller asks for its plan, has the asset ledger carry the plan out as one
//! unit, and then calls the operation with the ledger's answer. The
//! operation checks everything again: it changes the record only where the
//! funds have moved, and otherwise fails with `InsufficientFunds`.

use crate::accounting::{
    amounts_positive, is_well_formed, lemma_released_within_total, lemma_with_status, sum_amounts,
};
use crate::config::{identity_of, restorable, Config, ConfigModel};
use crate::errors::EscrowError;
use crate::lifecycle::{
    cancel_check, cancelled, complete_check, completed, confirm_check, create_check, created,
    deposit_check, deposited, dispute_check, disputed, lemma_cancelled_wf, lemma_completed_wf,
    lemma_deposited_wf, lemma_disputed_wf, lemma_refunded_wf, lemma_released_wf,
    lemma_resolved_wf, refund_check, refund_movements, refunded, release_check, released,
    resolve_check, resolved, settle, step, Call, StateModel,
};
use crate::registry::Registry;
use crate::types::{
    milestone_models, movement_models, with_status, Address, Escrow, EscrowCreated, EscrowModel,
    EscrowState, Milestone, MilestoneModel, MilestoneStatus, Movement, MovementModel, Resolution,
    MAX_MILESTONES,
};
use vstd::prelude::*;

verus! {

/// The escrow service: the settings and every escrow.
#[derive(Debug)]
pub struct VaultixEscrow {
    config: Config,
    registry: Registry,
}

impl View for VaultixEscrow {
    type V = StateModel;

    closed spec fn view(&self) -> StateModel {
        StateModel { config: self.config@, escrows: self.registry@ }
    }
}

/// What the notice of a creation says.
pub open spec fn announces(notice: EscrowCreated, escrow: EscrowModel) -> bool {
    &&& notice.id == escrow.id
    &&& notice.depositor@ == escrow.depositor
    &&& notice.recipient@ == escrow.recipient
    &&& notice.token_address@ == escrow.token_address
    &&& notice.total_amount == escrow.total_amount
    &&& notice.deadline == escrow.deadline
}

/// The mathematical value of a plan: the movements it asks for, or why the
/// operation is rejected.
pub open spec fn plan_model(plan: Result<Vec<Movement>, EscrowError>) -> Result<
    Seq<MovementModel>,
    EscrowError,
> {
    match plan {
        Ok(movements) => Ok(movement_models(movements@)),
        Err(e) => Err(e),
    }
}

/// The payments that return what is left of `escrow` to its depositor.
fn refund_plan(config: &Config, escrow: &Escrow) -> (plan: Vec<Movement>)
    requires
        escrow@.wf(),
    ensures
        movement_models(plan@) == refund_movements(config@, escrow@),
{
    let mut plan: Vec<Movement> = Vec::new();
    let remainder: i128 = escrow.total_amount - escrow.total_released;
    if remainder > 0 {
        match config.treasury() {
            Some(treasury) => {
                let fee: i128 = config.fee_on(remainder);
                plan.push(
                    Movement::Payout {
                        token: escrow.token_address.clone(),
                        to: treasury.clone(),
                        amount: fee,
                    },
                );
                plan.push(
                    Movement::Payout {
                        token: escrow.token_address.clone(),
                        to: escrow.depositor.clone(),
                        amount: remainder - fee,
                    },
                );
            },
            None => {
                plan.push(
                    Movement::Payout {
                        token: escrow.token_address.clone(),
                        to: escrow.depositor.clone(),
                        amount: remainder,
                    },
                );
            },
        }
    }
    plan
}

/// Sets every status of `milestones` to `status`.
fn set_statuses(milestones: &mut Vec<Milestone>, status: MilestoneStatus)
    ensures
        milestone_models(final(milestones)@) == with_status(
            milestone_models(old(milestones)@),
            status,
        ),
{
    let mut i: usize = 0;
    while i < milestones.len()
        invariant
            i <= milestones.len(),
            milestones.len() == old(milestones).len(),
            forall|j: int|
                0 <= j < i ==> (#[trigger] milestones@[j])@ == (MilestoneModel {
                    status,
                    ..old(milestones)@[j]@
                }),
            forall|j: int| i <= j < milestones.len() ==> milestones@[j] == old(milestones)@[j],
        decreases milestones.len() - i,
    {
        milestones[i].status = status;
        i += 1;
    }
}

impl VaultixEscrow {
    /// A service with nothing configured and nothing registered.
    pub fn new() -> (s: VaultixEscrow)
        ensures
            s@ == StateModel::initial(),
            s@.wf(),
    {
        VaultixEscrow { config: Config::new(), registry: Registry::new() }
    }

    /// A service with the given settings and nothing registered, to be
    /// filled from stored records with `load_escrow`; `None` where the fee
    /// rate is more than the whole, or not zero without a treasury.
    pub fn restore(
        treasury: Option<Address>,
        admin: Option<Address>,
        fee_bps: u32,
        paused: bool,
    ) -> (s: Option<VaultixEscrow>)
        ensures
            s is Some <==> restorable(treasury, fee_bps),
            s is Some ==> s->0@.wf() && s->0@ == StateModel::initial().with_config(
                ConfigModel {
                    treasury: identity_of(treasury),
                    admin: identity_of(admin),
                    fee_bps: fee_bps as int,
                    paused,
                },
            ),
    {
        match Config::restore(treasury, admin, fee_bps, paused) {
            Some(config) => Some(VaultixEscrow { config, registry: Registry::new() }),
            None => None,
        }
    }

    /// Takes in a stored record. It is refused, and nothing changes, where
    /// the record is not well formed or its identifier is taken.
    pub fn load_escrow(&mut self, escrow: Escrow) -> (loaded: bool)
        requires
            old(self)@.wf(),
        ensures
            final(self)@.wf(),
            loaded == (escrow@.wf() && !old(self)@.escrows.contains_key(escrow@.id)),
            final(self)@ == if loaded {
                old(self)@.with_escrow(escrow@)
            } else {
                old(self)@
            },
    {
        if self.registry.contains(escrow.id) || !is_well_formed(&escrow) {
            return false;
        }
        self.registry.put(escrow);
        true
    }

    /// Sets the treasury and the fee rate, once.
    pub fn initialize(&mut self, treasury: Address, fee_bps: Option<u32>) -> (r: Result<
        (),
        EscrowError,
    >)
        requires
            old(self)@.wf(),
        ensures
            final(self)@.wf(),
            r == old(self)@.config.initialize_check(fee_bps),
            final(self)@ == step(
                old(self)@,
                Call::Initialize { treasury: treasury@, fee_bps },
                true,
            ),
            final(self)@ == if r is Ok {
                old(self)@.with_config(old(self)@.config.initialized(treasury@, fee_bps))
            } else {
                old(self)@
            },
    {
        self.config.initialize(treasury, fee_bps)
    }

    /// Designates the administrator, once.
    pub fn init(&mut self, admin: Address) -> (r: Result<(), EscrowError>)
        requires
            old(self)@.wf(),
        ensures
            final(self)@.wf(),
            r == old(self)@.config.init_check(),
            final(self)@ == step(old(self)@, Call::Init { admin: admin@ }, true),
            final(self)@ == if r is Ok {
                old(self)@.with_config(ConfigModel { admin: Some(admin@), ..old(self)@.config })
            } else {
                old(self)@
            },
    {
        self.config.init(admin)
    }

    /// Suspends or resumes creation and funding, for the administrator.
    pub fn set_paused(&mut self, caller: &Address, paused: bool) -> (r: Result<(), EscrowError>)
        requires
            old(self)@.wf(),
        ensures
            final(self)@.wf(),
            r == old(self)@.config.set_paused_check(caller@),
            final(self)@ == step(old(self)@, Call::SetPaused { caller: caller@, paused }, true),
            final(self)@ == if r is Ok {
                old(self)@.with_config(ConfigModel { paused, ..old(self)@.config })
            } else {
                old(self)@
            },
    {
        self.config.set_paused(caller, paused)
    }

    /// Sets the fee rate, for the administrator, once a treasury is set.
    /// Escrows are refunded at the rate that is set when the refund is made.
    pub fn update_fee(&mut self, caller: &Address, fee_bps: u32) -> (r: Result<(), EscrowError>)
        requires
            old(self)@.wf(),
        ensures
            final(self)@.wf(),
            r == old(self)@.config.update_fee_check(caller@, fee_bps),
            final(self)@ == step(old(self)@, Call::UpdateFee { caller: caller@, fee_bps }, true),
            final(self)@ == if r is Ok {
                old(self)@.with_config(
                    ConfigModel { fee_bps: fee_bps as int, ..old(self)@.config },
                )
            } else {
                old(self)@
            },
    {
        self.config.update_fee(caller, fee_bps)
    }

    /// The settings.
    pub fn config(&self) -> (c: &Config)
        ensures
            c@ == self@.config,
    {
        &self.config
    }

    /// The registry, to look escrows up in.
    pub fn registry(&self) -> (r: &Registry)
        ensures
            r@ == self@.escrows,
    {
        &self.registry
    }

    /// The escrow under `id`, or `EscrowNotFound`.
    pub fn get_escrow(&self, id: u64) -> (r: Result<&Escrow, EscrowError>)
        requires
            self@.wf(),
        ensures
            match r {
                Ok(e) => self@.escrows.contains_key(id) && e@ == self@.escrows[id] && e@.wf(),
                Err(e) => !self@.escrows.contains_key(id) && e == EscrowError::EscrowNotFound,
            },
    {
        self.registry.get(id)
    }

    /// Registers an escrow under `id`, unfunded, with every milestone
    /// pending, and returns the notice of it.
    ///
    /// It fails, in this order, with `DuplicateEscrowId` where `id` is taken,
    /// `ContractPaused`, `TooManyMilestones` for no milestone or more than
    /// the limit, `ZeroAmount` for an amount that is not positive,
    /// `SelfDealing` where depositor and recipient are one, and
    /// `InvalidMilestoneAmount` where the amounts add up to more than an
    /// amount can hold.
    pub fn create_escrow(
        &mut self,
        id: u64,
        depositor: Address,
        recipient: Address,
        token_address: Address,
        milestones: Vec<Milestone>,
        deadline: u64,
        now: u64,
    ) -> (r: Result<EscrowCreated, EscrowError>)
        requires
            old(self)@.wf(),
        ensures
            final(self)@.wf(),
            final(self)@ == step(
                old(self)@,
                Call::CreateEscrow {
                    id,
                    depositor: depositor@,
                    recipient: recipient@,
                    token_address: token_address@,
                    milestones: milestone_models(milestones@),
                    deadline,
                    now,
                },
                true,
            ),
            match r {
                Ok(notice) => {
                    &&& create_check(
                        old(self)@,
                        id,
                        depositor@,
                        recipient@,
                        milestone_models(milestones@),
                    ) is Ok
                    &&& final(self)@ == old(self)@.with_escrow(
                        created(
                            id,
                            depositor@,
                            recipient@,
                            token_address@,
                            milestone_models(milestones@),
                            deadline,
                            now,
                        ),
                    )
                    &&& announces(notice, final(self)@.escrows[id])
                },
                Err(e) => create_check(
                    old(self)@,
                    id,
                    depositor@,
                    recipient@,
                    milestone_models(milestones@),
                ) == Err::<(), EscrowError>(e) && final(self)@ == old(self)@,
            },
    {
        let ghost models = milestone_models(milestones@);
        if self.registry.contains(id) {
            return Err(EscrowError::DuplicateEscrowId);
        }
        if self.config.is_paused() {
            return Err(EscrowError::ContractPaused);
        }
        if milestones.len() < 1 || milestones.len() > MAX_MILESTONES {
            return Err(EscrowError::TooManyMilestones);
        }
        if !amounts_positive(&milestones) {
            return Err(EscrowError::ZeroAmount);
        }
        if depositor.same(&recipient) {
            return Err(EscrowError::SelfDealing);
        }
        let total: i128 = match sum_amounts(&milestones) {
            Some(total) => total,
            None => {
                return Err(EscrowError::InvalidMilestoneAmount);
            },
        };
        let mut milestones = milestones;
        set_statuses(&mut milestones, MilestoneStatus::Pending);
        let notice = EscrowCreated {
            id,
            depositor: depositor.clone(),
            recipient: recipient.clone(),
            token_address: token_address.clone(),
            total_amount: total,
            deadline,
        };
        let escrow = Escrow {
            id,
            depositor,
            recipient,
            token_address,
            milestones,
            total_amount: total,
            total_released: 0,
            status: EscrowState::Created,
            resolution: Resolution::Undecided,
            deadline,
            created_at: now,
        };
        proof {
            lemma_with_status(models, MilestoneStatus::Pending);
            lemma_released_within_total(models);
        }
        self.registry.put(escrow);
        Ok(notice)
    }

    /// The funds to collect before `deposit_funds`: the whole amount, from
    /// the depositor.
    pub fn plan_deposit(&self, id: u64) -> (plan: Result<Vec<Movement>, EscrowError>)
        requires
            self@.wf(),
        ensures
            plan_model(plan) == deposit_check(self@, id),
    {
        if self.config.is_paused() {
            return Err(EscrowError::ContractPaused);
        }
        let escrow = match self.registry.get(id) {
            Ok(escrow) => escrow,
            Err(e) => {
                return Err(e);
            },
        };
        if escrow.status != EscrowState::Created {
            return Err(EscrowError::EscrowAlreadyFunded);
        }
        let mut plan: Vec<Movement> = Vec::new();
        plan.push(
            Movement::Collect {
                token: escrow.token_address.clone(),
                from: escrow.depositor.clone(),
                amount: escrow.total_amount,
            },
        );
        assert(movement_models(plan@) =~= deposit_check(self@, id)->Ok_0);
        Ok(plan)
    }

    /// Marks the escrow under `id` as funded, once the whole amount was
    /// collected.
    ///
    /// It fails with `ContractPaused`, `EscrowNotFound`, `EscrowAlreadyFunded`
    /// where the escrow is not newly created, and `InsufficientFunds` where
    /// the amount was not collected.
    pub fn deposit_funds(&mut self, id: u64, settled: bool) -> (r: Result<(), EscrowError>)
        requires
            old(self)@.wf(),
        ensures
            final(self)@.wf(),
            r == settle(deposit_check(old(self)@, id), settled),
            final(self)@ == step(old(self)@, Call::DepositFunds { id }, settled),
            final(self)@ == if r is Ok {
                old(self)@.with_escrow(deposited(old(self)@.escrows[id]))
            } else {
                old(self)@
            },
    {
        match self.plan_deposit(id) {
            Err(e) => {
                return Err(e);
            },
            Ok(plan) => {
                if plan.len() > 0 && !settled {
                    return Err(EscrowError::InsufficientFunds);
                }
            },
        }
        match self.registry.take(id) {
            None => Err(EscrowError::EscrowNotFound),
            Some(escrow) => {
                let mut escrow = escrow;
                escrow.status = EscrowState::Active;
                proof {
                    lemma_deposited_wf(old(self)@.escrows[id]);
                }
                self.registry.put(escrow);
                proof {
                    assert(self@.escrows =~= old(self)@.escrows.insert(
                        id,
                        deposited(old(self)@.escrows[id]),
                    ));
                }
                Ok(())
            },
        }
    }

    /// The payment to make before `release_milestone`: the milestone's
    /// amount, to the recipient.
    pub fn plan_release(&self, id: u64, index: u32) -> (plan: Result<Vec<Movement>, EscrowError>)
        requires
            self@.wf(),
        ensures
            plan_model(plan) == release_check(self@, id, index as int),
    {
        let escrow = match self.registry.get(id) {
            Ok(escrow) => escrow,
            Err(e) => {
                return Err(e);
            },
        };
        if escrow.status != EscrowState::Active {
            return Err(EscrowError::EscrowNotActive);
        }
        let i: usize = index as usize;
        if i >= escrow.milestones.len() {
            return Err(EscrowError::EscrowNotActive);
        }
        if escrow.milestones[i].status != MilestoneStatus::Pending {
            return Err(EscrowError::MilestoneAlreadyReleased);
        }
        let mut plan: Vec<Movement> = Vec::new();
        plan.push(
            Movement::Payout {
                token: escrow.token_address.clone(),
                to: escrow.recipient.clone(),
                amount: escrow.milestones[i].amount,
            },
        );
        assert(movement_models(plan@) =~= release_check(self@, id, index as int)->Ok_0);
        Ok(plan)
    }

    /// Takes the escrow under `id` out, releases its milestone `index` and
    /// puts it back.
    fn commit_release(&mut self, id: u64, index: u32)
        requires
            old(self)@.wf(),
            release_check(old(self)@, id, index as int) is Ok,
        ensures
            final(self)@.wf(),
            final(self)@ == old(self)@.with_escrow(released(old(self)@.escrows[id], index as int)),
    {
        match self.registry.take(id) {
            None => {},
            Some(escrow) => {
                let mut escrow = escrow;
                let i: usize = index as usize;
                let ghost before = escrow@;
                proof {
                    lemma_released_wf(before, index as int);
                }
                let amount: i128 = escrow.milestones[i].amount;
                escrow.milestones[i].status = MilestoneStatus::Released;
                escrow.total_released = escrow.total_released + amount;
                proof {
                    assert(escrow@.milestones =~= released(before, index as int).milestones);
                }
                self.registry.put(escrow);
                proof {
                    assert(self@.escrows =~= old(self)@.escrows.insert(
                        id,
                        released(old(self)@.escrows[id], index as int),
                    ));
                }
            },
        }
    }

    /// Releases milestone `index` of the escrow under `id`, once its amount
    /// was paid to the recipient. The escrow stays active: completion is a
    /// step of its own.
    ///
    /// It fails with `EscrowNotFound`, `EscrowNotActive` where the escrow is
    /// not active or has no milestone `index`, `MilestoneAlreadyReleased`
    /// where the milestone is not pending, and `InsufficientFunds` where the
    /// payment was not made.
    pub fn release_milestone(&mut self, id: u64, index: u32, settled: bool) -> (r: Result<
        (),
        EscrowError,
    >)
        requires
            old(self)@.wf(),
        ensures
            final(self)@.wf(),
            r == settle(release_check(old(self)@, id, index as int), settled),
            final(self)@ == step(
                old(self)@,
                Call::ReleaseMilestone { id, index: index as int },
                settled,
            ),
            final(self)@ == if r is Ok {
                old(self)@.with_escrow(released(old(self)@.escrows[id], index as int))
            } else {
                old(self)@
            },
    {
        match self.plan_release(id, index) {
            Err(e) => {
                return Err(e);
            },
            Ok(plan) => {
                if plan.len() > 0 && !settled {
                    return Err(EscrowError::InsufficientFunds);
                }
            },
        }
        self.commit_release(id, index);
        Ok(())
    }

    /// The payment to make before `confirm_delivery`: as for a release,
    /// where `caller` is the depositor.
    pub fn plan_confirm(&self, id: u64, index: u32, caller: &Address) -> (plan: Result<
        Vec<Movement>,
        EscrowError,
    >)
        requires
            self@.wf(),
        ensures
            plan_model(plan) == confirm_check(self@, id, index as int, caller@),
    {
        let plan = match self.plan_release(id, index) {
            Ok(plan) => plan,
            Err(e) => {
                return Err(e);
            },
        };
        let escrow = match self.registry.get(id) {
            Ok(escrow) => escrow,
            Err(e) => {
                return Err(e);
            },
        };
        if !caller.same(&escrow.depositor) {
            return Err(EscrowError::Unauthorized);
        }
        Ok(plan)
    }

    /// Releases milestone `index` of the escrow under `id` on the
    /// depositor's confirmation, once its amount was paid to the recipient.
    ///
    /// It fails as `release_milestone` does, and after those checks with
    /// `Unauthorized` where `caller` is not the depositor.
    pub fn confirm_delivery(&mut self, id: u64, index: u32, caller: &Address, settled: bool) -> (r:
        Result<(), EscrowError>)
        requires
            old(self)@.wf(),
        ensures
            final(self)@.wf(),
            r == settle(confirm_check(old(self)@, id, index as int, caller@), settled),
            final(self)@ == step(
                old(self)@,
                Call::ConfirmDelivery { id, index: index as int, caller: caller@ },
                settled,
            ),
            final(self)@ == if r is Ok {
                old(self)@.with_escrow(released(old(self)@.escrows[id], index as int))
            } else {
                old(self)@
            },
    {
        match self.plan_confirm(id, index, caller) {
            Err(e) => {
                return Err(e);
            },
            Ok(plan) => {
                if plan.len() > 0 && !settled {
                    return Err(EscrowError::InsufficientFunds);
                }
            },
        }
        self.commit_release(id, index);
        Ok(())
    }

    /// Closes the escrow under `id` as completed.
    ///
    /// It fails with `EscrowNotFound`, and with `EscrowNotActive` where the
    /// escrow is not active or a milestone is not released yet.
    pub fn complete_escrow(&mut self, id: u64) -> (r: Result<(), EscrowError>)
        requires
            old(self)@.wf(),
        ensures
            final(self)@.wf(),
            r == complete_check(old(self)@, id),
            final(self)@ == step(old(self)@, Call::CompleteEscrow { id }, true),
            final(self)@ == if r is Ok {
                old(self)@.with_escrow(completed(old(self)@.escrows[id]))
            } else {
                old(self)@
            },
    {
        let escrow = match self.registry.get(id) {
            Ok(escrow) => escrow,
            Err(e) => {
                return Err(e);
            },
        };
        if escrow.status != EscrowState::Active {
            return Err(EscrowError::EscrowNotActive);
        }
        proof {
            lemma_released_within_total(escrow@.milestones);
        }
        if escrow.total_released != escrow.total_amount {
            return Err(EscrowError::EscrowNotActive);
        }
        match self.registry.take(id) {
            None => Err(EscrowError::EscrowNotFound),
            Some(escrow) => {
                let mut escrow = escrow;
                escrow.status = EscrowState::Completed;
                proof {
                    lemma_completed_wf(old(self)@.escrows[id]);
                }
                self.registry.put(escrow);
                proof {
                    assert(self@.escrows =~= old(self)@.escrows.insert(
                        id,
                        completed(old(self)@.escrows[id]),
                    ));
                }
                Ok(())
            },
        }
    }

    /// The payments to make before `cancel_escrow`: for a funded escrow
    /// with something left, the fee to the treasury and the rest to the
    /// depositor; none for an escrow that was never funded.
    pub fn plan_cancel(&self, id: u64) -> (plan: Result<Vec<Movement>, EscrowError>)
        requires
            self@.wf(),
        ensures
            plan_model(plan) == cancel_check(self@, id),
    {
        let escrow = match self.registry.get(id) {
            Ok(escrow) => escrow,
            Err(e) => {
                return Err(e);
            },
        };
        if escrow.status == EscrowState::Active {
            Ok(refund_plan(&self.config, escrow))
        } else if escrow.status == EscrowState::Created {
            let plan: Vec<Movement> = Vec::new();
            assert(movement_models(plan@) =~= Seq::<MovementModel>::empty());
            Ok(plan)
        } else {
            Err(EscrowError::EscrowNotActive)
        }
    }

    /// Closes the escrow under `id` as cancelled, once what was left was
    /// refunded.
    ///
    /// It fails with `EscrowNotFound`, `EscrowNotActive` where the escrow is
    /// disputed or closed, and `InsufficientFunds` where a refund was due and
    /// not made.
    pub fn cancel_escrow(&mut self, id: u64, settled: bool) -> (r: Result<(), EscrowError>)
        requires
            old(self)@.wf(),
        ensures
            final(self)@.wf(),
            r == settle(cancel_check(old(self)@, id), settled),
            final(self)@ == step(old(self)@, Call::CancelEscrow { id }, settled),
            final(self)@ == if r is Ok {
                old(self)@.with_escrow(cancelled(old(self)@.escrows[id]))
            } else {
                old(self)@
            },
    {
        match self.plan_cancel(id) {
            Err(e) => {
                return Err(e);
            },
            Ok(plan) => {
                if plan.len() > 0 && !settled {
                    return Err(EscrowError::InsufficientFunds);
                }
            },
        }
        match self.registry.take(id) {
            None => Err(EscrowError::EscrowNotFound),
            Some(escrow) => {
                let mut escrow = escrow;
                escrow.status = EscrowState::Cancelled;
                proof {
                    lemma_cancelled_wf(old(self)@.escrows[id]);
                }
                self.registry.put(escrow);
                proof {
                    assert(self@.escrows =~= old(self)@.escrows.insert(
                        id,
                        cancelled(old(self)@.escrows[id]),
                    ));
                }
                Ok(())
            },
        }
    }

    /// Freezes the escrow under `id` until the administrator decides.
    ///
    /// It fails with `EscrowNotFound`, `EscrowNotActive` where the escrow is
    /// not active (a dispute cannot be raised twice), and `Unauthorized`
    /// where `caller` is neither the depositor nor the recipient.
    pub fn raise_dispute(&mut self, id: u64, caller: &Address) -> (r: Result<(), EscrowError>)
        requires
            old(self)@.wf(),
        ensures
            final(self)@.wf(),
            r == dispute_check(old(self)@, id, caller@),
            final(self)@ == step(old(self)@, Call::RaiseDispute { id, caller: caller@ }, true),
            final(self)@ == if r is Ok {
                old(self)@.with_escrow(disputed(old(self)@.escrows[id]))
            } else {
                old(self)@
            },
    {
        let escrow = match self.registry.get(id) {
            Ok(escrow) => escrow,
            Err(e) => {
                return Err(e);
            },
        };
        if escrow.status != EscrowState::Active {
            return Err(EscrowError::EscrowNotActive);
        }
        if !caller.same(&escrow.depositor) && !caller.same(&escrow.recipient) {
            return Err(EscrowError::Unauthorized);
        }
        match self.registry.take(id) {
            None => Err(EscrowError::EscrowNotFound),
            Some(escrow) => {
                let mut escrow = escrow;
                escrow.status = EscrowState::Disputed;
                proof {
                    lemma_disputed_wf(old(self)@.escrows[id]);
                }
                self.registry.put(escrow);
                proof {
                    assert(self@.escrows =~= old(self)@.escrows.insert(
                        id,
                        disputed(old(self)@.escrows[id]),
                    ));
                }
                Ok(())
            },
        }
    }

    /// The payment to make before `resolve_dispute`: all that is left, to
    /// the winner, without a fee.
    pub fn plan_resolve(&self, id: u64, resolver: &Address, winner: &Address) -> (plan: Result<
        Vec<Movement>,
        EscrowError,
    >)
        requires
            self@.wf(),
        ensures
            plan_model(plan) == resolve_check(self@, id, resolver@, winner@),
    {
        let escrow = match self.registry.get(id) {
            Ok(escrow) => escrow,
            Err(e) => {
                return Err(e);
            },
        };
        if escrow.status != EscrowState::Disputed {
            return Err(EscrowError::EscrowNotActive);
        }
        if !self.config.is_admin(resolver) {
            return Err(EscrowError::Unauthorized);
        }
        if !winner.same(&escrow.depositor) && !winner.same(&escrow.recipient) {
            return Err(EscrowError::EscrowNotActive);
        }
        let mut plan: Vec<Movement> = Vec::new();
        let remainder: i128 = escrow.total_amount - escrow.total_released;
        if remainder > 0 {
            plan.push(
                Movement::Payout {
                    token: escrow.token_address.clone(),
                    to: winner.clone(),
                    amount: remainder,
                },
            );
        }
        assert(movement_models(plan@) =~= resolve_check(self@, id, resolver@, winner@)->Ok_0);
        Ok(plan)
    }

    /// Closes the dispute on the escrow under `id` for `winner`, once what
    /// was left was paid to the winner. For the recipient every milestone
    /// becomes released and the whole amount counts as released; for the
    /// depositor every milestone is closed as disputed, and what was
    /// released before stays released.
    ///
    /// It fails with `EscrowNotFound`, `EscrowNotActive` where the escrow is
    /// not disputed, `Unauthorized` where `resolver` is not the
    /// administrator, `EscrowNotActive` where `winner` is neither party, and
    /// `InsufficientFunds` where a payment was due and not made.
    pub fn resolve_dispute(
        &mut self,
        id: u64,
        resolver: &Address,
        winner: &Address,
        settled: bool,
    ) -> (r: Result<(), EscrowError>)
        requires
            old(self)@.wf(),
        ensures
            final(self)@.wf(),
            r == settle(resolve_check(old(self)@, id, resolver@, winner@), settled),
            final(self)@ == step(
                old(self)@,
                Call::ResolveDispute { id, resolver: resolver@, winner: winner@ },
                settled,
            ),
            final(self)@ == if r is Ok {
                old(self)@.with_escrow(resolved(old(self)@.escrows[id], winner@))
            } else {
                old(self)@
            },
    {
        match self.plan_resolve(id, resolver, winner) {
            Err(e) => {
                return Err(e);
            },
            Ok(plan) => {
                if plan.len() > 0 && !settled {
                    return Err(EscrowError::InsufficientFunds);
                }
            },
        }
        match self.registry.take(id) {
            None => Err(EscrowError::EscrowNotFound),
            Some(escrow) => {
                let mut escrow = escrow;
                if winner.same(&escrow.recipient) {
                    set_statuses(&mut escrow.milestones, MilestoneStatus::Released);
                    escrow.total_released = escrow.total_amount;
                    escrow.resolution = Resolution::Recipient;
                } else {
                    set_statuses(&mut escrow.milestones, MilestoneStatus::Disputed);
                    escrow.resolution = Resolution::Depositor;
                }
                escrow.status = EscrowState::Resolved;
                proof {
                    lemma_resolved_wf(old(self)@.escrows[id], winner@);
                }
                self.registry.put(escrow);
                proof {
                    assert(self@.escrows =~= old(self)@.escrows.insert(
                        id,
                        resolved(old(self)@.escrows[id], winner@),
                    ));
                }
                Ok(())
            },
        }
    }

    /// The payments to make before `refund_expired`: the fee to the
    /// treasury and the rest to the depositor. A caller other than the
    /// depositor is `Unauthorized`, before the deadline as after it.
    pub fn plan_refund(&self, id: u64, caller: &Address, now: u64) -> (plan: Result<
        Vec<Movement>,
        EscrowError,
    >)
        requires
            self@.wf(),
        ensures
            plan_model(plan) == refund_check(self@, id, caller@, now),
    {
        let escrow = match self.registry.get(id) {
            Ok(escrow) => escrow,
            Err(e) => {
                return Err(e);
            },
        };
        if escrow.status != EscrowState::Active {
            return Err(EscrowError::InvalidStatusForRefund);
        }
        if !caller.same(&escrow.depositor) {
            return Err(EscrowError::Unauthorized);
        }
        if now < escrow.deadline {
            return Err(EscrowError::DeadlineNotReached);
        }
        if escrow.total_amount - escrow.total_released <= 0 {
            return Err(EscrowError::NoFundsToRefund);
        }
        Ok(refund_plan(&self.config, escrow))
    }

    /// Closes the escrow under `id` as expired at `now`, once what was left
    /// was refunded. The whole amount then counts as disbursed.
    ///
    /// It fails, in this order, with `EscrowNotFound`,
    /// `InvalidStatusForRefund` where the escrow is not active,
    /// `Unauthorized` where `caller` is not the depositor, whether or not
    /// the deadline has passed, `DeadlineNotReached` where `now` is before
    /// the deadline, `NoFundsToRefund` where nothing is left, and
    /// `InsufficientFunds` where the refund was not made.
    pub fn refund_expired(&mut self, id: u64, caller: &Address, now: u64, settled: bool) -> (r:
        Result<(), EscrowError>)
        requires
            old(self)@.wf(),
        ensures
            final(self)@.wf(),
            r == settle(refund_check(old(self)@, id, caller@, now), settled),
            final(self)@ == step(
                old(self)@,
                Call::RefundExpired { id, caller: caller@, now },
                settled,
            ),
            final(self)@ == if r is Ok {
                old(self)@.with_escrow(refunded(old(self)@.escrows[id]))
            } else {
                old(self)@
            },
    {
        match self.plan_refund(id, caller, now) {
            Err(e) => {
                return Err(e);
            },
            Ok(plan) => {
                if plan.len() > 0 && !settled {
                    return Err(EscrowError::InsufficientFunds);
                }
            },
        }
        match self.registry.take(id) {
            None => Err(EscrowError::EscrowNotFound),
            Some(escrow) => {
                let mut escrow = escrow;
                escrow.total_released = escrow.total_amount;
                escrow.status = EscrowState::Expired;
                proof {
                    lemma_refunded_wf(old(self)@.escrows[id]);
                }
                self.registry.put(escrow);
                proof {
                    assert(self@.escrows =~= old(self)@.escrows.insert(
                        id,
                        refunded(old(self)@.escrows[id]),
                    ));
                }
                Ok(())
            },
        }
    }
}

} // verus!
