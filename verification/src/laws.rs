//! What holds of the escrow state machine, whatever the calls.

use crate::accounting::{lemma_released_within_total, lemma_with_status};
use crate::config::ConfigModel;
use crate::errors::EscrowError;
use crate::fees::fee_of;
use crate::lifecycle::{
    cancel_check, cancelled, complete_check, completed, confirm_check, create_check,
    deposit_check, deposited, dispute_check, disputed, lemma_cancelled_wf, lemma_completed_wf,
    lemma_deposited_wf, lemma_disputed_wf, lemma_refunded_wf, lemma_released_wf,
    lemma_resolved_wf, moved_by, moved_by_all, outcome_of, refund_check, refund_movements,
    refunded, release_check, released, resolve_check, resolved, run, settle, step, Call,
    StateModel,
};
use crate::types::{
    all_have, net_into_custody, paid_to, total_of, EscrowModel, MilestoneModel, MilestoneStatus,
    MovementModel,
};
use vstd::prelude::*;

verus! {

/// A well-formed escrow has released between nothing and its total, and its
/// total is the sum of its milestone amounts.
pub proof fn law_released_within_total(e: EscrowModel)
    requires
        e.wf(),
    ensures
        0 <= e.total_released <= e.total_amount,
        e.total_amount == total_of(e.milestones),
        e.custody() == if e.status is Active || e.status is Disputed {
            e.total_amount - e.total_released
        } else {
            0
        },
{
}

/// The parties, the asset, the amounts, the total, the deadline and the
/// time of creation are fixed when the escrow is created.
pub open spec fn same_terms(before: EscrowModel, after: EscrowModel) -> bool {
    &&& after.id == before.id
    &&& after.depositor == before.depositor
    &&& after.recipient == before.recipient
    &&& after.token_address == before.token_address
    &&& after.total_amount == before.total_amount
    &&& after.deadline == before.deadline
    &&& after.created_at == before.created_at
    &&& after.milestones.len() == before.milestones.len()
    &&& forall|i: int|
        0 <= i < before.milestones.len() ==> (#[trigger] after.milestones[i]).amount
            == before.milestones[i].amount && after.milestones[i].description
            == before.milestones[i].description
}

/// No transition changes the terms of an escrow, and none lowers what
/// counts as released.
pub proof fn law_terms_are_fixed(e: EscrowModel, index: int, winner: Seq<char>)
    requires
        e.wf(),
        0 <= index < e.milestones.len(),
    ensures
        same_terms(e, deposited(e)),
        same_terms(e, released(e, index)),
        same_terms(e, completed(e)),
        same_terms(e, cancelled(e)),
        same_terms(e, disputed(e)),
        same_terms(e, resolved(e, winner)),
        same_terms(e, refunded(e)),
        deposited(e).total_released == e.total_released,
        released(e, index).total_released >= e.total_released,
        completed(e).total_released == e.total_released,
        cancelled(e).total_released == e.total_released,
        disputed(e).total_released == e.total_released,
        resolved(e, winner).total_released >= e.total_released,
        refunded(e).total_released >= e.total_released,
{
}

/// Storing a changed escrow keeps every identifier that was registered: no
/// escrow is ever deleted.
pub proof fn law_escrows_stay(s: StateModel, changed: EscrowModel, id: u64)
    requires
        s.escrows.contains_key(id),
    ensures
        s.with_escrow(changed).escrows.contains_key(id),
        changed.id != id ==> s.with_escrow(changed).escrows[id] == s.escrows[id],
{
}

/// Creating under an identifier that is taken fails with
/// `DuplicateEscrowId`, whatever the other arguments and the settings.
pub proof fn law_duplicate_is_rejected(
    s: StateModel,
    id: u64,
    depositor: Seq<char>,
    recipient: Seq<char>,
    milestones: Seq<MilestoneModel>,
)
    requires
        s.escrows.contains_key(id),
    ensures
        create_check(s, id, depositor, recipient, milestones) == Err::<(), EscrowError>(
            EscrowError::DuplicateEscrowId,
        ),
{
}

/// The movements of one payment.
proof fn lemma_one_movement(m: MovementModel, who: Seq<char>)
    ensures
        net_into_custody(seq![m]) == match m {
            MovementModel::Collect { amount, .. } => amount,
            MovementModel::Payout { amount, .. } => -amount,
        },
        paid_to(seq![m], who) == match m {
            MovementModel::Payout { to, amount, .. } => if to == who {
                amount
            } else {
                0
            },
            MovementModel::Collect { .. } => 0,
        },
{
    reveal_with_fuel(net_into_custody, 2);
    reveal_with_fuel(paid_to, 2);
}

/// The movements of two payments out of custody.
proof fn lemma_two_payouts(a: MovementModel, b: MovementModel, who: Seq<char>)
    requires
        a is Payout,
        b is Payout,
    ensures
        net_into_custody(seq![a, b]) == -(a->Payout_amount) - b->Payout_amount,
        paid_to(seq![a, b], who) == (if a->Payout_to == who {
            a->Payout_amount
        } else {
            0
        }) + (if b->Payout_to == who {
            b->Payout_amount
        } else {
            0
        }),
{
    assert(seq![a, b].drop_last() =~= seq![a]);
    lemma_one_movement(a, who);
}

/// What a refund pays out is exactly what was left, fee included, and the
/// fee is no more than that.
pub proof fn law_refund_pays_remainder(s: StateModel, e: EscrowModel)
    requires
        s.config.wf(),
        e.wf(),
    ensures
        net_into_custody(refund_movements(s.config, e)) == -e.remainder(),
        0 <= s.config.fee_on(e.remainder()) <= e.remainder(),
        s.config.fee_on(e.remainder()) == fee_of(e.remainder(), s.config.fee_bps),
{
    let remainder = e.remainder();
    let bps = s.config.fee_bps;
    assert(0 <= (remainder * bps) / 10_000 <= remainder) by (nonlinear_arith)
        requires
            0 <= remainder,
            0 <= bps <= 10_000,
    ;
    if remainder > 0 {
        if s.config.treasury is Some {
            let plan = refund_movements(s.config, e);
            lemma_two_payouts(plan[0], plan[1], Seq::empty());
        } else {
            let plan = refund_movements(s.config, e);
            lemma_one_movement(plan[0], Seq::empty());
        }
    }
}

/// Every accepted operation moves into custody exactly what the custody of
/// its escrow grows by: what was deposited is what was released plus what
/// is still held.
pub proof fn law_custody_follows_movements(
    s: StateModel,
    id: u64,
    index: int,
    caller: Seq<char>,
    winner: Seq<char>,
    now: u64,
)
    requires
        s.wf(),
    ensures
        deposit_check(s, id) is Ok ==> net_into_custody(deposit_check(s, id)->Ok_0) == deposited(
            s.escrows[id],
        ).custody() - s.escrows[id].custody(),
        release_check(s, id, index) is Ok ==> net_into_custody(release_check(s, id, index)->Ok_0)
            == released(s.escrows[id], index).custody() - s.escrows[id].custody(),
        cancel_check(s, id) is Ok ==> net_into_custody(cancel_check(s, id)->Ok_0) == cancelled(
            s.escrows[id],
        ).custody() - s.escrows[id].custody(),
        resolve_check(s, id, caller, winner) is Ok ==> net_into_custody(
            resolve_check(s, id, caller, winner)->Ok_0,
        ) == resolved(s.escrows[id], winner).custody() - s.escrows[id].custody(),
        refund_check(s, id, caller, now) is Ok ==> net_into_custody(
            refund_check(s, id, caller, now)->Ok_0,
        ) == refunded(s.escrows[id]).custody() - s.escrows[id].custody(),
        complete_check(s, id) is Ok ==> completed(s.escrows[id]).custody()
            == s.escrows[id].custody(),
        dispute_check(s, id, caller) is Ok ==> disputed(s.escrows[id]).custody()
            == s.escrows[id].custody(),
{
    if s.escrows.contains_key(id) {
        let e = s.escrows[id];
        if deposit_check(s, id) is Ok {
            lemma_one_movement(deposit_check(s, id)->Ok_0[0], Seq::empty());
        }
        if release_check(s, id, index) is Ok {
            let plan = release_check(s, id, index)->Ok_0;
            lemma_one_movement(plan[0], Seq::empty());
        }
        law_refund_pays_remainder(s, e);
        if resolve_check(s, id, caller, winner) is Ok {
            let plan = resolve_check(s, id, caller, winner)->Ok_0;
            if e.remainder() > 0 {
                lemma_one_movement(plan[0], Seq::empty());
            }
        }
        if complete_check(s, id) is Ok {
            lemma_released_within_total(e.milestones);
        }
    }
}

/// A release pays the recipient the amount of the milestone, once: the
/// same release on the state it leaves fails with
/// `MilestoneAlreadyReleased`, as does a confirmation by anyone.
pub proof fn law_no_double_release(s: StateModel, id: u64, index: int, caller: Seq<char>)
    requires
        s.wf(),
        release_check(s, id, index) is Ok,
    ensures
        paid_to(release_check(s, id, index)->Ok_0, s.escrows[id].recipient)
            == s.escrows[id].milestones[index].amount,
        release_check(s.with_escrow(released(s.escrows[id], index)), id, index) == Err::<
            Seq<MovementModel>,
            EscrowError,
        >(EscrowError::MilestoneAlreadyReleased),
        confirm_check(s.with_escrow(released(s.escrows[id], index)), id, index, caller) == Err::<
            Seq<MovementModel>,
            EscrowError,
        >(EscrowError::MilestoneAlreadyReleased),
{
    let plan = release_check(s, id, index)->Ok_0;
    lemma_one_movement(plan[0], s.escrows[id].recipient);
}

/// On a disputed escrow every operation but the decision of the dispute
/// fails, so the escrow stays disputed until the dispute is decided.
pub proof fn law_dispute_freezes(
    s: StateModel,
    id: u64,
    index: int,
    caller: Seq<char>,
    now: u64,
    settled: bool,
)
    requires
        s.escrows.contains_key(id),
        s.escrows[id].status is Disputed,
    ensures
        settle(release_check(s, id, index), settled) == Err::<(), EscrowError>(
            EscrowError::EscrowNotActive,
        ),
        settle(confirm_check(s, id, index, caller), settled) == Err::<(), EscrowError>(
            EscrowError::EscrowNotActive,
        ),
        settle(cancel_check(s, id), settled) == Err::<(), EscrowError>(
            EscrowError::EscrowNotActive,
        ),
        complete_check(s, id) == Err::<(), EscrowError>(EscrowError::EscrowNotActive),
        dispute_check(s, id, caller) == Err::<(), EscrowError>(EscrowError::EscrowNotActive),
        settle(refund_check(s, id, caller, now), settled) == Err::<(), EscrowError>(
            EscrowError::InvalidStatusForRefund,
        ),
        settle(deposit_check(s, id), settled) is Err,
{
}

/// A closed escrow takes no further transition.
pub proof fn law_closed_is_final(
    s: StateModel,
    id: u64,
    index: int,
    caller: Seq<char>,
    winner: Seq<char>,
    now: u64,
)
    requires
        s.escrows.contains_key(id),
        s.escrows[id].is_closed(),
    ensures
        deposit_check(s, id) is Err,
        release_check(s, id, index) is Err,
        confirm_check(s, id, index, caller) is Err,
        complete_check(s, id) is Err,
        cancel_check(s, id) is Err,
        dispute_check(s, id, caller) is Err,
        resolve_check(s, id, caller, winner) is Err,
        refund_check(s, id, caller, now) is Err,
{
}

/// Only the depositor is refunded. On an active escrow any other caller is
/// `Unauthorized`, before the deadline as after it, and nothing changes.
pub proof fn law_refund_is_for_depositor(
    s: StateModel,
    id: u64,
    caller: Seq<char>,
    now: u64,
    settled: bool,
)
    ensures
        refund_check(s, id, caller, now) is Ok ==> s.escrows.contains_key(id) && caller
            == s.escrows[id].depositor,
        s.escrows.contains_key(id) && s.escrows[id].status is Active && caller
            != s.escrows[id].depositor ==> {
            &&& refund_check(s, id, caller, now) == Err::<Seq<MovementModel>, EscrowError>(
                EscrowError::Unauthorized,
            )
            &&& outcome_of(s, Call::RefundExpired { id, caller, now }, settled) == Err::<
                (),
                EscrowError,
            >(EscrowError::Unauthorized)
            &&& step(s, Call::RefundExpired { id, caller, now }, settled) == s
        },
{
}

/// The refund checks come in a fixed order: the escrow exists, it is
/// active, the caller is the depositor, its deadline has passed, something
/// is left.
pub proof fn law_refund_checks_in_order(s: StateModel, id: u64, caller: Seq<char>, now: u64)
    ensures
        !s.escrows.contains_key(id) ==> refund_check(s, id, caller, now) == Err::<
            Seq<MovementModel>,
            EscrowError,
        >(EscrowError::EscrowNotFound),
        s.escrows.contains_key(id) && !(s.escrows[id].status is Active) ==> refund_check(
            s,
            id,
            caller,
            now,
        ) == Err::<Seq<MovementModel>, EscrowError>(EscrowError::InvalidStatusForRefund),
        s.escrows.contains_key(id) && s.escrows[id].status is Active && caller
            == s.escrows[id].depositor && now < s.escrows[id].deadline ==> refund_check(
            s,
            id,
            caller,
            now,
        ) == Err::<Seq<MovementModel>, EscrowError>(EscrowError::DeadlineNotReached),
        s.escrows.contains_key(id) && s.escrows[id].status is Active && caller
            == s.escrows[id].depositor && now >= s.escrows[id].deadline
            && s.escrows[id].total_released == s.escrows[id].total_amount ==> refund_check(
            s,
            id,
            caller,
            now,
        ) == Err::<Seq<MovementModel>, EscrowError>(EscrowError::NoFundsToRefund),
{
}

/// The fee on a refund is the share of what was left that the rate names,
/// rounded down and never up. A cancellation, and a refund to the depositor
/// once the deadline has passed, are accepted and pay that fee to the
/// treasury and all the rest to the depositor; without a treasury the rate
/// is zero and all goes to the depositor. Nobody else is paid, and custody
/// falls by exactly what was left.
pub proof fn law_fee_rounds_down(s: StateModel, id: u64, now: u64, who: Seq<char>)
    requires
        s.wf(),
        s.escrows.contains_key(id),
        s.escrows[id].status is Active,
        s.escrows[id].remainder() > 0,
    ensures
        ({
            let e = s.escrows[id];
            let left = e.remainder();
            let fee = (left * s.config.fee_bps) / 10_000;
            let plan = refund_movements(s.config, e);
            &&& fee == s.config.fee_on(left)
            &&& 0 <= fee <= left
            &&& fee * 10_000 <= left * s.config.fee_bps < (fee + 1) * 10_000
            &&& cancel_check(s, id) == Ok::<Seq<MovementModel>, EscrowError>(plan)
            &&& now >= e.deadline ==> refund_check(s, id, e.depositor, now) == Ok::<
                Seq<MovementModel>,
                EscrowError,
            >(plan)
            &&& s.config.treasury is Some ==> plan == seq![
                MovementModel::Payout {
                    token: e.token_address,
                    to: s.config.treasury->0,
                    amount: fee,
                },
                MovementModel::Payout {
                    token: e.token_address,
                    to: e.depositor,
                    amount: left - fee,
                },
            ]
            &&& s.config.treasury is None ==> fee == 0 && plan == seq![
                MovementModel::Payout { token: e.token_address, to: e.depositor, amount: left },
            ]
            &&& paid_to(plan, who) == (if s.config.treasury == Some(who) {
                fee
            } else {
                0
            }) + (if who == e.depositor {
                left - fee
            } else {
                0
            })
            &&& net_into_custody(plan) == -left
        }),
{
    let e = s.escrows[id];
    let left = e.remainder();
    let bps = s.config.fee_bps;
    let fee = (left * bps) / 10_000;
    let plan = refund_movements(s.config, e);
    assert(0 <= fee <= left && fee * 10_000 <= left * bps < (fee + 1) * 10_000) by (
        nonlinear_arith)
        requires
            0 <= left,
            0 <= bps <= 10_000,
            fee == (left * bps) / 10_000,
    ;
    law_refund_pays_remainder(s, e);
    if s.config.treasury is Some {
        lemma_two_payouts(plan[0], plan[1], who);
    } else {
        assert(left * 0 == 0);
        lemma_one_movement(plan[0], who);
    }
}

/// A dispute decided for the recipient releases every milestone and pays
/// the recipient all that was held; one decided for the depositor closes
/// every milestone as disputed, pays the depositor all that was held and
/// leaves the released total as it was.
pub proof fn law_resolution_pays_all(s: StateModel, id: u64, resolver: Seq<char>, winner: Seq<char>)
    requires
        s.wf(),
        resolve_check(s, id, resolver, winner) is Ok,
    ensures
        paid_to(resolve_check(s, id, resolver, winner)->Ok_0, winner) == s.escrows[id].custody(),
        resolved(s.escrows[id], winner).custody() == 0,
        winner == s.escrows[id].recipient ==> {
            &&& resolved(s.escrows[id], winner).total_released == s.escrows[id].total_amount
            &&& all_have(
                resolved(s.escrows[id], winner).milestones,
                MilestoneStatus::Released,
            )
        },
        winner != s.escrows[id].recipient ==> {
            &&& winner == s.escrows[id].depositor
            &&& resolved(s.escrows[id], winner).total_released == s.escrows[id].total_released
            &&& all_have(
                resolved(s.escrows[id], winner).milestones,
                MilestoneStatus::Disputed,
            )
        },
{
    let e = s.escrows[id];
    let plan = resolve_check(s, id, resolver, winner)->Ok_0;
    if e.remainder() > 0 {
        lemma_one_movement(plan[0], winner);
    }
    lemma_with_status(e.milestones, MilestoneStatus::Released);
    lemma_with_status(e.milestones, MilestoneStatus::Disputed);
}

/// While the service is paused, creation and funding fail; what every
/// other operation does is the same paused or not.
pub proof fn law_pause_stops_creation_and_funding_only(
    s: StateModel,
    id: u64,
    index: int,
    caller: Seq<char>,
    other: Seq<char>,
    milestones: Seq<MilestoneModel>,
    now: u64,
)
    ensures
        s.config.paused ==> create_check(s, id, caller, other, milestones) is Err,
        s.config.paused ==> deposit_check(s, id) is Err,
        ({
            let t = s.with_config(ConfigModel { paused: !s.config.paused, ..s.config });
            &&& release_check(t, id, index) == release_check(s, id, index)
            &&& confirm_check(t, id, index, caller) == confirm_check(s, id, index, caller)
            &&& complete_check(t, id) == complete_check(s, id)
            &&& cancel_check(t, id) == cancel_check(s, id)
            &&& dispute_check(t, id, caller) == dispute_check(s, id, caller)
            &&& resolve_check(t, id, caller, other) == resolve_check(s, id, caller, other)
            &&& refund_check(t, id, caller, now) == refund_check(s, id, caller, now)
        }),
{
}

/// A change of the settings touches no escrow.
pub proof fn law_settings_touch_no_escrow(s: StateModel, call: Call, settled: bool)
    requires
        call is Initialize || call is Init || call is SetPaused || call is UpdateFee,
    ensures
        step(s, call, settled).escrows == s.escrows,
{
}

/// A call leaves a well-formed state well formed, whether it succeeds or
/// fails.
pub proof fn law_step_keeps_wf(s: StateModel, call: Call, settled: bool)
    requires
        s.wf(),
    ensures
        step(s, call, settled).wf(),
{
    if outcome_of(s, call, settled) is Ok {
        match call {
            Call::Initialize { .. } | Call::Init { .. } | Call::SetPaused { .. } | Call::UpdateFee {
                ..
            } => {},
            Call::CreateEscrow { milestones, .. } => {
                lemma_with_status(milestones, MilestoneStatus::Pending);
                lemma_released_within_total(milestones);
            },
            Call::DepositFunds { id } => {
                lemma_deposited_wf(s.escrows[id]);
            },
            Call::ReleaseMilestone { id, index } => {
                lemma_released_wf(s.escrows[id], index);
            },
            Call::ConfirmDelivery { id, index, caller } => {
                lemma_released_wf(s.escrows[id], index);
            },
            Call::CompleteEscrow { id } => {
                lemma_completed_wf(s.escrows[id]);
            },
            Call::CancelEscrow { id } => {
                lemma_cancelled_wf(s.escrows[id]);
            },
            Call::RaiseDispute { id, caller } => {
                lemma_disputed_wf(s.escrows[id]);
            },
            Call::ResolveDispute { id, resolver, winner } => {
                lemma_resolved_wf(s.escrows[id], winner);
            },
            Call::RefundExpired { id, caller, now } => {
                lemma_refunded_wf(s.escrows[id]);
            },
        }
    }
}

/// Whatever the calls, and whatever the asset ledger answers, every state
/// that the service reaches is well formed: each escrow has released
/// between nothing and its total, and its total is the sum of its
/// milestone amounts.
pub proof fn law_every_state_is_wf(calls: Seq<(Call, bool)>, id: u64)
    ensures
        run(StateModel::initial(), calls).wf(),
        run(StateModel::initial(), calls).escrows.contains_key(id) ==> {
            let e = run(StateModel::initial(), calls).escrows[id];
            &&& 0 <= e.total_released <= e.total_amount
            &&& e.total_amount == total_of(e.milestones)
        },
    decreases calls.len(),
{
    if calls.len() > 0 {
        law_every_state_is_wf(calls.drop_last(), id);
        law_step_keeps_wf(
            run(StateModel::initial(), calls.drop_last()),
            calls.last().0,
            calls.last().1,
        );
    }
}

/// A call never deletes an escrow, never changes the terms of one, and
/// never lowers what counts as released.
pub proof fn law_step_keeps_terms(s: StateModel, call: Call, settled: bool, id: u64)
    requires
        s.wf(),
        s.escrows.contains_key(id),
    ensures
        step(s, call, settled).escrows.contains_key(id),
        same_terms(s.escrows[id], step(s, call, settled).escrows[id]),
        step(s, call, settled).escrows[id].total_released >= s.escrows[id].total_released,
{
    let e = s.escrows[id];
    if outcome_of(s, call, settled) is Ok {
        match call {
            Call::ReleaseMilestone { id: target, index } => {
                if target == id {
                    law_terms_are_fixed(e, index, Seq::empty());
                }
            },
            Call::ConfirmDelivery { id: target, index, caller } => {
                if target == id {
                    law_terms_are_fixed(e, index, Seq::empty());
                }
            },
            Call::ResolveDispute { id: target, resolver, winner } => {
                if target == id {
                    law_terms_are_fixed(e, 0, winner);
                }
            },
            _ => {
                law_terms_are_fixed(e, 0, Seq::empty());
            },
        }
    }
}

/// A milestone that is no longer pending never becomes pending again, so
/// no later call can release it: its amount is paid out at most once.
pub proof fn law_no_milestone_reopens(
    s: StateModel,
    call: Call,
    settled: bool,
    id: u64,
    index: int,
)
    requires
        s.wf(),
        s.escrows.contains_key(id),
        0 <= index < s.escrows[id].milestones.len(),
        !(s.escrows[id].milestones[index].status is Pending),
    ensures
        step(s, call, settled).escrows.contains_key(id),
        index < step(s, call, settled).escrows[id].milestones.len(),
        !(step(s, call, settled).escrows[id].milestones[index].status is Pending),
        release_check(step(s, call, settled), id, index) is Err,
        confirm_check(step(s, call, settled), id, index, Seq::empty()) is Err,
{
}

/// Once an escrow is registered under an identifier, creating under that
/// identifier fails with `DuplicateEscrowId` after any further calls.
pub proof fn law_identifier_stays_taken(
    s: StateModel,
    calls: Seq<(Call, bool)>,
    id: u64,
    depositor: Seq<char>,
    recipient: Seq<char>,
    milestones: Seq<MilestoneModel>,
)
    requires
        s.wf(),
        s.escrows.contains_key(id),
    ensures
        run(s, calls).wf(),
        run(s, calls).escrows.contains_key(id),
        same_terms(s.escrows[id], run(s, calls).escrows[id]),
        create_check(run(s, calls), id, depositor, recipient, milestones) == Err::<
            (),
            EscrowError,
        >(EscrowError::DuplicateEscrowId),
    decreases calls.len(),
{
    if calls.len() > 0 {
        let before = run(s, calls.drop_last());
        law_identifier_stays_taken(s, calls.drop_last(), id, depositor, recipient, milestones);
        law_step_keeps_wf(before, calls.last().0, calls.last().1);
        law_step_keeps_terms(before, calls.last().0, calls.last().1, id);
    }
}

/// A disputed escrow stays disputed through every call but the decision of
/// its dispute.
pub proof fn law_disputed_until_resolved(s: StateModel, call: Call, settled: bool, id: u64)
    requires
        s.wf(),
        s.escrows.contains_key(id),
        s.escrows[id].status is Disputed,
        !(call is ResolveDispute),
    ensures
        step(s, call, settled).escrows.contains_key(id),
        step(s, call, settled).escrows[id] == s.escrows[id],
{
}

/// What is held in custody for an escrow changes by exactly what the call
/// has moved for it: funds change hands once, with the state.
pub proof fn law_step_moves_what_custody_gains(s: StateModel, call: Call, settled: bool, id: u64)
    requires
        s.wf(),
    ensures
        step(s, call, settled).custody(id) == s.custody(id) + moved_by(s, call, settled, id),
{
    if outcome_of(s, call, settled) is Ok {
        match call {
            Call::Initialize { .. } | Call::Init { .. } | Call::SetPaused { .. } | Call::UpdateFee {
                ..
            } => {},
            Call::CreateEscrow { id: target, .. } => {
            },
            Call::DepositFunds { id: target } => {
                law_custody_follows_movements(s, target, 0, Seq::empty(), Seq::empty(), 0);
            },
            Call::ReleaseMilestone { id: target, index } => {
                law_custody_follows_movements(s, target, index, Seq::empty(), Seq::empty(), 0);
            },
            Call::ConfirmDelivery { id: target, index, caller } => {
                law_custody_follows_movements(s, target, index, Seq::empty(), Seq::empty(), 0);
            },
            Call::CompleteEscrow { id: target } => {
                law_custody_follows_movements(s, target, 0, Seq::empty(), Seq::empty(), 0);
            },
            Call::CancelEscrow { id: target } => {
                law_custody_follows_movements(s, target, 0, Seq::empty(), Seq::empty(), 0);
            },
            Call::RaiseDispute { id: target, caller } => {
                law_custody_follows_movements(s, target, 0, caller, Seq::empty(), 0);
            },
            Call::ResolveDispute { id: target, resolver, winner } => {
                law_custody_follows_movements(s, target, 0, resolver, winner, 0);
            },
            Call::RefundExpired { id: target, caller, now } => {
                law_custody_follows_movements(s, target, 0, caller, Seq::empty(), now);
            },
        }
    }
}

/// After any calls, what is held in custody for an escrow is what the
/// calls have moved into custody for it, net of what they paid out. From
/// the initial state, where nothing is held, custody is all that was moved.
pub proof fn law_custody_is_what_was_moved(s: StateModel, calls: Seq<(Call, bool)>, id: u64)
    requires
        s.wf(),
    ensures
        run(s, calls).wf(),
        run(s, calls).custody(id) == s.custody(id) + moved_by_all(s, calls, id),
        s == StateModel::initial() ==> run(s, calls).custody(id) == moved_by_all(s, calls, id),
        run(s, calls).custody(id) >= 0,
    decreases calls.len(),
{
    if calls.len() > 0 {
        let before = run(s, calls.drop_last());
        law_custody_is_what_was_moved(s, calls.drop_last(), id);
        law_step_keeps_wf(before, calls.last().0, calls.last().1);
        law_step_moves_what_custody_gains(before, calls.last().0, calls.last().1, id);
    }
}

} // verus!
