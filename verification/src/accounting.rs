//! Sums over milestones: facts about them and the code that computes them.

use crate::types::{
    all_have, all_positive, milestone_models, none_disputed, released_of, total_of, with_status,
    Escrow, EscrowState, Milestone, MilestoneModel, MilestoneStatus, Resolution, MAX_MILESTONES,
};
use vstd::prelude::*;

verus! {

/// With positive amounts, the released sum lies between zero and the total,
/// and reaches the total exactly when every milestone is released.
pub proof fn lemma_released_within_total(milestones: Seq<MilestoneModel>)
    requires
        all_positive(milestones),
    ensures
        0 <= released_of(milestones) <= total_of(milestones),
        milestones.len() > 0 ==> total_of(milestones) > 0,
        released_of(milestones) == total_of(milestones) <==> all_have(
            milestones,
            MilestoneStatus::Released,
        ),
    decreases milestones.len(),
{
    if milestones.len() > 0 {
        let front = milestones.drop_last();
        lemma_released_within_total(front);
        if released_of(milestones) == total_of(milestones) {
            assert forall|i: int| 0 <= i < milestones.len() implies (
            #[trigger] milestones[i]).status == MilestoneStatus::Released by {
                if i < front.len() {
                    assert(front[i] == milestones[i]);
                }
            }
        }
    }
}

/// Where no milestone is released, the released sum is zero.
pub proof fn lemma_none_released(milestones: Seq<MilestoneModel>)
    requires
        forall|i: int|
            0 <= i < milestones.len() ==> !((#[trigger] milestones[i]).status is Released),
    ensures
        released_of(milestones) == 0,
    decreases milestones.len(),
{
    if milestones.len() > 0 {
        let front = milestones.drop_last();
        lemma_none_released(front);
    }
}

/// Releasing one milestone that was not released adds its amount to the
/// released sum and leaves the total.
pub proof fn lemma_release_one(milestones: Seq<MilestoneModel>, index: int)
    requires
        0 <= index < milestones.len(),
        !(milestones[index].status is Released),
    ensures
        total_of(
            milestones.update(
                index,
                MilestoneModel { status: MilestoneStatus::Released, ..milestones[index] },
            ),
        ) == total_of(milestones),
        released_of(
            milestones.update(
                index,
                MilestoneModel { status: MilestoneStatus::Released, ..milestones[index] },
            ),
        ) == released_of(milestones) + milestones[index].amount,
    decreases milestones.len(),
{
    let after = milestones.update(
        index,
        MilestoneModel { status: MilestoneStatus::Released, ..milestones[index] },
    );
    let front = milestones.drop_last();
    if index == milestones.len() - 1 {
        assert(after.drop_last() =~= front);
    } else {
        lemma_release_one(front, index);
        assert(after.drop_last() =~= front.update(
            index,
            MilestoneModel { status: MilestoneStatus::Released, ..front[index] },
        ));
    }
}

/// Giving every milestone one status leaves the total; the released sum
/// becomes the total or zero.
pub proof fn lemma_with_status(milestones: Seq<MilestoneModel>, status: MilestoneStatus)
    ensures
        total_of(with_status(milestones, status)) == total_of(milestones),
        released_of(with_status(milestones, status)) == if status is Released {
            total_of(milestones)
        } else {
            0
        },
        all_have(with_status(milestones, status), status),
        with_status(milestones, status).len() == milestones.len(),
    decreases milestones.len(),
{
    if milestones.len() > 0 {
        lemma_with_status(milestones.drop_last(), status);
        assert(with_status(milestones, status).drop_last() =~= with_status(
            milestones.drop_last(),
            status,
        ));
    }
}

/// The total of a list with one more milestone.
pub proof fn lemma_total_push(milestones: Seq<MilestoneModel>, next: MilestoneModel)
    ensures
        total_of(milestones.push(next)) == total_of(milestones) + next.amount,
{
    assert(milestones.push(next).drop_last() =~= milestones);
}

/// With positive amounts, the total of a part is at most the total of the
/// whole.
pub proof fn lemma_total_grows(milestones: Seq<MilestoneModel>, n: int)
    requires
        all_positive(milestones),
        0 <= n <= milestones.len(),
    ensures
        0 <= total_of(milestones.take(n)) <= total_of(milestones),
    decreases milestones.len() - n,
{
    if n == milestones.len() {
        assert(milestones.take(n) =~= milestones);
        lemma_released_within_total(milestones);
    } else {
        lemma_total_grows(milestones, n + 1);
        assert(milestones.take(n + 1).drop_last() =~= milestones.take(n));
        lemma_released_within_total(milestones.take(n));
    }
}

/// Whether every amount of `milestones` is positive.
pub(crate) fn amounts_positive(milestones: &Vec<Milestone>) -> (r: bool)
    ensures
        r == all_positive(milestone_models(milestones@)),
{
    let ghost models = milestone_models(milestones@);
    let mut i: usize = 0;
    while i < milestones.len()
        invariant
            i <= milestones.len(),
            models == milestone_models(milestones@),
            forall|j: int| 0 <= j < i ==> (#[trigger] models[j]).amount > 0,
        decreases milestones.len() - i,
    {
        if milestones[i].amount <= 0 {
            assert(models[i as int].amount <= 0);
            return false;
        }
        i += 1;
    }
    true
}

/// The sum of the amounts of `milestones`, or `None` where it is more than
/// an amount can hold.
pub(crate) fn sum_amounts(milestones: &Vec<Milestone>) -> (r: Option<i128>)
    requires
        all_positive(milestone_models(milestones@)),
    ensures
        match r {
            Some(total) => total == total_of(milestone_models(milestones@)),
            None => total_of(milestone_models(milestones@)) > i128::MAX,
        },
{
    let ghost models = milestone_models(milestones@);
    let mut total: i128 = 0;
    let mut i: usize = 0;
    while i < milestones.len()
        invariant
            i <= milestones.len(),
            models == milestone_models(milestones@),
            all_positive(models),
            0 <= total,
            total == total_of(models.take(i as int)),
        decreases milestones.len() - i,
    {
        let amount: i128 = milestones[i].amount;
        proof {
            assert(models.take(i + 1) =~= models.take(i as int).push(models[i as int]));
            lemma_total_push(models.take(i as int), models[i as int]);
            lemma_total_grows(models, i + 1);
        }
        if amount > i128::MAX - total {
            return None;
        }
        total = total + amount;
        i += 1;
    }
    proof {
        assert(models.take(i as int) =~= models);
    }
    Some(total)
}

/// The sum of the amounts of the released ones of `milestones`.
pub(crate) fn released_sum(milestones: &Vec<Milestone>) -> (r: i128)
    requires
        all_positive(milestone_models(milestones@)),
        total_of(milestone_models(milestones@)) <= i128::MAX,
    ensures
        r == released_of(milestone_models(milestones@)),
{
    let ghost models = milestone_models(milestones@);
    let mut sum: i128 = 0;
    let mut i: usize = 0;
    while i < milestones.len()
        invariant
            i <= milestones.len(),
            models == milestone_models(milestones@),
            all_positive(models),
            total_of(models) <= i128::MAX,
            0 <= sum,
            sum == released_of(models.take(i as int)),
        decreases milestones.len() - i,
    {
        proof {
            let part = models.take(i + 1);
            assert(part.drop_last() =~= models.take(i as int));
            lemma_released_within_total(part);
            lemma_total_grows(models, i + 1);
        }
        if milestones[i].status == MilestoneStatus::Released {
            sum = sum + milestones[i].amount;
        }
        i += 1;
    }
    proof {
        assert(models.take(i as int) =~= models);
    }
    sum
}

/// Whether every one of `milestones` has the status `status`.
pub(crate) fn statuses_all(milestones: &Vec<Milestone>, status: MilestoneStatus) -> (r: bool)
    ensures
        r == all_have(milestone_models(milestones@), status),
{
    let ghost models = milestone_models(milestones@);
    let mut i: usize = 0;
    while i < milestones.len()
        invariant
            i <= milestones.len(),
            models == milestone_models(milestones@),
            forall|j: int| 0 <= j < i ==> (#[trigger] models[j]).status == status,
        decreases milestones.len() - i,
    {
        if milestones[i].status != status {
            assert(models[i as int].status != status);
            return false;
        }
        i += 1;
    }
    true
}

/// Whether no one of `milestones` is closed as disputed.
pub(crate) fn statuses_undisputed(milestones: &Vec<Milestone>) -> (r: bool)
    ensures
        r == none_disputed(milestone_models(milestones@)),
{
    let ghost models = milestone_models(milestones@);
    let mut i: usize = 0;
    while i < milestones.len()
        invariant
            i <= milestones.len(),
            models == milestone_models(milestones@),
            forall|j: int| 0 <= j < i ==> !((#[trigger] models[j]).status is Disputed),
        decreases milestones.len() - i,
    {
        if milestones[i].status == MilestoneStatus::Disputed {
            assert(models[i as int].status is Disputed);
            return false;
        }
        i += 1;
    }
    true
}

/// Whether `escrow` is a record that the registry could hold: its amounts,
/// its released total and its milestone statuses fit together and fit its
/// state.
pub fn is_well_formed(escrow: &Escrow) -> (r: bool)
    ensures
        r == escrow@.wf(),
{
    let n: usize = escrow.milestones.len();
    if n < 1 || n > MAX_MILESTONES {
        return false;
    }
    if !amounts_positive(&escrow.milestones) {
        return false;
    }
    let total: i128 = match sum_amounts(&escrow.milestones) {
        Some(total) => total,
        None => {
            return false;
        },
    };
    if total != escrow.total_amount {
        return false;
    }
    if escrow.total_released < 0 || escrow.total_released > escrow.total_amount {
        return false;
    }
    if escrow.depositor.same(&escrow.recipient) {
        return false;
    }
    let is_resolved: bool = escrow.status == EscrowState::Resolved;
    let is_decided: bool = escrow.resolution != Resolution::Undecided;
    if is_resolved != is_decided {
        return false;
    }
    match escrow.status {
        EscrowState::Created => escrow.total_released == 0 && statuses_all(
            &escrow.milestones,
            MilestoneStatus::Pending,
        ),
        EscrowState::Active | EscrowState::Disputed | EscrowState::Cancelled => released_sum(
            &escrow.milestones,
        ) == escrow.total_released && statuses_undisputed(&escrow.milestones),
        EscrowState::Completed => escrow.total_released == escrow.total_amount && statuses_all(
            &escrow.milestones,
            MilestoneStatus::Released,
        ),
        EscrowState::Expired => escrow.total_released == escrow.total_amount,
        EscrowState::Resolved => match escrow.resolution {
            Resolution::Recipient => escrow.total_released == escrow.total_amount && statuses_all(
                &escrow.milestones,
                MilestoneStatus::Released,
            ),
            Resolution::Depositor => statuses_all(&escrow.milestones, MilestoneStatus::Disputed),
            Resolution::Undecided => false,
        },
    }
}

} // verus!
