//! Which of a device's update operations are redundant.
//!
//! The operations of one device are read in the order in which the server lists
//! them. The first update operation that is pending or updating owns the device:
//! it is the active one. Every later update operation that is neither finished
//! nor (by default) running is extraneous and is to be canceled. Operations of
//! any other kind never count, whatever their status.

use vstd::prelude::*;

use crate::text::str_eq;
use crate::types::Action;

verus! {

/// How the reconciler treats operations whose detail status is `running`.
#[derive(Debug, Clone, Copy)]
pub struct ReconcilePolicy {
    /// When set, a running operation is left alone even though an active one
    /// precedes it.
    pub spare_running: bool,
}

impl Default for ReconcilePolicy {
    /// Running operations are spared.
    fn default() -> (policy: Self)
        ensures
            policy.spare_running,
    {
        ReconcilePolicy { spare_running: true }
    }
}

/// What the reconciler decided for one device.
#[derive(Debug)]
pub struct Reconciliation {
    /// The identifier of the active operation, if the device has one.
    pub active: Option<i64>,
    /// The identifiers of the extraneous operations, in listing order.
    pub canceled: Vec<i64>,
}

/// The operation assigns software.
pub open spec fn is_update(a: Action) -> bool {
    a.action_type@ == "update"@
}

/// The operation has not reached the device yet, or is being carried out.
pub open spec fn is_live(a: Action) -> bool {
    a.status@ == "pending"@ || a.status@ == "updating"@
}

/// The operation may become the active one of its device.
pub open spec fn can_be_active(a: Action) -> bool {
    is_update(a) && is_live(a)
}

/// The operation would be canceled if an active one preceded it.
pub open spec fn is_cancelable(a: Action, policy: ReconcilePolicy) -> bool {
    &&& is_update(a)
    &&& a.status@ != "finished"@
    &&& !(policy.spare_running && a.detail_status@ == "running"@)
}

/// The identifier of the active operation among the first `n` operations.
pub open spec fn active_upto(ops: Seq<Action>, n: int) -> Option<i64>
    decreases n,
{
    if n <= 0 {
        None
    } else {
        match active_upto(ops, n - 1) {
            Some(id) => Some(id),
            None => if can_be_active(ops[n - 1]) {
                Some(ops[n - 1].id)
            } else {
                None
            },
        }
    }
}

/// The identifier of the active operation of the whole listing.
pub open spec fn active_id(ops: Seq<Action>) -> Option<i64> {
    active_upto(ops, ops.len() as int)
}

/// The operation at position `i` is superseded by an active one before it.
pub open spec fn is_extraneous(ops: Seq<Action>, i: int, policy: ReconcilePolicy) -> bool {
    &&& 0 <= i < ops.len()
    &&& active_upto(ops, i) is Some
    &&& is_cancelable(ops[i], policy)
}

/// The identifiers of the extraneous operations among the first `n`, in order.
pub open spec fn canceled_upto(ops: Seq<Action>, n: int, policy: ReconcilePolicy) -> Seq<i64>
    decreases n,
{
    if n <= 0 {
        Seq::empty()
    } else if is_extraneous(ops, n - 1, policy) {
        canceled_upto(ops, n - 1, policy).push(ops[n - 1].id)
    } else {
        canceled_upto(ops, n - 1, policy)
    }
}

/// The identifiers of all extraneous operations, in listing order.
pub open spec fn canceled_ids(ops: Seq<Action>, policy: ReconcilePolicy) -> Seq<i64> {
    canceled_upto(ops, ops.len() as int, policy)
}

/// The first `n` operations without the extraneous ones: what the server
/// lists once the cancellations have gone through.
pub open spec fn survivors_upto(ops: Seq<Action>, n: int, policy: ReconcilePolicy) -> Seq<Action>
    decreases n,
{
    if n <= 0 {
        Seq::empty()
    } else if is_extraneous(ops, n - 1, policy) {
        survivors_upto(ops, n - 1, policy)
    } else {
        survivors_upto(ops, n - 1, policy).push(ops[n - 1])
    }
}

/// The listing without its extraneous operations.
pub open spec fn survivors(ops: Seq<Action>, policy: ReconcilePolicy) -> Seq<Action> {
    survivors_upto(ops, ops.len() as int, policy)
}

/// No two operations of the listing share an identifier.
pub open spec fn ids_unique(ops: Seq<Action>) -> bool {
    forall|i: int, j: int| 0 <= i < j < ops.len() ==> (#[trigger] ops[i]).id != (#[trigger] ops[j]).id
}

/// Decides, for the operations of one device in listing order, which one is
/// active and which are to be canceled.
pub fn reconcile_actions(actions: &Vec<Action>, policy: &ReconcilePolicy) -> (plan: Reconciliation)
    ensures
        plan.active == active_id(actions@),
        plan.canceled@ == canceled_ids(actions@, *policy),
{
    let mut active: Option<i64> = None;
    let mut canceled: Vec<i64> = Vec::new();
    let n = actions.len();
    let mut i: usize = 0;
    while i < n
        invariant
            i <= n,
            n == actions@.len(),
            active == active_upto(actions@, i as int),
            canceled@ == canceled_upto(actions@, i as int, *policy),
        decreases n - i,
    {
        let action = &actions[i];
        if str_eq(action.action_type.as_str(), "update") {
            let live = str_eq(action.status.as_str(), "pending") || str_eq(
                action.status.as_str(),
                "updating",
            );
            if active.is_none() {
                if live {
                    active = Some(action.id);
                }
            } else if !str_eq(action.status.as_str(), "finished") && !(policy.spare_running
                && str_eq(action.detail_status.as_str(), "running")) {
                canceled.push(action.id);
            }
        }
        i = i + 1;
    }
    Reconciliation { active, canceled }
}

/// The active operation is the first update operation that is pending or
/// updating, and there is none exactly when the listing holds no such operation.
pub proof fn lemma_active_is_first_live_update(ops: Seq<Action>, n: int)
    requires
        0 <= n <= ops.len(),
    ensures
        active_upto(ops, n) is None <==> forall|j: int| 0 <= j < n ==> !can_be_active(#[trigger] ops[j]),
        active_upto(ops, n) is Some ==> exists|j: int|
            0 <= j < n && can_be_active(#[trigger] ops[j]) && active_upto(ops, n) == Some(ops[j].id)
                && active_upto(ops, j) is None,
    decreases n,
{
    if n > 0 {
        lemma_active_is_first_live_update(ops, n - 1);
        if active_upto(ops, n - 1) is None && can_be_active(ops[n - 1]) {
            assert(can_be_active(ops[n - 1]) && active_upto(ops, n) == Some(ops[n - 1].id)
                && active_upto(ops, n - 1) is None);
        }
    }
}

/// Once an operation is active, it stays the active one however the listing goes on.
pub proof fn lemma_active_is_stable(ops: Seq<Action>, m: int, n: int)
    requires
        0 <= m <= n,
        active_upto(ops, m) is Some,
    ensures
        active_upto(ops, n) == active_upto(ops, m),
    decreases n - m,
{
    if m < n {
        lemma_active_is_stable(ops, m, n - 1);
    }
}

/// Every canceled identifier belongs to an extraneous operation, and every
/// extraneous operation has its identifier canceled.
pub proof fn lemma_canceled_are_the_extraneous(ops: Seq<Action>, n: int, policy: ReconcilePolicy)
    requires
        0 <= n <= ops.len(),
    ensures
        forall|k: int|
            0 <= k < canceled_upto(ops, n, policy).len() ==> exists|i: int|
                0 <= i < n && is_extraneous(ops, i, policy) && (#[trigger] ops[i]).id
                    == #[trigger] canceled_upto(ops, n, policy)[k],
        forall|i: int|
            0 <= i < n && is_extraneous(ops, i, policy) ==> canceled_upto(ops, n, policy).contains(
                (#[trigger] ops[i]).id,
            ),
    decreases n,
{
    if n > 0 {
        lemma_canceled_are_the_extraneous(ops, n - 1, policy);
        let before = canceled_upto(ops, n - 1, policy);
        let now = canceled_upto(ops, n, policy);
        assert forall|k: int| 0 <= k < now.len() implies exists|i: int|
            0 <= i < n && is_extraneous(ops, i, policy) && (#[trigger] ops[i]).id == #[trigger] now[k] by {
            if k < before.len() {
                assert(now[k] == before[k]);
                let i = choose|i: int|
                    0 <= i < n - 1 && is_extraneous(ops, i, policy) && (#[trigger] ops[i]).id
                        == before[k];
                assert(0 <= i < n && is_extraneous(ops, i, policy) && ops[i].id == now[k]);
            } else {
                assert(is_extraneous(ops, n - 1, policy) && ops[n - 1].id == now[k]);
            }
        }
        assert forall|i: int| 0 <= i < n && is_extraneous(ops, i, policy) implies now.contains(
            (#[trigger] ops[i]).id,
        ) by {
            if i < n - 1 {
                let k = choose|k: int| 0 <= k < before.len() && before[k] == ops[i].id;
                assert(now[k] == ops[i].id);
            } else {
                assert(now[now.len() - 1] == ops[i].id);
            }
        }
    }
}

/// Under the policy that spares them, an operation whose detail status is
/// `running` is never canceled, wherever it stands in the listing.
pub proof fn lemma_running_is_never_canceled(ops: Seq<Action>, policy: ReconcilePolicy, i: int)
    requires
        policy.spare_running,
        ids_unique(ops),
        0 <= i < ops.len(),
        ops[i].detail_status@ == "running"@,
    ensures
        !is_extraneous(ops, i, policy),
        !canceled_ids(ops, policy).contains(ops[i].id),
{
    lemma_canceled_are_the_extraneous(ops, ops.len() as int, policy);
    let ids = canceled_ids(ops, policy);
    if ids.contains(ops[i].id) {
        let k = choose|k: int| 0 <= k < ids.len() && ids[k] == ops[i].id;
        let j = choose|j: int|
            0 <= j < ops.len() && is_extraneous(ops, j, policy) && (#[trigger] ops[j]).id == ids[k];
        assert(j != i);
        if j < i {
            assert(ops[j].id != ops[i].id);
        } else {
            assert(ops[i].id != ops[j].id);
        }
    }
}

/// A finished operation is never canceled either.
pub proof fn lemma_finished_is_never_canceled(ops: Seq<Action>, policy: ReconcilePolicy, i: int)
    requires
        0 <= i < ops.len(),
        ops[i].status@ == "finished"@,
    ensures
        !is_extraneous(ops, i, policy),
{
}

/// The active operation itself is never canceled.
pub proof fn lemma_active_is_never_canceled(ops: Seq<Action>, policy: ReconcilePolicy, i: int)
    requires
        0 <= i < ops.len(),
        can_be_active(ops[i]),
        active_upto(ops, i) is None,
    ensures
        !is_extraneous(ops, i, policy),
        active_id(ops) == Some(ops[i].id),
{
    lemma_active_is_stable(ops, i + 1, ops.len() as int);
}

proof fn lemma_prefix_decides(a: Seq<Action>, b: Seq<Action>, n: int, policy: ReconcilePolicy)
    requires
        0 <= n <= a.len(),
        n <= b.len(),
        forall|i: int| 0 <= i < n ==> a[i] == b[i],
    ensures
        active_upto(a, n) == active_upto(b, n),
        canceled_upto(a, n, policy) == canceled_upto(b, n, policy),
    decreases n,
{
    if n > 0 {
        lemma_prefix_decides(a, b, n - 1, policy);
    }
}

proof fn lemma_survivors_settle(ops: Seq<Action>, n: int, policy: ReconcilePolicy)
    requires
        0 <= n <= ops.len(),
    ensures
        active_id(survivors_upto(ops, n, policy)) == active_upto(ops, n),
        canceled_ids(survivors_upto(ops, n, policy), policy) == Seq::<i64>::empty(),
    decreases n,
{
    if n > 0 {
        lemma_survivors_settle(ops, n - 1, policy);
        let before = survivors_upto(ops, n - 1, policy);
        let now = survivors_upto(ops, n, policy);
        if !is_extraneous(ops, n - 1, policy) {
            let m = before.len() as int;
            assert(now.len() == m + 1);
            assert(now[m] == ops[n - 1]);
            lemma_prefix_decides(now, before, m, policy);
        }
    }
}

/// Reconciling is idempotent: in the listing that is left when the extraneous
/// operations are gone, the same operation is active and nothing is extraneous.
pub proof fn lemma_reconcile_idempotent(ops: Seq<Action>, policy: ReconcilePolicy)
    ensures
        active_id(survivors(ops, policy)) == active_id(ops),
        canceled_ids(survivors(ops, policy), policy) == Seq::<i64>::empty(),
{
    lemma_survivors_settle(ops, ops.len() as int, policy);
}

} // verus!
