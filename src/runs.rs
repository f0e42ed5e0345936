use vstd::prelude::*;

use crate::log::AuditLog;

verus! {

/// `states` follows one log through successive `log_transaction` calls:
/// each state is the one before it with one more transaction recorded.
pub open spec fn is_logging_run(states: Seq<AuditLog>) -> bool {
    forall|i: int| 0 < i < states.len() ==> #[trigger] states[i]@ == states[i - 1]@ + 1
}

/// How many of `picks` are `true`.
pub open spec fn count_true(picks: Seq<bool>) -> nat
    decreases picks.len(),
{
    if picks.len() == 0 {
        0
    } else {
        count_true(picks.drop_last()) + if picks.last() {
            1nat
        } else {
            0nat
        }
    }
}

/// `states` follows two logs side by side; before step `i` the first log
/// is called when `picks[i]` holds and the second otherwise. The log that
/// is not called keeps its state, since a call changes only its receiver.
pub open spec fn is_paired_run(states: Seq<(AuditLog, AuditLog)>, picks: Seq<bool>) -> bool {
    &&& states.len() == picks.len() + 1
    &&& forall|i: int|
        0 < i < states.len() ==> if picks[i - 1] {
            &&& (#[trigger] states[i]).0@ == states[i - 1].0@ + 1
            &&& states[i].1@ == states[i - 1].1@
        } else {
            &&& states[i].0@ == states[i - 1].0@
            &&& states[i].1@ == states[i - 1].1@ + 1
        }
}

/// A fresh log that has gone through any number of `log_transaction` calls
/// counts exactly that many: after call `k` the count is `k`.
pub proof fn lemma_count_equals_calls(states: Seq<AuditLog>)
    requires
        states.len() >= 1,
        states[0]@ == 0,
        is_logging_run(states),
    ensures
        forall|k: int| 0 <= k < states.len() ==> #[trigger] states[k]@ == k,
    decreases states.len(),
{
    if states.len() > 1 {
        let prefix = states.drop_last();
        assert(is_logging_run(prefix)) by {
            assert forall|i: int| 0 < i < prefix.len() implies
                #[trigger] prefix[i]@ == prefix[i - 1]@ + 1 by {
                assert(states[i]@ == states[i - 1]@ + 1);
            }
        }
        lemma_count_equals_calls(prefix);
        assert forall|k: int| 0 <= k < states.len() implies #[trigger] states[k]@ == k by {
            if k < prefix.len() {
                assert(prefix[k]@ == k);
            } else {
                assert(prefix[k - 1]@ == k - 1);
                assert(states[k]@ == states[k - 1]@ + 1);
            }
        }
    }
}

/// Two logs created fresh count independently: however calls on them are
/// interleaved, each counts only the calls made on it.
pub proof fn lemma_logs_count_independently(
    states: Seq<(AuditLog, AuditLog)>,
    picks: Seq<bool>,
)
    requires
        is_paired_run(states, picks),
        states[0].0@ == 0,
        states[0].1@ == 0,
    ensures
        states.last().0@ == count_true(picks),
        states.last().1@ == picks.len() - count_true(picks),
    decreases picks.len(),
{
    if picks.len() > 0 {
        let prefix = states.drop_last();
        let first_picks = picks.drop_last();
        assert(is_paired_run(prefix, first_picks)) by {
            assert forall|i: int| 0 < i < prefix.len() implies if first_picks[i - 1] {
                &&& (#[trigger] prefix[i]).0@ == prefix[i - 1].0@ + 1
                &&& prefix[i].1@ == prefix[i - 1].1@
            } else {
                &&& prefix[i].0@ == prefix[i - 1].0@
                &&& prefix[i].1@ == prefix[i - 1].1@ + 1
            } by {
                assert(states[i] == prefix[i]);
            }
        }
        lemma_logs_count_independently(prefix, first_picks);
        lemma_count_true_bounded(first_picks);
    }
}

proof fn lemma_count_true_bounded(picks: Seq<bool>)
    ensures
        count_true(picks) <= picks.len(),
    decreases picks.len(),
{
    if picks.len() > 0 {
        lemma_count_true_bounded(picks.drop_last());
    }
}

} // verus!
