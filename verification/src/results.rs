//! Collecting a list of outcomes into one: all the values, or the first error.

use vstd::prelude::*;

verus! {

/// The values of a list of outcomes in order, or the first error among them.
pub open spec fn collected<V, E>(outcomes: Seq<Result<V, E>>) -> Result<Seq<V>, E>
    decreases outcomes.len(),
{
    if outcomes.len() == 0 {
        Ok(Seq::empty())
    } else {
        match collected(outcomes.drop_last()) {
            Err(e) => Err(e),
            Ok(values) => match outcomes.last() {
                Ok(v) => Ok(values.push(v)),
                Err(e) => Err(e),
            },
        }
    }
}

/// Collecting one more outcome: an earlier error stays, otherwise the next
/// outcome is appended or is the error.
pub proof fn lemma_collected_step<V, E>(outcomes: Seq<Result<V, E>>, i: int)
    requires
        0 <= i < outcomes.len(),
    ensures
        collected(outcomes.take(i + 1)) == match collected(outcomes.take(i)) {
            Err(e) => Err(e),
            Ok(values) => match outcomes[i] {
                Ok(v) => Ok(values.push(v)),
                Err(e) => Err(e),
            },
        },
{
    assert(outcomes.take(i + 1).drop_last() =~= outcomes.take(i));
    assert(outcomes.take(i + 1).last() == outcomes[i]);
}

/// An error among the first outcomes is the error of the whole list.
pub proof fn lemma_collected_error_stays<V, E>(outcomes: Seq<Result<V, E>>, i: int)
    requires
        0 <= i <= outcomes.len(),
        collected(outcomes.take(i)) is Err,
    ensures
        collected(outcomes) == collected(outcomes.take(i)),
    decreases outcomes.len() - i,
{
    if i == outcomes.len() {
        assert(outcomes.take(i) =~= outcomes);
    } else {
        lemma_collected_step(outcomes, i);
        lemma_collected_error_stays(outcomes, i + 1);
    }
}

/// Where every outcome is a value, the collection holds exactly those values.
pub proof fn lemma_collected_all<V, E>(outcomes: Seq<Result<V, E>>)
    ensures
        collected(outcomes) is Ok <==> forall|i: int|
            0 <= i < outcomes.len() ==> (#[trigger] outcomes[i]) is Ok,
        collected(outcomes) is Ok ==> collected(outcomes)->Ok_0.len() == outcomes.len()
            && forall|i: int|
            0 <= i < outcomes.len() ==> collected(outcomes)->Ok_0[i] == (
            #[trigger] outcomes[i])->Ok_0,
    decreases outcomes.len(),
{
    if outcomes.len() > 0 {
        let before = outcomes.drop_last();
        lemma_collected_all(before);
        assert(forall|i: int| 0 <= i < before.len() ==> before[i] == outcomes[i]);
        if collected(outcomes) is Ok {
            assert forall|i: int| 0 <= i < outcomes.len() implies (#[trigger] outcomes[i]) is Ok by {
                if i < before.len() {
                    assert(before[i] is Ok);
                }
            }
        }
        if forall|i: int| 0 <= i < outcomes.len() ==> (#[trigger] outcomes[i]) is Ok {
            assert forall|i: int| 0 <= i < before.len() implies (#[trigger] before[i]) is Ok by {
                assert(outcomes[i] is Ok);
            }
            assert(outcomes.last() is Ok);
        }
    }
}

} // verus!
