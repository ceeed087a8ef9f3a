use vstd::prelude::*;

verus! {

/// The first error among per-entry check outcomes, scanning from position `i`.
pub open spec fn first_error_from<E>(outcomes: Seq<Option<E>>, i: int) -> Result<(), E>
    decreases outcomes.len() - i,
{
    if i >= outcomes.len() {
        Ok(())
    } else {
        match outcomes[i] {
            Some(e) => Err(e),
            None => first_error_from(outcomes, i + 1),
        }
    }
}

/// The first error among per-entry check outcomes, taken in order.
pub open spec fn first_error<E>(outcomes: Seq<Option<E>>) -> Result<(), E> {
    first_error_from(outcomes, 0)
}

proof fn lemma_first_error_from_ok<E>(outcomes: Seq<Option<E>>, i: int)
    requires
        0 <= i,
    ensures
        first_error_from(outcomes, i) is Ok <==> forall|j: int|
            i <= j < outcomes.len() ==> #[trigger] outcomes[j] is None,
    decreases outcomes.len() - i,
{
    if i < outcomes.len() {
        lemma_first_error_from_ok(outcomes, i + 1);
    }
}

/// Checks pass exactly when no entry reports an error.
pub proof fn lemma_first_error_ok<E>(outcomes: Seq<Option<E>>)
    ensures
        first_error(outcomes) is Ok <==> forall|j: int|
            0 <= j < outcomes.len() ==> #[trigger] outcomes[j] is None,
{
    lemma_first_error_from_ok(outcomes, 0);
}

/// Number of elements of `s` that satisfy `p`.
pub open spec fn count_where<T>(s: Seq<T>, p: spec_fn(T) -> bool) -> nat
    decreases s.len(),
{
    if s.len() == 0 {
        0
    } else {
        count_where(s.drop_last(), p) + if p(s.last()) {
            1nat
        } else {
            0nat
        }
    }
}

/// Sum of `f` over the elements of `s`.
pub open spec fn sum_of<T>(s: Seq<T>, f: spec_fn(T) -> nat) -> nat
    decreases s.len(),
{
    if s.len() == 0 {
        0
    } else {
        sum_of(s.drop_last(), f) + f(s.last())
    }
}

/// Counting and summing over a prefix one element longer adds that element's share.
pub proof fn lemma_prefix_step<T>(s: Seq<T>, i: int)
    requires
        0 <= i < s.len(),
    ensures
        forall|p: spec_fn(T) -> bool|
            #[trigger] count_where(s.take(i + 1), p) == count_where(s.take(i), p) + if p(s[i]) {
                1nat
            } else {
                0nat
            },
        forall|f: spec_fn(T) -> nat|
            #[trigger] sum_of(s.take(i + 1), f) == sum_of(s.take(i), f) + f(s[i]),
{
    assert(s.take(i + 1).drop_last() =~= s.take(i));
    assert(s.take(i + 1).last() == s[i]);
}

/// A count never exceeds the length counted over.
pub proof fn lemma_count_bound<T>(s: Seq<T>, p: spec_fn(T) -> bool)
    ensures
        count_where(s, p) <= s.len(),
    decreases s.len(),
{
    if s.len() > 0 {
        lemma_count_bound(s.drop_last(), p);
    }
}

/// A whole sequence is its own full-length prefix.
pub proof fn lemma_take_all<T>(s: Seq<T>)
    ensures
        s.take(s.len() as int) == s,
{
    assert(s.take(s.len() as int) =~= s);
}

} // verus!
