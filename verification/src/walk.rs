//! Going through a list in order, up to the first error.

use crate::error::ErrorView;
use vstd::prelude::*;

verus! {

/// Goes through a list in order and collects what `pick` makes of its items. An
/// item may be passed over; the first error ends the walk.
pub open spec fn gather<A, B>(
    items: Seq<A>,
    pick: spec_fn(A) -> Result<Option<B>, ErrorView>,
) -> Result<Seq<B>, ErrorView>
    decreases items.len(),
{
    if items.len() == 0 {
        Ok(Seq::empty())
    } else {
        match gather(items.drop_last(), pick) {
            Ok(found) => match pick(items.last()) {
                Ok(Some(item)) => Ok(found.push(item)),
                Ok(None) => Ok(found),
                Err(error) => Err(error),
            },
            Err(error) => Err(error),
        }
    }
}

/// One more step of a walk.
pub proof fn lemma_gather_step<A, B>(
    items: Seq<A>,
    pick: spec_fn(A) -> Result<Option<B>, ErrorView>,
    i: int,
)
    requires
        0 <= i < items.len(),
    ensures
        gather(items.take(i + 1), pick) == (match gather(items.take(i), pick) {
            Ok(found) => match pick(items[i]) {
                Ok(Some(item)) => Ok::<Seq<B>, ErrorView>(found.push(item)),
                Ok(None) => Ok(found),
                Err(error) => Err(error),
            },
            Err(error) => Err(error),
        }),
{
    assert(items.take(i + 1).drop_last() =~= items.take(i));
    assert(items.take(i + 1).last() == items[i]);
}

/// A walk that failed does not recover.
pub proof fn lemma_gather_failed<A, B>(
    items: Seq<A>,
    pick: spec_fn(A) -> Result<Option<B>, ErrorView>,
    i: int,
)
    requires
        0 <= i <= items.len(),
        gather(items.take(i), pick) is Err,
    ensures
        gather(items, pick) == gather(items.take(i), pick),
    decreases items.len() - i,
{
    if i < items.len() {
        lemma_gather_step(items, pick, i);
        lemma_gather_failed(items, pick, i + 1);
    } else {
        assert(items.take(i) =~= items);
    }
}

/// A walk succeeds exactly where every item can be used; else the first item that
/// cannot gives the error.
pub proof fn law_gather_first_error<A, B>(
    items: Seq<A>,
    pick: spec_fn(A) -> Result<Option<B>, ErrorView>,
)
    ensures
        match gather(items, pick) {
            Ok(_) => forall|i: int| 0 <= i < items.len() ==> pick(#[trigger] items[i]) is Ok,
            Err(error) => exists|i: int|
                0 <= i < items.len() && pick(#[trigger] items[i]) == Err::<Option<B>, ErrorView>(
                    error,
                ) && forall|j: int| 0 <= j < i ==> pick(#[trigger] items[j]) is Ok,
        },
    decreases items.len(),
{
    if items.len() > 0 {
        let front = items.drop_last();
        law_gather_first_error(front, pick);
        assert(forall|i: int| 0 <= i < front.len() ==> front[i] == items[i]);
        match gather(front, pick) {
            Ok(_) => {
                assert forall|i: int| 0 <= i < items.len() - 1 implies pick(
                    #[trigger] items[i],
                ) is Ok by {
                    assert(pick(front[i]) is Ok);
                }
                assert(items.last() == items[items.len() - 1]);
            },
            Err(error) => {
                let i = choose|i: int|
                    0 <= i < front.len() && pick(#[trigger] front[i]) == Err::<
                        Option<B>,
                        ErrorView,
                    >(error) && forall|j: int| 0 <= j < i ==> pick(#[trigger] front[j]) is Ok;
                assert(pick(items[i]) == Err::<Option<B>, ErrorView>(error));
                assert forall|j: int| 0 <= j < i implies pick(#[trigger] items[j]) is Ok by {
                    assert(pick(front[j]) is Ok);
                }
            },
        }
    }
}

/// A list in two parts is walked part by part: what the second part adds follows
/// what the first found, and the first part's error comes first. A list of one
/// item gives what the item gives.
pub proof fn law_gather_by_parts<A, B>(
    a: Seq<A>,
    b: Seq<A>,
    x: A,
    pick: spec_fn(A) -> Result<Option<B>, ErrorView>,
)
    ensures
        gather(a + b, pick) == (match (gather(a, pick), gather(b, pick)) {
            (Err(error), _) => Err::<Seq<B>, ErrorView>(error),
            (_, Err(error)) => Err(error),
            (Ok(first), Ok(second)) => Ok(first + second),
        }),
        gather(Seq::empty(), pick) == Ok::<Seq<B>, ErrorView>(Seq::empty()),
        gather(seq![x], pick) == (match pick(x) {
            Err(error) => Err::<Seq<B>, ErrorView>(error),
            Ok(Some(found)) => Ok(seq![found]),
            Ok(None) => Ok(Seq::empty()),
        }),
    decreases b.len(),
{
    assert(seq![x].drop_last() =~= Seq::empty());
    assert(seq![x].last() == x);
    assert(gather(seq![x].drop_last(), pick) == Ok::<Seq<B>, ErrorView>(Seq::empty()));
    if let Ok(Some(found)) = pick(x) {
        assert(Seq::<B>::empty().push(found) =~= seq![found]);
    }
    if b.len() == 0 {
        assert(a + b =~= a);
        if gather(a, pick) is Ok {
            assert(gather(a, pick)->Ok_0 + Seq::<B>::empty() =~= gather(a, pick)->Ok_0);
        }
    } else {
        law_gather_by_parts(a, b.drop_last(), x, pick);
        assert((a + b).drop_last() =~= a + b.drop_last());
        assert((a + b).last() == b.last());
        if gather(a, pick) is Ok && gather(b, pick) is Ok {
            let first = gather(a, pick)->Ok_0;
            let second = gather(b.drop_last(), pick)->Ok_0;
            if let Ok(Some(found)) = pick(b.last()) {
                assert((first + second).push(found) =~= first + second.push(found));
            }
        }
    }
}

} // verus!
