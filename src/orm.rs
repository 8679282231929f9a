//! Materialising the records that a document-store cursor yields.
//!
//! A query streams its records one pull at a time. [`Fetch`] gathers them and
//! hands back either every record, in the order the store yielded them, or the
//! failure that stopped the stream: never a part of the records.
use vstd::prelude::*;

verus! {

/// A failure reported by the document store: connection, query or decode.
#[derive(Debug, Clone, PartialEq, Eq)]
pub struct StoreFailure {
    pub message: String,
}

/// What one pull from a store cursor produced.
pub enum CursorStep<T> {
    /// The next record, already decoded.
    Record(T),
    /// The cursor has no more records.
    Exhausted,
    /// The pull failed.
    Failed(StoreFailure),
}

/// What a stream of pulls amounts to: `None` while it has not ended, else all
/// records up to the end, or the failure that stopped it.
pub open spec fn stream_outcome<T>(steps: Seq<CursorStep<T>>) -> Option<Result<Seq<T>, StoreFailure>>
    decreases steps.len(),
{
    if steps.len() == 0 {
        None
    } else {
        match steps[0] {
            CursorStep::Record(x) => match stream_outcome(steps.drop_first()) {
                Some(Ok(rest)) => Some(Ok(seq![x] + rest)),
                other => other,
            },
            CursorStep::Exhausted => Some(Ok(Seq::empty())),
            CursorStep::Failed(e) => Some(Err(e)),
        }
    }
}

/// The records of a sequence of pulls that are all `Record`.
pub open spec fn records_of<T>(steps: Seq<CursorStep<T>>) -> Seq<T> {
    steps.map_values(|s: CursorStep<T>| s->Record_0)
}

/// Gathers the records of one query while its cursor is pulled.
pub struct Fetch<T> {
    items: Vec<T>,
    end: Option<Result<(), StoreFailure>>,
}

impl<T> Fetch<T> {
    /// The records gathered so far.
    pub closed spec fn received(&self) -> Seq<T> {
        self.items@
    }

    /// How the stream ended: `None` while it is still open.
    pub closed spec fn ending(&self) -> Option<Result<(), StoreFailure>> {
        self.end
    }

    /// What the fetch amounts to once its stream has ended.
    pub open spec fn result(&self) -> Option<Result<Seq<T>, StoreFailure>> {
        match self.ending() {
            None => None,
            Some(Ok(())) => Some(Ok(self.received())),
            Some(Err(e)) => Some(Err(e)),
        }
    }

    /// A fetch whose stream has not yielded anything yet.
    pub fn new() -> (r: Fetch<T>)
        ensures
            r.received() == Seq::<T>::empty(),
            r.ending() is None,
    {
        Fetch { items: Vec::new(), end: None }
    }

    /// Whether the cursor must still be pulled.
    pub fn is_open(&self) -> (r: bool)
        ensures
            r == self.ending() is None,
    {
        self.end.is_none()
    }

    /// Takes in what one pull produced.
    pub fn feed(&mut self, step: CursorStep<T>)
        requires
            old(self).ending() is None,
        ensures
            match step {
                CursorStep::Record(x) => final(self).received() == old(self).received().push(x)
                    && final(self).ending() is None,
                CursorStep::Exhausted => final(self).received() == old(self).received()
                    && final(self).ending() == Some(Ok::<(), StoreFailure>(())),
                CursorStep::Failed(e) => final(self).received() == old(self).received()
                    && final(self).ending() == Some(Err::<(), StoreFailure>(e)),
            },
    {
        match step {
            CursorStep::Record(x) => self.items.push(x),
            CursorStep::Exhausted => self.end = Some(Ok(())),
            CursorStep::Failed(e) => self.end = Some(Err(e)),
        }
    }

    /// Every record of the ended stream, or the failure that ended it.
    pub fn finish(self) -> (r: Result<Vec<T>, StoreFailure>)
        requires
            self.ending() is Some,
        ensures
            self.result() == Some(match r {
                Ok(v) => Ok::<Seq<T>, StoreFailure>(v@),
                Err(e) => Err(e),
            }),
    {
        match self.end {
            Some(Err(e)) => Err(e),
            _ => Ok(self.items),
        }
    }
}

proof fn lemma_outcome_after_records<T>(steps: Seq<CursorStep<T>>, i: int)
    requires
        0 <= i <= steps.len(),
        forall|j: int| 0 <= j < i ==> steps[j] is Record,
    ensures
        stream_outcome(steps) == match stream_outcome(steps.subrange(i, steps.len() as int)) {
            Some(Ok(rest)) => Some(Ok(records_of(steps.subrange(0, i)) + rest)),
            other => other,
        },
    decreases i,
{
    if i > 0 {
        let tail = steps.drop_first();
        lemma_outcome_after_records(tail, i - 1);
        assert(tail.subrange(i - 1, tail.len() as int) =~= steps.subrange(i, steps.len() as int));
        let first = records_of(steps.subrange(0, 1));
        assert(records_of(steps.subrange(0, i)) =~= first + records_of(tail.subrange(0, i - 1)));
        match stream_outcome(steps.subrange(i, steps.len() as int)) {
            Some(Ok(rest)) => {
                assert(records_of(steps.subrange(0, i)) + rest =~= seq![steps[0]->Record_0]
                    + (records_of(tail.subrange(0, i - 1)) + rest));
            },
            _ => {},
        }
    } else {
        assert(steps.subrange(0, steps.len() as int) =~= steps);
        match stream_outcome(steps) {
            Some(Ok(rest)) => {
                assert(records_of(steps.subrange(0, 0)) + rest =~= rest);
            },
            _ => {},
        }
    }
}

/// The pulls of a cursor that yields `records` one by one.
pub open spec fn yields<T>(records: Seq<T>) -> Seq<CursorStep<T>> {
    records.map_values(|x: T| CursorStep::Record(x))
}

/// A stream that yields some records and then ends without failure amounts to
/// exactly those records, in the order the store yielded them.
pub proof fn lemma_complete_stream<T>(records: Seq<T>, rest: Seq<CursorStep<T>>)
    ensures
        stream_outcome(yields(records) + seq![CursorStep::Exhausted] + rest) == Some(
            Ok::<Seq<T>, StoreFailure>(records),
        ),
{
    let steps = yields(records) + seq![CursorStep::Exhausted] + rest;
    let n = records.len() as int;
    lemma_outcome_after_records(steps, n);
    assert(steps.subrange(0, n) =~= yields(records));
    assert(records_of(yields(records)) =~= records);
    assert(steps.subrange(n, steps.len() as int)[0] == CursorStep::<T>::Exhausted);
    assert(records + Seq::<T>::empty() =~= records);
}

/// A stream that fails after yielding some records amounts to the failure,
/// never to a part of the records, whatever the cursor would have yielded after.
pub proof fn lemma_failed_stream<T>(records: Seq<T>, e: StoreFailure, rest: Seq<CursorStep<T>>)
    ensures
        stream_outcome(yields(records) + seq![CursorStep::Failed(e)] + rest) == Some(
            Err::<Seq<T>, StoreFailure>(e),
        ),
{
    let steps = yields(records) + seq![CursorStep::Failed(e)] + rest;
    let n = records.len() as int;
    lemma_outcome_after_records(steps, n);
    assert(steps.subrange(n, steps.len() as int)[0] == CursorStep::<T>::Failed(e));
}

/// All the records that the pulls `steps` of a query's cursor yield, gathered
/// by a fetch that stops at the first pull that ends the stream.
pub fn all<T>(steps: Vec<CursorStep<T>>) -> (r: Option<Result<Vec<T>, StoreFailure>>)
    ensures
        stream_outcome(steps@) == match r {
            None => None,
            Some(Ok(v)) => Some(Ok::<Seq<T>, StoreFailure>(v@)),
            Some(Err(e)) => Some(Err(e)),
        },
{
    let ghost all = steps@;
    let mut fetch: Fetch<T> = Fetch::new();
    let mut steps = steps;
    let mut taken: usize = 0;
    let total: usize = steps.len();
    assert(all.len() == total);
    while fetch.is_open() && steps.len() > 0
        invariant
            taken + steps@.len() == all.len(),
            all.len() <= usize::MAX,
            steps@ == all.subrange(taken as int, all.len() as int),
            fetch.ending() is None ==> forall|j: int| 0 <= j < taken ==> all[j] is Record,
            fetch.ending() is None ==> fetch.received() == records_of(all.subrange(0, taken as int)),
            fetch.ending() is Some ==> stream_outcome(all) == fetch.result(),
        decreases steps@.len(),
    {
        let step = steps.remove(0);
        proof {
            assert(step == all[taken as int]);
            lemma_outcome_after_records(all, taken as int);
            let rest = all.subrange(taken as int, all.len() as int);
            assert(rest[0] == step);
            assert(rest.drop_first() =~= all.subrange(taken + 1, all.len() as int));
        }
        fetch.feed(step);
        taken = taken + 1;
        proof {
            assert(records_of(all.subrange(0, taken as int)) =~= records_of(
                all.subrange(0, taken - 1),
            ).push(all[taken - 1]->Record_0)) by {
                if all[taken - 1] is Record {
                }
            };
        }
    }
    if fetch.is_open() {
        proof {
            lemma_outcome_after_records(all, taken as int);
            assert(all.subrange(taken as int, all.len() as int).len() == 0);
        }
        None
    } else {
        Some(fetch.finish())
    }
}

} // verus!
