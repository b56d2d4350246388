//! Combining many listeners: binding succeeds only where every listener
//! binds, and the addresses of a multi-listener are those of its listeners in
//! order.

use vstd::prelude::*;

verus! {

/// Whether every result succeeded.
pub open spec fn all_ok<T, E>(results: Seq<Result<T, E>>) -> bool {
    forall|i: int| 0 <= i < results.len() ==> #[trigger] results[i] is Ok
}

/// The values of results that all succeeded, in order.
pub open spec fn ok_values<T, E>(results: Seq<Result<T, E>>) -> Seq<T> {
    results.map_values(|r: Result<T, E>| r->Ok_0)
}

/// Whether `e` is the error of the first result that failed.
pub open spec fn is_first_error<T, E>(results: Seq<Result<T, E>>, e: E) -> bool {
    exists|i: int|
        0 <= i < results.len() && #[trigger] results[i] == Err::<T, E>(e) && forall|j: int|
            0 <= j < i ==> #[trigger] results[j] is Ok
}

/// All the values where every result succeeded, in order; otherwise the error
/// of the first result that failed.
pub fn collect_results<T, E>(results: Vec<Result<T, E>>) -> (r: Result<Vec<T>, E>)
    ensures
        r is Ok <==> all_ok(results@),
        r matches Ok(v) ==> v@ == ok_values(results@),
        r matches Err(e) ==> is_first_error(results@, e),
{
    let ghost input = results@;
    let mut out: Vec<T> = Vec::new();
    for item in it: results
        invariant
            it.seq() == input,
            out@.len() == it.index(),
            forall|j: int| 0 <= j < it.index() ==> #[trigger] input[j] is Ok,
            forall|j: int| 0 <= j < it.index() ==> #[trigger] out@[j] == input[j]->Ok_0,
    {
        let ghost k = it.index();
        match item {
            Ok(v) => {
                out.push(v);
            },
            Err(e) => {
                assert(input[k] == Err::<T, E>(e));
                assert(!all_ok(input));
                return Err(e);
            },
        }
    }
    assert(out@ =~= ok_values(input));
    Ok(out)
}

/// The addresses of a multi-listener, of whatever address type its listeners
/// report.
#[derive(Debug)]
pub struct MultiAddr<A> {
    pub addrs: Vec<A>,
}

impl<A: Clone> Clone for MultiAddr<A> {
    fn clone(&self) -> (r: Self)
        ensures
            r.addrs@.len() == self.addrs@.len(),
            forall|i: int| 0 <= i < self.addrs@.len() ==> cloned::<A>(self.addrs@[i], #[trigger] r.addrs@[i]),
    {
        MultiAddr { addrs: self.addrs.clone() }
    }
}

impl<A> MultiAddr<A> {
    /// The address reported for a connection: that of its peer, alone.
    pub fn from_accepted(addr: A) -> (r: MultiAddr<A>)
        ensures
            r.addrs@ == seq![addr],
    {
        let mut addrs: Vec<A> = Vec::new();
        addrs.push(addr);
        let r = MultiAddr { addrs };
        assert(r.addrs@ =~= seq![addr]);
        r
    }

    /// The local addresses of a multi-listener from those of its listeners,
    /// in order; the error of the first listener whose address could not be
    /// read otherwise.
    pub fn from_local_addrs<E>(addrs: Vec<Result<A, E>>) -> (r: Result<MultiAddr<A>, E>)
        ensures
            r is Ok <==> all_ok(addrs@),
            r matches Ok(m) ==> m.addrs@ == ok_values(addrs@),
            r matches Err(e) ==> is_first_error(addrs@, e),
    {
        match collect_results(addrs) {
            Ok(v) => Ok(MultiAddr { addrs: v }),
            Err(e) => Err(e),
        }
    }
}

/// Where every result succeeded, there is one value per result, in the same
/// order: binding many addresses yields one listener per address.
pub proof fn lemma_one_value_per_result<T, E>(results: Seq<Result<T, E>>)
    requires
        all_ok(results),
    ensures
        ok_values(results).len() == results.len(),
        forall|i: int| 0 <= i < results.len() ==> results[i] == Ok::<T, E>(#[trigger] ok_values(results)[i]),
{
    assert forall|i: int| 0 <= i < results.len() implies results[i] == Ok::<T, E>(#[trigger] ok_values(results)[i]) by {
        assert(results[i] is Ok);
    }
}

/// Where some result failed, no values come back.
pub proof fn lemma_any_error_fails_all<T, E>(results: Seq<Result<T, E>>, i: int)
    requires
        0 <= i < results.len(),
        results[i] is Err,
    ensures
        !all_ok(results),
{
}

} // verus!
