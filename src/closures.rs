//! A single-slot memoizing cache around a pure computation on `u32`.
use vstd::prelude::*;

verus! {

/// The abstract state of a [`Cacher`]: the remembered `(input, output)` pair,
/// if any, and how many times the wrapped computation has run so far.
pub ghost struct CacheView {
    pub remembered: Option<(u32, u32)>,
    pub invocations: nat,
}

impl CacheView {
    /// The cache answers `arg` from its slot without running the computation.
    pub open spec fn hits(self, arg: u32) -> bool {
        match self.remembered {
            Some(pair) => pair.0 == arg,
            None => false,
        }
    }

    /// The output held in the slot (meaningful only when the slot is filled).
    pub open spec fn output(self) -> u32 {
        self.remembered->Some_0.1
    }

    /// The state after the computation ran on `arg` and returned `out`.
    pub open spec fn after_miss(self, arg: u32, out: u32) -> CacheView {
        CacheView { remembered: Some((arg, out)), invocations: self.invocations + 1 }
    }
}

/// One query of a cache whose computation is `f`: from state `pre`, asking for
/// `arg` returns `r` and leaves state `post`.
///
/// A hit returns the remembered output and changes nothing; a miss runs `f`
/// once on `arg`, returns what it gave and remembers that pair.
pub open spec fn query<F: Fn(u32) -> u32>(
    f: F,
    pre: CacheView,
    arg: u32,
    post: CacheView,
    r: u32,
) -> bool {
    if pre.hits(arg) {
        r == pre.output() && post == pre
    } else {
        f.ensures((arg,), r) && post == pre.after_miss(arg, r)
    }
}

/// Asking twice in a row for the same input runs the computation at most
/// once, on the first query only: the second query is a pure hit that returns
/// the same output and leaves the cache as it was. On an empty cache the pair
/// of queries runs the computation exactly once.
pub proof fn lemma_same_input_runs_once<F: Fn(u32) -> u32>(
    f: F,
    v0: CacheView,
    a: u32,
    b: u32,
    v1: CacheView,
    r1: u32,
    v2: CacheView,
    r2: u32,
)
    requires
        a == b,
        query(f, v0, a, v1, r1),
        query(f, v1, b, v2, r2),
    ensures
        r2 == r1,
        v2 == v1,
        v2.invocations == v0.invocations + if v0.hits(a) { 0nat } else { 1nat },
        v0.remembered is None ==> v2.invocations == v0.invocations + 1,
{
}

/// Asking for two different inputs in a row runs the computation for the
/// second one, and its answer is an output of the computation on `b`. On an
/// empty cache the pair of queries runs the computation exactly twice.
pub proof fn lemma_different_inputs_run_twice<F: Fn(u32) -> u32>(
    f: F,
    v0: CacheView,
    a: u32,
    b: u32,
    v1: CacheView,
    r1: u32,
    v2: CacheView,
    r2: u32,
)
    requires
        a != b,
        query(f, v0, a, v1, r1),
        query(f, v1, b, v2, r2),
    ensures
        f.ensures((b,), r2),
        v2.remembered == Some((b, r2)),
        v2.invocations == v1.invocations + 1,
        v0.remembered is None ==> v2.invocations == v0.invocations + 2,
{
}

/// Repeating one input: after the first query, every further query with the
/// same input returns the first answer and runs the computation no more.
///
/// `views[i]` is the state before query `i` and `views[i + 1]` the state after
/// it; `results[i]` is what query `i` returned.
pub proof fn lemma_repeated_input_is_stable<F: Fn(u32) -> u32>(
    f: F,
    arg: u32,
    views: Seq<CacheView>,
    results: Seq<u32>,
)
    requires
        results.len() >= 1,
        views.len() == results.len() + 1,
        forall|i: int|
            #![trigger results[i]]
            0 <= i < results.len() ==> query(f, views[i], arg, views[i + 1], results[i]),
    ensures
        forall|i: int| 1 <= i < results.len() ==> #[trigger] results[i] == results[0],
        forall|i: int| 1 <= i < views.len() ==> #[trigger] views[i] == views[1],
    decreases results.len(),
{
    assert(query(f, views[0], arg, views[1], results[0]));
    assert(views[1].hits(arg) && views[1].output() == results[0]);
    if results.len() > 1 {
        let n = results.len() - 1;
        let (pv, pr) = (views.drop_last(), results.drop_last());
        lemma_repeated_input_is_stable(f, arg, pv, pr);
        assert forall|i: int| 0 <= i < pr.len() implies query(f, pv[i], arg, pv[i + 1], pr[i]) by {
            assert(pr[i] == results[i]);
        }
        assert(pv[n] == views[n]);
        assert(query(f, views[n], arg, views[n + 1], results[n]));
        assert forall|i: int| 1 <= i < results.len() implies #[trigger] results[i] == results[0] by {
            if i < n {
                assert(pr[i] == results[i]);
            }
        }
        assert forall|i: int| 1 <= i < views.len() implies #[trigger] views[i] == views[1] by {
            if i <= n {
                assert(pv[i] == views[i]);
            }
        }
    }
}

/// The first query on an empty cache always runs the computation, whatever
/// the input, and remembers its answer.
pub proof fn lemma_first_query_runs<F: Fn(u32) -> u32>(
    f: F,
    v0: CacheView,
    arg: u32,
    v1: CacheView,
    r: u32,
)
    requires
        v0.remembered is None,
        query(f, v0, arg, v1, r),
    ensures
        f.ensures((arg,), r),
        v1.remembered == Some((arg, r)),
        v1.invocations == v0.invocations + 1,
{
}

/// Remembers the most recent input and output of `calculation`, and runs the
/// calculation again only when asked for a different input.
pub struct Cacher<F: Fn(u32) -> u32> {
    calculation: F,
    value: Option<(u32, u32)>,
    invocations: Ghost<nat>,
}

impl<F: Fn(u32) -> u32> View for Cacher<F> {
    type V = CacheView;

    closed spec fn view(&self) -> CacheView {
        CacheView { remembered: self.value, invocations: self.invocations@ }
    }
}

impl<F: Fn(u32) -> u32> Cacher<F> {
    /// The wrapped computation.
    pub closed spec fn calculation(&self) -> F {
        self.calculation
    }

    /// The computation accepts every input, and the remembered pair, if any,
    /// is one that the computation produced.
    pub closed spec fn wf(&self) -> bool {
        &&& forall|x: u32| self.calculation.requires((x,))
        &&& match self.value {
            Some(pair) => self.calculation.ensures((pair.0,), pair.1),
            None => true,
        }
    }

    /// Takes ownership of `calculation`; the new cache remembers nothing.
    pub fn new(calculation: F) -> (c: Cacher<F>)
        requires
            forall|x: u32| calculation.requires((x,)),
        ensures
            c.wf(),
            c.calculation() == calculation,
            c@.remembered is None,
            c@.invocations == 0,
    {
        Cacher { calculation, value: None, invocations: Ghost(0) }
    }

    /// The computation's output for `arg`: the remembered one when `arg` is the
    /// remembered input, otherwise a fresh one, which is then remembered.
    pub fn value(&mut self, arg: u32) -> (r: u32)
        requires
            old(self).wf(),
        ensures
            final(self).wf(),
            final(self).calculation() == old(self).calculation(),
            query(old(self).calculation(), old(self)@, arg, final(self)@, r),
    {
        match self.value {
            Some(pair) => {
                if pair.0 != arg {
                    let out = (self.calculation)(arg);
                    self.value = Some((arg, out));
                    self.invocations = Ghost(self.invocations@ + 1);
                    out
                } else {
                    pair.1
                }
            },
            None => {
                let out = (self.calculation)(arg);
                self.value = Some((arg, out));
                self.invocations = Ghost(self.invocations@ + 1);
                out
            },
        }
    }
}

} // verus!
