use vstd::prelude::*;

verus! {

/// `samples` is a run of `steps` samples that starts at `initial` and in which
/// each sample is a result of `advance` on the one before it.
pub open spec fn is_run<S, F: Fn(S) -> S>(samples: Seq<S>, initial: S, steps: nat, advance: F) -> bool {
    &&& samples.len() == steps
    &&& steps > 0 ==> samples[0] == initial
    &&& forall|i: int| 0 <= i < steps - 1 ==> #[trigger] advance.ensures((samples[i],), samples[i + 1])
}

/// Records `steps` samples of a state: the initial state first, then the
/// state that each application of `advance` yields from the one recorded
/// before it. The state is sampled before each update, so the last update is
/// computed and not recorded.
pub fn record_run<S: Copy, F: Fn(S) -> S>(initial: S, steps: usize, advance: F) -> (r: Vec<S>)
    requires
        forall|s: S| advance.requires((s,)),
    ensures
        is_run(r@, initial, steps as nat, advance),
{
    let mut samples: Vec<S> = Vec::with_capacity(steps);
    let mut state = initial;
    let mut i: usize = 0;
    while i < steps
        invariant
            i <= steps,
            samples@.len() == i,
            forall|s: S| advance.requires((s,)),
            i > 0 ==> samples@[0] == initial,
            i == 0 ==> state == initial,
            i > 0 ==> advance.ensures((samples@[i - 1],), state),
            forall|k: int| 0 <= k < i - 1 ==> #[trigger] advance.ensures((samples@[k],), samples@[k + 1]),
        decreases steps - i,
    {
        samples.push(state);
        state = advance(state);
        i = i + 1;
    }
    samples
}


/// A property that holds of the initial state, and that every step of
/// `advance` carries from a state to its result, holds of every sample of a
/// run.
pub proof fn lemma_run_keeps_property<S, F: Fn(S) -> S>(
    samples: Seq<S>,
    initial: S,
    steps: nat,
    advance: F,
    holds: spec_fn(S) -> bool,
)
    requires
        is_run(samples, initial, steps, advance),
        holds(initial),
        forall|s: S, t: S| holds(s) && #[trigger] advance.ensures((s,), t) ==> holds(t),
    ensures
        forall|i: int| 0 <= i < samples.len() ==> holds(#[trigger] samples[i]),
{
    assert forall|i: int| 0 <= i < samples.len() implies holds(#[trigger] samples[i]) by {
        lemma_sample_has_property(samples, initial, steps, advance, holds, i);
    }
}

proof fn lemma_sample_has_property<S, F: Fn(S) -> S>(
    samples: Seq<S>,
    initial: S,
    steps: nat,
    advance: F,
    holds: spec_fn(S) -> bool,
    i: int,
)
    requires
        is_run(samples, initial, steps, advance),
        holds(initial),
        forall|s: S, t: S| holds(s) && #[trigger] advance.ensures((s,), t) ==> holds(t),
        0 <= i < samples.len(),
    ensures
        holds(samples[i]),
    decreases i,
{
    if i > 0 {
        lemma_sample_has_property(samples, initial, steps, advance, holds, i - 1);
        assert(advance.ensures((samples[i - 1],), samples[(i - 1) + 1]));
    }
}

/// A run that starts at a state which `advance` can only map to itself
/// stays at that state in every sample.
pub proof fn lemma_run_at_fixed_point<S, F: Fn(S) -> S>(
    samples: Seq<S>,
    initial: S,
    steps: nat,
    advance: F,
)
    requires
        is_run(samples, initial, steps, advance),
        forall|t: S| #[trigger] advance.ensures((initial,), t) ==> t == initial,
    ensures
        forall|i: int| 0 <= i < samples.len() ==> #[trigger] samples[i] == initial,
{
    let at_initial = |s: S| s == initial;
    assert forall|s: S, t: S| at_initial(s) && #[trigger] advance.ensures((s,), t) implies at_initial(t) by {}
    lemma_run_keeps_property(samples, initial, steps, advance, at_initial);
}

} // verus!
