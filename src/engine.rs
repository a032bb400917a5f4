//! The two-pass protocol that decides, per generation step, which scalings
//! the model runs with.
use vstd::prelude::*;
use vstd::pervasive::cloned;
use crate::cache::{GenerationCache, KvSlot, all_placeholders, placeholder_slots};
use crate::state::NonGranularState;

verus! {

/// What one architecture family provides to the scalings protocol.
///
/// `T` is the family's tensor type, `E` its error type and `V` the type of
/// the classifier's scaling-pass value, the fill constant of the auxiliary
/// pass. Each operation is described by a spec function of its arguments
/// (and of the model, but for the shape of a tensor), which every
/// implementation meets. The generation cache is held beside the model:
/// [`get_scalings`] hands its key/value slots to the passes, and only the
/// protocol itself reads and writes the scalings slot.
pub trait ScalingsMaker<T, E, V> {
    /// What [`ScalingsMaker::dims2`] returns for `t`, whatever the model.
    spec fn spec_dims2(t: T) -> Result<(usize, usize), E>;

    /// What [`ScalingsMaker::dummy_scalings`] returns.
    spec fn spec_dummy(&self, batch: usize, seq_len: usize, like: T) -> Result<T, E>;

    /// The classifier's scaling-pass value.
    spec fn spec_scaling_pass_value(&self) -> V;

    /// What [`ScalingsMaker::forward`] returns when run on this model with
    /// key/value slots `kv`, and the slots it leaves.
    spec fn spec_forward(
        &self,
        kv: Seq<KvSlot<T>>,
        input_ids: T,
        seqlen_offsets: Seq<usize>,
        start_offsets_kernel: T,
        scalings: T,
        is_full_pass: bool,
        no_kv_cache: bool,
        is_scaling_pass: Option<V>,
        context_lens: Seq<usize>,
    ) -> (Result<T, E>, Seq<KvSlot<T>>);

    /// What [`ScalingsMaker::classify`] returns for `hidden_states`.
    spec fn spec_classify(&self, hidden_states: T) -> Result<T, E>;

    /// The two dimensions of a rank-2 tensor of token ids, or a shape error.
    fn dims2(&self, t: &T) -> (r: Result<(usize, usize), E>)
        ensures
            r == Self::spec_dims2(*t),
    ;

    /// A neutral scalings tensor for `batch` sequences of `seq_len` tokens,
    /// in the engine's element type and on the device of `like`.
    fn dummy_scalings(&self, batch: usize, seq_len: usize, like: &T) -> (r: Result<T, E>)
        ensures
            r == self.spec_dummy(batch, seq_len, *like),
    ;

    /// The classifier's scaling-pass value.
    fn scaling_pass_value(&self) -> (r: V)
        ensures
            r == self.spec_scaling_pass_value(),
    ;

    /// Runs the transformer stack over the key/value slots `kv`, writing
    /// them as it goes, and returns the final hidden states.
    fn forward(
        &mut self,
        kv: &mut Vec<KvSlot<T>>,
        input_ids: &T,
        seqlen_offsets: &[usize],
        start_offsets_kernel: &T,
        scalings: T,
        is_full_pass: bool,
        no_kv_cache: bool,
        is_scaling_pass: Option<V>,
        context_lens: &[usize],
    ) -> (r: Result<T, E>)
        ensures
            (r, final(kv)@) == old(self).spec_forward(
                old(kv)@,
                *input_ids,
                seqlen_offsets@,
                *start_offsets_kernel,
                scalings,
                is_full_pass,
                no_kv_cache,
                is_scaling_pass,
                context_lens@,
            ),
    ;

    /// The classifier: hidden states to scalings.
    fn classify(&self, hidden_states: T) -> (r: Result<T, E>)
        ensures
            r == self.spec_classify(hidden_states),
    ;
}

/// How a step obtains its scalings.
#[derive(PartialEq, Eq, Structural, Clone, Copy, Debug)]
pub enum ScalingsPlan {
    /// Return the frozen scalings of the cache.
    UseCached,
    /// Run the auxiliary pass over the whole sequence, then reset the key/value slots.
    FullPass,
    /// Run the pass over the new tokens only.
    IncrementalPass,
}

/// True when the step returns the frozen scalings without any pass.
pub open spec fn short_circuits(ng: Option<NonGranularState>, has_cached: bool) -> bool {
    ng is Some && has_cached
}

/// True when the step is counted: non-granular mode, nothing frozen yet, and
/// a single new token.
pub open spec fn counts_step(ng: Option<NonGranularState>, has_cached: bool, seq_len: int) -> bool {
    ng is Some && !has_cached && seq_len == 1
}

/// The non-granular state after a step.
pub open spec fn next_state(
    ng: Option<NonGranularState>,
    has_cached: bool,
    seq_len: int,
) -> Option<NonGranularState> {
    if counts_step(ng, has_cached, seq_len) {
        Some(ng.unwrap().advanced())
    } else {
        ng
    }
}

/// True when a computed step freezes its scalings into the cache.
pub open spec fn stores_scalings(ng: Option<NonGranularState>) -> bool {
    ng matches Some(s) && s.reached()
}

/// The plan of a step.
pub open spec fn plan_of(ng: Option<NonGranularState>, has_cached: bool, no_kv_cache: bool) -> ScalingsPlan {
    if short_circuits(ng, has_cached) {
        ScalingsPlan::UseCached
    } else if no_kv_cache {
        ScalingsPlan::FullPass
    } else {
        ScalingsPlan::IncrementalPass
    }
}

/// A session as the protocol sees it: the non-granular state and whether the
/// scalings slot is filled.
pub type Session = (Option<NonGranularState>, bool);

/// The session after one successful step over `seq_len` new tokens.
pub open spec fn step(s: Session, seq_len: int) -> Session {
    let next = next_state(s.0, s.1, seq_len);
    (next, s.1 || (!short_circuits(s.0, s.1) && stores_scalings(next)))
}

/// The session after successful steps over `lens`, in order.
pub open spec fn run_steps(s: Session, lens: Seq<int>) -> Session
    decreases lens.len(),
{
    if lens.len() == 0 {
        s
    } else {
        step(run_steps(s, lens.drop_last()), lens.last())
    }
}

/// How many of `lens` are single-token steps.
pub open spec fn decode_steps(lens: Seq<int>) -> nat
    decreases lens.len(),
{
    if lens.len() == 0 {
        0
    } else {
        decode_steps(lens.drop_last()) + if lens.last() == 1 { 1nat } else { 0nat }
    }
}

/// The counter a fresh session with threshold `tgt` has after `n` counted
/// steps: `n`, but never past the threshold.
pub open spec fn capped(n: nat, tgt: usize) -> nat {
    if n < tgt {
        n
    } else {
        tgt as nat
    }
}

/// Once the scalings are frozen in non-granular mode, every later step takes
/// the short-circuit whatever its inputs, and over any number of steps
/// neither the counter nor the filled slot changes.
pub proof fn lemma_frozen_scalings_persist(ng: NonGranularState, lens: Seq<int>)
    ensures
        run_steps((Some(ng), true), lens) == (Some(ng), true),
        forall|no_kv_cache: bool| #[trigger]
            plan_of(Some(ng), true, no_kv_cache) == ScalingsPlan::UseCached,
    decreases lens.len(),
{
    if lens.len() > 0 {
        lemma_frozen_scalings_persist(ng, lens.drop_last());
    }
}

/// Steps of more than one token (or of none) never move the counter.
pub proof fn lemma_prefill_keeps_counter(ng: Option<NonGranularState>, has_cached: bool, seq_len: int)
    requires
        seq_len != 1,
    ensures
        next_state(ng, has_cached, seq_len) == ng,
{
}

/// With a threshold `tgt` of at least one and a fresh session, after any run
/// of successful steps the counter is the number of single-token steps,
/// capped at `tgt`, and the scalings slot is filled exactly when that number
/// has reached `tgt`.
pub proof fn lemma_threshold_exact(tgt: usize, lens: Seq<int>)
    requires
        tgt >= 1,
    ensures
        ({
            let s = run_steps(
                (Some(NonGranularState { non_granular_index: 0, tgt_non_granular_index: tgt }), false),
                lens,
            );
            &&& s.0 matches Some(st) && st.tgt_non_granular_index == tgt
                && st.non_granular_index == capped(decode_steps(lens), tgt)
            &&& s.1 <==> decode_steps(lens) >= tgt
        }),
    decreases lens.len(),
{
    if lens.len() > 0 {
        lemma_threshold_exact(tgt, lens.drop_last());
    }
}

/// Decides how a step obtains its scalings, and counts it when it is a
/// single-token step of non-granular mode with nothing frozen yet.
pub fn begin_scalings(
    non_granular_state: &mut Option<NonGranularState>,
    has_cached: bool,
    seq_len: usize,
    no_kv_cache: bool,
) -> (p: ScalingsPlan)
    requires
        counts_step(*old(non_granular_state), has_cached, seq_len as int) ==> old(
            non_granular_state,
        )->Some_0.non_granular_index < usize::MAX,
    ensures
        p == plan_of(*old(non_granular_state), has_cached, no_kv_cache),
        *final(non_granular_state) == next_state(*old(non_granular_state), has_cached, seq_len as int),
{
    match non_granular_state {
        Some(s) => {
            if has_cached {
                return ScalingsPlan::UseCached;
            }
            if seq_len == 1 {
                s.advance();
            }
        },
        None => {},
    }
    if no_kv_cache {
        ScalingsPlan::FullPass
    } else {
        ScalingsPlan::IncrementalPass
    }
}

/// Takes the classifier's scalings of a computed step: freezes a copy into
/// the cache when the warm-up is exactly complete, and hands the scalings
/// back unchanged.
pub fn finish_scalings<T: Clone>(
    non_granular_state: &Option<NonGranularState>,
    cache: &mut GenerationCache<T>,
    scalings: T,
) -> (r: T)
    ensures
        r == scalings,
        final(cache).kv == old(cache).kv,
        stores_scalings(*non_granular_state) ==> (final(cache).scalings matches Some(c) && cloned(
            scalings,
            c,
        )),
        !stores_scalings(*non_granular_state) ==> final(cache).scalings == old(cache).scalings,
{
    match non_granular_state {
        Some(s) => {
            if s.at_threshold() {
                cache.scalings = Some(scalings.clone());
            }
        },
        None => {},
    }
    scalings
}

/// The hidden states of the auxiliary pass of a computed step on model `m`
/// with key/value slots `kv`, and the slots it leaves: over the whole
/// sequence as a full pass when `no_kv_cache`, over the new tokens otherwise,
/// with `dummy` as scalings and the classifier's scaling-pass value as fill.
pub open spec fn pass_result<T, E, V, M: ScalingsMaker<T, E, V>>(
    m: M,
    kv: Seq<KvSlot<T>>,
    input_ids: T,
    input_ids_full: T,
    seqlen_offsets: Seq<usize>,
    seqlen_offsets_full: Seq<usize>,
    start_offsets_kernel: T,
    start_offsets_kernel_full: T,
    no_kv_cache: bool,
    dummy: T,
    position_ids: Seq<usize>,
) -> (Result<T, E>, Seq<KvSlot<T>>) {
    if no_kv_cache {
        m.spec_forward(
            kv,
            input_ids_full,
            seqlen_offsets_full,
            start_offsets_kernel_full,
            dummy,
            true,
            true,
            Some(m.spec_scaling_pass_value()),
            position_ids,
        )
    } else {
        m.spec_forward(
            kv,
            input_ids,
            seqlen_offsets,
            start_offsets_kernel,
            dummy,
            false,
            false,
            Some(m.spec_scaling_pass_value()),
            position_ids,
        )
    }
}

/// The scalings of one generation step.
///
/// Reads the batch size from `input_ids_full` and the step length from
/// `input_ids`; a shape error of either is returned at once, with nothing
/// changed. With non-granular mode on and frozen scalings in the cache,
/// returns a copy of them and runs nothing else. Otherwise counts a
/// single-token step, makes neutral scalings, runs the auxiliary pass with
/// them (over the whole sequence, then resets every key/value slot, when
/// `no_kv_cache`; over the new tokens otherwise), classifies the hidden
/// states, freezes the result when the warm-up is exactly complete, and
/// returns it. Errors of the model pass through unchanged.
pub fn get_scalings<T: Clone, E, V, M: ScalingsMaker<T, E, V>>(
    model: &mut M,
    cache: &mut GenerationCache<T>,
    input_ids: &T,
    input_ids_full: &T,
    seqlen_offsets: &[usize],
    seqlen_offsets_full: &[usize],
    start_offsets_kernel: &T,
    start_offsets_kernel_full: &T,
    no_kv_cache: bool,
    non_granular_state: &mut Option<NonGranularState>,
    position_ids: &[usize],
) -> (r: Result<T, E>)
    requires
        M::spec_dims2(*input_ids) matches Ok(d) && counts_step(
            *old(non_granular_state),
            old(cache).scalings is Some,
            d.1 as int,
        ) ==> old(non_granular_state)->Some_0.non_granular_index < usize::MAX,
    ensures
        ({
            let m = *old(model);
            let ng = *old(non_granular_state);
            let has_cached = old(cache).scalings is Some;
            let full_dims = M::spec_dims2(*input_ids_full);
            let dims = M::spec_dims2(*input_ids);
            &&& full_dims matches Err(e) ==> r == Err::<T, E>(e)
            &&& full_dims is Ok ==> (dims matches Err(e) ==> r == Err::<T, E>(e))
            &&& full_dims is Err || dims is Err ==> {
                &&& *final(non_granular_state) == ng
                &&& *final(cache) == *old(cache)
                &&& *final(model) == m
            }
            &&& full_dims matches Ok(fd) ==> (dims matches Ok(d) ==> {
                let seq_len = d.1;
                &&& *final(non_granular_state) == next_state(ng, has_cached, seq_len as int)
                &&& short_circuits(ng, has_cached) ==> {
                    &&& r matches Ok(v) && cloned(old(cache).scalings->Some_0, v)
                    &&& *final(cache) == *old(cache)
                    &&& *final(model) == m
                }
                &&& !short_circuits(ng, has_cached) ==> match m.spec_dummy(fd.0, seq_len, *input_ids) {
                    Err(e) => r == Err::<T, E>(e) && *final(cache) == *old(cache) && *final(model) == m,
                    Ok(dummy) => {
                        let (pass, kv_after) = pass_result(
                        m,
                        old(cache).kv@,
                        *input_ids,
                        *input_ids_full,
                        seqlen_offsets@,
                        seqlen_offsets_full@,
                        *start_offsets_kernel,
                        *start_offsets_kernel_full,
                        no_kv_cache,
                        dummy,
                        position_ids@,
                    );
                    match pass {
                        Err(e) => r == Err::<T, E>(e) && final(cache).kv@ == kv_after
                            && final(cache).scalings == old(cache).scalings,
                        Ok(h) => {
                            &&& r == final(model).spec_classify(h)
                            &&& no_kv_cache ==> final(cache).kv@.len() == old(cache).kv@.len()
                                && all_placeholders(final(cache).kv@)
                            &&& !no_kv_cache ==> final(cache).kv@ == kv_after
                            &&& (r is Ok && stores_scalings(*final(non_granular_state))) ==> (
                            final(cache).scalings matches Some(c) && cloned(r->Ok_0, c))
                            &&& !(r is Ok && stores_scalings(*final(non_granular_state)))
                                ==> final(cache).scalings == old(cache).scalings
                        },
                    }
                    },
                }
                &&& r is Ok ==> (final(cache).scalings is Some) == step((ng, has_cached), seq_len as int).1
            })
        }),
{
    let (batch, _) = match model.dims2(input_ids_full) {
        Ok(d) => d,
        Err(e) => return Err(e),
    };
    let (_, seq_len) = match model.dims2(input_ids) {
        Ok(d) => d,
        Err(e) => return Err(e),
    };
    let plan = begin_scalings(non_granular_state, cache.has_scalings(), seq_len, no_kv_cache);
    if plan == ScalingsPlan::UseCached {
        if let Some(c) = &cache.scalings {
            return Ok(c.clone());
        }
    }
    let dummy = match model.dummy_scalings(batch, seq_len, input_ids) {
        Ok(d) => d,
        Err(e) => return Err(e),
    };
    let pass_value = model.scaling_pass_value();
    let n_layers = cache.kv.len();
    let hidden_states = if no_kv_cache {
        let res = match model.forward(
            &mut cache.kv,
            input_ids_full,
            seqlen_offsets_full,
            start_offsets_kernel_full,
            dummy,
            true,
            no_kv_cache,
            Some(pass_value),
            position_ids,
        ) {
            Ok(h) => h,
            Err(e) => return Err(e),
        };
        cache.kv = placeholder_slots(n_layers);
        res
    } else {
        match model.forward(
            &mut cache.kv,
            input_ids,
            seqlen_offsets,
            start_offsets_kernel,
            dummy,
            false,
            no_kv_cache,
            Some(pass_value),
            position_ids,
        ) {
            Ok(h) => h,
            Err(e) => return Err(e),
        }
    };
    let scalings = match model.classify(hidden_states) {
        Ok(s) => s,
        Err(e) => return Err(e),
    };
    Ok(finish_scalings(non_granular_state, cache, scalings))
}

} // verus!
