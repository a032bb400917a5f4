use xlora_core::cache::{GenerationCache, KvSlot};
use xlora_core::engine::{begin_scalings, finish_scalings, get_scalings, ScalingsMaker, ScalingsPlan};
use xlora_core::state::NonGranularState;
use vstd::seq::Seq;

const PASS_VALUE: f64 = 0.5;

#[derive(Clone, Debug, PartialEq)]
struct Tensor {
    dims: Vec<usize>,
    fill: f64,
}

fn ids(batch: usize, len: usize) -> Tensor {
    Tensor { dims: vec![batch, len], fill: 0.0 }
}

fn rank2(t: &Tensor) -> Result<(usize, usize), String> {
    if t.dims.len() == 2 {
        Ok((t.dims[0], t.dims[1]))
    } else {
        Err(format!("expected rank 2, got {:?}", t.dims))
    }
}

#[derive(Default)]
struct Model {
    forward_calls: usize,
    classify_calls: std::cell::Cell<usize>,
    full_passes: usize,
    fail_forward: bool,
    last_forward_len: usize,
}

impl Model {
    fn hidden(&self, input_ids: &Tensor, scalings: &Tensor) -> Result<Tensor, String> {
        if self.fail_forward {
            return Err("forward failed".to_string());
        }
        Ok(Tensor { dims: vec![input_ids.dims[0], input_ids.dims[1], 8], fill: scalings.fill * 3.0 })
    }

    fn scalings_for(&self, forward_calls: usize) -> Tensor {
        Tensor { dims: vec![1, 1, 2, 4], fill: 0.125 * (forward_calls as f64) }
    }
}

impl ScalingsMaker<Tensor, String, f64> for Model {
    fn spec_dims2(t: Tensor) -> Result<(usize, usize), String> {
        rank2(&t)
    }

    fn spec_dummy(&self, batch: usize, seq_len: usize, like: Tensor) -> Result<Tensor, String> {
        self.dummy_scalings(batch, seq_len, &like)
    }

    fn spec_scaling_pass_value(&self) -> f64 {
        PASS_VALUE
    }

    // The verifier reads this method; compiled code never calls it.
    fn spec_forward(
        &self,
        _kv: Seq<KvSlot<Tensor>>,
        _input_ids: Tensor,
        _seqlen_offsets: Seq<usize>,
        _start_offsets_kernel: Tensor,
        _scalings: Tensor,
        _is_full_pass: bool,
        _no_kv_cache: bool,
        _is_scaling_pass: Option<f64>,
        _context_lens: Seq<usize>,
    ) -> (Result<Tensor, String>, Seq<KvSlot<Tensor>>) {
        unreachable!()
    }

    fn spec_classify(&self, _hidden_states: Tensor) -> Result<Tensor, String> {
        Ok(self.scalings_for(self.forward_calls))
    }

    fn dims2(&self, t: &Tensor) -> Result<(usize, usize), String> {
        rank2(t)
    }

    fn dummy_scalings(&self, batch: usize, seq_len: usize, _like: &Tensor) -> Result<Tensor, String> {
        Ok(Tensor { dims: vec![batch, seq_len, 2, 4], fill: PASS_VALUE })
    }

    fn scaling_pass_value(&self) -> f64 {
        PASS_VALUE
    }

    fn forward(
        &mut self,
        kv: &mut Vec<KvSlot<Tensor>>,
        input_ids: &Tensor,
        _seqlen_offsets: &[usize],
        _start_offsets_kernel: &Tensor,
        scalings: Tensor,
        is_full_pass: bool,
        _no_kv_cache: bool,
        is_scaling_pass: Option<f64>,
        _context_lens: &[usize],
    ) -> Result<Tensor, String> {
        assert_eq!(is_scaling_pass, Some(PASS_VALUE));
        self.forward_calls += 1;
        if is_full_pass {
            self.full_passes += 1;
        }
        self.last_forward_len = input_ids.dims[1];
        let hidden = self.hidden(input_ids, &scalings)?;
        let written = KvSlot::Filled(input_ids.clone(), input_ids.clone());
        if is_full_pass {
            for slot in kv.iter_mut() {
                *slot = written.clone();
            }
        } else if let Some(first) = kv.first_mut() {
            *first = written;
        }
        Ok(hidden)
    }

    fn classify(&self, hidden_states: Tensor) -> Result<Tensor, String> {
        let _ = hidden_states;
        self.classify_calls.set(self.classify_calls.get() + 1);
        Ok(self.scalings_for(self.forward_calls))
    }
}


fn step(
    model: &mut Model,
    cache: &mut GenerationCache<Tensor>,
    state: &mut Option<NonGranularState>,
    seq_len: usize,
    no_kv_cache: bool,
) -> Result<Tensor, String> {
    let input = ids(1, seq_len);
    let full = ids(1, 5 + seq_len);
    let kernel = ids(1, 1);
    get_scalings(model, cache, &input, &full, &[0], &[0], &kernel, &kernel, no_kv_cache, state, &[0])
}

fn filled_cache(n: usize) -> GenerationCache<Tensor> {
    let mut c = GenerationCache::new(n);
    for slot in c.kv.iter_mut() {
        *slot = KvSlot::Filled(ids(1, 3), ids(1, 3));
    }
    c
}

#[test]
fn threshold_two_three_decode_steps() {
    let mut model = Model::default();
    let mut cache = GenerationCache::new(2);
    let mut state = Some(NonGranularState::new(2));

    let s1 = step(&mut model, &mut cache, &mut state, 1, false).unwrap();
    assert_eq!((model.forward_calls, model.classify_calls.get()), (1, 1));
    assert!(cache.scalings.is_none());
    assert_eq!(state.as_ref().unwrap().non_granular_index, 1);

    let s2 = step(&mut model, &mut cache, &mut state, 1, false).unwrap();
    assert_eq!(model.forward_calls, 2);
    assert_eq!(cache.scalings.as_ref(), Some(&s2));
    assert_ne!(s1, s2);

    let s3 = step(&mut model, &mut cache, &mut state, 1, false).unwrap();
    assert_eq!(model.forward_calls, 2);
    assert_eq!(s3, s2);
    assert_eq!(model.classify_calls.get(), 2);
    assert_eq!(state.as_ref().unwrap().non_granular_index, 2);
}

#[test]
fn frozen_scalings_are_returned_for_any_input() {
    let mut model = Model::default();
    let mut cache = GenerationCache::new(2);
    let mut state = Some(NonGranularState::new(1));
    let frozen = step(&mut model, &mut cache, &mut state, 1, false).unwrap();
    assert_eq!(model.forward_calls, 1);
    let kv_when_frozen = cache.kv.clone();
    for (len, full) in [(1, false), (7, true), (1, true), (3, false)] {
        let r = step(&mut model, &mut cache, &mut state, len, full).unwrap();
        assert_eq!(r, frozen);
    }
    assert_eq!(model.forward_calls, 1);
    assert_eq!(model.classify_calls.get(), 1);
    assert_eq!(state.as_ref().unwrap().non_granular_index, 1);
    assert_eq!(cache.kv, kv_when_frozen);
}

#[test]
fn prefill_steps_do_not_advance_the_counter() {
    let mut model = Model::default();
    let mut cache = GenerationCache::new(1);
    let mut state = Some(NonGranularState::new(2));
    step(&mut model, &mut cache, &mut state, 6, false).unwrap();
    step(&mut model, &mut cache, &mut state, 4, false).unwrap();
    assert_eq!(state.as_ref().unwrap().non_granular_index, 0);
    assert!(cache.scalings.is_none());
    step(&mut model, &mut cache, &mut state, 1, false).unwrap();
    assert!(cache.scalings.is_none());
    step(&mut model, &mut cache, &mut state, 3, false).unwrap();
    assert!(cache.scalings.is_none());
    step(&mut model, &mut cache, &mut state, 1, false).unwrap();
    assert!(cache.scalings.is_some());
    assert_eq!(model.forward_calls, 5);
}

#[test]
fn threshold_three_slot_fills_on_third_decode_step() {
    let mut model = Model::default();
    let mut cache = GenerationCache::new(1);
    let mut state = Some(NonGranularState::new(3));
    for i in 1..=5 {
        step(&mut model, &mut cache, &mut state, 1, false).unwrap();
        assert_eq!(cache.scalings.is_some(), i >= 3);
    }
    assert_eq!(model.forward_calls, 3);
}

#[test]
fn full_pass_resets_every_kv_slot() {
    let mut model = Model::default();
    let mut cache = filled_cache(3);
    let mut state = None;
    step(&mut model, &mut cache, &mut state, 1, true).unwrap();
    assert_eq!(model.full_passes, 1);
    assert!(!cache.kv.contains(&KvSlot::Filled(ids(1, 6), ids(1, 6))));
    assert_eq!(model.last_forward_len, 6);
    assert_eq!(cache.kv, vec![KvSlot::Placeholder, KvSlot::Placeholder, KvSlot::Placeholder]);
}

#[test]
fn incremental_pass_keeps_what_the_pass_wrote() {
    let mut model = Model::default();
    let mut cache = filled_cache(3);
    let mut expected = cache.kv.clone();
    expected[0] = KvSlot::Filled(ids(1, 1), ids(1, 1));
    let mut state = None;
    step(&mut model, &mut cache, &mut state, 1, false).unwrap();
    assert_eq!(model.full_passes, 0);
    assert_eq!(model.last_forward_len, 1);
    assert_eq!(cache.kv, expected);
}

#[test]
fn result_is_the_classifier_output_not_the_dummy() {
    let mut model = Model::default();
    let mut cache = GenerationCache::new(1);
    let mut state = None;
    for full in [false, true] {
        let r = step(&mut model, &mut cache, &mut state, 1, full).unwrap();
        assert_ne!(r.fill, PASS_VALUE);
        assert_eq!(r.fill, 0.125 * (model.forward_calls as f64));
    }
}

#[test]
fn granular_mode_never_freezes() {
    let mut model = Model::default();
    let mut cache = GenerationCache::new(1);
    let mut state = None;
    for _ in 0..4 {
        step(&mut model, &mut cache, &mut state, 1, false).unwrap();
    }
    assert!(cache.scalings.is_none());
    assert_eq!(model.forward_calls, 4);
}

#[test]
fn shape_error_passes_through() {
    let mut model = Model::default();
    let mut cache = GenerationCache::new(1);
    let mut state = Some(NonGranularState::new(2));
    let bad = Tensor { dims: vec![1, 2, 3], fill: 0.0 };
    let good = ids(1, 1);
    let r = get_scalings(&mut model, &mut cache, &bad, &good, &[0], &[0], &good, &good, false, &mut state, &[0]);
    assert!(r.unwrap_err().contains("rank 2"));
    assert_eq!(state.as_ref().unwrap().non_granular_index, 0);
    assert_eq!(model.forward_calls, 0);
}

#[test]
fn forward_error_passes_through_and_keeps_kv() {
    let mut model = Model { fail_forward: true, ..Model::default() };
    let mut cache = filled_cache(2);
    let before = cache.kv.clone();
    let mut state = Some(NonGranularState::new(1));
    let r = step(&mut model, &mut cache, &mut state, 1, true);
    assert_eq!(r, Err("forward failed".to_string()));
    assert_eq!(cache.kv, before);
    assert!(cache.scalings.is_none());
}

#[test]
fn plan_of_each_kind_of_step() {
    let mut state = Some(NonGranularState::new(1));
    assert_eq!(begin_scalings(&mut state, true, 1, false), ScalingsPlan::UseCached);
    assert_eq!(state.as_ref().unwrap().non_granular_index, 0);
    assert_eq!(begin_scalings(&mut state, false, 1, true), ScalingsPlan::FullPass);
    assert_eq!(state.as_ref().unwrap().non_granular_index, 1);
    assert_eq!(begin_scalings(&mut state, false, 4, false), ScalingsPlan::IncrementalPass);
    assert_eq!(state.as_ref().unwrap().non_granular_index, 1);
    let mut none = None;
    assert_eq!(begin_scalings(&mut none, true, 1, false), ScalingsPlan::IncrementalPass);
}

#[test]
fn finish_freezes_only_at_threshold() {
    let mut cache: GenerationCache<Tensor> = GenerationCache::new(1);
    let below = Some(NonGranularState { non_granular_index: 1, tgt_non_granular_index: 2 });
    let t = ids(2, 2);
    assert_eq!(finish_scalings(&below, &mut cache, t.clone()), t);
    assert!(cache.scalings.is_none());
    let at = Some(NonGranularState { non_granular_index: 2, tgt_non_granular_index: 2 });
    assert_eq!(finish_scalings(&at, &mut cache, t.clone()), t);
    assert_eq!(cache.scalings, Some(t));
}

#[test]
fn non_granular_state_counts() {
    let mut s = NonGranularState::new(2);
    assert!(!s.at_threshold());
    s.advance();
    s.advance();
    assert!(s.at_threshold());
    assert_eq!(s.non_granular_index, 2);
}

#[test]
fn cache_reset_keeps_scalings() {
    let mut c = filled_cache(2);
    c.scalings = Some(ids(1, 1));
    c.reset_kv();
    assert_eq!(c.kv, vec![KvSlot::Placeholder, KvSlot::Placeholder]);
    assert!(c.has_scalings());
}
