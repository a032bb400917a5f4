//! The generation cache: per-layer key/value slots and the scalings slot.
use vstd::prelude::*;

verus! {

/// One layer's key/value state.
#[derive(PartialEq, Eq, Clone, Debug)]
pub enum KvSlot<T> {
    /// Nothing was written yet.
    Vacant,
    /// A zero-length key/value pair, left after an auxiliary full pass.
    Placeholder,
    /// A key tensor and a value tensor.
    Filled(T, T),
}

/// The per-session cache of one model instance.
pub struct GenerationCache<T> {
    /// One slot per transformer layer, in layer order.
    pub kv: Vec<KvSlot<T>>,
    /// The frozen scalings of non-granular mode, once computed.
    pub scalings: Option<T>,
}

/// True when every slot is a zero-length placeholder.
pub open spec fn all_placeholders<T>(kv: Seq<KvSlot<T>>) -> bool {
    forall|i: int| 0 <= i < kv.len() ==> #[trigger] kv[i] is Placeholder
}

/// `n` zero-length placeholders.
pub fn placeholder_slots<T>(n: usize) -> (r: Vec<KvSlot<T>>)
    ensures
        r@.len() == n,
        all_placeholders(r@),
{
    let mut out: Vec<KvSlot<T>> = Vec::new();
    let mut i: usize = 0;
    while i < n
        invariant
            i <= n,
            out@.len() == i,
            all_placeholders(out@),
        decreases n - i,
    {
        out.push(KvSlot::Placeholder);
        i = i + 1;
    }
    out
}

impl<T> GenerationCache<T> {
    /// A cache for `n_layers` layers, with every slot vacant and no scalings.
    pub fn new(n_layers: usize) -> (r: GenerationCache<T>)
        ensures
            r.kv@.len() == n_layers,
            forall|i: int| 0 <= i < n_layers ==> #[trigger] r.kv@[i] is Vacant,
            r.scalings is None,
    {
        let mut kv: Vec<KvSlot<T>> = Vec::new();
        let mut i: usize = 0;
        while i < n_layers
            invariant
                i <= n_layers,
                kv@.len() == i,
                forall|k: int| 0 <= k < i ==> #[trigger] kv@[k] is Vacant,
            decreases n_layers - i,
        {
            kv.push(KvSlot::Vacant);
            i = i + 1;
        }
        GenerationCache { kv, scalings: None }
    }

    /// Replaces every key/value slot by a zero-length placeholder, keeping
    /// their number; the scalings slot is left as it is.
    pub fn reset_kv(&mut self)
        ensures
            final(self).kv@.len() == old(self).kv@.len(),
            all_placeholders(final(self).kv@),
            final(self).scalings == old(self).scalings,
    {
        let n = self.kv.len();
        self.kv = placeholder_slots(n);
    }

    /// Whether the scalings slot holds a value.
    pub fn has_scalings(&self) -> (r: bool)
        ensures
            r == self.scalings is Some,
    {
        self.scalings.is_some()
    }
}

} // verus!
