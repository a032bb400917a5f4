//! Checking that an adapter ordering only names layers the model exposes.
use vstd::prelude::*;

verus! {

/// Which adapter each layer path is assigned to, as pairs of layer path and
/// adapter index. A well-formed ordering names each path once (see
/// [`Ordering::wf`]); [`Ordering::new`] and [`Ordering::insert`] keep it so.
pub struct Ordering {
    pub layers: Vec<(String, usize)>,
}

impl Ordering {
    /// The layer paths of the ordering, in order.
    pub open spec fn paths(&self) -> Seq<Seq<char>> {
        self.layers@.map_values(|p: (String, usize)| p.0@)
    }

    /// No layer path occurs twice.
    pub open spec fn wf(&self) -> bool {
        forall|i: int, j: int|
            0 <= i < j < self.layers@.len() ==> #[trigger] self.layers@[i].0@
                != #[trigger] self.layers@[j].0@
    }

    /// An ordering that assigns no layer.
    pub fn new() -> (r: Ordering)
        ensures
            r.wf(),
            r.layers@.len() == 0,
    {
        Ordering { layers: Vec::new() }
    }

    /// Assigns `adapter` to `path`: replaces the assignment of a path that is
    /// already there, in place, and appends a new one otherwise.
    pub fn insert(&mut self, path: String, adapter: usize)
        requires
            old(self).wf(),
        ensures
            final(self).wf(),
            (exists|i: int| 0 <= i < old(self).layers@.len() && old(self).layers@[i].0@ == path@)
                ==> (exists|i: int|
                0 <= i < old(self).layers@.len() && old(self).layers@[i].0@ == path@
                    && final(self).layers@ == old(self).layers@.update(i, (path, adapter))),
            (forall|i: int| 0 <= i < old(self).layers@.len() ==> old(self).layers@[i].0@ != path@)
                ==> final(self).layers@ == old(self).layers@.push((path, adapter)),
    {
        let mut i: usize = 0;
        while i < self.layers.len()
            invariant
                i <= self.layers@.len(),
                self.layers@ == old(self).layers@,
                old(self).wf(),
                forall|k: int| 0 <= k < i ==> self.layers@[k].0@ != path@,
            decreases self.layers@.len() - i,
        {
            if self.layers[i].0 == path {
                self.layers.set(i, (path, adapter));
                assert(forall|k: int|
                    0 <= k < self.layers@.len() ==> #[trigger] self.layers@[k].0@ == old(
                        self,
                    ).layers@[k].0@);
                assert forall|a: int, b: int|
                    0 <= a < b < self.layers@.len() implies #[trigger] self.layers@[a].0@
                        != #[trigger] self.layers@[b].0@ by {
                    if b < old(self).layers@.len() {
                        assert(old(self).layers@[a].0@ != old(self).layers@[b].0@);
                    }
                }
                return;
            }
            i = i + 1;
        }
        let ghost key = path@;
        self.layers.push((path, adapter));
        assert(forall|k: int|
            0 <= k < old(self).layers@.len() ==> #[trigger] self.layers@[k].0@ == old(
                self,
            ).layers@[k].0@ && self.layers@[k].0@ != key);
        assert forall|a: int, b: int|
            0 <= a < b < self.layers@.len() implies #[trigger] self.layers@[a].0@
                != #[trigger] self.layers@[b].0@ by {
            if b < old(self).layers@.len() {
                assert(old(self).layers@[a].0@ != old(self).layers@[b].0@);
            }
        }
    }
}

/// The ordering names a layer path that ends with none of the supported suffixes.
pub struct ConfigurationError {
    /// The offending layer path.
    pub path: String,
    /// Every suffix that would have been accepted.
    pub supported: Vec<String>,
}

/// True when `suffix` is a suffix of `s`.
pub open spec fn is_suffix_of(suffix: Seq<char>, s: Seq<char>) -> bool {
    suffix.len() <= s.len() && s.subrange(s.len() - suffix.len(), s.len() as int) == suffix
}

/// True when `path` ends with at least one of `supported`.
pub open spec fn has_supported_suffix(path: Seq<char>, supported: Seq<&str>) -> bool {
    exists|j: int| 0 <= j < supported.len() && is_suffix_of(#[trigger] supported[j]@, path)
}

/// True when every layer path of the ordering ends with a supported suffix.
pub open spec fn ordering_is_supported(paths: Seq<Seq<char>>, supported: Seq<&str>) -> bool {
    forall|i: int| 0 <= i < paths.len() ==> has_supported_suffix(#[trigger] paths[i], supported)
}

/// True when `i` is the first position whose path has no supported suffix.
pub open spec fn is_first_unsupported(paths: Seq<Seq<char>>, supported: Seq<&str>, i: int) -> bool {
    &&& 0 <= i < paths.len()
    &&& !has_supported_suffix(paths[i], supported)
    &&& forall|k: int| 0 <= k < i ==> has_supported_suffix(#[trigger] paths[k], supported)
}

/// Relies on `str::ends_with`: true exactly when `suffix` is a suffix of `s`.
#[verifier::external_body]
fn str_ends_with(s: &str, suffix: &str) -> (r: bool)
    ensures
        r == is_suffix_of(suffix@, s@),
{
    s.ends_with(suffix)
}

/// Whether `path` ends with one of `supported_layers`.
fn ends_with_any(path: &str, supported_layers: &[&str]) -> (r: bool)
    ensures
        r == has_supported_suffix(path@, supported_layers@),
{
    let mut j: usize = 0;
    while j < supported_layers.len()
        invariant
            j <= supported_layers@.len(),
            forall|k: int| 0 <= k < j ==> !is_suffix_of(#[trigger] supported_layers@[k]@, path@),
        decreases supported_layers@.len() - j,
    {
        if str_ends_with(path, supported_layers[j]) {
            return true;
        }
        j = j + 1;
    }
    false
}

/// Copies each suffix into an owned string.
fn owned_suffixes(supported_layers: &[&str]) -> (r: Vec<String>)
    ensures
        r@.len() == supported_layers@.len(),
        forall|k: int| 0 <= k < r@.len() ==> #[trigger] r@[k]@ == supported_layers@[k]@,
{
    let mut out: Vec<String> = Vec::new();
    let mut j: usize = 0;
    while j < supported_layers.len()
        invariant
            j <= supported_layers@.len(),
            out@.len() == j,
            forall|k: int| 0 <= k < j ==> #[trigger] out@[k]@ == supported_layers@[k]@,
        decreases supported_layers@.len() - j,
    {
        out.push(supported_layers[j].to_owned());
        j = j + 1;
    }
    out
}

/// Checks that every layer path of `ordering` ends with one of
/// `supported_layers`. Fails on the first path that does not, naming it and
/// every accepted suffix.
pub fn verify_sanity_adapters(ordering: &Ordering, supported_layers: &[&str]) -> (r: Result<
    (),
    ConfigurationError,
>)
    ensures
        r is Ok <==> ordering_is_supported(ordering.paths(), supported_layers@),
        r matches Err(e) ==> {
            &&& exists|i: int|
                is_first_unsupported(ordering.paths(), supported_layers@, i) && e.path@
                    == #[trigger] ordering.paths()[i]
            &&& forall|i: int|
                #![trigger ordering.paths()[i]]
                0 <= i < ordering.paths().len() && !has_supported_suffix(
                    ordering.paths()[i],
                    supported_layers@,
                ) && (forall|k: int|
                    0 <= k < ordering.paths().len() && k != i ==> has_supported_suffix(
                        #[trigger] ordering.paths()[k],
                        supported_layers@,
                    )) ==> e.path@ == ordering.paths()[i]
            &&& e.supported@.len() == supported_layers@.len()
            &&& forall|k: int|
                0 <= k < e.supported@.len() ==> #[trigger] e.supported@[k]@
                    == supported_layers@[k]@
        },
{
    let mut i: usize = 0;
    while i < ordering.layers.len()
        invariant
            i <= ordering.layers@.len(),
            forall|k: int| 0 <= k < i ==> has_supported_suffix(#[trigger] ordering.paths()[k], supported_layers@),
        decreases ordering.layers@.len() - i,
    {
        let path: &String = &ordering.layers[i].0;
        if !ends_with_any(path.as_str(), supported_layers) {
            assert(is_first_unsupported(ordering.paths(), supported_layers@, i as int));
            return Err(ConfigurationError { path: path.clone(), supported: owned_suffixes(supported_layers) });
        }
        i = i + 1;
    }
    Ok(())
}

} // verus!
