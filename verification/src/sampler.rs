//! Search-algorithm selection of the optimizer and the ordering of its trial records.

use vstd::prelude::*;
use vstd::set_lib::{lemma_int_range, lemma_subset_equality, set_int_range};
use vstd::string::StringExecFns;

use crate::text::same_text;

verus! {

/// Supported search algorithms.
#[derive(Clone, Copy, Debug, PartialEq, Eq, Structural)]
pub enum SamplerKind {
    Tpe,
    Random,
    NsgaIi,
}

/// The name of an unknown search algorithm, already lowercased.
pub struct UnknownSampler {
    pub name: String,
}

impl UnknownSampler {
    /// The error text: ``unknown sampler `<name>` (expected tpe|random|nsgaii)``.
    pub fn message(&self) -> (m: String)
        ensures
            m@ == "unknown sampler `"@ + self.name@ + "` (expected tpe|random|nsgaii)"@,
    {
        let m = String::from_str("unknown sampler `");
        let m = m.concat(self.name.as_str());
        m.concat("` (expected tpe|random|nsgaii)")
    }
}

/// The Unicode lowercase mapping that `str::to_lowercase` applies.
pub uninterp spec fn unicode_lowercase(s: Seq<char>) -> Seq<char>;

/// `str::to_lowercase`: the result is the Unicode lowercase mapping of `s`,
/// a function of `s` alone (named, not spelled out).
#[verifier::external_body]
fn to_lowercase(s: &str) -> (r: String)
    ensures
        r@ == unicode_lowercase(s@),
{
    s.to_lowercase()
}

/// The sampler that a lowercased name selects.
pub open spec fn sampler_named(lower: Seq<char>) -> Option<SamplerKind> {
    if lower == "tpe"@ {
        Some(SamplerKind::Tpe)
    } else if lower == "random"@ {
        Some(SamplerKind::Random)
    } else if lower == "nsgaii"@ {
        Some(SamplerKind::NsgaIi)
    } else {
        None
    }
}

impl SamplerKind {
    /// Selects the sampler from an already lowercased name.
    pub fn from_lowercase(lower: String) -> (r: Result<SamplerKind, UnknownSampler>)
        ensures
            match r {
                Ok(kind) => sampler_named(lower@) == Some(kind),
                Err(e) => sampler_named(lower@) is None && e.name@ == lower@,
            },
    {
        if same_text(lower.as_str(), "tpe") {
            Ok(SamplerKind::Tpe)
        } else if same_text(lower.as_str(), "random") {
            Ok(SamplerKind::Random)
        } else if same_text(lower.as_str(), "nsgaii") {
            Ok(SamplerKind::NsgaIi)
        } else {
            Err(UnknownSampler { name: lower })
        }
    }

    /// Parses a sampler name case-insensitively: `tpe`, `random` or `nsgaii`.
    pub fn parse(s: &str) -> (r: Result<SamplerKind, UnknownSampler>)
        ensures
            match r {
                Ok(kind) => sampler_named(unicode_lowercase(s@)) == Some(kind),
                Err(e) => sampler_named(unicode_lowercase(s@)) is None
                    && e.name@ == unicode_lowercase(s@),
            },
    {
        let lower = to_lowercase(s);
        SamplerKind::from_lowercase(lower)
    }
}

impl core::str::FromStr for SamplerKind {
    type Err = UnknownSampler;

    fn from_str(s: &str) -> (r: Result<SamplerKind, UnknownSampler>)
        ensures
            match r {
                Ok(kind) => sampler_named(unicode_lowercase(s@)) == Some(kind),
                Err(e) => sampler_named(unicode_lowercase(s@)) is None
                    && e.name@ == unicode_lowercase(s@),
            },
    {
        SamplerKind::parse(s)
    }
}

/// Startup trials of the seeded TPE sampler.
pub const TPE_STARTUP_TRIALS: usize = 10;

/// Population size of the NSGA-II sampler.
pub const NSGA_POPULATION_SIZE: usize = 50;

/// How the search algorithm of a study is constructed.
#[derive(Clone, Copy, Debug, PartialEq, Eq, Structural)]
pub enum SamplerSetup {
    /// TPE configured with a number of startup trials and a seed.
    TpeSeeded { n_startup_trials: usize, seed: u64 },
    /// TPE with its own defaults.
    Tpe,
    /// Random search seeded from `seed`.
    RandomSeeded { seed: u64 },
    /// Random search with an entropy seed.
    Random,
    /// NSGA-II seeded from `seed`.
    NsgaIiSeeded { population_size: usize, seed: u64 },
    /// NSGA-II with an entropy seed.
    NsgaIi { population_size: usize },
}

/// Rustuna-backed optimizer (TPE / random / NSGA-II search algorithms).
pub struct RustunaOptimizer {
    kind: SamplerKind,
    seed: Option<u64>,
}

impl RustunaOptimizer {
    pub closed spec fn spec_kind(&self) -> SamplerKind {
        self.kind
    }

    pub closed spec fn spec_seed(&self) -> Option<u64> {
        self.seed
    }

    pub fn new(kind: SamplerKind, seed: Option<u64>) -> (r: Self)
        ensures
            r.spec_kind() == kind,
            r.spec_seed() == seed,
    {
        RustunaOptimizer { kind, seed }
    }

    /// The sampler construction for this optimizer's algorithm and seed.
    pub fn sampler_setup(&self) -> (s: SamplerSetup)
        ensures
            s == setup_for(self.spec_kind(), self.spec_seed()),
    {
        match (self.kind, self.seed) {
            (SamplerKind::Tpe, Some(seed)) => SamplerSetup::TpeSeeded {
                n_startup_trials: TPE_STARTUP_TRIALS,
                seed,
            },
            (SamplerKind::Tpe, None) => SamplerSetup::Tpe,
            (SamplerKind::Random, Some(seed)) => SamplerSetup::RandomSeeded { seed },
            (SamplerKind::Random, None) => SamplerSetup::Random,
            (SamplerKind::NsgaIi, Some(seed)) => SamplerSetup::NsgaIiSeeded {
                population_size: NSGA_POPULATION_SIZE,
                seed,
            },
            (SamplerKind::NsgaIi, None) => SamplerSetup::NsgaIi {
                population_size: NSGA_POPULATION_SIZE,
            },
        }
    }
}

/// The sampler construction for an algorithm and an optional seed.
pub open spec fn setup_for(kind: SamplerKind, seed: Option<u64>) -> SamplerSetup {
    match (kind, seed) {
        (SamplerKind::Tpe, Some(s)) => SamplerSetup::TpeSeeded { n_startup_trials: 10, seed: s },
        (SamplerKind::Tpe, None) => SamplerSetup::Tpe,
        (SamplerKind::Random, Some(s)) => SamplerSetup::RandomSeeded { seed: s },
        (SamplerKind::Random, None) => SamplerSetup::Random,
        (SamplerKind::NsgaIi, Some(s)) => SamplerSetup::NsgaIiSeeded { population_size: 50, seed: s },
        (SamplerKind::NsgaIi, None) => SamplerSetup::NsgaIi { population_size: 50 },
    }
}

/// Whether record `a` comes before record `b` when ordered by trial number,
/// records with equal numbers keeping their recording order.
pub open spec fn before(numbers: Seq<u32>, a: int, b: int) -> bool {
    numbers[a] < numbers[b] || (numbers[a] == numbers[b] && a < b)
}

/// The stable order of records by trial number: `order[i]` is the position (in
/// `numbers`) of the record that comes `i`-th.
pub fn trial_order(numbers: &Vec<u32>) -> (order: Vec<usize>)
    ensures
        order@.len() == numbers@.len(),
        forall|i: int| 0 <= i < order@.len() ==> order@[i] < numbers@.len(),
        forall|i: int, j: int|
            0 <= i < j < order@.len() ==> before(numbers@, order@[i] as int, order@[j] as int),
{
    let n = numbers.len();
    let mut order: Vec<usize> = Vec::new();
    let mut k: usize = 0;
    while k < n
        invariant
            n == numbers@.len(),
            k <= n,
            order@.len() == k,
            forall|i: int| 0 <= i < order@.len() ==> order@[i] < k,
            forall|i: int, j: int|
                0 <= i < j < order@.len() ==> before(numbers@, order@[i] as int, order@[j] as int),
        decreases n - k,
    {
        let key = numbers[k];
        let mut p: usize = 0;
        while p < order.len() && numbers[order[p]] <= key
            invariant
                n == numbers@.len(),
                k < n,
                order@.len() == k,
                p <= order@.len(),
                forall|i: int| 0 <= i < order@.len() ==> order@[i] < k,
                forall|i: int| 0 <= i < p ==> numbers@[order@[i] as int] <= key,
            decreases order@.len() - p,
        {
            p = p + 1;
        }
        let ghost prev = order@;
        proof {
            // every later entry has a larger number than the new key
            assert forall|j: int| p <= j < prev.len() implies numbers@[prev[j] as int] > key by {
                if j > p {
                    assert(before(numbers@, prev[p as int] as int, prev[j] as int));
                }
            }
        }
        order.insert(p, k);
        proof {
            assert forall|i: int, j: int|
                0 <= i < j < order@.len() implies before(numbers@, order@[i] as int, order@[j] as int) by {
                if j < p {
                    assert(order@[i] == prev[i] && order@[j] == prev[j]);
                } else if j == p {
                    assert(order@[i] == prev[i]);
                } else if i < p {
                    assert(order@[i] == prev[i] && order@[j] == prev[j - 1]);
                } else if i == p {
                    assert(order@[j] == prev[j - 1]);
                } else {
                    assert(order@[i] == prev[i - 1] && order@[j] == prev[j - 1]);
                }
            }
        }
        k = k + 1;
    }
    order
}

/// Whether position `k` occurs in `order`.
pub open spec fn appears_in(order: Seq<usize>, k: int) -> bool {
    exists|i: int| 0 <= i < order.len() && order[i] == k
}

/// The order `trial_order` returns is a permutation: every record appears in it,
/// exactly once.
pub proof fn lemma_trial_order_is_permutation(numbers: Seq<u32>, order: Seq<usize>)
    requires
        order.len() == numbers.len(),
        forall|i: int| 0 <= i < order.len() ==> order[i] < numbers.len(),
        forall|i: int, j: int|
            0 <= i < j < order.len() ==> before(numbers, order[i] as int, order[j] as int),
    ensures
        forall|i: int, j: int| 0 <= i < j < order.len() ==> order[i] != order[j],
        forall|k: int| 0 <= k < numbers.len() ==> #[trigger] appears_in(order, k),
{
    let s = order.map_values(|x: usize| x as int);
    assert forall|i: int, j: int| 0 <= i < j < order.len() implies order[i] != order[j] by {
        assert(before(numbers, order[i] as int, order[j] as int));
    }
    assert(s.no_duplicates()) by {
        assert forall|i: int, j: int| 0 <= i < s.len() && 0 <= j < s.len() && i != j implies s[i]
            != s[j] by {
            if i < j {
                assert(before(numbers, order[i] as int, order[j] as int));
            } else {
                assert(before(numbers, order[j] as int, order[i] as int));
            }
        }
    }
    s.unique_seq_to_set();
    lemma_int_range(0, numbers.len() as int);
    let range = set_int_range(0, numbers.len() as int);
    assert(s.to_set().subset_of(range)) by {
        assert forall|x: int| s.to_set().contains(x) implies range.contains(x) by {
            let i = choose|i: int| 0 <= i < s.len() && s[i] == x;
        }
    }
    vstd::set_lib::lemma_len_subset(s.to_set(), range);
    lemma_subset_equality(s.to_set(), range);
    assert forall|k: int| 0 <= k < numbers.len() implies #[trigger] appears_in(order, k) by {
        assert(range.contains(k));
        assert(s.to_set().contains(k));
        let i = choose|i: int| 0 <= i < s.len() && s[i] == k;
        assert(order[i] == k);
    }
}

/// A seed, when given, reaches the sampler; without one the sampler is unseeded.
pub proof fn lemma_seed_reaches_sampler(kind: SamplerKind, seed: Option<u64>)
    ensures
        match (seed, setup_for(kind, seed)) {
            (Some(s), SamplerSetup::TpeSeeded { seed: t, .. }) => s == t,
            (Some(s), SamplerSetup::RandomSeeded { seed: t }) => s == t,
            (Some(s), SamplerSetup::NsgaIiSeeded { seed: t, .. }) => s == t,
            (Some(_), _) => false,
            (None, SamplerSetup::Tpe) => true,
            (None, SamplerSetup::Random) => true,
            (None, SamplerSetup::NsgaIi { .. }) => true,
            (None, _) => false,
        },
{
}

} // verus!
