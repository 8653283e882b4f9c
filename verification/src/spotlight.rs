//! Spotlight selection: choosing the countries that headline a session.
//!
//! Selection prefers countries with available users. When enough are
//! available the requested number is drawn without replacement from them;
//! when some but too few are available, exactly those are returned with no
//! padding; only when none is available does the draw fall back to the full
//! catalog. The randomness source is a caller-supplied seed, so selection
//! is reproducible.

use vstd::prelude::*;

use crate::state::{PingPairState, StateV};
use crate::types::{Country, CountryV};

verus! {

/// Multiplier of the linear-congruential step that stretches a seed into a
/// stream of draws.
pub const SEED_MULTIPLIER: u64 = 6364136223846793005;

/// Increment of the linear-congruential step.
pub const SEED_INCREMENT: u64 = 1442695040888963407;

/// Pairwise distinct country names.
pub open spec fn names_distinct(s: Seq<CountryV>) -> bool {
    forall|i: int, j: int|
        0 <= i < j < s.len() ==> (#[trigger] s[i]).name != (#[trigger] s[j]).name
}

/// The catalog records whose availability flag is set, in catalog order.
pub open spec fn available_of(s: StateV) -> Seq<CountryV> {
    crate::catalog::available_countries(s.countries)
}

/// Every element of a filtered sequence is an element of the unfiltered one.
pub proof fn lemma_filter_keeps_members(s: Seq<CountryV>, pred: spec_fn(CountryV) -> bool)
    ensures
        forall|i: int|
            0 <= i < s.filter(pred).len() ==> s.contains(#[trigger] s.filter(pred)[i]),
    decreases s.len(),
{
    reveal(Seq::filter);
    if s.len() > 0 {
        let prefix = s.drop_last();
        lemma_filter_keeps_members(prefix, pred);
        assert forall|i: int| 0 <= i < s.filter(pred).len() implies s.contains(
            #[trigger] s.filter(pred)[i],
        ) by {
            let f = s.filter(pred);
            if pred(s.last()) && i == f.len() - 1 {
                assert(s[s.len() - 1] == f[i]);
            } else {
                assert(prefix.contains(prefix.filter(pred)[i]));
                let j = choose|j: int| 0 <= j < prefix.len() && prefix[j] == prefix.filter(pred)[i];
                assert(s[j] == f[i]);
            }
        }
    }
}

/// Filtering keeps country names pairwise distinct.
pub proof fn lemma_filter_names_distinct(s: Seq<CountryV>, pred: spec_fn(CountryV) -> bool)
    requires
        names_distinct(s),
    ensures
        names_distinct(s.filter(pred)),
    decreases s.len(),
{
    reveal(Seq::filter);
    if s.len() > 0 {
        let prefix = s.drop_last();
        lemma_filter_names_distinct(prefix, pred);
        lemma_filter_keeps_members(prefix, pred);
        let f = s.filter(pred);
        assert forall|i: int, j: int| 0 <= i < j < f.len() implies (#[trigger] f[i]).name
            != (#[trigger] f[j]).name by {
            let sub = prefix.filter(pred);
            if pred(s.last()) && j == f.len() - 1 {
                assert(f[i] == sub[i]);
                assert(prefix.contains(sub[i]));
                let k = choose|k: int| 0 <= k < prefix.len() && prefix[k] == sub[i];
                assert(s[k] == f[i]);
                assert(s[k].name != s[s.len() - 1].name);
            } else {
                assert(f[i] == sub[i]);
                assert(f[j] == sub[j]);
            }
        }
    }
}

/// Draws `count` countries from `pool` without replacement: the result has
/// exactly `count` entries, pairwise distinct names, all taken from the
/// pool. Which entries are drawn depends on the seed alone.
fn sample_distinct(pool: &Vec<Country>, count: usize, seed: u64) -> (r: Vec<Country>)
    requires
        names_distinct(pool.deep_view()),
        count <= pool.len(),
    ensures
        r.deep_view().len() == count,
        names_distinct(r.deep_view()),
        forall|a: int| 0 <= a < count ==> pool.deep_view().contains(#[trigger] r.deep_view()[a]),
{
    let ghost pv = pool.deep_view();
    let mut indices: Vec<usize> = Vec::new();
    let mut i: usize = 0;
    while i < pool.len()
        invariant
            i <= pool.len(),
            indices@.len() == i,
            forall|m: int| 0 <= m < i ==> indices@[m] == m,
        decreases pool.len() - i,
    {
        indices.push(i);
        i = i + 1;
    }
    let mut r: Vec<Country> = Vec::new();
    let mut s: u64 = seed;
    let mut t: usize = 0;
    while t < count
        invariant
            t <= count,
            count <= pool.len(),
            pv == pool.deep_view(),
            names_distinct(pv),
            indices@.len() == pool.len() - t,
            forall|m: int| 0 <= m < indices@.len() ==> (#[trigger] indices@[m]) < pool.len(),
            forall|m: int, n: int|
                0 <= m < n < indices@.len() ==> indices@[m] != indices@[n],
            r.deep_view().len() == t,
            names_distinct(r.deep_view()),
            forall|a: int| 0 <= a < t ==> pv.contains(#[trigger] r.deep_view()[a]),
            forall|a: int, m: int|
                #![trigger r.deep_view()[a], indices@[m]]
                0 <= a < t && 0 <= m < indices@.len() ==> r.deep_view()[a].name
                    != pv[indices@[m] as int].name,
        decreases count - t,
    {
        s = s.wrapping_mul(SEED_MULTIPLIER).wrapping_add(SEED_INCREMENT);
        let j = (s % (indices.len() as u64)) as usize;
        let ghost old_indices = indices@;
        let ghost old_r = r.deep_view();
        let idx = indices.remove(j);
        r.push(pool[idx].clone());
        proof {
            assert(indices@ =~= old_indices.remove(j as int));
            assert(r.deep_view() =~= old_r.push(pv[idx as int]));
            assert forall|m: int, n: int| 0 <= m < n < indices@.len() implies indices@[m]
                != indices@[n] by {
                let om = if m < j { m } else { m + 1 };
                let on = if n < j { n } else { n + 1 };
                assert(indices@[m] == old_indices[om]);
                assert(indices@[n] == old_indices[on]);
            }
            assert forall|m: int| 0 <= m < indices@.len() implies (#[trigger] indices@[m])
                < pool.len() by {
                let om = if m < j { m } else { m + 1 };
                assert(indices@[m] == old_indices[om]);
            }
            assert(pv.contains(pv[idx as int]));
            assert forall|a: int, m: int|
                #![trigger r.deep_view()[a], indices@[m]]
                0 <= a < t + 1 && 0 <= m < indices@.len() implies r.deep_view()[a].name
                != pv[indices@[m] as int].name by {
                let om = if m < j { m } else { m + 1 };
                assert(indices@[m] == old_indices[om]);
                if a < t {
                    assert(old_r[a].name != pv[old_indices[om] as int].name);
                } else {
                    assert(r.deep_view()[a] == pv[idx as int]);
                    assert(old_indices[j as int] == idx);
                    assert(old_indices[om] != idx);
                    if (idx as int) < old_indices[om] {
                        assert(pv[idx as int].name != pv[old_indices[om] as int].name);
                    } else {
                        assert(pv[old_indices[om] as int].name != pv[idx as int].name);
                    }
                }
            }
            assert forall|a: int, b: int| 0 <= a < b < r.deep_view().len() implies (
            #[trigger] r.deep_view()[a]).name != (#[trigger] r.deep_view()[b]).name by {
                if b < t {
                    assert(old_r[a].name != old_r[b].name);
                } else {
                    assert(r.deep_view()[b] == pv[idx as int]);
                    assert(old_r[a].name != pv[old_indices[j as int] as int].name);
                }
            }
        }
        t = t + 1;
    }
    r
}

impl PingPairState {
    /// Chooses the countries that headline a new session. With at least
    /// `count` available countries, `count` of them are drawn without
    /// replacement; with some but fewer than `count` available, exactly the
    /// available ones are returned, unpadded; with none available, the draw
    /// falls back to the full catalog. The result always has pairwise
    /// distinct names, and which countries are drawn depends on the catalog,
    /// the users, and the seed alone.
    pub fn choose_spotlights(&self, count: usize, seed: u64) -> (r: Vec<Country>)
        requires
            self@.inv(),
        ensures
            names_distinct(r.deep_view()),
            available_of(self@).len() >= count ==> {
                &&& r.deep_view().len() == count
                &&& forall|a: int|
                    0 <= a < count ==> available_of(self@).contains(#[trigger] r.deep_view()[a])
                &&& forall|a: int| 0 <= a < count ==> (#[trigger] r.deep_view()[a]).available
            },
            0 < available_of(self@).len() < count ==> r.deep_view() == available_of(self@),
            available_of(self@).len() == 0 ==> {
                &&& r.deep_view().len() == (if count <= self@.countries.len() {
                    count as int
                } else {
                    self@.countries.len() as int
                })
                &&& forall|a: int|
                    0 <= a < r.deep_view().len() ==> self@.countries.contains(
                        #[trigger] r.deep_view()[a],
                    )
            },
    {
        proof {
            lemma_filter_names_distinct(self@.countries, |c: CountryV| c.available);
        }
        let avail = self.get_available_countries();
        if avail.len() >= count {
            let r = sample_distinct(&avail, count, seed);
            proof {
                assert forall|a: int| 0 <= a < count implies (
                #[trigger] r.deep_view()[a]).available by {
                    let f = available_of(self@);
                    assert(f.contains(r.deep_view()[a]));
                    let w = choose|w: int| 0 <= w < f.len() && f[w] == r.deep_view()[a];
                    self@.countries.lemma_filter_pred(|c: CountryV| c.available, w);
                }
            }
            r
        } else if avail.len() > 0 {
            avail
        } else {
            let m = if count <= self.countries.len() {
                count
            } else {
                self.countries.len()
            };
            let r = sample_distinct(&self.countries, m, seed);
            proof {
                assert(self.countries.deep_view() == self@.countries);
            }
            r
        }
    }

    /// Picks one country to spotlight: a seeded draw from the available
    /// countries, falling back to the built-in seed records when none is
    /// available.
    pub fn get_country_spotlight(&self, seed: u64) -> (r: Country)
        requires
            self@.inv(),
        ensures
            available_of(self@).len() > 0 ==> r@ == available_of(self@)[(
            seed % (available_of(self@).len() as u64)) as int],
            available_of(self@).len() == 0 ==> r@ == crate::catalog::default_countries()[(
            seed % 3) as int],
    {
        let avail = self.get_available_countries();
        if avail.len() > 0 {
            let j = (seed % (avail.len() as u64)) as usize;
            avail[j].clone()
        } else {
            let defaults = crate::catalog::get_default_countries();
            proof {
                assert(defaults.deep_view().len() == 3);
                assert(defaults@.len() == 3);
            }
            let j = (seed % 3) as usize;
            let r = defaults[j].clone();
            proof {
                assert(r@ == defaults.deep_view()[j as int]);
            }
            r
        }
    }
}

} // verus!
