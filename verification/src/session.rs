//! Session scheduler: archiving the current session and forming a new one.
//!
//! One call archives the current session (appending it to the history,
//! oldest first), refreshes country availability, chooses the spotlights,
//! and pairs the eligible users — active profiles that neither skip this
//! cycle nor already hold an active pairing. Users are grouped by equal
//! timezone where possible, paired arbitrarily otherwise; an odd user
//! stays unpaired for the cycle with no error. Each pair is bound to one
//! of the session's spotlight countries, round robin.

use vstd::prelude::*;
use vstd::pervasive::VecAdditionalExecFns;

use crate::catalog::{available_countries, names_of, recomputed_catalog};
use crate::state::{seq_mentions, PingPairState, StateV};
use crate::types::{CountryV, Pairing, PairingStatus, PairingV, Session, SessionV, UserProfileV};

verus! {

/// How many countries headline a session.
pub const SPOTLIGHT_COUNT: usize = 3;

/// A user is eligible for matching when active, not skipping this cycle,
/// and not already part of an active pairing.
pub open spec fn is_eligible(u: UserProfileV, active: Seq<PairingV>) -> bool {
    u.is_active && !u.skip_next_match && !seq_mentions(active, u.user_id)
}

/// The ids of the eligible users, in profile order.
pub open spec fn eligible_ids(users: Seq<UserProfileV>, active: Seq<PairingV>) -> Seq<Seq<char>>
    decreases users.len(),
{
    if users.len() == 0 {
        Seq::empty()
    } else {
        let rest = eligible_ids(users.drop_first(), active);
        if is_eligible(users[0], active) {
            seq![users[0].user_id] + rest
        } else {
            rest
        }
    }
}

/// Every profile with its one-shot skip flag cleared; all else kept.
pub open spec fn cleared(users: Seq<UserProfileV>) -> Seq<UserProfileV> {
    Seq::new(
        users.len(),
        |j: int| UserProfileV { skip_next_match: false, ..users[j] },
    )
}

/// Appending one profile appends its id to the eligible ids when it is
/// eligible and leaves them unchanged otherwise.
proof fn lemma_eligible_ids_push(users: Seq<UserProfileV>, active: Seq<PairingV>, u: UserProfileV)
    ensures
        eligible_ids(users.push(u), active) == if is_eligible(u, active) {
            eligible_ids(users, active).push(u.user_id)
        } else {
            eligible_ids(users, active)
        },
    decreases users.len(),
{
    let whole = users.push(u);
    if users.len() == 0 {
        assert(whole[0] == u);
        assert(whole.drop_first() =~= Seq::<UserProfileV>::empty());
        assert(eligible_ids(Seq::<UserProfileV>::empty(), active) =~= Seq::<Seq<char>>::empty());
        if is_eligible(u, active) {
            assert(eligible_ids(whole, active) =~= eligible_ids(users, active).push(u.user_id));
        } else {
            assert(eligible_ids(whole, active) =~= eligible_ids(users, active));
        }
    } else {
        assert(whole[0] == users[0]);
        assert(whole.drop_first() =~= users.drop_first().push(u));
        lemma_eligible_ids_push(users.drop_first(), active, u);
        let rest = eligible_ids(users.drop_first(), active);
        if is_eligible(u, active) {
            if is_eligible(users[0], active) {
                assert((seq![users[0].user_id] + rest.push(u.user_id)) =~= (seq![
                    users[0].user_id,
                ] + rest).push(u.user_id));
            }
            assert(eligible_ids(whole, active) =~= eligible_ids(users, active).push(u.user_id));
        } else {
            assert(eligible_ids(whole, active) =~= eligible_ids(users, active));
        }
    }
}

/// The session history as it stands after archiving the current session:
/// the new round is appended at the tail, oldest first.
pub open spec fn archived(s: StateV) -> Seq<SessionV> {
    s.past_sessions + (match s.current_session {
        Some(c) => seq![c],
        None => Seq::<SessionV>::empty(),
    })
}

/// What a new session's spotlight names satisfy, given the state the
/// session was formed from: pairwise distinct, all catalog names, and
/// drawn by the selection rule over the freshly recomputed availability —
/// enough available countries give exactly `SPOTLIGHT_COUNT` available
/// names, a short non-empty available set is taken whole and unpadded, and
/// only an empty one falls back to the full catalog.
pub open spec fn featured_ok(s: StateV, featured: Seq<Seq<char>>) -> bool {
    let availc = available_countries(recomputed_catalog(s.users, s.countries));
    &&& forall|a: int, b: int| 0 <= a < b < featured.len() ==> featured[a] != featured[b]
    &&& forall|a: int|
        0 <= a < featured.len() ==> names_of(s.countries).contains(#[trigger] featured[a])
    &&& availc.len() >= SPOTLIGHT_COUNT ==> {
        &&& featured.len() == SPOTLIGHT_COUNT
        &&& forall|a: int|
            0 <= a < featured.len() ==> names_of(availc).contains(#[trigger] featured[a])
    }
    &&& 0 < availc.len() < SPOTLIGHT_COUNT ==> featured == names_of(availc)
    &&& availc.len() == 0 ==> featured.len() == (if SPOTLIGHT_COUNT as int <= s.countries.len() {
        SPOTLIGHT_COUNT as int
    } else {
        s.countries.len() as int
    })
}

/// A member of a record sequence contributes its name to the name list.
proof fn lemma_name_member(cs: Seq<CountryV>, c: CountryV)
    requires
        cs.contains(c),
    ensures
        names_of(cs).contains(c.name),
{
    let k = choose|k: int| 0 <= k < cs.len() && cs[k] == c;
    assert(names_of(cs)[k] == c.name);
}

/// An eligible profile's id is among the eligible ids.
proof fn lemma_eligible_ids_contains(users: Seq<UserProfileV>, active: Seq<PairingV>, j: int)
    requires
        0 <= j < users.len(),
        is_eligible(users[j], active),
    ensures
        eligible_ids(users, active).contains(users[j].user_id),
    decreases j,
{
    let full = eligible_ids(users, active);
    let rest = eligible_ids(users.drop_first(), active);
    if j == 0 {
        assert(full[0] == users[0].user_id);
    } else {
        assert(users.drop_first()[j - 1] == users[j]);
        lemma_eligible_ids_contains(users.drop_first(), active, j - 1);
        let w = choose|w: int| 0 <= w < rest.len() && rest[w] == users[j].user_id;
        if is_eligible(users[0], active) {
            assert(full[w + 1] == users[j].user_id);
        } else {
            assert(full[w] == users[j].user_id);
        }
    }
}

impl PingPairState {
    /// Collects the positions of the eligible users, in profile order.
    fn eligible_positions(&self) -> (r: Vec<usize>)
        ensures
            r@.len() == eligible_ids(self@.users, self@.active_pairings).len(),
            r@.len() <= self@.users.len(),
            forall|m: int, n: int| 0 <= m < n < r@.len() ==> r@[m] < r@[n],
            forall|m: int| 0 <= m < r@.len() ==> (#[trigger] r@[m]) < self@.users.len(),
            forall|m: int|
                0 <= m < r@.len() ==> is_eligible(
                    self@.users[#[trigger] r@[m] as int],
                    self@.active_pairings,
                ),
    {
        let ghost users = self@.users;
        let ghost active = self@.active_pairings;
        let mut r: Vec<usize> = Vec::new();
        let mut i: usize = 0;
        proof {
            assert(users.take(0) =~= Seq::<UserProfileV>::empty());
        }
        while i < self.users.len()
            invariant
                i <= self.users.len(),
                users == self@.users,
                active == self@.active_pairings,
                r@.len() == eligible_ids(users.take(i as int), active).len(),
                r@.len() <= i,
                forall|m: int, n: int| 0 <= m < n < r@.len() ==> r@[m] < r@[n],
                forall|m: int| 0 <= m < r@.len() ==> (#[trigger] r@[m]) < i,
                forall|m: int|
                    0 <= m < r@.len() ==> is_eligible(users[#[trigger] r@[m] as int], active),
            decreases self.users.len() - i,
        {
            let ghost taken = users.take(i as int);
            let eligible_here = self.users[i].is_active && !self.users[i].skip_next_match
                && !self.is_user_paired(&self.users[i].user_id);
            if eligible_here {
                r.push(i);
            }
            proof {
                assert(users.take(i + 1) =~= taken.push(users[i as int]));
                lemma_eligible_ids_push(taken, active, users[i as int]);
                assert(eligible_here == is_eligible(users[i as int], active));
            }
            i = i + 1;
        }
        proof {
            assert(users.take(users.len() as int) =~= users);
        }
        r
    }

    /// Clears every profile's one-shot skip flag; nothing else changes.
    fn clear_skip_flags(&mut self)
        requires
            old(self)@.inv(),
        ensures
            final(self)@ == old(self)@.with_users(cleared(old(self)@.users)),
            final(self)@.inv(),
    {
        let ghost prev = self@;
        let ghost target = cleared(prev.users);
        let mut i: usize = 0;
        while i < self.users.len()
            invariant
                i <= self.users.len(),
                self.users.len() == prev.users.len(),
                self@ == prev.with_users(self@.users),
                target == cleared(prev.users),
                forall|j: int| 0 <= j < i ==> #[trigger] self@.users[j] == target[j],
                forall|j: int| i <= j < prev.users.len() ==> #[trigger] self@.users[j]
                    == prev.users[j],
            decreases self.users.len() - i,
        {
            let ghost before = self@.users;
            proof {
                assert(before[i as int] == prev.users[i as int]);
            }
            let mut p = self.users[i].clone();
            p.skip_next_match = false;
            proof {
                assert(p@ == target[i as int]);
            }
            self.users.set(i, p);
            proof {
                assert(self@.users =~= before.update(i as int, p@));
            }
            i = i + 1;
        }
        proof {
            assert(self@.users =~= target);
            assert forall|i: int, j: int| 0 <= i < j < self@.users.len()
                implies #[trigger] self@.users[i].user_id != #[trigger] self@.users[j].user_id by {
                assert(prev.users[i].user_id != prev.users[j].user_id);
            }
        }
    }

    /// Pairs up the users at the given positions, two by two: users with
    /// equal timezones are put together where possible, the rest
    /// arbitrarily. Exactly one pair forms per two positions; with an odd
    /// count one position stays unpaired.
    #[verifier::rlimit(80)]
    fn pair_positions(&self, positions: &Vec<usize>) -> (r: Vec<(usize, usize)>)
        requires
            forall|m: int, n: int| 0 <= m < n < positions@.len() ==> positions@[m]
                != positions@[n],
            forall|m: int| 0 <= m < positions@.len() ==> (#[trigger] positions@[m])
                < self.users.len(),
        ensures
            r@.len() == positions@.len() / 2,
            forall|m: int| 0 <= m < r@.len() ==> {
                let p = #[trigger] r@[m];
                &&& p.0 != p.1
                &&& p.0 < self.users.len()
                &&& p.1 < self.users.len()
                &&& positions@.contains(p.0)
                &&& positions@.contains(p.1)
            },
            forall|m: int, n: int|
                #![trigger r@[m], r@[n]]
                0 <= m < n < r@.len() ==> {
                    let p = r@[m];
                    let q = r@[n];
                    p.0 != q.0 && p.0 != q.1 && p.1 != q.0 && p.1 != q.1
                },
    {
        let ghost orig = positions@;
        let total = positions.len();
        let mut rem = positions.clone();
        proof {
            assert(rem@ =~= orig);
        }
        let mut r: Vec<(usize, usize)> = Vec::new();
        while rem.len() >= 2
            invariant
                2 * r@.len() + rem@.len() == total as int,
                forall|m: int, n: int| 0 <= m < n < rem@.len() ==> rem@[m] != rem@[n],
                forall|m: int| 0 <= m < rem@.len() ==> (#[trigger] rem@[m]) < self.users.len(),
                forall|m: int| 0 <= m < rem@.len() ==> orig.contains(#[trigger] rem@[m]),
                forall|m: int| 0 <= m < r@.len() ==> {
                    let p = #[trigger] r@[m];
                    &&& p.0 != p.1
                    &&& p.0 < self.users.len()
                    &&& p.1 < self.users.len()
                    &&& orig.contains(p.0)
                    &&& orig.contains(p.1)
                },
                forall|m: int, n: int|
                    #![trigger r@[m], r@[n]]
                    0 <= m < n < r@.len() ==> {
                        let p = r@[m];
                        let q = r@[n];
                        p.0 != q.0 && p.0 != q.1 && p.1 != q.0 && p.1 != q.1
                    },
                forall|m: int, n: int|
                    #![trigger r@[m], rem@[n]]
                    0 <= m < r@.len() && 0 <= n < rem@.len() ==> {
                        let p = r@[m];
                        p.0 != rem@[n] && p.1 != rem@[n]
                    },
            decreases rem@.len(),
        {
            let ghost rem0 = rem@;
            let a = rem.remove(0);
            proof {
                assert(rem@ =~= rem0.drop_first());
            }
            proof {
                assert forall|m: int, n: int| 0 <= m < n < rem@.len() implies rem@[m]
                    != rem@[n] by {
                    assert(rem@[m] == rem0[m + 1]);
                    assert(rem@[n] == rem0[n + 1]);
                }
                assert forall|m: int| 0 <= m < rem@.len() implies (#[trigger] rem@[m])
                    < self.users.len() by {
                    assert(rem@[m] == rem0[m + 1]);
                }
            }
            let tz_a = self.users[a].timezone.clone();
            let mut j: usize = 0;
            let mut found: usize = 0;
            let mut have: bool = false;
            while j < rem.len()
                invariant
                    j <= rem@.len(),
                    rem@.len() > 0,
                    found < rem@.len(),
                    forall|m: int| 0 <= m < rem@.len() ==> (#[trigger] rem@[m])
                        < self.users.len(),
                decreases rem@.len() - j,
            {
                if !have && self.users[rem[j]].timezone == tz_a {
                    found = j;
                    have = true;
                }
                j = j + 1;
            }
            let ghost rem1 = rem@;
            let b = rem.remove(found);
            proof {
                assert(rem@ =~= rem1.remove(found as int));
            }
            let ghost rold = r@;
            r.push((a, b));
            proof {
                assert(r@ =~= rold.push((a, b)));
                assert(a == rem0[0]);
                assert(b == rem1[found as int]);
                assert(b == rem0[found + 1]);
                assert(a != b);
                assert forall|m: int, n: int| 0 <= m < n < rem@.len() implies rem@[m]
                    != rem@[n] by {
                    let om = if m < found { m } else { m + 1 };
                    let on = if n < found { n } else { n + 1 };
                    assert(rem@[m] == rem1[om]);
                    assert(rem@[n] == rem1[on]);
                }
                assert forall|m: int| 0 <= m < rem@.len() implies (#[trigger] rem@[m])
                    < self.users.len() && orig.contains(rem@[m]) by {
                    let om = if m < found { m } else { m + 1 };
                    assert(rem@[m] == rem1[om]);
                }
                assert forall|m: int, n: int|
                    #![trigger r@[m], rem@[n]]
                    0 <= m < r@.len() && 0 <= n < rem@.len() implies {
                    let p = r@[m];
                    p.0 != rem@[n] && p.1 != rem@[n]
                } by {
                    let om = if n < found { n } else { n + 1 };
                    assert(rem@[n] == rem1[om]);
                    assert(rem1[om] == rem0[om + 1]);
                    if m < rold.len() {
                        assert(rold[m].0 != rem0[om + 1] && rold[m].1 != rem0[om + 1]);
                    } else {
                        assert(r@[m] == (a, b));
                        assert(rem0[om + 1] != rem0[0]);
                        assert(rem1[om] != rem1[found as int]);
                    }
                }
                assert forall|m: int, n: int|
                    #![trigger r@[m], r@[n]]
                    0 <= m < n < r@.len() implies {
                    let p = r@[m];
                    let q = r@[n];
                    p.0 != q.0 && p.0 != q.1 && p.1 != q.0 && p.1 != q.1
                } by {
                    if n < rold.len() {
                        assert(rold[m].0 != rold[n].0);
                    } else {
                        assert(r@[n] == (a, b));
                        assert(rold[m].0 != rem0[0] && rold[m].1 != rem0[0]);
                        assert(rold[m].0 != rem0[found + 1] && rold[m].1 != rem0[found + 1]);
                    }
                }
            }
        }
        r
    }

    /// Creates the next session: archives the current one at the tail of
    /// the history, recomputes country availability, chooses the spotlight
    /// countries, clears every one-shot skip flag, and pairs the eligible
    /// users — exactly one pairing per two of them, each bound to a
    /// spotlight country round robin (or to the placeholder name when the
    /// catalog yielded no spotlight at all). The new session is stored as
    /// current and returned.
    #[verifier::rlimit(100)]
    pub fn create_new_session(&mut self, seed: u64, now: u64) -> (r: Session)
        requires
            old(self)@.inv(),
            old(self)@.next_session_id < u64::MAX,
            old(self)@.next_pairing_id + old(self)@.users.len() <= u64::MAX,
        ensures
            final(self)@.inv(),
            r@.id == old(self)@.next_session_id,
            r@.date == now,
            final(self)@.current_session == Some(r@),
            final(self)@.past_sessions == archived(old(self)@),
            final(self)@.session_count() == old(self)@.session_count() + 1,
            final(self)@.next_session_id == old(self)@.next_session_id + 1,
            final(self)@.users == cleared(old(self)@.users),
            final(self)@.countries == recomputed_catalog(old(self)@.users, old(self)@.countries),
            final(self)@.completed_pairings == old(self)@.completed_pairings,
            r@.pairings.len() == eligible_ids(
                old(self)@.users,
                old(self)@.active_pairings,
            ).len() / 2,
            final(self)@.active_pairings == old(self)@.active_pairings + r@.pairings,
            final(self)@.next_pairing_id == old(self)@.next_pairing_id + r@.pairings.len(),
            forall|m: int|
                0 <= m < r@.pairings.len() ==> {
                    let p = #[trigger] r@.pairings[m];
                    &&& p.status is Active
                    &&& p.id == old(self)@.next_pairing_id + m
                    &&& p.date_created == now
                    &&& p.user1 != p.user2
                    &&& eligible_ids(old(self)@.users, old(self)@.active_pairings).contains(
                        p.user1,
                    )
                    &&& eligible_ids(old(self)@.users, old(self)@.active_pairings).contains(
                        p.user2,
                    )
                    &&& r@.featured_countries.len() > 0 ==> r@.featured_countries.contains(
                        p.country,
                    )
                    &&& r@.featured_countries.len() == 0 ==> p.country == "Unknown"@
                },
            featured_ok(old(self)@, r@.featured_countries),
    {
        let ghost s0 = self@;

        // Archive the current session, oldest first.
        let previous = self.current_session.take();
        match previous {
            Some(sess) => {
                self.past_sessions.push(sess);
            },
            None => {},
        }
        proof {
            assert(self@.past_sessions =~= archived(s0));
            assert(self@.users == s0.users);
            assert(self@.countries == s0.countries);
            assert(self@.active_pairings == s0.active_pairings);
            assert(self@.completed_pairings == s0.completed_pairings);
        }

        // Refresh availability and choose the spotlights from it.
        self.update_country_availability();
        proof {
            assert(self@.countries == recomputed_catalog(s0.users, s0.countries));
        }
        let featured = self.choose_spotlights(SPOTLIGHT_COUNT, seed);
        let ghost availc = available_countries(recomputed_catalog(s0.users, s0.countries));

        let mut featured_names: Vec<String> = Vec::new();
        let mut fi: usize = 0;
        while fi < featured.len()
            invariant
                fi <= featured.len(),
                featured_names.deep_view().len() == fi,
                forall|j: int|
                    0 <= j < fi ==> featured_names.deep_view()[j] == names_of(
                        featured.deep_view(),
                    )[j],
            decreases featured.len() - fi,
        {
            let ghost before = featured_names.deep_view();
            featured_names.push(featured[fi].name.clone());
            proof {
                assert(featured_names.deep_view() =~= before.push(
                    featured.deep_view()[fi as int].name,
                ));
            }
            fi = fi + 1;
        }
        let ghost fns = featured_names.deep_view();
        proof {
            assert(fns =~= names_of(featured.deep_view()));
            crate::spotlight::lemma_filter_names_distinct(
                recomputed_catalog(s0.users, s0.countries),
                |c: CountryV| c.available,
            );
            assert forall|a: int| 0 <= a < featured.deep_view().len() implies names_of(
                self@.countries,
            ).contains(#[trigger] fns[a]) by {
                if availc.len() == 0 {
                    assert(self@.countries.contains(featured.deep_view()[a]));
                    lemma_name_member(self@.countries, featured.deep_view()[a]);
                } else {
                    assert(available_countries(self@.countries).contains(
                        featured.deep_view()[a],
                    ));
                    crate::spotlight::lemma_filter_keeps_members(
                        self@.countries,
                        |c: CountryV| c.available,
                    );
                    let f = available_countries(self@.countries);
                    let w = choose|w: int| 0 <= w < f.len() && f[w] == featured.deep_view()[a];
                    assert(self@.countries.contains(f[w]));
                    lemma_name_member(self@.countries, featured.deep_view()[a]);
                }
            }
            assert forall|a: int| 0 <= a < fns.len() && availc.len() >= SPOTLIGHT_COUNT
                implies names_of(availc).contains(#[trigger] fns[a]) by {
                assert(availc.contains(featured.deep_view()[a]));
                lemma_name_member(availc, featured.deep_view()[a]);
            }
            assert(names_of(self@.countries) =~= names_of(s0.countries));
            if 0 < availc.len() < SPOTLIGHT_COUNT {
                assert(featured.deep_view() == availc);
                assert(fns =~= names_of(availc));
            }
            assert(featured_ok(s0, fns));
        }

        // Who can be matched this round; then the one-shot flags go.
        let positions = self.eligible_positions();
        let ghost elig = eligible_ids(s0.users, s0.active_pairings);
        proof {
            assert(elig.len() == positions@.len());
        }
        self.clear_skip_flags();
        proof {
            assert(self@.users == cleared(s0.users));
            assert(self@.users.len() == s0.users.len());
        }
        let pairs = self.pair_positions(&positions);
        proof {
            assert(pairs@.len() == elig.len() / 2);
            assert(positions@.len() <= s0.users.len());
            assert(pairs@.len() * 2 <= s0.users.len());
        }

        // Form one pairing per pair, bound to a spotlight round robin.
        let ghost base = s0.next_pairing_id;
        let mut session_pairings: Vec<Pairing> = Vec::new();
        let mut k: usize = 0;
        proof {
            assert(self@.active_pairings =~= s0.active_pairings + session_pairings.deep_view());
            assert forall|m: int| 0 <= m < pairs@.len() implies {
                let p = #[trigger] pairs@[m];
                &&& is_eligible(s0.users[p.0 as int], s0.active_pairings)
                &&& is_eligible(s0.users[p.1 as int], s0.active_pairings)
            } by {
                let p = pairs@[m];
                assert(positions@.contains(p.0));
                assert(positions@.contains(p.1));
                let w0 = choose|w: int| 0 <= w < positions@.len() && positions@[w] == p.0;
                let w1 = choose|w: int| 0 <= w < positions@.len() && positions@[w] == p.1;
                assert(is_eligible(s0.users[positions@[w0] as int], s0.active_pairings));
                assert(is_eligible(s0.users[positions@[w1] as int], s0.active_pairings));
            }
            assert forall|m: int| 0 <= m < pairs@.len() implies {
                &&& !self@.user_in_active(s0.users[(#[trigger] pairs@[m]).0 as int].user_id)
                &&& !self@.user_in_active(s0.users[pairs@[m].1 as int].user_id)
            } by {
                let x1 = s0.users[pairs@[m].0 as int].user_id;
                let x2 = s0.users[pairs@[m].1 as int].user_id;
                assert(!seq_mentions(s0.active_pairings, x1));
                assert(!seq_mentions(s0.active_pairings, x2));
                assert forall|i: int| 0 <= i < self@.active_pairings.len()
                    implies !crate::state::mentions(self@.active_pairings[i], x1)
                    && !crate::state::mentions(self@.active_pairings[i], x2) by {
                    assert(self@.active_pairings[i] == s0.active_pairings[i]);
                }
            }
        }
        while k < pairs.len()
            invariant
                k <= pairs@.len(),
                pairs@.len() * 2 <= s0.users.len(),
                base + s0.users.len() <= u64::MAX,
                s0.inv(),
                self@.inv(),
                self@.users == cleared(s0.users),
                self@.countries == recomputed_catalog(s0.users, s0.countries),
                self@.current_session is None,
                self@.past_sessions == archived(s0),
                self@.completed_pairings == s0.completed_pairings,
                self@.next_session_id == s0.next_session_id,
                self@.next_pairing_id == base + k,
                fns == featured_names.deep_view(),
                session_pairings.deep_view().len() == k,
                self@.active_pairings == s0.active_pairings + session_pairings.deep_view(),
                forall|m: int| 0 <= m < pairs@.len() ==> {
                    let p = #[trigger] pairs@[m];
                    &&& p.0 != p.1
                    &&& p.0 < s0.users.len()
                    &&& p.1 < s0.users.len()
                    &&& is_eligible(s0.users[p.0 as int], s0.active_pairings)
                    &&& is_eligible(s0.users[p.1 as int], s0.active_pairings)
                },
                forall|m: int, n: int|
                    #![trigger pairs@[m], pairs@[n]]
                    0 <= m < n < pairs@.len() ==> {
                        let p = pairs@[m];
                        let q = pairs@[n];
                        p.0 != q.0 && p.0 != q.1 && p.1 != q.0 && p.1 != q.1
                    },
                forall|m: int|
                    0 <= m < k ==> #[trigger] session_pairings.deep_view()[m] == (PairingV {
                        id: (base + m) as u64,
                        user1: s0.users[pairs@[m].0 as int].user_id,
                        user2: s0.users[pairs@[m].1 as int].user_id,
                        country: (if fns.len() == 0 {
                            "Unknown"@
                        } else {
                            fns[m % fns.len() as int]
                        }),
                        date_created: now,
                        status: PairingStatus::Active,
                    }),
                forall|m: int|
                    k <= m < pairs@.len() ==> {
                        &&& !self@.user_in_active(
                            s0.users[(#[trigger] pairs@[m]).0 as int].user_id,
                        )
                        &&& !self@.user_in_active(s0.users[pairs@[m].1 as int].user_id)
                    },
            decreases pairs@.len() - k,
        {
            let a = pairs[k].0;
            let b = pairs[k].1;
            proof {
                assert(self@.users.len() == s0.users.len());
                assert(a < self.users.len() && b < self.users.len());
            }
            let u1 = self.users[a].user_id.clone();
            let u2 = self.users[b].user_id.clone();
            proof {
                assert(self@.users[a as int] == cleared(s0.users)[a as int]);
                assert(cleared(s0.users)[a as int].user_id == s0.users[a as int].user_id);
                assert(self@.users[b as int] == cleared(s0.users)[b as int]);
                assert(cleared(s0.users)[b as int].user_id == s0.users[b as int].user_id);
                assert(u1@ == s0.users[a as int].user_id);
                assert(u2@ == s0.users[b as int].user_id);
                assert(s0.users[a as int].user_id != s0.users[b as int].user_id);
            }
            let cname: String = if featured_names.len() == 0 {
                "Unknown".to_owned()
            } else {
                featured_names[k % featured_names.len()].clone()
            };
            let ghost pre = self@;
            let formed = self.create_pairing(&u1, &u2, &cname, now);
            let pp = match formed {
                Ok(p) => p,
                Err(_) => {
                    proof {
                        assert(false);
                    }
                    vstd::pervasive::unreached()
                },
            };
            let ghost newp = pp@;
            let ghost before_sp = session_pairings.deep_view();
            session_pairings.push(pp);
            proof {
                assert(session_pairings.deep_view() =~= before_sp.push(newp));
                assert(self@.active_pairings =~= s0.active_pairings
                    + session_pairings.deep_view());
                assert forall|m: int| k + 1 <= m < pairs@.len() implies {
                    &&& !self@.user_in_active(s0.users[(#[trigger] pairs@[m]).0 as int].user_id)
                    &&& !self@.user_in_active(s0.users[pairs@[m].1 as int].user_id)
                } by {
                    let x1 = s0.users[pairs@[m].0 as int].user_id;
                    let x2 = s0.users[pairs@[m].1 as int].user_id;
                    assert(pairs@[m].0 != pairs@[k as int].0 && pairs@[m].0 != pairs@[k as int].1
                        && pairs@[m].1 != pairs@[k as int].0 && pairs@[m].1 != pairs@[
                        k as int].1);
                    assert(!crate::state::mentions(newp, x1));
                    assert(!crate::state::mentions(newp, x2));
                    assert(!pre.user_in_active(x1));
                    assert(!pre.user_in_active(x2));
                    assert forall|i: int| 0 <= i < self@.active_pairings.len()
                        implies !crate::state::mentions(self@.active_pairings[i], x1)
                        && !crate::state::mentions(self@.active_pairings[i], x2) by {
                        if i < pre.active_pairings.len() {
                            assert(self@.active_pairings[i] == pre.active_pairings[i]);
                        } else {
                            assert(self@.active_pairings[i] == newp);
                        }
                    }
                }
            }
            k = k + 1;
        }

        // Record and publish the new session.
        let session = Session {
            id: self.next_session_id,
            date: now,
            featured_countries: featured_names,
            pairings: session_pairings,
        };
        let result = session.clone();
        proof {
            assert(session@.featured_countries == fns);
        }
        self.current_session = Some(session);
        self.next_session_id = self.next_session_id + 1;
        proof {
            assert(result@.pairings.len() == elig.len() / 2);
            assert forall|m: int| 0 <= m < result@.pairings.len() implies {
                let p = #[trigger] result@.pairings[m];
                &&& elig.contains(p.user1)
                &&& elig.contains(p.user2)
            } by {
                let p0 = pairs@[m].0 as int;
                let p1 = pairs@[m].1 as int;
                lemma_eligible_ids_contains(s0.users, s0.active_pairings, p0);
                lemma_eligible_ids_contains(s0.users, s0.active_pairings, p1);
            }
            assert forall|m: int| 0 <= m < result@.pairings.len()
                && result@.featured_countries.len() > 0 implies result@.featured_countries
                .contains(#[trigger] result@.pairings[m].country) by {
                assert(result@.pairings[m].country == fns[m % fns.len() as int]);
            }
        }
        result
    }
}

} // verus!
