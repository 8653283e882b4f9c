//! User directory: creation, activation, and field-level profile updates.
//!
//! Profiles are keyed by a stable, opaque user id. Creation fails with
//! `AlreadyExists` for a known id; the caller that wants re-activation calls
//! `reactivate` instead, which preserves score and history (this two-step
//! resolution is part of the contract, not hidden here). All other
//! operations fail with `NotFound` on an unknown id. No operation removes
//! score or history.

use vstd::prelude::*;
use vstd::pervasive::VecAdditionalExecFns;

use crate::state::{PingPairState, StateV, STARTING_SCORE};
use crate::types::{DomainError, UserProfile, UserProfileV};

verus! {

/// Points granted for adding a new interest.
pub const INTEREST_BONUS: u32 = 1;

/// Score addition, capped at the top of the score type's range.
pub open spec fn bump(score: u32, points: u32) -> u32 {
    if score + points <= u32::MAX {
        (score + points) as u32
    } else {
        u32::MAX
    }
}

/// The profile a fresh user starts with: configured starting score, all
/// lists empty, active, not skipping.
pub open spec fn new_profile(uid: Seq<char>, username: Seq<char>, now: u64) -> UserProfileV {
    UserProfileV {
        user_id: uid,
        name: username,
        country: "Unknown"@,
        interests: Seq::empty(),
        bio: Seq::empty(),
        net_worth: STARTING_SCORE,
        badges: Seq::empty(),
        countries_visited: Seq::empty(),
        timezone: "UTC"@,
        languages: Seq::empty(),
        join_date: now,
        is_active: true,
        skip_next_match: false,
    }
}

impl StateV {
    /// This state with the user sequence replaced and all else kept.
    pub open spec fn with_users(self, users: Seq<UserProfileV>) -> StateV {
        StateV { users, ..self }
    }
}

/// Whether `v` holds a string whose characters are `s`.
pub(crate) fn contains_string(v: &Vec<String>, s: &String) -> (r: bool)
    ensures
        r == v.deep_view().contains(s@),
{
    let mut i: usize = 0;
    while i < v.len()
        invariant
            i <= v.len(),
            forall|j: int| 0 <= j < i ==> #[trigger] v.deep_view()[j] != s@,
        decreases v.len() - i,
    {
        if v[i] == *s {
            proof {
                assert(v.deep_view()[i as int] == s@);
            }
            return true;
        }
        i = i + 1;
    }
    proof {
        assert(forall|j: int| 0 <= j < v.deep_view().len() ==> #[trigger] v.deep_view()[j] != s@);
    }
    false
}

impl PingPairState {
    /// Puts `p` in place of the profile at `k`, which must keep its user id.
    pub(crate) fn replace_profile(&mut self, k: usize, p: UserProfile)
        requires
            old(self)@.inv(),
            k < old(self).users.len(),
            p@.user_id == old(self)@.users[k as int].user_id,
        ensures
            final(self)@ == old(self)@.with_users(old(self)@.users.update(k as int, p@)),
            final(self)@.inv(),
    {
        let ghost prev = self@;
        self.users.set(k, p);
        proof {
            assert(self@.users =~= prev.users.update(k as int, p@));
            assert(self@ == prev.with_users(prev.users.update(k as int, p@)));
            assert forall|i: int, j: int| 0 <= i < j < self@.users.len()
                implies #[trigger] self@.users[i].user_id != #[trigger] self@.users[j].user_id by {
                assert(prev.users[i].user_id != prev.users[j].user_id);
            }
        }
    }

    /// Looks a profile up by id; a pure read with no side effect.
    pub fn get_user(&self, user_id: &String) -> (r: Option<UserProfile>)
        requires
            self@.inv(),
        ensures
            match r {
                Some(p) => self@.has_user(user_id@) && p@ == self@.user(user_id@),
                None => !self@.has_user(user_id@),
            },
    {
        match self.user_index(user_id) {
            Some(i) => {
                proof {
                    self@.lemma_user_ix_unique(user_id@, i as int);
                }
                Some(self.users[i].clone())
            },
            None => None,
        }
    }

    /// Registers a new user. Fails with `AlreadyExists` if the id is known;
    /// the state is then unchanged, the existing score in particular.
    pub fn create_user(&mut self, user_id: String, username: String, now: u64) -> (r: Result<
        UserProfile,
        DomainError,
    >)
        requires
            old(self)@.inv(),
        ensures
            final(self)@.inv(),
            old(self)@.has_user(user_id@) ==> {
                &&& r matches Err(e) && e == DomainError::AlreadyExists
                &&& final(self)@ == old(self)@
            },
            !old(self)@.has_user(user_id@) ==> {
                &&& r matches Ok(p) && p@ == new_profile(user_id@, username@, now)
                &&& final(self)@ == old(self)@.with_users(
                    old(self)@.users.push(new_profile(user_id@, username@, now)),
                )
            },
    {
        if self.user_index(&user_id).is_some() {
            return Err(DomainError::AlreadyExists);
        }
        let profile = UserProfile {
            user_id,
            name: username,
            country: "Unknown".to_owned(),
            interests: Vec::new(),
            bio: "".to_owned(),
            net_worth: STARTING_SCORE,
            badges: Vec::new(),
            countries_visited: Vec::new(),
            timezone: "UTC".to_owned(),
            languages: Vec::new(),
            join_date: now,
            is_active: true,
            skip_next_match: false,
        };
        let ghost prev = self@;
        let ghost pv = profile@;
        let result = profile.clone();
        self.users.push(profile);
        proof {
            assert(pv.interests =~= Seq::<Seq<char>>::empty());
            assert(pv.badges =~= Seq::<crate::types::BadgeV>::empty());
            assert(pv.countries_visited =~= Seq::<Seq<char>>::empty());
            assert(pv.languages =~= Seq::<Seq<char>>::empty());
            reveal_strlit("");
            assert("".view() =~= Seq::<char>::empty());
            assert(pv == new_profile(pv.user_id, pv.name, now));
            assert(self@.users =~= prev.users.push(pv));
            assert(self@ == prev.with_users(prev.users.push(pv)));
            assert forall|i: int, j: int| 0 <= i < j < self@.users.len()
                implies #[trigger] self@.users[i].user_id != #[trigger] self@.users[j].user_id by {
                if j < prev.users.len() {
                    assert(prev.users[i].user_id != prev.users[j].user_id);
                } else {
                    assert(!prev.has_user(pv.user_id));
                }
            }
        }
        Ok(result)
    }

    /// Sets the active flag on an existing profile; everything else of the
    /// profile, its score included, is untouched.
    pub fn reactivate(&mut self, user_id: &String) -> (r: Result<(), DomainError>)
        requires
            old(self)@.inv(),
        ensures
            final(self)@.inv(),
            !old(self)@.has_user(user_id@) ==> {
                &&& r matches Err(e) && e == DomainError::NotFound
                &&& final(self)@ == old(self)@
            },
            old(self)@.has_user(user_id@) ==> {
                &&& r matches Ok(u) && u == ()
                &&& final(self)@ == old(self)@.with_users(
                    old(self)@.users.update(
                        old(self)@.user_ix(user_id@),
                        UserProfileV {
                            is_active: true,
                            ..old(self)@.user(user_id@)
                        },
                    ),
                )
            },
    {
        match self.user_index(user_id) {
            None => Err(DomainError::NotFound),
            Some(k) => {
                proof {
                    self@.lemma_user_ix_unique(user_id@, k as int);
                }
                let mut p = self.users[k].clone();
                p.is_active = true;
                self.replace_profile(k, p);
                Ok(())
            },
        }
    }

    /// Clears the active flag on an existing profile; history is kept.
    pub fn deactivate(&mut self, user_id: &String) -> (r: Result<(), DomainError>)
        requires
            old(self)@.inv(),
        ensures
            final(self)@.inv(),
            !old(self)@.has_user(user_id@) ==> {
                &&& r matches Err(e) && e == DomainError::NotFound
                &&& final(self)@ == old(self)@
            },
            old(self)@.has_user(user_id@) ==> {
                &&& r matches Ok(u) && u == ()
                &&& final(self)@ == old(self)@.with_users(
                    old(self)@.users.update(
                        old(self)@.user_ix(user_id@),
                        UserProfileV {
                            is_active: false,
                            ..old(self)@.user(user_id@)
                        },
                    ),
                )
            },
    {
        match self.user_index(user_id) {
            None => Err(DomainError::NotFound),
            Some(k) => {
                proof {
                    self@.lemma_user_ix_unique(user_id@, k as int);
                }
                let mut p = self.users[k].clone();
                p.is_active = false;
                self.replace_profile(k, p);
                Ok(())
            },
        }
    }

    /// Sets or clears the one-shot skip flag read by session formation.
    pub fn set_skip_next(&mut self, user_id: &String, value: bool) -> (r: Result<(), DomainError>)
        requires
            old(self)@.inv(),
        ensures
            final(self)@.inv(),
            !old(self)@.has_user(user_id@) ==> {
                &&& r matches Err(e) && e == DomainError::NotFound
                &&& final(self)@ == old(self)@
            },
            old(self)@.has_user(user_id@) ==> {
                &&& r matches Ok(u) && u == ()
                &&& final(self)@ == old(self)@.with_users(
                    old(self)@.users.update(
                        old(self)@.user_ix(user_id@),
                        UserProfileV {
                            skip_next_match: value,
                            ..old(self)@.user(user_id@)
                        },
                    ),
                )
            },
    {
        match self.user_index(user_id) {
            None => Err(DomainError::NotFound),
            Some(k) => {
                proof {
                    self@.lemma_user_ix_unique(user_id@, k as int);
                }
                let mut p = self.users[k].clone();
                p.skip_next_match = value;
                self.replace_profile(k, p);
                Ok(())
            },
        }
    }

    /// Sets the free-form timezone field of an existing profile.
    pub fn set_timezone(&mut self, user_id: &String, timezone: String) -> (r: Result<
        (),
        DomainError,
    >)
        requires
            old(self)@.inv(),
        ensures
            final(self)@.inv(),
            !old(self)@.has_user(user_id@) ==> {
                &&& r matches Err(e) && e == DomainError::NotFound
                &&& final(self)@ == old(self)@
            },
            old(self)@.has_user(user_id@) ==> {
                &&& r matches Ok(u) && u == ()
                &&& final(self)@ == old(self)@.with_users(
                    old(self)@.users.update(
                        old(self)@.user_ix(user_id@),
                        UserProfileV {
                            timezone: timezone@,
                            ..old(self)@.user(user_id@)
                        },
                    ),
                )
            },
    {
        match self.user_index(user_id) {
            None => Err(DomainError::NotFound),
            Some(k) => {
                proof {
                    self@.lemma_user_ix_unique(user_id@, k as int);
                }
                let mut p = self.users[k].clone();
                p.timezone = timezone;
                self.replace_profile(k, p);
                Ok(())
            },
        }
    }

    /// Sets the home-country field of an existing profile.
    pub fn set_country(&mut self, user_id: &String, country: String) -> (r: Result<
        (),
        DomainError,
    >)
        requires
            old(self)@.inv(),
        ensures
            final(self)@.inv(),
            !old(self)@.has_user(user_id@) ==> {
                &&& r matches Err(e) && e == DomainError::NotFound
                &&& final(self)@ == old(self)@
            },
            old(self)@.has_user(user_id@) ==> {
                &&& r matches Ok(u) && u == ()
                &&& final(self)@ == old(self)@.with_users(
                    old(self)@.users.update(
                        old(self)@.user_ix(user_id@),
                        UserProfileV {
                            country: country@,
                            ..old(self)@.user(user_id@)
                        },
                    ),
                )
            },
    {
        match self.user_index(user_id) {
            None => Err(DomainError::NotFound),
            Some(k) => {
                proof {
                    self@.lemma_user_ix_unique(user_id@, k as int);
                }
                let mut p = self.users[k].clone();
                p.country = country;
                self.replace_profile(k, p);
                Ok(())
            },
        }
    }

    /// Sets the bio text of an existing profile.
    pub fn set_bio(&mut self, user_id: &String, bio: String) -> (r: Result<(), DomainError>)
        requires
            old(self)@.inv(),
        ensures
            final(self)@.inv(),
            !old(self)@.has_user(user_id@) ==> {
                &&& r matches Err(e) && e == DomainError::NotFound
                &&& final(self)@ == old(self)@
            },
            old(self)@.has_user(user_id@) ==> {
                &&& r matches Ok(u) && u == ()
                &&& final(self)@ == old(self)@.with_users(
                    old(self)@.users.update(
                        old(self)@.user_ix(user_id@),
                        UserProfileV {
                            bio: bio@,
                            ..old(self)@.user(user_id@)
                        },
                    ),
                )
            },
    {
        match self.user_index(user_id) {
            None => Err(DomainError::NotFound),
            Some(k) => {
                proof {
                    self@.lemma_user_ix_unique(user_id@, k as int);
                }
                let mut p = self.users[k].clone();
                p.bio = bio;
                self.replace_profile(k, p);
                Ok(())
            },
        }
    }

    /// Adds an interest to an existing profile. A duplicate is a no-op that
    /// reports `Ok(false)`; a new interest is appended and raises the score
    /// by the fixed increment, reported as `Ok(true)`.
    pub fn add_interest(&mut self, user_id: &String, interest: String) -> (r: Result<
        bool,
        DomainError,
    >)
        requires
            old(self)@.inv(),
        ensures
            final(self)@.inv(),
            !old(self)@.has_user(user_id@) ==> {
                &&& r matches Err(e) && e == DomainError::NotFound
                &&& final(self)@ == old(self)@
            },
            old(self)@.has_user(user_id@) && old(self)@.user(user_id@).interests.contains(
                interest@,
            ) ==> {
                &&& r matches Ok(added) && !added
                &&& final(self)@ == old(self)@
            },
            old(self)@.has_user(user_id@) && !old(self)@.user(user_id@).interests.contains(
                interest@,
            ) ==> {
                &&& r matches Ok(added) && added
                &&& final(self)@ == old(self)@.with_users(
                    old(self)@.users.update(
                        old(self)@.user_ix(user_id@),
                        UserProfileV {
                            interests: old(self)@.user(user_id@).interests.push(interest@),
                            net_worth: bump(old(self)@.user(user_id@).net_worth, INTEREST_BONUS),
                            ..old(self)@.user(user_id@)
                        },
                    ),
                )
            },
    {
        match self.user_index(user_id) {
            None => Err(DomainError::NotFound),
            Some(k) => {
                proof {
                    self@.lemma_user_ix_unique(user_id@, k as int);
                }
                if contains_string(&self.users[k].interests, &interest) {
                    return Ok(false);
                }
                let ghost uv = self@.user(user_id@);
                let mut p = self.users[k].clone();
                p.interests.push(interest);
                p.net_worth = p.net_worth.saturating_add(INTEREST_BONUS);
                proof {
                    assert(p@.interests =~= uv.interests.push(interest@));
                    assert(p@ == UserProfileV {
                        interests: uv.interests.push(interest@),
                        net_worth: bump(uv.net_worth, INTEREST_BONUS),
                        ..uv
                    });
                }
                self.replace_profile(k, p);
                Ok(true)
            },
        }
    }
}

} // verus!
