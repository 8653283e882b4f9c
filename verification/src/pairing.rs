//! Pairing engine: forming, completing, and cancelling pairings.
//!
//! A pairing joins two distinct users around a chosen country. The engine
//! enforces one active pairing per user: forming fails with
//! `InvalidPairing` on a self-pairing or when either user is already booked.
//! `Active` transitions to `Completed` (appended to the completed log, both
//! participants awarded the completion bonus) or `Cancelled` (dropped from
//! the active set without a log entry); both are terminal.

use vstd::prelude::*;
use vstd::pervasive::VecAdditionalExecFns;

use crate::directory::bump;
use crate::state::{mentions, PingPairState, StateV};
use crate::types::{DomainError, Pairing, PairingStatus, PairingV, UserProfileV};

verus! {

/// Points awarded to each participant of a completed pairing.
pub const COMPLETION_BONUS: u32 = 3;

/// The pairing record formed for two users around a country.
pub open spec fn new_pairing(
    id: u64,
    u1: Seq<char>,
    u2: Seq<char>,
    country: Seq<char>,
    now: u64,
) -> PairingV {
    PairingV {
        id,
        user1: u1,
        user2: u2,
        country,
        date_created: now,
        status: PairingStatus::Active,
    }
}

/// Every profile as it stands after a completion bonus went to the two
/// participants; all other profiles are untouched.
pub open spec fn award_both(
    users: Seq<UserProfileV>,
    u1: Seq<char>,
    u2: Seq<char>,
) -> Seq<UserProfileV> {
    Seq::new(
        users.len(),
        |j: int|
            if users[j].user_id == u1 || users[j].user_id == u2 {
                UserProfileV { net_worth: bump(users[j].net_worth, COMPLETION_BONUS), ..users[j] }
            } else {
                users[j]
            },
    )
}

/// No user id appears in more than one active pairing at any instant:
/// under the state invariant, a user mentioned by one active pairing is
/// mentioned by no other.
pub proof fn lemma_one_active_pairing_per_user(s: StateV, i: int, j: int, uid: Seq<char>)
    requires
        s.inv(),
        0 <= i < s.active_pairings.len(),
        0 <= j < s.active_pairings.len(),
        i != j,
        mentions(s.active_pairings[i], uid),
    ensures
        !mentions(s.active_pairings[j], uid),
{
    let p = s.active_pairings[i];
    let q = s.active_pairings[j];
    if i < j {
        assert(!mentions(q, p.user1) && !mentions(q, p.user2));
    } else {
        assert(!mentions(p, q.user1) && !mentions(p, q.user2));
    }
}

impl PingPairState {
    /// Whether the user currently takes part in any active pairing.
    pub fn is_user_paired(&self, user_id: &String) -> (r: bool)
        ensures
            r == self@.user_in_active(user_id@),
    {
        let mut i: usize = 0;
        while i < self.active_pairings.len()
            invariant
                i <= self.active_pairings.len(),
                forall|j: int|
                    0 <= j < i ==> !mentions(#[trigger] self@.active_pairings[j], user_id@),
            decreases self.active_pairings.len() - i,
        {
            if self.active_pairings[i].user1 == *user_id
                || self.active_pairings[i].user2 == *user_id {
                proof {
                    assert(mentions(self@.active_pairings[i as int], user_id@));
                }
                return true;
            }
            i = i + 1;
        }
        false
    }

    /// Finds the position of the active pairing with id `pairing_id`.
    pub(crate) fn active_index(&self, pairing_id: u64) -> (r: Option<usize>)
        ensures
            match r {
                Some(i) => i < self.active_pairings.len() && self@.active_pairings[i as int].id
                    == pairing_id,
                None => !self@.has_active(pairing_id),
            },
    {
        let mut i: usize = 0;
        while i < self.active_pairings.len()
            invariant
                i <= self.active_pairings.len(),
                forall|j: int| 0 <= j < i ==> (#[trigger] self@.active_pairings[j]).id != pairing_id,
            decreases self.active_pairings.len() - i,
        {
            if self.active_pairings[i].id == pairing_id {
                return Some(i);
            }
            i = i + 1;
        }
        None
    }

    /// Forms an active pairing between two users around a country. Fails
    /// with `InvalidPairing` on a self-pairing or when either user already
    /// holds an active pairing; the id counter running out reports
    /// `InvalidState` (unreachable in practice). On success the new pairing
    /// joins the active set and nothing else changes.
    pub fn create_pairing(
        &mut self,
        user1: &String,
        user2: &String,
        country: &String,
        now: u64,
    ) -> (r: Result<Pairing, DomainError>)
        requires
            old(self)@.inv(),
        ensures
            final(self)@.inv(),
            user1@ == user2@ ==> {
                &&& r matches Err(e) && e == DomainError::InvalidPairing
                &&& final(self)@ == old(self)@
            },
            user1@ != user2@ && (old(self)@.user_in_active(user1@) || old(self)@.user_in_active(
                user2@,
            )) ==> {
                &&& r matches Err(e) && e == DomainError::InvalidPairing
                &&& final(self)@ == old(self)@
            },
            user1@ != user2@ && !old(self)@.user_in_active(user1@) && !old(self)@.user_in_active(
                user2@,
            ) && old(self)@.next_pairing_id == u64::MAX ==> {
                &&& r matches Err(e) && e == DomainError::InvalidState
                &&& final(self)@ == old(self)@
            },
            user1@ != user2@ && !old(self)@.user_in_active(user1@) && !old(self)@.user_in_active(
                user2@,
            ) && old(self)@.next_pairing_id < u64::MAX ==> {
                &&& r matches Ok(p) && p@ == new_pairing(
                    old(self)@.next_pairing_id,
                    user1@,
                    user2@,
                    country@,
                    now,
                )
                &&& final(self)@ == StateV {
                    active_pairings: old(self)@.active_pairings.push(
                        new_pairing(old(self)@.next_pairing_id, user1@, user2@, country@, now),
                    ),
                    next_pairing_id: (old(self)@.next_pairing_id + 1) as u64,
                    ..old(self)@
                }
            },
    {
        if *user1 == *user2 {
            return Err(DomainError::InvalidPairing);
        }
        if self.is_user_paired(user1) || self.is_user_paired(user2) {
            return Err(DomainError::InvalidPairing);
        }
        if self.next_pairing_id == u64::MAX {
            return Err(DomainError::InvalidState);
        }
        let ghost prev = self@;
        let pairing = Pairing {
            id: self.next_pairing_id,
            user1: user1.clone(),
            user2: user2.clone(),
            country: country.clone(),
            date_created: now,
            status: PairingStatus::Active,
        };
        let result = pairing.clone();
        self.active_pairings.push(pairing);
        self.next_pairing_id = self.next_pairing_id + 1;
        proof {
            let pv = new_pairing(prev.next_pairing_id, user1@, user2@, country@, now);
            assert(self@.active_pairings =~= prev.active_pairings.push(pv));
            assert(self@ == StateV {
                active_pairings: prev.active_pairings.push(pv),
                next_pairing_id: (prev.next_pairing_id + 1) as u64,
                ..prev
            });
            let cur = self@.active_pairings;
            assert forall|i: int, j: int|
                #![trigger cur[i], cur[j]]
                0 <= i < j < cur.len() implies {
                let p = cur[i];
                let q = cur[j];
                p.id != q.id && !mentions(q, p.user1) && !mentions(q, p.user2)
            } by {
                if j < prev.active_pairings.len() {
                    assert(prev.active_pairings[i] == cur[i]);
                    assert(prev.active_pairings[j] == cur[j]);
                } else {
                    assert(cur[j] == pv);
                    assert(prev.active_pairings[i] == cur[i]);
                    assert(!mentions(prev.active_pairings[i], user1@));
                    assert(!mentions(prev.active_pairings[i], user2@));
                }
            }
        }
        Ok(result)
    }

    /// Raises both participants' scores by the completion bonus; profiles
    /// of users outside the pairing are untouched.
    fn award_completion(&mut self, u1: &String, u2: &String)
        requires
            old(self)@.inv(),
        ensures
            final(self)@ == old(self)@.with_users(award_both(old(self)@.users, u1@, u2@)),
            final(self)@.inv(),
    {
        let ghost prev = self@;
        let ghost target = award_both(prev.users, u1@, u2@);
        let mut i: usize = 0;
        while i < self.users.len()
            invariant
                i <= self.users.len(),
                self.users.len() == prev.users.len(),
                self@ == prev.with_users(self@.users),
                target == award_both(prev.users, u1@, u2@),
                forall|j: int| 0 <= j < i ==> #[trigger] self@.users[j] == target[j],
                forall|j: int| i <= j < prev.users.len() ==> #[trigger] self@.users[j]
                    == prev.users[j],
            decreases self.users.len() - i,
        {
            if self.users[i].user_id == *u1 || self.users[i].user_id == *u2 {
                let ghost before = self@.users;
                proof {
                    assert(before[i as int] == prev.users[i as int]);
                }
                let mut p = self.users[i].clone();
                proof {
                    assert(p@ == prev.users[i as int]);
                }
                p.net_worth = p.net_worth.saturating_add(COMPLETION_BONUS);
                proof {
                    assert(p@ == UserProfileV {
                        net_worth: bump(prev.users[i as int].net_worth, COMPLETION_BONUS),
                        ..prev.users[i as int]
                    });
                    assert(p@ == target[i as int]);
                }
                self.users.set(i, p);
                proof {
                    assert(self@.users =~= before.update(i as int, p@));
                }
            }
            i = i + 1;
        }
        proof {
            assert(self@.users =~= target);
            assert forall|i: int, j: int| 0 <= i < j < self@.users.len()
                implies #[trigger] self@.users[i].user_id != #[trigger] self@.users[j].user_id by {
                assert(prev.users[i].user_id != prev.users[j].user_id);
            }
        }
    }

    /// Completes the active pairing with the given id: it moves to the
    /// completed log with status `Completed`, leaves the active set, and
    /// both participants receive the completion bonus. An id without an
    /// active pairing — unknown, already completed, or cancelled — fails
    /// with `NotFound` and changes nothing.
    pub fn complete_pairing(&mut self, pairing_id: u64) -> (r: Result<Pairing, DomainError>)
        requires
            old(self)@.inv(),
        ensures
            final(self)@.inv(),
            !old(self)@.has_active(pairing_id) ==> {
                &&& r matches Err(e) && e == DomainError::NotFound
                &&& final(self)@ == old(self)@
            },
            old(self)@.has_active(pairing_id) ==> {
                let k = old(self)@.active_ix(pairing_id);
                let p = old(self)@.active_pairings[k];
                let done = PairingV { status: PairingStatus::Completed, ..p };
                &&& r matches Ok(q) && q@ == done
                &&& final(self)@ == StateV {
                    active_pairings: old(self)@.active_pairings.remove(k),
                    completed_pairings: old(self)@.completed_pairings.push(done),
                    users: award_both(old(self)@.users, p.user1, p.user2),
                    ..old(self)@
                }
            },
    {
        match self.active_index(pairing_id) {
            None => Err(DomainError::NotFound),
            Some(k) => {
                proof {
                    self@.lemma_active_ix_unique(pairing_id, k as int);
                }
                let ghost prev = self@;
                let mut p = self.active_pairings.remove(k);
                p.status = PairingStatus::Completed;
                let result = p.clone();
                let u1 = p.user1.clone();
                let u2 = p.user2.clone();
                self.completed_pairings.push(p);
                proof {
                    assert(self@.active_pairings =~= prev.active_pairings.remove(k as int));
                    assert(self@.completed_pairings =~= prev.completed_pairings.push(
                        PairingV {
                            status: PairingStatus::Completed,
                            ..prev.active_pairings[k as int]
                        },
                    ));
                    let cur = self@.active_pairings;
                    assert forall|i: int, j: int|
                        #![trigger cur[i], cur[j]]
                        0 <= i < j < cur.len() implies {
                        let a = cur[i];
                        let b = cur[j];
                        a.id != b.id && !mentions(b, a.user1) && !mentions(b, a.user2)
                    } by {
                        let oi = if i < k { i } else { i + 1 };
                        let oj = if j < k { j } else { j + 1 };
                        assert(cur[i] == prev.active_pairings[oi]);
                        assert(cur[j] == prev.active_pairings[oj]);
                    }
                }
                self.award_completion(&u1, &u2);
                Ok(result)
            },
        }
    }

    /// Cancels the active pairing with the given id: it leaves the active
    /// set with no log entry and no score change. An id without an active
    /// pairing fails with `NotFound` and changes nothing.
    pub fn cancel_pairing(&mut self, pairing_id: u64) -> (r: Result<(), DomainError>)
        requires
            old(self)@.inv(),
        ensures
            final(self)@.inv(),
            !old(self)@.has_active(pairing_id) ==> {
                &&& r matches Err(e) && e == DomainError::NotFound
                &&& final(self)@ == old(self)@
            },
            old(self)@.has_active(pairing_id) ==> {
                &&& r matches Ok(u) && u == ()
                &&& final(self)@ == StateV {
                    active_pairings: old(self)@.active_pairings.remove(
                        old(self)@.active_ix(pairing_id),
                    ),
                    ..old(self)@
                }
            },
    {
        match self.active_index(pairing_id) {
            None => Err(DomainError::NotFound),
            Some(k) => {
                proof {
                    self@.lemma_active_ix_unique(pairing_id, k as int);
                }
                let ghost prev = self@;
                let _removed = self.active_pairings.remove(k);
                proof {
                    assert(self@.active_pairings =~= prev.active_pairings.remove(k as int));
                    let cur = self@.active_pairings;
                    assert forall|i: int, j: int|
                        #![trigger cur[i], cur[j]]
                        0 <= i < j < cur.len() implies {
                        let a = cur[i];
                        let b = cur[j];
                        a.id != b.id && !mentions(b, a.user1) && !mentions(b, a.user2)
                    } by {
                        let oi = if i < k { i } else { i + 1 };
                        let oj = if j < k { j } else { j + 1 };
                        assert(cur[i] == prev.active_pairings[oi]);
                        assert(cur[j] == prev.active_pairings[oj]);
                    }
                }
                Ok(())
            },
        }
    }
}

} // verus!
