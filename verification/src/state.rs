//! The process-wide state container and its invariant.
//!
//! One `PingPairState` value owns the whole entity graph: user profiles, the
//! country catalog, the current and archived sessions, and the active and
//! completed pairings. Every operation of the engine is a method on this
//! container; callers guarantee mutual exclusion at the boundary, so no
//! locking happens here.

use vstd::prelude::*;

use crate::types::{Country, CountryV, Pairing, PairingV, Session, SessionV, UserProfile,
    UserProfileV};

verus! {

/// Starting score granted on profile creation.
pub const STARTING_SCORE: u32 = 5;

/// Mathematical model of the whole state container.
pub ghost struct StateV {
    pub users: Seq<UserProfileV>,
    pub countries: Seq<CountryV>,
    pub current_session: Option<SessionV>,
    pub past_sessions: Seq<SessionV>,
    pub active_pairings: Seq<PairingV>,
    pub completed_pairings: Seq<PairingV>,
    pub next_pairing_id: u64,
    pub next_session_id: u64,
}

/// Whether pairing `p` involves the user with id `uid`.
pub open spec fn mentions(p: PairingV, uid: Seq<char>) -> bool {
    p.user1 == uid || p.user2 == uid
}

/// Whether any pairing among `ps` involves the user with id `uid`.
pub open spec fn seq_mentions(ps: Seq<PairingV>, uid: Seq<char>) -> bool {
    exists|i: int| 0 <= i < ps.len() && mentions(#[trigger] ps[i], uid)
}

impl StateV {
    /// There is a profile whose id is `uid`.
    pub open spec fn has_user(self, uid: Seq<char>) -> bool {
        exists|i: int| 0 <= i < self.users.len() && self.users[i].user_id == uid
    }

    /// Index of the profile with id `uid` (meaningful when `has_user` holds;
    /// unique under the invariant).
    pub open spec fn user_ix(self, uid: Seq<char>) -> int {
        choose|i: int| 0 <= i < self.users.len() && self.users[i].user_id == uid
    }

    /// The profile with id `uid`.
    pub open spec fn user(self, uid: Seq<char>) -> UserProfileV {
        self.users[self.user_ix(uid)]
    }

    /// Current score of the user with id `uid`.
    pub open spec fn score_of(self, uid: Seq<char>) -> u32 {
        self.user(uid).net_worth
    }

    /// The user with id `uid` takes part in some active pairing.
    pub open spec fn user_in_active(self, uid: Seq<char>) -> bool {
        seq_mentions(self.active_pairings, uid)
    }

    /// There is an active pairing with id `pid`.
    pub open spec fn has_active(self, pid: u64) -> bool {
        exists|i: int| 0 <= i < self.active_pairings.len() && self.active_pairings[i].id == pid
    }

    /// Index of the active pairing with id `pid` (meaningful when
    /// `has_active` holds; unique under the invariant).
    pub open spec fn active_ix(self, pid: u64) -> int {
        choose|i: int| 0 <= i < self.active_pairings.len() && self.active_pairings[i].id == pid
    }

    /// How many sessions exist, the current one included.
    pub open spec fn session_count(self) -> int {
        self.past_sessions.len() + (if self.current_session is Some {
            1int
        } else {
            0int
        })
    }

    /// User ids are unique across profiles.
    pub open spec fn users_distinct(self) -> bool {
        forall|i: int, j: int|
            0 <= i < j < self.users.len() ==> #[trigger] self.users[i].user_id != #[trigger] self.users[j].user_id
    }

    /// Country names are unique across the catalog.
    pub open spec fn countries_distinct(self) -> bool {
        forall|i: int, j: int|
            0 <= i < j < self.countries.len() ==> #[trigger] self.countries[i].name != #[trigger] self.countries[j].name
    }

    /// Every pairing in the active set is `Active`, joins two distinct
    /// users, and carries an id below the generation counter.
    pub open spec fn active_each_wf(self) -> bool {
        forall|i: int|
            0 <= i < self.active_pairings.len() ==> {
                let p = #[trigger] self.active_pairings[i];
                p.status is Active && p.user1 != p.user2 && p.id < self.next_pairing_id
            }
    }

    /// Distinct active pairings have distinct ids and no user in common:
    /// no user id appears in more than one active pairing.
    pub open spec fn active_disjoint(self) -> bool {
        forall|i: int, j: int|
            #![trigger self.active_pairings[i], self.active_pairings[j]]
            0 <= i < j < self.active_pairings.len() ==> {
                let p = self.active_pairings[i];
                let q = self.active_pairings[j];
                p.id != q.id && !mentions(q, p.user1) && !mentions(q, p.user2)
            }
    }

    /// Every pairing in the completed log is `Completed`.
    pub open spec fn completed_each_wf(self) -> bool {
        forall|i: int|
            0 <= i < self.completed_pairings.len()
                ==> (#[trigger] self.completed_pairings[i]).status is Completed
    }

    /// Session ids stay below the generation counter.
    pub open spec fn sessions_wf(self) -> bool {
        &&& match self.current_session {
            Some(s) => s.id < self.next_session_id,
            None => true,
        }
        &&& forall|i: int|
            0 <= i < self.past_sessions.len()
                ==> (#[trigger] self.past_sessions[i]).id < self.next_session_id
    }

    /// Invariant of the state container. Constructors establish it and every
    /// operation preserves it.
    pub open spec fn inv(self) -> bool {
        &&& self.users_distinct()
        &&& self.countries_distinct()
        &&& self.active_each_wf()
        &&& self.active_disjoint()
        &&& self.completed_each_wf()
        &&& self.sessions_wf()
    }

    /// If `i` indexes a profile with id `uid`, then `i` is `user_ix(uid)`.
    pub proof fn lemma_user_ix_unique(self, uid: Seq<char>, i: int)
        requires
            self.users_distinct(),
            0 <= i < self.users.len(),
            self.users[i].user_id == uid,
        ensures
            self.user_ix(uid) == i,
            self.has_user(uid),
    {
        assert(self.has_user(uid));
        let j = self.user_ix(uid);
        if i < j {
            assert(self.users[i].user_id != self.users[j].user_id);
        } else if j < i {
            assert(self.users[j].user_id != self.users[i].user_id);
        }
    }

    /// If `i` indexes an active pairing with id `pid`, then `i` is
    /// `active_ix(pid)`.
    pub proof fn lemma_active_ix_unique(self, pid: u64, i: int)
        requires
            self.active_disjoint(),
            0 <= i < self.active_pairings.len(),
            self.active_pairings[i].id == pid,
        ensures
            self.active_ix(pid) == i,
            self.has_active(pid),
    {
        assert(self.has_active(pid));
        let j = self.active_ix(pid);
        if i < j {
            assert(self.active_pairings[i].id != self.active_pairings[j].id);
        } else if j < i {
            assert(self.active_pairings[j].id != self.active_pairings[i].id);
        }
    }
}

/// The state of a fresh service instance: no entities, counters at one.
pub open spec fn initial_state() -> StateV {
    StateV {
        users: Seq::empty(),
        countries: Seq::empty(),
        current_session: None,
        past_sessions: Seq::empty(),
        active_pairings: Seq::empty(),
        completed_pairings: Seq::empty(),
        next_pairing_id: 1,
        next_session_id: 1,
    }
}

/// The state container. See the module documentation.
#[derive(Debug)]
pub struct PingPairState {
    pub users: Vec<UserProfile>,
    pub countries: Vec<Country>,
    pub current_session: Option<Session>,
    pub past_sessions: Vec<Session>,
    pub active_pairings: Vec<Pairing>,
    pub completed_pairings: Vec<Pairing>,
    pub next_pairing_id: u64,
    pub next_session_id: u64,
}

impl View for PingPairState {
    type V = StateV;

    open spec fn view(&self) -> StateV {
        StateV {
            users: self.users.deep_view(),
            countries: self.countries.deep_view(),
            current_session: self.current_session.deep_view(),
            past_sessions: self.past_sessions.deep_view(),
            active_pairings: self.active_pairings.deep_view(),
            completed_pairings: self.completed_pairings.deep_view(),
            next_pairing_id: self.next_pairing_id,
            next_session_id: self.next_session_id,
        }
    }
}

impl PingPairState {
    /// Creates an empty state container.
    pub fn new() -> (s: Self)
        ensures
            s@ == initial_state(),
            s@.inv(),
    {
        let s = PingPairState {
            users: Vec::new(),
            countries: Vec::new(),
            current_session: None,
            past_sessions: Vec::new(),
            active_pairings: Vec::new(),
            completed_pairings: Vec::new(),
            next_pairing_id: 1,
            next_session_id: 1,
        };
        proof {
            assert(s@.users =~= initial_state().users);
            assert(s@.countries =~= initial_state().countries);
            assert(s@.past_sessions =~= initial_state().past_sessions);
            assert(s@.active_pairings =~= initial_state().active_pairings);
            assert(s@.completed_pairings =~= initial_state().completed_pairings);
        }
        s
    }

    /// Finds the position of the profile with id `user_id`, if any.
    pub(crate) fn user_index(&self, user_id: &String) -> (r: Option<usize>)
        ensures
            match r {
                Some(i) => i < self.users.len() && self@.users[i as int].user_id == user_id@,
                None => !self@.has_user(user_id@),
            },
    {
        let mut i: usize = 0;
        while i < self.users.len()
            invariant
                i <= self.users.len(),
                forall|j: int| 0 <= j < i ==> #[trigger] self@.users[j].user_id != user_id@,
            decreases self.users.len() - i,
        {
            if self.users[i].user_id == *user_id {
                return Some(i);
            }
            i = i + 1;
        }
        None
    }
}

} // verus!
