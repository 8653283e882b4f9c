//! Score ledger: applying score events and mapping scores to tiers.
//!
//! Scores ("Strix" points) are unsigned and clamped at a floor of zero; a
//! deduction can never drive a score negative. Tiers are fixed brackets,
//! inclusive at the low end and exclusive at the high end, except the top
//! tier which is unbounded above.

use vstd::prelude::*;

use crate::state::PingPairState;
use crate::types::{DomainError, Tier, UserProfileV};

verus! {

/// The score after applying a signed delta: clamped to zero from below and
/// to the score type's maximum from above.
pub open spec fn apply_delta(score: u32, delta: int) -> u32 {
    if score + delta < 0 {
        0u32
    } else if score + delta > u32::MAX {
        u32::MAX
    } else {
        (score + delta) as u32
    }
}

/// A score event can never leave a score below zero: the floor of the
/// clamp in `apply_delta` is zero, whatever the previous score and delta.
pub proof fn lemma_score_never_negative(score: u32, delta: int)
    ensures
        apply_delta(score, delta) >= 0,
{
}

/// The tier bracket of a score: `[0,10)` Newcomer, `[10,50)` Explorer,
/// `[50,100)` Connector, `[100,200)` Networker, `[200,∞)` GlobalAmbassador.
pub open spec fn spec_tier(score: u32) -> Tier {
    if score < 10 {
        Tier::Newcomer
    } else if score < 50 {
        Tier::Explorer
    } else if score < 100 {
        Tier::Connector
    } else if score < 200 {
        Tier::Networker
    } else {
        Tier::GlobalAmbassador
    }
}

/// The display line of each tier bracket.
pub open spec fn tier_label(t: Tier) -> Seq<char> {
    match t {
        Tier::Newcomer => "**Tier:** Newcomer 🌱 (0-10 points)"@,
        Tier::Explorer => "**Tier:** Explorer 🔍 (10-50 points)"@,
        Tier::Connector => "**Tier:** Connector 🤝 (50-100 points)"@,
        Tier::Networker => "**Tier:** Networker 🌐 (100-200 points)"@,
        Tier::GlobalAmbassador => "**Tier:** Global Ambassador 🌟 (200+ points)"@,
    }
}

/// Maps a score to its tier bracket.
pub fn tier_of(score: u32) -> (t: Tier)
    ensures
        t == spec_tier(score),
{
    if score < 10 {
        Tier::Newcomer
    } else if score < 50 {
        Tier::Explorer
    } else if score < 100 {
        Tier::Connector
    } else if score < 200 {
        Tier::Networker
    } else {
        Tier::GlobalAmbassador
    }
}

/// Renders the tier line shown in a stats reply for a given score.
pub fn calculate_strix_tier(points: u32) -> (r: String)
    ensures
        r@ == tier_label(spec_tier(points)),
{
    if points < 10 {
        "**Tier:** Newcomer 🌱 (0-10 points)".to_owned()
    } else if points < 50 {
        "**Tier:** Explorer 🔍 (10-50 points)".to_owned()
    } else if points < 100 {
        "**Tier:** Connector 🤝 (50-100 points)".to_owned()
    } else if points < 200 {
        "**Tier:** Networker 🌐 (100-200 points)".to_owned()
    } else {
        "**Tier:** Global Ambassador 🌟 (200+ points)".to_owned()
    }
}

impl PingPairState {
    /// Applies a signed score event to a user's score, clamping at a floor
    /// of zero. The score is otherwise exactly the previous score plus the
    /// delta; nothing else of the profile or the state changes.
    pub fn apply_event(&mut self, user_id: &String, delta: i64) -> (r: Result<u32, DomainError>)
        requires
            old(self)@.inv(),
        ensures
            final(self)@.inv(),
            !old(self)@.has_user(user_id@) ==> {
                &&& r matches Err(e) && e == DomainError::NotFound
                &&& final(self)@ == old(self)@
            },
            old(self)@.has_user(user_id@) ==> {
                &&& r matches Ok(n) && n == apply_delta(old(self)@.score_of(user_id@), delta as int)
                &&& final(self)@ == old(self)@.with_users(
                    old(self)@.users.update(
                        old(self)@.user_ix(user_id@),
                        UserProfileV {
                            net_worth: apply_delta(old(self)@.score_of(user_id@), delta as int),
                            ..old(self)@.user(user_id@)
                        },
                    ),
                )
            },
    {
        match self.user_index(user_id) {
            None => Err(DomainError::NotFound),
            Some(k) => {
                proof {
                    self@.lemma_user_ix_unique(user_id@, k as int);
                }
                let mut p = self.users[k].clone();
                let total: i128 = p.net_worth as i128 + delta as i128;
                let new_score: u32 = if total < 0 {
                    0
                } else if total > u32::MAX as i128 {
                    u32::MAX
                } else {
                    total as u32
                };
                p.net_worth = new_score;
                self.replace_profile(k, p);
                Ok(new_score)
            },
        }
    }
}

} // verus!
