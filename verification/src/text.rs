//! Small verified text utilities used by the command layer: decimal
//! rendering of counters and scores, joining words with a separator, and
//! counting the completed pairings of a user.

use vstd::prelude::*;
use vstd::string::StringExecFns;

use crate::state::{mentions, PingPairState};
use crate::types::PairingV;

verus! {

/// The characters of one decimal digit.
pub open spec fn digit_seq(d: nat) -> Seq<char> {
    if d == 0 {
        "0"@
    } else if d == 1 {
        "1"@
    } else if d == 2 {
        "2"@
    } else if d == 3 {
        "3"@
    } else if d == 4 {
        "4"@
    } else if d == 5 {
        "5"@
    } else if d == 6 {
        "6"@
    } else if d == 7 {
        "7"@
    } else if d == 8 {
        "8"@
    } else {
        "9"@
    }
}

/// The decimal rendering of a number, most significant digit first.
pub open spec fn dec_rep(n: nat) -> Seq<char>
    decreases n,
{
    if n < 10 {
        digit_seq(n)
    } else {
        dec_rep(n / 10) + digit_seq(n % 10)
    }
}

/// The parts from position `from` on, joined by `sep`.
pub open spec fn joined(parts: Seq<Seq<char>>, sep: Seq<char>, from: int) -> Seq<char>
    decreases parts.len() - from,
{
    if from < 0 || from >= parts.len() {
        Seq::empty()
    } else if from == parts.len() - 1 {
        parts[from]
    } else {
        parts[from] + sep + joined(parts, sep, from + 1)
    }
}

/// How many of the given pairings involve the user with id `uid`.
pub open spec fn count_mentions(ps: Seq<PairingV>, uid: Seq<char>) -> int
    decreases ps.len(),
{
    if ps.len() == 0 {
        0
    } else {
        count_mentions(ps.drop_last(), uid) + (if mentions(ps.last(), uid) {
            1int
        } else {
            0int
        })
    }
}

/// Renders one digit.
fn digit_str(d: u64) -> (r: &'static str)
    requires
        d < 10,
    ensures
        r@ == digit_seq(d as nat),
{
    if d == 0 {
        "0"
    } else if d == 1 {
        "1"
    } else if d == 2 {
        "2"
    } else if d == 3 {
        "3"
    } else if d == 4 {
        "4"
    } else if d == 5 {
        "5"
    } else if d == 6 {
        "6"
    } else if d == 7 {
        "7"
    } else if d == 8 {
        "8"
    } else {
        "9"
    }
}

/// Renders a number in decimal.
pub fn u64_to_dec(n: u64) -> (r: String)
    ensures
        r@ == dec_rep(n as nat),
    decreases n,
{
    if n < 10 {
        digit_str(n).to_owned()
    } else {
        let mut s = u64_to_dec(n / 10);
        s.append(digit_str(n % 10));
        s
    }
}

/// Renders a score in decimal.
pub fn u32_to_dec(n: u32) -> (r: String)
    ensures
        r@ == dec_rep(n as nat),
{
    u64_to_dec(n as u64)
}

/// Joins the parts from position `from` on with the given separator.
pub fn join_from(parts: &Vec<String>, from: usize, sep: &str) -> (r: String)
    ensures
        r@ == joined(parts.deep_view(), sep@, from as int),
    decreases parts.len() - from,
{
    if from >= parts.len() {
        proof {
            reveal_strlit("");
        }
        "".to_owned()
    } else if from == parts.len() - 1 {
        parts[from].clone()
    } else {
        let mut s = parts[from].clone();
        s.append(sep);
        let rest = join_from(parts, from + 1, sep);
        s.append(rest.as_str());
        s
    }
}

impl PingPairState {
    /// How many completed pairings involve the given user.
    pub fn completed_count(&self, user_id: &String) -> (r: usize)
        ensures
            r == count_mentions(self@.completed_pairings, user_id@),
    {
        let ghost ps = self@.completed_pairings;
        let mut count: usize = 0;
        let mut i: usize = 0;
        proof {
            assert(ps.take(0) =~= Seq::<PairingV>::empty());
        }
        while i < self.completed_pairings.len()
            invariant
                i <= self.completed_pairings.len(),
                ps == self@.completed_pairings,
                count <= i,
                count == count_mentions(ps.take(i as int), user_id@),
            decreases self.completed_pairings.len() - i,
        {
            let ghost taken = ps.take(i as int);
            if self.completed_pairings[i].user1 == *user_id
                || self.completed_pairings[i].user2 == *user_id {
                count = count + 1;
            }
            proof {
                assert(ps.take(i + 1) =~= taken.push(ps[i as int]));
                assert(ps.take(i + 1).drop_last() =~= taken);
                assert(ps.take(i + 1).last() == ps[i as int]);
            }
            i = i + 1;
        }
        proof {
            assert(ps.take(ps.len() as int) =~= ps);
        }
        count
    }
}

} // verus!
