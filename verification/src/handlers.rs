//! Command layer: the operation surface a chat dispatcher calls into.
//!
//! Each handler runs one engine operation and renders its outcome as
//! markdown text. A handler other than `start` leaves the state unchanged
//! on an unknown user and answers with a registration prompt; `start`
//! itself registers a new user or re-activates a returning one, preserving
//! score and history. What every handler does to the state and returns is
//! written down once, in a `post_*` predicate, shared with the dispatcher.

use vstd::prelude::*;
use vstd::string::StringExecFns;

use crate::directory::{bump, new_profile, INTEREST_BONUS};
use crate::score::{spec_tier, tier_label};
use crate::state::{PingPairState, StateV};
use crate::text::{count_mentions, dec_rep, joined};
use crate::types::{Context, Message, UserProfileV};

verus! {

/// The greeting shown on first contact.
pub open spec fn welcome_text() -> Seq<char> {
    r#"
# Welcome to PingPair! 🌍✨

Connect with amazing people from around the world through themed, twice-weekly meetups!

**How it works:**
- Every 3-4 days, you'll receive a "Ping Time" message
- We'll spotlight a global location with fun facts
- You'll be matched with someone who shares your interests
- Chat via video and grow your international network!

### Commands:
- `/pingpair start` - Begin receiving match pings
- `/pingpair profile` - Update your profile
- `/pingpair skip` - Skip a match cycle
- `/pingpair stats` - Check your Strix network score
- `/pingpair timezone` - Set your timezone

Ready to make global connections? Type `/pingpair start` to begin!
    "#@
}

/// The command overview.
pub open spec fn help_text() -> Seq<char> {
    r#"
# PingPair Help Menu 🌍✨

- `/pingpair start` - Begin receiving match pings
- `/pingpair profile` - View and update your profile
- `/pingpair skip` - Skip a match cycle
- `/pingpair stats` - Check your Strix network score
- `/pingpair timezone` - Set your timezone
    "#@
}

/// The fallback reply to an ordinary message.
pub open spec fn default_reply_text() -> Seq<char> {
    "Hello! Use `/pingpair` to see available commands."@
}

/// The reply to a command the bot does not own.
pub open spec fn unknown_command_text() -> Seq<char> {
    "Unknown command. Try `/pingpair` for help."@
}

/// The reply to an unknown subcommand.
pub open spec fn unknown_subcommand_text() -> Seq<char> {
    "Unknown subcommand. Try `/pingpair` for help."@
}

/// The prompt shown when an operation needs a registered user.
pub open spec fn not_registered_text() -> Seq<char> {
    "You're not registered yet. Type `/pingpair start` to join PingPair!"@
}

/// The first half of the greeting to a newly registered user.
pub open spec fn start_new_head() -> Seq<char> {
    r#"
# Welcome to PingPair! 🌍✨

Great news, "#@
}

/// The second half of the greeting to a newly registered user.
pub open spec fn start_new_tail() -> Seq<char> {
    r#"! You've successfully joined PingPair and earned 5 Strix points!

You'll receive your first Ping notification in the next matching cycle.

### Next Step: Complete Your Profile

Tell us about yourself! This helps create better matches and more meaningful connections.

Type `/pingpair profile` to set up your profile now!
    "#@
}

/// The greeting to a newly registered user, by name.
pub open spec fn start_new_text(username: Seq<char>) -> Seq<char> {
    start_new_head() + username + start_new_tail()
}

/// The greeting to a returning user.
pub open spec fn welcome_back_text() -> Seq<char> {
    "Welcome back to PingPair! You're now active and will receive match notifications. Use /pingpair profile to update your profile."@
}

/// The confirmation that the next cycle is skipped.
pub open spec fn skip_text() -> Seq<char> {
    r#"
# Cycle Skipped ⏭️

You'll skip the next matching cycle. You'll be automatically included in future cycles.

To rejoin sooner, just type `/pingpair start` again!
    "#@
}

/// The stats report: score, completed connections, activity, tier line.
pub open spec fn stats_text(score: u32, connections: int, active: bool) -> Seq<char> {
    "\n# Your PingPair Stats 📊\n\n### Strix Network Score: "@ + dec_rep(score as nat)
        + " ⭐\n\n**Match History:** "@ + dec_rep(connections as nat)
        + " connections made\n**Status:** "@ + (if active {
        "Active"@
    } else {
        "Inactive"@
    }) + "\n**Last Match:** None yet\n\n"@ + tier_label(spec_tier(score))
        + "\n\nKeep making connections to increase your score!\n    "@
}

/// The confirmation of a timezone update.
pub open spec fn tz_set_text(tz: Seq<char>) -> Seq<char> {
    "\n# Timezone Updated ✅\n\nYour timezone has been set to: "@ + tz
        + "\n\nThis will help us match you with people in compatible time zones!\n    "@
}

/// The display of the current timezone.
pub open spec fn tz_show_text(tz: Seq<char>) -> Seq<char> {
    "\n# Your Timezone\n\nYour current timezone is set to: "@ + tz
        + "\n\nTo update your timezone, type `/pingpair timezone [your timezone]`\nExample: `/pingpair timezone UTC+3`\n    "@
}

/// The profile display: timezone, interests, score, connection count.
pub open spec fn profile_display_text(
    tz: Seq<char>,
    interests: Seq<char>,
    score: u32,
    connections: int,
) -> Seq<char> {
    "🌟 **Your PingPair Profile**\n\nTimezone: "@ + tz + "\nInterests: "@ + interests
        + "\nStrix Points: "@ + dec_rep(score as nat) + "\nMatches: "@ + dec_rep(
        connections as nat,
    ) + "\n\nUse /pingpair profile add [interest] to add interests"@
}

/// The confirmation that an interest was recorded.
pub open spec fn interest_added_text(interest: Seq<char>, score: u32) -> Seq<char> {
    "Added \""@ + interest + "\" to your interests! You now have "@ + dec_rep(score as nat)
        + " Strix Points."@
}

/// The hint shown for an unrecognized profile subcommand.
pub open spec fn profile_help_text() -> Seq<char> {
    "To update your profile, use:\n/pingpair profile add [interest]"@
}

/// What `start` does: a new id is registered with the starting profile, a
/// known one is re-activated with score and history untouched.
pub open spec fn post_start(
    pre: StateV,
    post: StateV,
    out: Seq<char>,
    uid: Seq<char>,
    uname: Seq<char>,
    now: u64,
) -> bool {
    if pre.has_user(uid) {
        &&& post == pre.with_users(
            pre.users.update(
                pre.user_ix(uid),
                UserProfileV { is_active: true, ..pre.user(uid) },
            ),
        )
        &&& out == welcome_back_text()
    } else {
        &&& post == pre.with_users(pre.users.push(new_profile(uid, uname, now)))
        &&& out == start_new_text(uname)
    }
}

/// What `skip` does: sets the one-shot skip flag of a known user.
pub open spec fn post_skip(pre: StateV, post: StateV, out: Seq<char>, uid: Seq<char>) -> bool {
    if pre.has_user(uid) {
        &&& post == pre.with_users(
            pre.users.update(
                pre.user_ix(uid),
                UserProfileV { skip_next_match: true, ..pre.user(uid) },
            ),
        )
        &&& out == skip_text()
    } else {
        &&& post == pre
        &&& out == not_registered_text()
    }
}

/// What `stats` returns: a report over the user's score, completed
/// pairings, activity and tier. The state never changes.
pub open spec fn stats_out(pre: StateV, out: Seq<char>, uid: Seq<char>) -> bool {
    if pre.has_user(uid) {
        out == stats_text(
            pre.score_of(uid),
            count_mentions(pre.completed_pairings, uid),
            pre.user(uid).is_active,
        )
    } else {
        out == not_registered_text()
    }
}

/// What `timezone` does: with words after the subcommand it stores them,
/// space-joined, as the user's timezone; without any it shows the current
/// one.
pub open spec fn post_timezone(
    pre: StateV,
    post: StateV,
    out: Seq<char>,
    uid: Seq<char>,
    args: Seq<Seq<char>>,
) -> bool {
    if !pre.has_user(uid) {
        &&& post == pre
        &&& out == not_registered_text()
    } else if args.len() > 1 {
        let tz = joined(args, " "@, 1);
        &&& post == pre.with_users(
            pre.users.update(pre.user_ix(uid), UserProfileV { timezone: tz, ..pre.user(uid) }),
        )
        &&& out == tz_set_text(tz)
    } else {
        &&& post == pre
        &&& out == tz_show_text(pre.user(uid).timezone)
    }
}

/// What `profile` does: `add` with words records the space-joined words as
/// one interest — a new one also earns the interest bonus, a duplicate
/// changes nothing — any other argument shows the usage hint, and no
/// argument displays the profile.
pub open spec fn post_profile(
    pre: StateV,
    post: StateV,
    out: Seq<char>,
    uid: Seq<char>,
    args: Seq<Seq<char>>,
) -> bool {
    if !pre.has_user(uid) {
        &&& post == pre
        &&& out == not_registered_text()
    } else {
        let u = pre.user(uid);
        if args.len() > 2 && args[1] == "add"@ {
            let interest = joined(args, " "@, 2);
            if u.interests.contains(interest) {
                &&& post == pre
                &&& out == interest_added_text(interest, u.net_worth)
            } else {
                &&& post == pre.with_users(
                    pre.users.update(
                        pre.user_ix(uid),
                        UserProfileV {
                            interests: u.interests.push(interest),
                            net_worth: bump(u.net_worth, INTEREST_BONUS),
                            ..u
                        },
                    ),
                )
                &&& out == interest_added_text(interest, bump(u.net_worth, INTEREST_BONUS))
            }
        } else if args.len() > 1 {
            &&& post == pre
            &&& out == profile_help_text()
        } else {
            &&& post == pre
            &&& out == profile_display_text(
                u.timezone,
                joined(u.interests, ", "@, 0),
                u.net_worth,
                count_mentions(pre.completed_pairings, uid),
            )
        }
    }
}

/// Renders the greeting shown on first contact.
pub fn get_welcome_message() -> (r: String)
    ensures
        r@ == welcome_text(),
{
    r#"
# Welcome to PingPair! 🌍✨

Connect with amazing people from around the world through themed, twice-weekly meetups!

**How it works:**
- Every 3-4 days, you'll receive a "Ping Time" message
- We'll spotlight a global location with fun facts
- You'll be matched with someone who shares your interests
- Chat via video and grow your international network!

### Commands:
- `/pingpair start` - Begin receiving match pings
- `/pingpair profile` - Update your profile
- `/pingpair skip` - Skip a match cycle
- `/pingpair stats` - Check your Strix network score
- `/pingpair timezone` - Set your timezone

Ready to make global connections? Type `/pingpair start` to begin!
    "#.to_owned()
}

/// Renders the command overview.
pub fn get_help_menu() -> (r: String)
    ensures
        r@ == help_text(),
{
    r#"
# PingPair Help Menu 🌍✨

- `/pingpair start` - Begin receiving match pings
- `/pingpair profile` - View and update your profile
- `/pingpair skip` - Skip a match cycle
- `/pingpair stats` - Check your Strix network score
- `/pingpair timezone` - Set your timezone
    "#.to_owned()
}

/// Answers an ordinary chat message: a greeting gets the welcome text,
/// anything else a pointer to the command menu.
pub fn handle_message(message: Message, _context: Context) -> (r: String)
    ensures
        (match message.text {
            Some(t) => if t@ == "hi"@ || t@ == "hello"@ {
                r@ == welcome_text()
            } else {
                r@ == default_reply_text()
            },
            None => r@ == default_reply_text(),
        }),
{
    match &message.text {
        Some(t) => {
            if *t == "hi".to_owned() || *t == "hello".to_owned() {
                get_welcome_message()
            } else {
                "Hello! Use `/pingpair` to see available commands.".to_owned()
            }
        },
        None => "Hello! Use `/pingpair` to see available commands.".to_owned(),
    }
}

/// The full ping-time announcement for each built-in spotlight: Kenya,
/// India, or Brazil.
pub open spec fn ping_text(i: int) -> Seq<char> {
    if i == 0 {
        r#"
# It's Ping Time! 🌍

### Global Spotlight: Kenya 🇰🇪

**Fun Facts:**
- Home to over 40 ethnic groups
- Birthplace of marathon champions
- Famous for wildlife safaris

Would you love to meet someone from Kenya or someone interested in exploring Kenya?

Reply with `yes` to be matched with someone for a cultural exchange!
    "#@
    } else if i == 1 {
        r#"
# It's Ping Time! 🌍

### Global Spotlight: India 🇮🇳

**Fun Facts:**
- World's largest democracy
- Home to Bollywood
- Known for diverse cuisine and spices

Would you love to meet someone from India or someone interested in exploring India?

Reply with `yes` to be matched with someone for a cultural exchange!
    "#@
    } else {
        r#"
# It's Ping Time! 🌍

### Global Spotlight: Brazil 🇧🇷

**Fun Facts:**
- Famous for Carnival and samba
- Home to most of the Amazon rainforest
- Soccer is a national passion

Would you love to meet someone from Brazil or someone interested in exploring Brazil?

Reply with `yes` to be matched with someone for a cultural exchange!
    "#@
    }
}

/// The address of the video room for a pairing formed at the given time.
pub open spec fn meeting_link_text(now: u64) -> Seq<char> {
    "https://meet.jit.si/pingpair-"@ + dec_rep(now as nat)
}

/// Renders the ping-time announcement for one of the three built-in
/// spotlights, drawn by the seed.
pub fn simulate_ping_time(seed: u64) -> (r: String)
    ensures
        r@ == ping_text((seed % 3) as int),
{
    let i = (seed % 3) as usize;
    if i == 0 {
        r#"
# It's Ping Time! 🌍

### Global Spotlight: Kenya 🇰🇪

**Fun Facts:**
- Home to over 40 ethnic groups
- Birthplace of marathon champions
- Famous for wildlife safaris

Would you love to meet someone from Kenya or someone interested in exploring Kenya?

Reply with `yes` to be matched with someone for a cultural exchange!
    "#.to_owned()
    } else if i == 1 {
        r#"
# It's Ping Time! 🌍

### Global Spotlight: India 🇮🇳

**Fun Facts:**
- World's largest democracy
- Home to Bollywood
- Known for diverse cuisine and spices

Would you love to meet someone from India or someone interested in exploring India?

Reply with `yes` to be matched with someone for a cultural exchange!
    "#.to_owned()
    } else {
        r#"
# It's Ping Time! 🌍

### Global Spotlight: Brazil 🇧🇷

**Fun Facts:**
- Famous for Carnival and samba
- Home to most of the Amazon rainforest
- Soccer is a national passion

Would you love to meet someone from Brazil or someone interested in exploring Brazil?

Reply with `yes` to be matched with someone for a cultural exchange!
    "#.to_owned()
    }
}

/// Builds the video-chat address for a pairing formed at the given time.
pub fn generate_meeting_link(now: u64) -> (r: String)
    ensures
        r@ == meeting_link_text(now),
{
    let mut s = "https://meet.jit.si/pingpair-".to_owned();
    let id = crate::text::u64_to_dec(now);
    s.append(id.as_str());
    s
}

impl PingPairState {
    /// Registers the user, or re-activates a returning one with score and
    /// history untouched, and greets accordingly.
    pub fn handle_start_command(&mut self, user_id: String, username: String, now: u64) -> (r:
        String)
        requires
            old(self)@.inv(),
        ensures
            final(self)@.inv(),
            post_start(old(self)@, final(self)@, r@, user_id@, username@, now),
    {
        if self.user_index(&user_id).is_some() {
            let res = self.reactivate(&user_id);
            proof {
                assert(res is Ok);
            }
            "Welcome back to PingPair! You're now active and will receive match notifications. Use /pingpair profile to update your profile.".to_owned()
        } else {
            let res = self.create_user(user_id, username.clone(), now);
            proof {
                assert(res is Ok);
            }
            let mut s = r#"
# Welcome to PingPair! 🌍✨

Great news, "#.to_owned();
            s.append(username.as_str());
            s.append(
                r#"! You've successfully joined PingPair and earned 5 Strix points!

You'll receive your first Ping notification in the next matching cycle.

### Next Step: Complete Your Profile

Tell us about yourself! This helps create better matches and more meaningful connections.

Type `/pingpair profile` to set up your profile now!
    "#,
            );
            s
        }
    }

    /// Marks the user as skipping the next cycle.
    pub fn handle_skip_command(&mut self, user_id: String, _username: String) -> (r: String)
        requires
            old(self)@.inv(),
        ensures
            final(self)@.inv(),
            post_skip(old(self)@, final(self)@, r@, user_id@),
    {
        match self.set_skip_next(&user_id, true) {
            Ok(_) => {
                r#"
# Cycle Skipped ⏭️

You'll skip the next matching cycle. You'll be automatically included in future cycles.

To rejoin sooner, just type `/pingpair start` again!
    "#.to_owned()
            },
            Err(_) => {
                "You're not registered yet. Type `/pingpair start` to join PingPair!".to_owned()
            },
        }
    }

    /// Reports the user's score, completed connections, activity, and tier.
    pub fn handle_stats_command(&self, user_id: String, _username: String) -> (r: String)
        requires
            self@.inv(),
        ensures
            stats_out(self@, r@, user_id@),
    {
        match self.get_user(&user_id) {
            None => {
                "You're not registered yet. Type `/pingpair start` to join PingPair!".to_owned()
            },
            Some(profile) => {
                let connections = self.completed_count(&user_id);
                let mut s = "\n# Your PingPair Stats 📊\n\n### Strix Network Score: ".to_owned();
                let score_str = crate::text::u32_to_dec(profile.net_worth);
                s.append(score_str.as_str());
                s.append(" ⭐\n\n**Match History:** ");
                let conn_str = crate::text::u64_to_dec(connections as u64);
                s.append(conn_str.as_str());
                s.append(" connections made\n**Status:** ");
                if profile.is_active {
                    s.append("Active");
                } else {
                    s.append("Inactive");
                }
                s.append("\n**Last Match:** None yet\n\n");
                let tier = crate::score::calculate_strix_tier(profile.net_worth);
                s.append(tier.as_str());
                s.append("\n\nKeep making connections to increase your score!\n    ");
                s
            },
        }
    }

    /// Stores a new timezone, or shows the current one when the command
    /// carries no words after the subcommand.
    pub fn handle_timezone_command(
        &mut self,
        user_id: String,
        _username: String,
        args: Vec<String>,
    ) -> (r: String)
        requires
            old(self)@.inv(),
        ensures
            final(self)@.inv(),
            post_timezone(old(self)@, final(self)@, r@, user_id@, args.deep_view()),
    {
        if self.user_index(&user_id).is_none() {
            return "You're not registered yet. Type `/pingpair start` to join PingPair!"
                .to_owned();
        }
        if args.len() > 1 {
            let tz = crate::text::join_from(&args, 1, " ");
            let res = self.set_timezone(&user_id, tz.clone());
            proof {
                assert(res is Ok);
            }
            let mut s = "\n# Timezone Updated ✅\n\nYour timezone has been set to: ".to_owned();
            s.append(tz.as_str());
            s.append("\n\nThis will help us match you with people in compatible time zones!\n    ");
            s
        } else {
            let profile = self.get_user(&user_id);
            let p = match profile {
                Some(p) => p,
                None => {
                    proof {
                        assert(false);
                    }
                    vstd::pervasive::unreached()
                },
            };
            let mut s = "\n# Your Timezone\n\nYour current timezone is set to: ".to_owned();
            s.append(p.timezone.as_str());
            s.append(
                "\n\nTo update your timezone, type `/pingpair timezone [your timezone]`\nExample: `/pingpair timezone UTC+3`\n    ",
            );
            s
        }
    }

    /// Records a new interest (`add` plus words) or displays the profile.
    pub fn handle_profile_command(
        &mut self,
        user_id: String,
        _username: String,
        args: Vec<String>,
    ) -> (r: String)
        requires
            old(self)@.inv(),
        ensures
            final(self)@.inv(),
            post_profile(old(self)@, final(self)@, r@, user_id@, args.deep_view()),
    {
        let k = match self.user_index(&user_id) {
            None => {
                return "You're not registered yet. Type `/pingpair start` to join PingPair!"
                    .to_owned();
            },
            Some(k) => k,
        };
        proof {
            self@.lemma_user_ix_unique(user_id@, k as int);
        }
        if args.len() > 2 && args[1] == "add".to_owned() {
            let interest = crate::text::join_from(&args, 2, " ");
            let added = self.add_interest(&user_id, interest.clone());
            proof {
                assert(added is Ok);
            }
            proof {
                assert(self@.users[k as int].user_id == user_id@);
                assert(self@.has_user(user_id@));
            }
            let score = match self.user_index(&user_id) {
                Some(k2) => {
                    proof {
                        self@.lemma_user_ix_unique(user_id@, k2 as int);
                    }
                    self.users[k2].net_worth
                },
                None => {
                    proof {
                        assert(false);
                    }
                    vstd::pervasive::unreached()
                },
            };
            let mut s = "Added \"".to_owned();
            s.append(interest.as_str());
            s.append("\" to your interests! You now have ");
            let score_str = crate::text::u32_to_dec(score);
            s.append(score_str.as_str());
            s.append(" Strix Points.");
            s
        } else if args.len() > 1 {
            "To update your profile, use:\n/pingpair profile add [interest]".to_owned()
        } else {
            let profile = self.get_user(&user_id);
            let p = match profile {
                Some(p) => p,
                None => {
                    proof {
                        assert(false);
                    }
                    vstd::pervasive::unreached()
                },
            };
            let connections = self.completed_count(&user_id);
            let mut s = "🌟 **Your PingPair Profile**\n\nTimezone: ".to_owned();
            s.append(p.timezone.as_str());
            s.append("\nInterests: ");
            let interests = crate::text::join_from(&p.interests, 0, ", ");
            s.append(interests.as_str());
            s.append("\nStrix Points: ");
            let score_str = crate::text::u32_to_dec(p.net_worth);
            s.append(score_str.as_str());
            s.append("\nMatches: ");
            let conn_str = crate::text::u64_to_dec(connections as u64);
            s.append(conn_str.as_str());
            s.append("\n\nUse /pingpair profile add [interest] to add interests");
            s
        }
    }

    /// Dispatches one bot command to its handler: `start`, `profile`,
    /// `skip`, `stats`, or `timezone`, with the help menu for an empty
    /// argument list and a hint for anything unrecognized.
    pub fn handle_command(
        &mut self,
        message: Message,
        _context: Context,
        command: String,
        args: Vec<String>,
        now: u64,
    ) -> (r: String)
        requires
            old(self)@.inv(),
        ensures
            final(self)@.inv(),
            command@ != "pingpair"@ ==> final(self)@ == old(self)@ && r@
                == unknown_command_text(),
            command@ == "pingpair"@ && args.deep_view().len() == 0 ==> final(self)@ == old(
                self,
            )@ && r@ == help_text(),
            command@ == "pingpair"@ && args.deep_view().len() > 0 ==> {
                let sub = args.deep_view()[0];
                let uid = message.sender.id@;
                let uname = message.sender.username@;
                &&& sub == "start"@ ==> post_start(old(self)@, final(self)@, r@, uid, uname, now)
                &&& sub == "profile"@ ==> post_profile(
                    old(self)@,
                    final(self)@,
                    r@,
                    uid,
                    args.deep_view(),
                )
                &&& sub == "skip"@ ==> post_skip(old(self)@, final(self)@, r@, uid)
                &&& sub == "stats"@ ==> final(self)@ == old(self)@ && stats_out(old(self)@, r@, uid)
                &&& sub == "timezone"@ ==> post_timezone(
                    old(self)@,
                    final(self)@,
                    r@,
                    uid,
                    args.deep_view(),
                )
                &&& (sub != "start"@ && sub != "profile"@ && sub != "skip"@ && sub != "stats"@
                    && sub != "timezone"@) ==> final(self)@ == old(self)@ && r@
                    == unknown_subcommand_text()
            },
    {
        proof {
            reveal_strlit("start");
            reveal_strlit("profile");
            reveal_strlit("skip");
            reveal_strlit("stats");
            reveal_strlit("timezone");
            assert("start"@.len() == 5 && "profile"@.len() == 7 && "skip"@.len() == 4
                && "stats"@.len() == 5 && "timezone"@.len() == 8);
            assert("start"@[3] == 'r' && "stats"@[3] == 't');
            assert("start"@ != "profile"@ && "start"@ != "skip"@ && "start"@ != "stats"@
                && "start"@ != "timezone"@);
            assert("profile"@ != "skip"@ && "profile"@ != "stats"@ && "profile"@
                != "timezone"@);
            assert("skip"@ != "stats"@ && "skip"@ != "timezone"@);
            assert("stats"@ != "timezone"@);
        }
        let user_id = message.sender.id;
        let username = message.sender.username;

        if !(command == "pingpair".to_owned()) {
            return "Unknown command. Try `/pingpair` for help.".to_owned();
        }
        if args.len() == 0 {
            return get_help_menu();
        }
        let sub = args[0].clone();
        if sub == "start".to_owned() {
            self.handle_start_command(user_id, username, now)
        } else if sub == "profile".to_owned() {
            self.handle_profile_command(user_id, username, args)
        } else if sub == "skip".to_owned() {
            self.handle_skip_command(user_id, username)
        } else if sub == "stats".to_owned() {
            self.handle_stats_command(user_id, username)
        } else if sub == "timezone".to_owned() {
            self.handle_timezone_command(user_id, username, args)
        } else {
            "Unknown subcommand. Try `/pingpair` for help.".to_owned()
        }
    }
}

} // verus!
