//! Data model of the pairing service: user profiles, countries, pairings,
//! sessions, and the small auxiliary records the command layer exchanges.
//!
//! Every executable type has a mathematical view (`BadgeV`, `CountryV`, ...)
//! whose fields are sequences and plain integers; contracts throughout the
//! crate speak over those views.

use vstd::prelude::*;

verus! {

/// Error taxonomy of the core. Every operation reports one of these specific
/// kinds, never a generic failure.
#[derive(Clone, Copy, Debug, PartialEq, Eq, Structural)]
pub enum DomainError {
    /// Unknown user, pairing, or session id.
    NotFound,
    /// Duplicate creation where policy forbids it.
    AlreadyExists,
    /// Self-pairing or double-booking.
    InvalidPairing,
    /// An operation on an entity in a terminal state.
    InvalidState,
}

/// Lifecycle of a pairing: `Active` may move to either terminal state,
/// `Completed` or `Cancelled`; there is no transition back.
#[derive(Clone, Copy, Debug, PartialEq, Eq, Structural)]
pub enum PairingStatus {
    Active,
    Completed,
    Cancelled,
}

/// Named score bracket used for display, ordered from lowest to highest.
#[derive(Clone, Copy, Debug, PartialEq, Eq, Structural)]
pub enum Tier {
    Newcomer,
    Explorer,
    Connector,
    Networker,
    GlobalAmbassador,
}

/// An earned achievement on a user profile.
#[derive(Debug)]
pub struct Badge {
    pub id: String,
    pub name: String,
    pub description: String,
    pub date_earned: u64,
}

pub ghost struct BadgeV {
    pub id: Seq<char>,
    pub name: Seq<char>,
    pub description: Seq<char>,
    pub date_earned: u64,
}

impl View for Badge {
    type V = BadgeV;

    open spec fn view(&self) -> BadgeV {
        BadgeV {
            id: self.id@,
            name: self.name@,
            description: self.description@,
            date_earned: self.date_earned,
        }
    }
}

impl DeepView for Badge {
    type V = BadgeV;

    open spec fn deep_view(&self) -> BadgeV {
        self@
    }
}

impl Clone for Badge {
    fn clone(&self) -> (res: Self)
        ensures
            res@ == self@,
    {
        Badge {
            id: self.id.clone(),
            name: self.name.clone(),
            description: self.description.clone(),
            date_earned: self.date_earned,
        }
    }
}

/// Clones a vector of strings; the copy has the same contents.
pub(crate) fn clone_string_vec(v: &Vec<String>) -> (res: Vec<String>)
    ensures
        res.deep_view() == v.deep_view(),
{
    let res = v.clone();
    proof {
        assert forall|i: int| 0 <= i < v@.len() implies res.deep_view()[i] == v.deep_view()[i] by {
            assert(cloned::<String>(v@[i], res@[i]));
        }
        assert(res.deep_view() =~= v.deep_view());
    }
    res
}

/// Clones a vector of badges; the copy has the same contents.
pub(crate) fn clone_badge_vec(v: &Vec<Badge>) -> (res: Vec<Badge>)
    ensures
        res.deep_view() == v.deep_view(),
{
    let res = v.clone();
    proof {
        assert forall|i: int| 0 <= i < v@.len() implies res.deep_view()[i] == v.deep_view()[i] by {
            assert(cloned::<Badge>(v@[i], res@[i]));
        }
        assert(res.deep_view() =~= v.deep_view());
    }
    res
}

/// A catalog country record. `available` is derived: it holds exactly when
/// some active user's home country equals this record's name.
#[derive(Debug)]
pub struct Country {
    pub name: String,
    pub fun_facts: Vec<String>,
    pub continent: String,
    pub flag: String,
    pub traditions: Vec<String>,
    pub languages: Vec<String>,
    pub available: bool,
    pub population: u64,
    pub capital: String,
    pub currency: String,
}

pub ghost struct CountryV {
    pub name: Seq<char>,
    pub fun_facts: Seq<Seq<char>>,
    pub continent: Seq<char>,
    pub flag: Seq<char>,
    pub traditions: Seq<Seq<char>>,
    pub languages: Seq<Seq<char>>,
    pub available: bool,
    pub population: u64,
    pub capital: Seq<char>,
    pub currency: Seq<char>,
}

impl View for Country {
    type V = CountryV;

    open spec fn view(&self) -> CountryV {
        CountryV {
            name: self.name@,
            fun_facts: self.fun_facts.deep_view(),
            continent: self.continent@,
            flag: self.flag@,
            traditions: self.traditions.deep_view(),
            languages: self.languages.deep_view(),
            available: self.available,
            population: self.population,
            capital: self.capital@,
            currency: self.currency@,
        }
    }
}

impl DeepView for Country {
    type V = CountryV;

    open spec fn deep_view(&self) -> CountryV {
        self@
    }
}

impl Clone for Country {
    fn clone(&self) -> (res: Self)
        ensures
            res@ == self@,
    {
        Country {
            name: self.name.clone(),
            fun_facts: clone_string_vec(&self.fun_facts),
            continent: self.continent.clone(),
            flag: self.flag.clone(),
            traditions: clone_string_vec(&self.traditions),
            languages: clone_string_vec(&self.languages),
            available: self.available,
            population: self.population,
            capital: self.capital.clone(),
            currency: self.currency.clone(),
        }
    }
}

/// A user profile. Profiles are never removed; deactivation clears the
/// `is_active` flag and keeps score and history.
#[derive(Debug)]
pub struct UserProfile {
    pub user_id: String,
    pub name: String,
    pub country: String,
    pub interests: Vec<String>,
    pub bio: String,
    /// Cumulative Strix score.
    pub net_worth: u32,
    pub badges: Vec<Badge>,
    pub countries_visited: Vec<String>,
    pub timezone: String,
    pub languages: Vec<String>,
    pub join_date: u64,
    pub is_active: bool,
    pub skip_next_match: bool,
}

pub ghost struct UserProfileV {
    pub user_id: Seq<char>,
    pub name: Seq<char>,
    pub country: Seq<char>,
    pub interests: Seq<Seq<char>>,
    pub bio: Seq<char>,
    pub net_worth: u32,
    pub badges: Seq<BadgeV>,
    pub countries_visited: Seq<Seq<char>>,
    pub timezone: Seq<char>,
    pub languages: Seq<Seq<char>>,
    pub join_date: u64,
    pub is_active: bool,
    pub skip_next_match: bool,
}

impl View for UserProfile {
    type V = UserProfileV;

    open spec fn view(&self) -> UserProfileV {
        UserProfileV {
            user_id: self.user_id@,
            name: self.name@,
            country: self.country@,
            interests: self.interests.deep_view(),
            bio: self.bio@,
            net_worth: self.net_worth,
            badges: self.badges.deep_view(),
            countries_visited: self.countries_visited.deep_view(),
            timezone: self.timezone@,
            languages: self.languages.deep_view(),
            join_date: self.join_date,
            is_active: self.is_active,
            skip_next_match: self.skip_next_match,
        }
    }
}

impl DeepView for UserProfile {
    type V = UserProfileV;

    open spec fn deep_view(&self) -> UserProfileV {
        self@
    }
}

impl Clone for UserProfile {
    fn clone(&self) -> (res: Self)
        ensures
            res@ == self@,
    {
        UserProfile {
            user_id: self.user_id.clone(),
            name: self.name.clone(),
            country: self.country.clone(),
            interests: clone_string_vec(&self.interests),
            bio: self.bio.clone(),
            net_worth: self.net_worth,
            badges: clone_badge_vec(&self.badges),
            countries_visited: clone_string_vec(&self.countries_visited),
            timezone: self.timezone.clone(),
            languages: clone_string_vec(&self.languages),
            join_date: self.join_date,
            is_active: self.is_active,
            skip_next_match: self.skip_next_match,
        }
    }
}

/// A two-user match bound to one spotlighted country.
#[derive(Debug)]
pub struct Pairing {
    pub id: u64,
    pub user1: String,
    pub user2: String,
    pub country: String,
    pub date_created: u64,
    pub status: PairingStatus,
}

pub ghost struct PairingV {
    pub id: u64,
    pub user1: Seq<char>,
    pub user2: Seq<char>,
    pub country: Seq<char>,
    pub date_created: u64,
    pub status: PairingStatus,
}

impl View for Pairing {
    type V = PairingV;

    open spec fn view(&self) -> PairingV {
        PairingV {
            id: self.id,
            user1: self.user1@,
            user2: self.user2@,
            country: self.country@,
            date_created: self.date_created,
            status: self.status,
        }
    }
}

impl DeepView for Pairing {
    type V = PairingV;

    open spec fn deep_view(&self) -> PairingV {
        self@
    }
}

impl Clone for Pairing {
    fn clone(&self) -> (res: Self)
        ensures
            res@ == self@,
    {
        Pairing {
            id: self.id,
            user1: self.user1.clone(),
            user2: self.user2.clone(),
            country: self.country.clone(),
            date_created: self.date_created,
            status: self.status,
        }
    }
}

/// Clones a vector of pairings; the copy has the same contents.
pub(crate) fn clone_pairing_vec(v: &Vec<Pairing>) -> (res: Vec<Pairing>)
    ensures
        res.deep_view() == v.deep_view(),
{
    let res = v.clone();
    proof {
        assert forall|i: int| 0 <= i < v@.len() implies res.deep_view()[i] == v.deep_view()[i] by {
            assert(cloned::<Pairing>(v@[i], res@[i]));
        }
        assert(res.deep_view() =~= v.deep_view());
    }
    res
}

/// One matching round: its spotlighted countries and the pairings formed
/// within it. Immutable once archived.
#[derive(Debug)]
pub struct Session {
    pub id: u64,
    pub date: u64,
    pub featured_countries: Vec<String>,
    pub pairings: Vec<Pairing>,
}

pub ghost struct SessionV {
    pub id: u64,
    pub date: u64,
    pub featured_countries: Seq<Seq<char>>,
    pub pairings: Seq<PairingV>,
}

impl View for Session {
    type V = SessionV;

    open spec fn view(&self) -> SessionV {
        SessionV {
            id: self.id,
            date: self.date,
            featured_countries: self.featured_countries.deep_view(),
            pairings: self.pairings.deep_view(),
        }
    }
}

impl DeepView for Session {
    type V = SessionV;

    open spec fn deep_view(&self) -> SessionV {
        self@
    }
}

impl Clone for Session {
    fn clone(&self) -> (res: Self)
        ensures
            res@ == self@,
    {
        Session {
            id: self.id,
            date: self.date,
            featured_countries: clone_string_vec(&self.featured_countries),
            pairings: clone_pairing_vec(&self.pairings),
        }
    }
}

/// Reply of the command layer: outcome flag, rendered message, optional
/// payload.
#[derive(Debug)]
pub struct CommandResponse {
    pub success: bool,
    pub message: String,
    pub data: Option<CustomData>,
}

/// A small string payload attached to a command response.
#[derive(Debug)]
pub struct CustomData {
    pub value: String,
}

/// Requests a chat participant can address to the bot.
#[derive(Debug)]
pub enum BotCommand {
    WorldMap,
    Pick { country: String },
    Pair,
    Bio,
    Unpair,
    Info,
    NetWorth,
}

/// A conversation prompt offered to a freshly formed pairing.
#[derive(Debug)]
pub struct IcebreakerQuestion {
    pub id: String,
    pub question: String,
    pub country_specific: bool,
}

/// An inbound chat message as the transport layer hands it over.
#[derive(Debug)]
pub struct Message {
    pub text: Option<String>,
    pub sender: User,
    pub timestamp: u64,
}

/// The sender of an inbound message.
#[derive(Debug)]
pub struct User {
    pub id: String,
    pub username: String,
}

/// Delivery context of an inbound message.
#[derive(Debug)]
pub struct Context {
    pub mentioned: bool,
}

} // verus!
