//! Country catalog: the seed records, lazy stub creation, and the derived
//! availability flag.
//!
//! A country is *available* when at least one active user's home country
//! equals its name. Records are created at seed time or lazily on first
//! lookup of an unknown name — then as a placeholder stub whose fields a
//! country-data provider outside the core may later overwrite through
//! `insert_country`. Records are never deleted.

use vstd::prelude::*;
use vstd::pervasive::VecAdditionalExecFns;

use crate::state::{PingPairState, StateV};
use crate::types::{Country, CountryV, UserProfileV};

verus! {

/// The seeded record for Kenya.
pub open spec fn kenya() -> CountryV {
    CountryV {
        name: "Kenya"@,
        fun_facts: seq![
            "Home to over 40 ethnic groups"@,
            "Birthplace of marathon champions"@,
            "Famous for wildlife safaris"@,
            "Has the Great Rift Valley"@,
            "Home to the Maasai Mara National Reserve"@,
        ],
        continent: "Africa"@,
        flag: "🇰🇪"@,
        traditions: seq![
            "Maasai jumping dance"@,
            "Kikuyu circumcision ceremonies"@,
            "Samburu wedding ceremonies"@,
        ],
        languages: seq!["Swahili"@, "English"@],
        available: true,
        population: 53_700_000,
        capital: "Nairobi"@,
        currency: "Kenyan Shilling"@,
    }
}

/// The seeded record for India.
pub open spec fn india() -> CountryV {
    CountryV {
        name: "India"@,
        fun_facts: seq![
            "World's largest democracy"@,
            "Home to Bollywood"@,
            "Known for diverse cuisine and spices"@,
            "Birthplace of four major religions"@,
            "Has the third-largest Muslim population"@,
        ],
        continent: "Asia"@,
        flag: "🇮🇳"@,
        traditions: seq![
            "Diwali festival of lights"@,
            "Holi color festival"@,
            "Classical dance forms like Bharatanatyam"@,
        ],
        languages: seq!["Hindi"@, "English"@, "Bengali"@, "Tamil"@],
        available: true,
        population: 1_380_000_000,
        capital: "New Delhi"@,
        currency: "Indian Rupee"@,
    }
}

/// The seeded record for Brazil.
pub open spec fn brazil() -> CountryV {
    CountryV {
        name: "Brazil"@,
        fun_facts: seq![
            "Famous for Carnival and samba"@,
            "Home to most of the Amazon rainforest"@,
            "Soccer is a national passion"@,
            "World's largest producer of coffee"@,
            "Home to the Christ the Redeemer statue"@,
        ],
        continent: "South America"@,
        flag: "🇧🇷"@,
        traditions: seq![
            "Carnival celebrations"@,
            "Capoeira martial art"@,
            "Festa Junina harvest festival"@,
        ],
        languages: seq!["Portuguese"@],
        available: true,
        population: 212_600_000,
        capital: "Brasília"@,
        currency: "Brazilian Real"@,
    }
}

/// The full seed set, in seeding order.
pub open spec fn default_countries() -> Seq<CountryV> {
    seq![kenya(), india(), brazil()]
}

/// A spotlight seed record: name, flag, and three fun facts, with the
/// remaining fields left as placeholders until a data provider fills them.
pub open spec fn spotlight_record(
    name: Seq<char>,
    flag: Seq<char>,
    facts: Seq<Seq<char>>,
) -> CountryV {
    CountryV {
        name,
        fun_facts: facts,
        continent: "Unknown"@,
        flag,
        traditions: Seq::empty(),
        languages: Seq::empty(),
        available: true,
        population: 0,
        capital: "Unknown"@,
        currency: "Unknown"@,
    }
}

/// The five spotlight seed records, in seeding order.
pub open spec fn spotlight_seed() -> Seq<CountryV> {
    seq![
        spotlight_record(
            "Kenya"@,
            "🇰🇪"@,
            seq![
                "Home to over 40 ethnic groups"@,
                "Birthplace of marathon champions"@,
                "Famous for wildlife safaris"@,
            ],
        ),
        spotlight_record(
            "India"@,
            "🇮🇳"@,
            seq![
                "World's largest democracy"@,
                "Home to Bollywood"@,
                "Known for diverse cuisine and spices"@,
            ],
        ),
        spotlight_record(
            "Brazil"@,
            "🇧🇷"@,
            seq![
                "Famous for Carnival and samba"@,
                "Home to most of the Amazon rainforest"@,
                "Soccer is a national passion"@,
            ],
        ),
        spotlight_record(
            "Japan"@,
            "🇯🇵"@,
            seq![
                "Known for advanced technology and anime"@,
                "Has over 6,800 islands"@,
                "Home to the world's oldest company (1,400+ years)"@,
            ],
        ),
        spotlight_record(
            "Egypt"@,
            "🇪🇬"@,
            seq![
                "Home to the ancient pyramids"@,
                "The Nile is the longest river in the world"@,
                "Has a history spanning over 6,000 years"@,
            ],
        ),
    ]
}

/// The placeholder record created on first lookup of an unknown name.
pub open spec fn stub_country(name: Seq<char>) -> CountryV {
    CountryV {
        name,
        fun_facts: seq![
            "A wonderful country to discover!"@,
            "Has unique customs and traditions"@,
        ],
        continent: "Unknown"@,
        flag: "🏳️"@,
        traditions: seq!["Various cultural traditions"@],
        languages: seq!["Unknown"@],
        available: true,
        population: 0,
        capital: "Unknown"@,
        currency: "Unknown"@,
    }
}

/// Whether some active user's home country is `name`.
pub open spec fn country_available(users: Seq<UserProfileV>, name: Seq<char>) -> bool {
    exists|i: int| 0 <= i < users.len() && (#[trigger] users[i]).is_active && users[i].country == name
}

/// The catalog as it stands after recomputing every availability flag
/// against the given users.
pub open spec fn recomputed_catalog(
    users: Seq<UserProfileV>,
    countries: Seq<CountryV>,
) -> Seq<CountryV> {
    Seq::new(
        countries.len(),
        |j: int|
            CountryV { available: country_available(users, countries[j].name), ..countries[j] },
    )
}

/// The names of the given records, in order.
pub open spec fn names_of(cs: Seq<CountryV>) -> Seq<Seq<char>> {
    cs.map_values(|c: CountryV| c.name)
}

/// The records among `cs` whose availability flag is set, in order.
pub open spec fn available_countries(cs: Seq<CountryV>) -> Seq<CountryV> {
    cs.filter(|c: CountryV| c.available)
}

/// Builds the seeded country records, in seeding order.
pub fn get_default_countries() -> (r: Vec<Country>)
    ensures
        r.deep_view() == default_countries(),
{
    let kenya_rec = Country {
        name: "Kenya".to_owned(),
        fun_facts: vec![
            "Home to over 40 ethnic groups".to_owned(),
            "Birthplace of marathon champions".to_owned(),
            "Famous for wildlife safaris".to_owned(),
            "Has the Great Rift Valley".to_owned(),
            "Home to the Maasai Mara National Reserve".to_owned(),
        ],
        continent: "Africa".to_owned(),
        flag: "🇰🇪".to_owned(),
        traditions: vec![
            "Maasai jumping dance".to_owned(),
            "Kikuyu circumcision ceremonies".to_owned(),
            "Samburu wedding ceremonies".to_owned(),
        ],
        languages: vec!["Swahili".to_owned(), "English".to_owned()],
        available: true,
        population: 53_700_000,
        capital: "Nairobi".to_owned(),
        currency: "Kenyan Shilling".to_owned(),
    };
    let india_rec = Country {
        name: "India".to_owned(),
        fun_facts: vec![
            "World's largest democracy".to_owned(),
            "Home to Bollywood".to_owned(),
            "Known for diverse cuisine and spices".to_owned(),
            "Birthplace of four major religions".to_owned(),
            "Has the third-largest Muslim population".to_owned(),
        ],
        continent: "Asia".to_owned(),
        flag: "🇮🇳".to_owned(),
        traditions: vec![
            "Diwali festival of lights".to_owned(),
            "Holi color festival".to_owned(),
            "Classical dance forms like Bharatanatyam".to_owned(),
        ],
        languages: vec![
            "Hindi".to_owned(),
            "English".to_owned(),
            "Bengali".to_owned(),
            "Tamil".to_owned(),
        ],
        available: true,
        population: 1_380_000_000,
        capital: "New Delhi".to_owned(),
        currency: "Indian Rupee".to_owned(),
    };
    let brazil_rec = Country {
        name: "Brazil".to_owned(),
        fun_facts: vec![
            "Famous for Carnival and samba".to_owned(),
            "Home to most of the Amazon rainforest".to_owned(),
            "Soccer is a national passion".to_owned(),
            "World's largest producer of coffee".to_owned(),
            "Home to the Christ the Redeemer statue".to_owned(),
        ],
        continent: "South America".to_owned(),
        flag: "🇧🇷".to_owned(),
        traditions: vec![
            "Carnival celebrations".to_owned(),
            "Capoeira martial art".to_owned(),
            "Festa Junina harvest festival".to_owned(),
        ],
        languages: vec!["Portuguese".to_owned()],
        available: true,
        population: 212_600_000,
        capital: "Brasília".to_owned(),
        currency: "Brazilian Real".to_owned(),
    };
    proof {
        assert(kenya_rec@.fun_facts =~= kenya().fun_facts);
        assert(kenya_rec@.traditions =~= kenya().traditions);
        assert(kenya_rec@.languages =~= kenya().languages);
        assert(kenya_rec@ == kenya());
        assert(india_rec@.fun_facts =~= india().fun_facts);
        assert(india_rec@.traditions =~= india().traditions);
        assert(india_rec@.languages =~= india().languages);
        assert(india_rec@ == india());
        assert(brazil_rec@.fun_facts =~= brazil().fun_facts);
        assert(brazil_rec@.traditions =~= brazil().traditions);
        assert(brazil_rec@.languages =~= brazil().languages);
        assert(brazil_rec@ == brazil());
    }
    let r = vec![kenya_rec, india_rec, brazil_rec];
    proof {
        assert(r.deep_view() =~= default_countries());
    }
    r
}

/// Builds one spotlight seed record.
fn mk_spotlight(name: &str, flag: &str, f1: &str, f2: &str, f3: &str) -> (c: Country)
    ensures
        c@ == spotlight_record(name@, flag@, seq![f1@, f2@, f3@]),
{
    let c = Country {
        name: name.to_owned(),
        fun_facts: vec![f1.to_owned(), f2.to_owned(), f3.to_owned()],
        continent: "Unknown".to_owned(),
        flag: flag.to_owned(),
        traditions: Vec::new(),
        languages: Vec::new(),
        available: true,
        population: 0,
        capital: "Unknown".to_owned(),
        currency: "Unknown".to_owned(),
    };
    proof {
        assert(c@.fun_facts =~= seq![f1@, f2@, f3@]);
        assert(c@.traditions =~= Seq::<Seq<char>>::empty());
        assert(c@.languages =~= Seq::<Seq<char>>::empty());
        assert(c@ == spotlight_record(name@, flag@, seq![f1@, f2@, f3@]));
    }
    c
}

impl StateV {
    /// There is a catalog record named `name`.
    pub open spec fn has_country(self, name: Seq<char>) -> bool {
        exists|i: int| 0 <= i < self.countries.len() && self.countries[i].name == name
    }

    /// Index of the record named `name` (meaningful when `has_country`
    /// holds; unique under the invariant).
    pub open spec fn country_ix(self, name: Seq<char>) -> int {
        choose|i: int| 0 <= i < self.countries.len() && self.countries[i].name == name
    }

    /// The record named `name`.
    pub open spec fn country(self, name: Seq<char>) -> CountryV {
        self.countries[self.country_ix(name)]
    }

    /// This state with the catalog replaced and all else kept.
    pub open spec fn with_countries(self, countries: Seq<CountryV>) -> StateV {
        StateV { countries, ..self }
    }

    /// If `i` indexes a record named `name`, then `i` is `country_ix(name)`.
    pub proof fn lemma_country_ix_unique(self, name: Seq<char>, i: int)
        requires
            self.countries_distinct(),
            0 <= i < self.countries.len(),
            self.countries[i].name == name,
        ensures
            self.country_ix(name) == i,
            self.has_country(name),
    {
        assert(self.has_country(name));
        let j = self.country_ix(name);
        if i < j {
            assert(self.countries[i].name != self.countries[j].name);
        } else if j < i {
            assert(self.countries[j].name != self.countries[i].name);
        }
    }
}

impl PingPairState {
    /// Finds the position of the catalog record named `name`, if any.
    pub(crate) fn country_index(&self, name: &String) -> (r: Option<usize>)
        ensures
            match r {
                Some(i) => i < self.countries.len() && self@.countries[i as int].name == name@,
                None => !self@.has_country(name@),
            },
    {
        let mut i: usize = 0;
        while i < self.countries.len()
            invariant
                i <= self.countries.len(),
                forall|j: int| 0 <= j < i ==> (#[trigger] self@.countries[j]).name != name@,
            decreases self.countries.len() - i,
        {
            if self.countries[i].name == *name {
                return Some(i);
            }
            i = i + 1;
        }
        None
    }

    /// Looks a catalog record up by name; a pure read with no side effect.
    pub fn lookup(&self, name: &String) -> (r: Option<Country>)
        requires
            self@.inv(),
        ensures
            match r {
                Some(c) => self@.has_country(name@) && c@ == self@.country(name@),
                None => !self@.has_country(name@),
            },
    {
        match self.country_index(name) {
            Some(i) => {
                proof {
                    self@.lemma_country_ix_unique(name@, i as int);
                }
                Some(self.countries[i].clone())
            },
            None => None,
        }
    }

    /// Puts `c` into the catalog: it replaces the record of the same name,
    /// or is appended when the name is new. The result reports whether a
    /// new record was created.
    pub fn insert_country(&mut self, c: Country) -> (r: bool)
        requires
            old(self)@.inv(),
        ensures
            final(self)@.inv(),
            old(self)@.has_country(c@.name) ==> {
                &&& !r
                &&& final(self)@ == old(self)@.with_countries(
                    old(self)@.countries.update(old(self)@.country_ix(c@.name), c@),
                )
            },
            !old(self)@.has_country(c@.name) ==> {
                &&& r
                &&& final(self)@ == old(self)@.with_countries(old(self)@.countries.push(c@))
            },
    {
        let ghost prev = self@;
        match self.country_index(&c.name) {
            Some(i) => {
                proof {
                    self@.lemma_country_ix_unique(c@.name, i as int);
                }
                self.countries.set(i, c);
                proof {
                    assert(self@.countries =~= prev.countries.update(
                        prev.country_ix(self@.countries[i as int].name),
                        self@.countries[i as int],
                    ));
                    assert forall|a: int, b: int| 0 <= a < b < self@.countries.len()
                        implies #[trigger] self@.countries[a].name
                        != #[trigger] self@.countries[b].name by {
                        assert(prev.countries[a].name != prev.countries[b].name);
                    }
                }
                false
            },
            None => {
                self.countries.push(c);
                proof {
                    assert(self@.countries =~= prev.countries.push(
                        self@.countries[prev.countries.len() as int],
                    ));
                    assert forall|a: int, b: int| 0 <= a < b < self@.countries.len()
                        implies #[trigger] self@.countries[a].name
                        != #[trigger] self@.countries[b].name by {
                        if b < prev.countries.len() {
                            assert(prev.countries[a].name != prev.countries[b].name);
                        } else {
                            assert(!prev.has_country(self@.countries[b].name));
                        }
                    }
                }
                true
            },
        }
    }

    /// Returns the catalog record for `name`, creating a placeholder stub
    /// first when the name is unknown. A record the catalog already holds
    /// is returned as it stands and the state does not change.
    pub fn search_country_info(&mut self, country_name: &String) -> (r: Country)
        requires
            old(self)@.inv(),
        ensures
            final(self)@.inv(),
            old(self)@.has_country(country_name@) ==> {
                &&& r@ == old(self)@.country(country_name@)
                &&& final(self)@ == old(self)@
            },
            !old(self)@.has_country(country_name@) ==> {
                &&& r@ == stub_country(country_name@)
                &&& final(self)@ == old(self)@.with_countries(
                    old(self)@.countries.push(stub_country(country_name@)),
                )
            },
    {
        if let Some(c) = self.lookup(country_name) {
            return c;
        }
        let ghost prev = self@;
        let stub = Country {
            name: country_name.clone(),
            fun_facts: vec![
                "A wonderful country to discover!".to_owned(),
                "Has unique customs and traditions".to_owned(),
            ],
            continent: "Unknown".to_owned(),
            flag: "🏳️".to_owned(),
            traditions: vec!["Various cultural traditions".to_owned()],
            languages: vec!["Unknown".to_owned()],
            available: true,
            population: 0,
            capital: "Unknown".to_owned(),
            currency: "Unknown".to_owned(),
        };
        proof {
            assert(stub@.fun_facts =~= stub_country(country_name@).fun_facts);
            assert(stub@.traditions =~= stub_country(country_name@).traditions);
            assert(stub@.languages =~= stub_country(country_name@).languages);
            assert(stub@ == stub_country(country_name@));
        }
        let r = stub.clone();
        self.countries.push(stub);
        proof {
            assert(self@.countries =~= prev.countries.push(stub_country(country_name@)));
            assert forall|a: int, b: int| 0 <= a < b < self@.countries.len()
                implies #[trigger] self@.countries[a].name
                != #[trigger] self@.countries[b].name by {
                if b < prev.countries.len() {
                    assert(prev.countries[a].name != prev.countries[b].name);
                } else {
                    assert(!prev.has_country(self@.countries[b].name));
                }
            }
        }
        r
    }

    /// Seeds the catalog with the five spotlight records — Kenya, India,
    /// Brazil, Japan, and Egypt — replacing whatever the catalog held.
    pub fn initialize_spotlight_countries(&mut self)
        requires
            old(self)@.inv(),
        ensures
            final(self)@.inv(),
            final(self)@ == old(self)@.with_countries(spotlight_seed()),
    {
        let mut cs: Vec<Country> = Vec::new();
        cs.push(mk_spotlight(
            "Kenya",
            "🇰🇪",
            "Home to over 40 ethnic groups",
            "Birthplace of marathon champions",
            "Famous for wildlife safaris",
        ));
        cs.push(mk_spotlight(
            "India",
            "🇮🇳",
            "World's largest democracy",
            "Home to Bollywood",
            "Known for diverse cuisine and spices",
        ));
        cs.push(mk_spotlight(
            "Brazil",
            "🇧🇷",
            "Famous for Carnival and samba",
            "Home to most of the Amazon rainforest",
            "Soccer is a national passion",
        ));
        cs.push(mk_spotlight(
            "Japan",
            "🇯🇵",
            "Known for advanced technology and anime",
            "Has over 6,800 islands",
            "Home to the world's oldest company (1,400+ years)",
        ));
        cs.push(mk_spotlight(
            "Egypt",
            "🇪🇬",
            "Home to the ancient pyramids",
            "The Nile is the longest river in the world",
            "Has a history spanning over 6,000 years",
        ));
        self.countries = cs;
        proof {
            reveal_strlit("Kenya");
            reveal_strlit("India");
            reveal_strlit("Brazil");
            reveal_strlit("Japan");
            reveal_strlit("Egypt");
            assert("Kenya"@[0] == 'K' && "India"@[0] == 'I' && "Brazil"@[0] == 'B'
                && "Japan"@[0] == 'J' && "Egypt"@[0] == 'E');
            assert(self@.countries =~= spotlight_seed());
            assert forall|a: int, b: int| 0 <= a < b < self@.countries.len()
                implies #[trigger] self@.countries[a].name
                != #[trigger] self@.countries[b].name by {
                assert(self@.countries[a].name[0] != self@.countries[b].name[0]);
            }
        }
    }

    /// Whether some active user's home country is `name`.
    fn any_active_user_from(&self, name: &String) -> (r: bool)
        ensures
            r == country_available(self@.users, name@),
    {
        let mut i: usize = 0;
        while i < self.users.len()
            invariant
                i <= self.users.len(),
                forall|j: int|
                    0 <= j < i ==> !((#[trigger] self@.users[j]).is_active && self@.users[j].country
                        == name@),
            decreases self.users.len() - i,
        {
            if self.users[i].is_active && self.users[i].country == *name {
                proof {
                    assert((#[trigger] self@.users[i as int]).is_active
                        && self@.users[i as int].country == name@);
                }
                return true;
            }
            i = i + 1;
        }
        false
    }

    /// Recomputes every record's availability flag from the active users'
    /// home countries; nothing else of any record changes.
    pub fn update_country_availability(&mut self)
        requires
            old(self)@.inv(),
        ensures
            final(self)@.inv(),
            final(self)@ == old(self)@.with_countries(
                recomputed_catalog(old(self)@.users, old(self)@.countries),
            ),
    {
        let ghost prev = self@;
        let ghost target = Seq::new(
            prev.countries.len(),
            |j: int|
                CountryV {
                    available: country_available(prev.users, prev.countries[j].name),
                    ..prev.countries[j]
                },
        );
        let mut i: usize = 0;
        while i < self.countries.len()
            invariant
                i <= self.countries.len(),
                self.countries.len() == prev.countries.len(),
                self@ == prev.with_countries(self@.countries),
                self@.users == prev.users,
                target == Seq::new(
                    prev.countries.len(),
                    |j: int|
                        CountryV {
                            available: country_available(prev.users, prev.countries[j].name),
                            ..prev.countries[j]
                        },
                ),
                forall|j: int| 0 <= j < i ==> #[trigger] self@.countries[j] == target[j],
                forall|j: int| i <= j < prev.countries.len() ==> #[trigger] self@.countries[j]
                    == prev.countries[j],
            decreases self.countries.len() - i,
        {
            let ghost before = self@.countries;
            proof {
                assert(before[i as int] == prev.countries[i as int]);
            }
            let name = self.countries[i].name.clone();
            let avail = self.any_active_user_from(&name);
            let mut c = self.countries[i].clone();
            c.available = avail;
            proof {
                assert(c@ == target[i as int]);
            }
            self.countries.set(i, c);
            proof {
                assert(self@.countries =~= before.update(i as int, c@));
            }
            i = i + 1;
        }
        proof {
            assert(self@.countries =~= target);
            assert forall|a: int, b: int| 0 <= a < b < self@.countries.len()
                implies #[trigger] self@.countries[a].name
                != #[trigger] self@.countries[b].name by {
                assert(prev.countries[a].name != prev.countries[b].name);
            }
        }
    }

    /// The catalog records whose availability flag is set, in catalog order.
    pub fn get_available_countries(&self) -> (r: Vec<Country>)
        ensures
            r.deep_view() == available_countries(self@.countries),
    {
        broadcast use vstd::prelude::Seq::lemma_filter_push;

        let mut r: Vec<Country> = Vec::new();
        let mut i: usize = 0;
        proof {
            assert(self@.countries.take(0) =~= Seq::<CountryV>::empty());
            assert(r.deep_view() =~= Seq::<CountryV>::empty());
            assert(Seq::<CountryV>::empty().filter(|c: CountryV| c.available)
                =~= Seq::<CountryV>::empty());
        }
        while i < self.countries.len()
            invariant
                i <= self.countries.len(),
                r.deep_view() == self@.countries.take(i as int).filter(|c: CountryV| c.available),
            decreases self.countries.len() - i,
        {
            let ghost taken = self@.countries.take(i as int);
            if self.countries[i].available {
                let ghost before = r.deep_view();
                r.push(self.countries[i].clone());
                proof {
                    assert(r.deep_view() =~= before.push(self@.countries[i as int]));
                }
            }
            proof {
                taken.lemma_filter_push(self@.countries[i as int], |c: CountryV| c.available);
                assert(self@.countries.take(i + 1) =~= taken.push(self@.countries[i as int]));
            }
            i = i + 1;
        }
        proof {
            assert(self@.countries.take(self@.countries.len() as int) =~= self@.countries);
        }
        r
    }
}

} // verus!
