use pingpair::catalog::get_default_countries;
use pingpair::state::PingPairState;

fn seeded_catalog() -> PingPairState {
    let mut s = PingPairState::new();
    for c in get_default_countries() {
        s.insert_country(c);
    }
    s
}

fn activate(s: &mut PingPairState, id: &str, country: &str) {
    s.create_user(id.to_string(), id.to_string(), 1).unwrap();
    s.set_country(&id.to_string(), country.to_string()).unwrap();
    s.update_country_availability();
}

#[test]
fn default_countries_have_seed_data() {
    let cs = get_default_countries();
    assert_eq!(cs.len(), 3);
    assert_eq!(cs[0].name, "Kenya");
    assert_eq!(cs[0].population, 53_700_000);
    assert_eq!(cs[0].capital, "Nairobi");
    assert_eq!(cs[0].fun_facts.len(), 5);
    assert_eq!(cs[1].name, "India");
    assert_eq!(cs[1].currency, "Indian Rupee");
    assert_eq!(cs[2].name, "Brazil");
    assert_eq!(cs[2].languages, vec!["Portuguese".to_string()]);
}

#[test]
fn availability_follows_active_users() {
    let mut s = seeded_catalog();
    s.update_country_availability();
    assert!(s.get_available_countries().is_empty());
    activate(&mut s, "u1", "Kenya");
    let avail = s.get_available_countries();
    assert_eq!(avail.len(), 1);
    assert_eq!(avail[0].name, "Kenya");
    // Deactivating the user takes the country out again.
    s.deactivate(&"u1".to_string()).unwrap();
    s.update_country_availability();
    assert!(s.get_available_countries().is_empty());
}

#[test]
fn empty_available_set_draws_min_from_catalog() {
    let mut s = seeded_catalog();
    s.update_country_availability();
    // count above the catalog size: exactly the catalog size comes back.
    let five = s.choose_spotlights(5, 42);
    assert_eq!(five.len(), 3);
    let names: Vec<&str> = five.iter().map(|c| c.name.as_str()).collect();
    for n in &names {
        assert!(["Kenya", "India", "Brazil"].contains(n));
    }
    assert!(names[0] != names[1] && names[0] != names[2] && names[1] != names[2]);
    // count below the catalog size: exactly count.
    let two = s.choose_spotlights(2, 7);
    assert_eq!(two.len(), 2);
    assert_ne!(two[0].name, two[1].name);
}

#[test]
fn large_available_set_draws_count_available() {
    let mut s = seeded_catalog();
    activate(&mut s, "u1", "Kenya");
    activate(&mut s, "u2", "India");
    activate(&mut s, "u3", "Brazil");
    let two = s.choose_spotlights(2, 99);
    assert_eq!(two.len(), 2);
    assert_ne!(two[0].name, two[1].name);
    for c in &two {
        assert!(c.available);
    }
}

#[test]
fn short_available_set_is_returned_whole_without_padding() {
    let mut s = seeded_catalog();
    activate(&mut s, "u1", "Kenya");
    // One country available, three requested: no padding from the rest.
    let picked = s.choose_spotlights(3, 5);
    assert_eq!(picked.len(), 1);
    assert_eq!(picked[0].name, "Kenya");
}

#[test]
fn selection_is_reproducible_by_seed() {
    let mut s = seeded_catalog();
    s.update_country_availability();
    let a = s.choose_spotlights(2, 1234);
    let b = s.choose_spotlights(2, 1234);
    let names_a: Vec<String> = a.iter().map(|c| c.name.clone()).collect();
    let names_b: Vec<String> = b.iter().map(|c| c.name.clone()).collect();
    assert_eq!(names_a, names_b);
}

#[test]
fn country_spotlight_prefers_available() {
    let mut s = seeded_catalog();
    activate(&mut s, "u1", "India");
    let c = s.get_country_spotlight(9);
    assert_eq!(c.name, "India");
    // With nothing available, one of the built-in records comes back.
    let empty = PingPairState::new();
    let d = empty.get_country_spotlight(9);
    assert!(["Kenya", "India", "Brazil"].contains(&d.name.as_str()));
}

#[test]
fn stub_is_created_once_for_unknown_country() {
    let mut s = seeded_catalog();
    let first = s.search_country_info(&"Atlantis".to_string());
    assert_eq!(first.name, "Atlantis");
    assert_eq!(first.population, 0);
    assert_eq!(first.continent, "Unknown");
    assert_eq!(first.capital, "Unknown");
    assert_eq!(s.countries.len(), 4);
    // The second lookup returns the record already there.
    let second = s.search_country_info(&"Atlantis".to_string());
    assert_eq!(second.name, "Atlantis");
    assert_eq!(s.countries.len(), 4);
    // A seeded name is returned as seeded.
    let kenya = s.search_country_info(&"Kenya".to_string());
    assert_eq!(kenya.capital, "Nairobi");
    assert_eq!(s.countries.len(), 4);
}

#[test]
fn insert_country_replaces_by_name() {
    let mut s = seeded_catalog();
    let mut changed = get_default_countries().remove(0);
    assert_eq!(changed.name, "Kenya");
    changed.population = 1;
    let created = s.insert_country(changed);
    assert!(!created);
    assert_eq!(s.countries.len(), 3);
    let k = s.lookup(&"Kenya".to_string()).unwrap();
    assert_eq!(k.population, 1);
}

#[test]
fn spotlight_seed_replaces_the_catalog() {
    let mut s = seeded_catalog();
    s.initialize_spotlight_countries();
    assert_eq!(s.countries.len(), 5);
    let names: Vec<&str> = s.countries.iter().map(|c| c.name.as_str()).collect();
    assert_eq!(names, vec!["Kenya", "India", "Brazil", "Japan", "Egypt"]);
    let japan = s.lookup(&"Japan".to_string()).unwrap();
    assert_eq!(japan.flag, "🇯🇵");
    assert_eq!(japan.fun_facts.len(), 3);
    assert_eq!(japan.population, 0);
    // Five seeded records give a full three-country draw.
    s.update_country_availability();
    let three = s.choose_spotlights(3, 8);
    assert_eq!(three.len(), 3);
    assert!(three[0].name != three[1].name && three[1].name != three[2].name
        && three[0].name != three[2].name);
}

#[test]
fn lookup_finds_only_known_names() {
    let s = seeded_catalog();
    assert!(s.lookup(&"Kenya".to_string()).is_some());
    assert!(s.lookup(&"Atlantis".to_string()).is_none());
}
