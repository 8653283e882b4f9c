use pingpair::handlers::{
    generate_meeting_link, get_help_menu, get_welcome_message, handle_message, simulate_ping_time,
};
use pingpair::score::{calculate_strix_tier, tier_of};
use pingpair::state::PingPairState;
use pingpair::text::{join_from, u32_to_dec};
use pingpair::types::{Context, Message, Tier, User};

fn msg(id: &str, name: &str, text: Option<&str>) -> Message {
    Message {
        text: text.map(|t| t.to_string()),
        sender: User { id: id.to_string(), username: name.to_string() },
        timestamp: 0,
    }
}

#[test]
fn test_ping_command() {
    // Call the ping simulation function
    let result = simulate_ping_time(0);

    // Validate the result contains expected elements
    assert!(result.contains("It's Ping Time! 🌍"));
    assert!(result.contains("Global Spotlight:"));
    assert!(result.contains("Fun Facts:"));
    assert!(result.contains("Reply with `yes`"));

    println!("Test passed! Ping command output:\n{}", result);
}

#[test]
fn ping_rotates_over_three_spotlights() {
    let kenya = simulate_ping_time(0);
    let india = simulate_ping_time(1);
    let brazil = simulate_ping_time(2);
    assert!(kenya.contains("Kenya 🇰🇪"));
    assert!(india.contains("India 🇮🇳"));
    assert!(brazil.contains("Brazil 🇧🇷"));
    assert_eq!(simulate_ping_time(3), kenya);
    for seed in 0..6 {
        let out = simulate_ping_time(seed);
        assert!(out.contains("It's Ping Time! 🌍"));
        assert!(out.contains("Reply with `yes`"));
    }
}

#[test]
fn tiers_have_fixed_thresholds() {
    assert_eq!(tier_of(0), Tier::Newcomer);
    assert_eq!(tier_of(9), Tier::Newcomer);
    assert_eq!(tier_of(10), Tier::Explorer);
    assert_eq!(tier_of(49), Tier::Explorer);
    assert_eq!(tier_of(50), Tier::Connector);
    assert_eq!(tier_of(99), Tier::Connector);
    assert_eq!(tier_of(100), Tier::Networker);
    assert_eq!(tier_of(199), Tier::Networker);
    assert_eq!(tier_of(200), Tier::GlobalAmbassador);
    assert_eq!(tier_of(u32::MAX), Tier::GlobalAmbassador);
}

#[test]
fn tier_lines_match_brackets() {
    assert_eq!(calculate_strix_tier(0), "**Tier:** Newcomer 🌱 (0-10 points)");
    assert_eq!(calculate_strix_tier(10), "**Tier:** Explorer 🔍 (10-50 points)");
    assert_eq!(calculate_strix_tier(55), "**Tier:** Connector 🤝 (50-100 points)");
    assert_eq!(calculate_strix_tier(199), "**Tier:** Networker 🌐 (100-200 points)");
    assert_eq!(
        calculate_strix_tier(200),
        "**Tier:** Global Ambassador 🌟 (200+ points)"
    );
}

#[test]
fn decimal_rendering_is_exact() {
    assert_eq!(u32_to_dec(0), "0");
    assert_eq!(u32_to_dec(7), "7");
    assert_eq!(u32_to_dec(10), "10");
    assert_eq!(u32_to_dec(42), "42");
    assert_eq!(u32_to_dec(305), "305");
    assert_eq!(u32_to_dec(u32::MAX), "4294967295");
}

#[test]
fn join_from_joins_with_separator() {
    let parts = vec!["timezone".to_string(), "UTC".to_string(), "+".to_string(), "3".to_string()];
    assert_eq!(join_from(&parts, 1, " "), "UTC + 3");
    assert_eq!(join_from(&parts, 3, " "), "3");
    assert_eq!(join_from(&parts, 4, " "), "");
    assert_eq!(join_from(&parts, 0, ", "), "timezone, UTC, +, 3");
}

#[test]
fn meeting_link_embeds_the_time() {
    assert_eq!(generate_meeting_link(12345), "https://meet.jit.si/pingpair-12345");
}

#[test]
fn welcome_and_help_are_rendered() {
    let welcome = get_welcome_message();
    assert!(welcome.contains("Welcome to PingPair!"));
    assert!(welcome.contains("/pingpair start"));
    let help = get_help_menu();
    assert!(help.contains("PingPair Help Menu"));
    assert!(help.contains("/pingpair start"));
    assert!(help.contains("/pingpair profile"));
}

#[test]
fn greeting_messages_get_the_welcome() {
    let hi = handle_message(msg("u1", "Ann", Some("hi")), Context { mentioned: true });
    assert!(hi.contains("Welcome to PingPair!"));
    let hello = handle_message(msg("u1", "Ann", Some("hello")), Context { mentioned: true });
    assert!(hello.contains("Welcome to PingPair!"));
    let other = handle_message(msg("u1", "Ann", Some("what?")), Context { mentioned: true });
    assert!(other.contains("Use `/pingpair`"));
    let none = handle_message(msg("u1", "Ann", None), Context { mentioned: false });
    assert!(none.contains("Use `/pingpair`"));
}

#[test]
fn start_command_registers_then_welcomes_back() {
    let mut s = PingPairState::new();
    let first = s.handle_start_command("u1".to_string(), "Ann".to_string(), 10);
    assert!(first.contains("Great news, Ann!"));
    assert_eq!(s.get_user(&"u1".to_string()).unwrap().net_worth, 5);
    let again = s.handle_start_command("u1".to_string(), "Ann".to_string(), 20);
    assert!(again.contains("Welcome back to PingPair!"));
    // The score did not reset.
    assert_eq!(s.get_user(&"u1".to_string()).unwrap().net_worth, 5);
}

#[test]
fn skip_command_sets_the_flag() {
    let mut s = PingPairState::new();
    s.handle_start_command("u1".to_string(), "Ann".to_string(), 10);
    let out = s.handle_skip_command("u1".to_string(), "Ann".to_string());
    assert!(out.contains("Cycle Skipped"));
    assert!(s.get_user(&"u1".to_string()).unwrap().skip_next_match);
    let unknown = s.handle_skip_command("u2".to_string(), "Bob".to_string());
    assert!(unknown.contains("not registered"));
}

#[test]
fn stats_command_reports_score_and_tier() {
    let mut s = PingPairState::new();
    s.handle_start_command("u1".to_string(), "Ann".to_string(), 10);
    s.apply_event(&"u1".to_string(), 10).unwrap();
    let out = s.handle_stats_command("u1".to_string(), "Ann".to_string());
    assert!(out.contains("Strix Network Score: 15 ⭐"));
    assert!(out.contains("0 connections made"));
    assert!(out.contains("**Status:** Active"));
    assert!(out.contains("**Tier:** Explorer"));
    let unknown = s.handle_stats_command("u2".to_string(), "Bob".to_string());
    assert!(unknown.contains("not registered"));
}

#[test]
fn timezone_command_sets_and_shows() {
    let mut s = PingPairState::new();
    s.handle_start_command("u1".to_string(), "Ann".to_string(), 10);
    let args = vec!["timezone".to_string(), "UTC".to_string(), "+3".to_string()];
    let set = s.handle_timezone_command("u1".to_string(), "Ann".to_string(), args);
    assert!(set.contains("set to: UTC +3"));
    assert_eq!(s.get_user(&"u1".to_string()).unwrap().timezone, "UTC +3");
    let show = s.handle_timezone_command(
        "u1".to_string(),
        "Ann".to_string(),
        vec!["timezone".to_string()],
    );
    assert!(show.contains("currently set to: UTC +3") || show.contains("set to: UTC +3"));
}

#[test]
fn profile_command_adds_interests_and_displays() {
    let mut s = PingPairState::new();
    s.handle_start_command("u1".to_string(), "Ann".to_string(), 10);
    let add = vec!["profile".to_string(), "add".to_string(), "board".to_string(), "games".to_string()];
    let added = s.handle_profile_command("u1".to_string(), "Ann".to_string(), add.clone());
    assert!(added.contains("Added \"board games\""));
    assert!(added.contains("6 Strix Points"));
    // The duplicate does not raise the score again.
    let again = s.handle_profile_command("u1".to_string(), "Ann".to_string(), add);
    assert!(again.contains("6 Strix Points"));
    let show = s.handle_profile_command("u1".to_string(), "Ann".to_string(), vec!["profile".to_string()]);
    assert!(show.contains("Interests: board games"));
    assert!(show.contains("Strix Points: 6"));
    let hint = s.handle_profile_command(
        "u1".to_string(),
        "Ann".to_string(),
        vec!["profile".to_string(), "update".to_string()],
    );
    assert!(hint.contains("profile add [interest]"));
}

#[test]
fn command_dispatch_routes_subcommands() {
    let mut s = PingPairState::new();
    let wrong = s.handle_command(
        msg("u1", "Ann", None),
        Context { mentioned: true },
        "other".to_string(),
        vec![],
        10,
    );
    assert!(wrong.contains("Unknown command"));
    let help = s.handle_command(
        msg("u1", "Ann", None),
        Context { mentioned: true },
        "pingpair".to_string(),
        vec![],
        10,
    );
    assert!(help.contains("PingPair Help Menu"));
    let start = s.handle_command(
        msg("u1", "Ann", None),
        Context { mentioned: true },
        "pingpair".to_string(),
        vec!["start".to_string()],
        10,
    );
    assert!(start.contains("Great news, Ann!"));
    let stats = s.handle_command(
        msg("u1", "Ann", None),
        Context { mentioned: true },
        "pingpair".to_string(),
        vec!["stats".to_string()],
        10,
    );
    assert!(stats.contains("Strix Network Score"));
    let odd = s.handle_command(
        msg("u1", "Ann", None),
        Context { mentioned: true },
        "pingpair".to_string(),
        vec!["dance".to_string()],
        10,
    );
    assert!(odd.contains("Unknown subcommand"));
}
