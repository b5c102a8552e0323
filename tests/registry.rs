use std::collections::HashMap;

use bunnylol::{BunnylolCommandRegistry, BunnylolConfig};

fn registry() -> BunnylolCommandRegistry {
    BunnylolCommandRegistry::new()
}

#[test]
fn test_command_lookup_contains_all_bindings() {
    let reg = registry();

    assert!(reg.lookup("gh").is_some());
    assert!(reg.lookup("ig").is_some());
    assert!(reg.lookup("instagram").is_some());
    assert!(reg.lookup("tw").is_some());
    assert!(reg.lookup("r").is_some());
    assert!(reg.lookup("reddit").is_some());

    let total: usize = reg.get_all_commands().iter().map(|c| c.bindings.len()).sum();
    assert!(total >= 83, "Expected at least 83 bindings, got {}", total);
}

#[test]
fn test_command_lookup_correctness() {
    let reg = registry();

    let gh = reg.lookup("gh").expect("GitHub command should exist");
    assert!(reg.get_all_commands()[gh].bindings.iter().any(|b| b == "github"));
    assert_eq!(reg.process_command("gh", "gh"), "https://github.com");

    let ig = reg.lookup("ig").expect("Instagram command should exist");
    assert!(reg.get_all_commands()[ig].bindings.iter().any(|b| b == "instagram"));
    assert_eq!(reg.process_command("ig", "ig"), "https://www.instagram.com");
}

#[test]
fn test_bindings_data_cache() {
    let reg = registry();
    let commands = reg.get_all_commands();

    assert_eq!(commands.len(), 47, "Expected 47 commands");

    let commands2 = reg.get_all_commands();
    assert!(std::ptr::eq(commands, commands2), "Cache should return same reference");
}

#[test]
fn test_no_binding_collisions() {
    let reg = registry();
    let commands = reg.get_all_commands();
    let mut binding_to_command: HashMap<&str, &str> = HashMap::new();
    let mut collisions: Vec<String> = Vec::new();

    for cmd_info in commands {
        for binding in &cmd_info.bindings {
            if let Some(existing_description) = binding_to_command.get(binding.as_str()) {
                collisions.push(format!(
                    "Binding '{}' is used by both '{}' and '{}'",
                    binding, existing_description, cmd_info.description
                ));
            } else {
                binding_to_command.insert(binding, &cmd_info.description);
            }
        }
    }

    assert!(collisions.is_empty(), "Found binding collisions:\n{}", collisions.join("\n"));
}

#[test]
fn test_search_resolves_aliases() {
    let reg = registry();
    let mut config = BunnylolConfig::new();
    config.set_alias("work".to_string(), "gh mbinns".to_string());

    assert_eq!(reg.resolve("work", Some(&config)), "https://github.com/mbinns");
}

#[test]
fn every_binding_looks_up_its_own_command() {
    let reg = registry();
    for (i, info) in reg.get_all_commands().iter().enumerate() {
        for b in &info.bindings {
            assert_eq!(reg.lookup(b), Some(i), "binding {}", b);
        }
    }
}

#[test]
fn listing_twice_gives_equal_content() {
    let reg = registry();
    let first: Vec<(Vec<String>, String, String)> = reg
        .get_all_commands()
        .iter()
        .map(|c| (c.bindings.clone(), c.description.clone(), c.example.clone()))
        .collect();
    let second: Vec<(Vec<String>, String, String)> = reg
        .get_all_commands()
        .iter()
        .map(|c| (c.bindings.clone(), c.description.clone(), c.example.clone()))
        .collect();
    assert_eq!(first, second);
}

#[test]
fn empty_input_goes_to_default_search() {
    let reg = registry();
    let url = reg.process_command("", "");
    assert_eq!(url, "https://www.google.com/search?q=");
    assert_eq!(reg.resolve("", None), "https://www.google.com/search?q=");
}

#[test]
fn bare_dollar_is_not_a_prefix_command() {
    let reg = registry();
    assert_eq!(reg.process_command("$", "$"), "https://www.google.com/search?q=%24");
}

#[test]
fn dollar_ticker_goes_to_quote_page() {
    let reg = registry();
    let url = reg.process_command("$AAPL", "$AAPL");
    assert_eq!(url, "https://finance.yahoo.com/quote/AAPL");
    assert!(!url.starts_with("https://www.google.com/search"));
}

#[test]
fn unknown_command_searches_google_with_raw_text() {
    let reg = registry();
    assert_eq!(
        reg.process_command("zzznotacommand", "zzznotacommand"),
        "https://www.google.com/search?q=zzznotacommand"
    );
    assert_eq!(
        reg.process_command("hello", "hello world?"),
        "https://www.google.com/search?q=hello%20world%3F"
    );
}

#[test]
fn alias_routes_like_its_expansion() {
    let reg = registry();
    let mut config = BunnylolConfig::new();
    config.set_alias("work".to_string(), "gh mbinns".to_string());
    assert_eq!(
        reg.resolve("work", Some(&config)),
        reg.process_command_with_config("gh", "gh mbinns", Some(&config))
    );
}

#[test]
fn alias_is_expanded_once() {
    let reg = registry();
    let mut config = BunnylolConfig::new();
    config.set_alias("a".to_string(), "b".to_string());
    config.set_alias("b".to_string(), "gh x".to_string());
    assert_eq!(config.resolve_command("a"), "b");
    assert_eq!(reg.resolve("a", Some(&config)), "https://www.google.com/search?q=b");
    assert_eq!(reg.resolve("b", Some(&config)), "https://github.com/x");
}

#[test]
fn set_alias_replaces_earlier_expansion() {
    let mut config = BunnylolConfig::new();
    config.set_alias("w".to_string(), "gh one".to_string());
    config.set_alias("w".to_string(), "gh two".to_string());
    assert_eq!(config.resolve_command("w"), "gh two");
    assert_eq!(config.resolve_command("other"), "other");
}

#[test]
fn custom_search_engine_is_used_for_unmatched_input() {
    let reg = registry();
    let mut config = BunnylolConfig::new();
    config.default_search = "https://search.example/?q=".to_string();
    assert_eq!(
        reg.process_command_with_config("zzz", "zzz a", Some(&config)),
        "https://search.example/?q=zzz%20a"
    );
    config.default_search = "ddg".to_string();
    assert_eq!(
        reg.process_command_with_config("zzz", "zzz", Some(&config)),
        "https://duckduckgo.com/?q=zzz"
    );
    config.default_search = "bing".to_string();
    assert_eq!(
        reg.process_command_with_config("zzz", "zzz", Some(&config)),
        "https://www.bing.com/search?q=zzz"
    );
}

#[test]
fn matched_command_ignores_configured_engine() {
    let reg = registry();
    let mut config = BunnylolConfig::new();
    config.default_search = "bing".to_string();
    assert_eq!(
        reg.process_command_with_config("gh", "gh facebook/react", Some(&config)),
        "https://github.com/facebook/react"
    );
}

#[test]
fn search_rule_encodes_arguments() {
    let reg = registry();
    assert_eq!(reg.process_command("yt", "yt rust talks"), "https://www.youtube.com/results?search_query=rust%20talks");
    assert_eq!(reg.process_command("yt", "yt"), "https://www.youtube.com");
    assert_eq!(reg.process_command("g", "g é"), "https://www.google.com/search?q=%C3%A9");
}

#[test]
fn fixed_rule_ignores_arguments() {
    let reg = registry();
    assert_eq!(reg.process_command("gmail", "gmail anything"), "https://mail.google.com");
}

#[test]
fn registered_open_command_routes() {
    let reg = registry();
    assert_eq!(reg.process_command("open", "open example.com"), "https://example.com");
}

#[test]
fn open_trims_unicode_whitespace() {
    let reg = registry();
    assert_eq!(reg.process_command("open", "open \u{A0}example.com\u{3000}"), "https://example.com");
}
