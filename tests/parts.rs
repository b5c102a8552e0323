use bunnylol::command::{BunnylolCommandInfo, Command, UrlRule};
use bunnylol::text::{get_command_args, get_command_from_query_string, starts_with, str_eq};
use bunnylol::{BunnylolCommandRegistry, RegistryError, StockCommand};

fn cmd(bindings: &[&str], url: &str) -> Command {
    Command {
        info: BunnylolCommandInfo {
            bindings: bindings.iter().map(|b| b.to_string()).collect(),
            description: "d".to_string(),
            example: "e".to_string(),
        },
        rule: UrlRule::Fixed { url: url.to_string() },
    }
}

#[test]
fn first_token_and_arguments() {
    assert_eq!(get_command_from_query_string("gh mbinns"), "gh");
    assert_eq!(get_command_from_query_string("  gh\tx"), "gh");
    assert_eq!(get_command_from_query_string(""), "");
    assert_eq!(get_command_args("gh  a b  "), "a b");
    assert_eq!(get_command_args("gh"), "");
}

#[test]
fn prefix_and_equality() {
    assert!(starts_with("https://x", "https://"));
    assert!(!starts_with("http", "https://"));
    assert!(str_eq("ab", "ab"));
    assert!(!str_eq("ab", "abc"));
}

#[test]
fn ticker_url_is_encoded() {
    assert_eq!(StockCommand::process_ticker("$BRK.B"), "https://finance.yahoo.com/quote/BRK%2EB");
    assert_eq!(BunnylolCommandRegistry::process_prefix_commands("$"), None);
    assert_eq!(BunnylolCommandRegistry::process_prefix_commands("gh"), None);
}

#[test]
fn duplicate_binding_is_refused() {
    let r = BunnylolCommandRegistry::from_commands(vec![cmd(&["a", "b"], "https://a"), cmd(&["c", "b"], "https://c")]);
    assert_eq!(r.err(), Some(RegistryError::DuplicateBinding));
}

#[test]
fn empty_binding_is_refused() {
    let r = BunnylolCommandRegistry::from_commands(vec![cmd(&["a", ""], "https://a")]);
    assert_eq!(r.err(), Some(RegistryError::EmptyBinding));
}

#[test]
fn custom_registry_routes_and_shares_nothing() {
    let reg = BunnylolCommandRegistry::from_commands(vec![cmd(&["a", "aa"], "https://a"), cmd(&["c"], "https://c")])
        .expect("distinct bindings");
    assert_eq!(reg.lookup("aa"), Some(0));
    assert_eq!(reg.lookup("c"), Some(1));
    assert_eq!(reg.lookup("b"), None);
    assert_eq!(reg.process_command("c", "c x"), "https://c");
    assert_eq!(reg.process_command("b", "b"), "https://www.google.com/search?q=b");
}
