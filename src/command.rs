//! Commands: their descriptors and the rules that turn arguments into URLs.
use vstd::prelude::*;
use vstd::string::*;
use crate::encode::{encode_query, query_value};
use crate::text::{command_args, get_command_args, starts_with};

verus! {

/// What a command shows of itself: the strings that invoke it, a description
/// and an example.
pub struct BunnylolCommandInfo {
    pub bindings: Vec<String>,
    pub description: String,
    pub example: String,
}

/// How a command builds its destination from its arguments.
pub enum UrlRule {
    /// Always the same page.
    Fixed { url: String },
    /// `home` without arguments; else `search` followed by the encoded arguments.
    Search { home: String, search: String },
    /// `home` without arguments; else `prefix` followed by the arguments as typed.
    Path { home: String, prefix: String },
    /// A website given by name or by URL.
    Open,
}

/// A command: its descriptor and its rule.
pub struct Command {
    pub info: BunnylolCommandInfo,
    pub rule: UrlRule,
}

/// Whether `p` is a prefix of `s`.
pub open spec fn has_prefix(s: Seq<char>, p: Seq<char>) -> bool {
    p.len() <= s.len() && s.subrange(0, p.len() as int) == p
}

/// Where `open` leads for the typed command `args`.
pub open spec fn open_url(args: Seq<char>) -> Seq<char> {
    let f = command_args(args);
    if f.len() == 0 {
        "https://"@
    } else if has_prefix(f, "http://"@) || has_prefix(f, "https://"@) {
        f
    } else {
        "https://"@ + f
    }
}

/// Where `rule` leads for the typed command `args` (command token included).
pub open spec fn rule_url(rule: UrlRule, args: Seq<char>) -> Seq<char> {
    let a = command_args(args);
    match rule {
        UrlRule::Fixed { url } => url@,
        UrlRule::Search { home, search } => if a.len() == 0 {
            home@
        } else {
            search@ + query_value(a)
        },
        UrlRule::Path { home, prefix } => if a.len() == 0 {
            home@
        } else {
            prefix@ + a
        },
        UrlRule::Open => open_url(args),
    }
}

/// The page of a stock ticker.
pub open spec fn ticker_url(ticker: Seq<char>) -> Seq<char> {
    "https://finance.yahoo.com/quote/"@ + query_value(ticker)
}

/// Opens an arbitrary website by its domain name or URL.
pub struct OpenCommand;

impl OpenCommand {
    /// `https://` and the site; a URL that already names `http` or `https` is
    /// kept as it is; without a site, `https://` alone.
    pub fn process_args(args: &str) -> (r: String)
        ensures
            r@ == open_url(args@),
    {
        let fqdn = get_command_args(args);
        if fqdn.unicode_len() == 0 {
            return String::from_str("https://");
        }
        if starts_with(fqdn, "http://") || starts_with(fqdn, "https://") {
            String::from_str(fqdn)
        } else {
            let mut r = String::from_str("https://");
            r.append(fqdn);
            r
        }
    }

    pub fn get_info() -> (r: BunnylolCommandInfo)
        ensures
            r.bindings@.len() == 1,
            r.bindings@[0]@ == "open"@,
            r.description@ == "Open an arbitrary website by FQDN"@,
            r.example@ == "open example.com"@,
    {
        let mut bindings: Vec<String> = Vec::new();
        bindings.push(String::from_str("open"));
        BunnylolCommandInfo {
            bindings,
            description: String::from_str("Open an arbitrary website by FQDN"),
            example: String::from_str("open example.com"),
        }
    }
}

/// Looks up stock quotes.
pub struct StockCommand;

impl StockCommand {
    /// The quote page for a `$`-prefixed ticker token such as `$AAPL`.
    pub fn process_ticker(command: &str) -> (r: String)
        requires
            command@.len() >= 1,
        ensures
            r@ == ticker_url(command@.drop_first()),
    {
        let n = command.unicode_len();
        let ticker = command.substring_char(1, n);
        let e = encode_query(ticker);
        let mut r = String::from_str("https://finance.yahoo.com/quote/");
        r.append(e.as_str());
        r
    }
}

/// Applies `rule` to the typed command `args`.
pub fn apply_rule(rule: &UrlRule, args: &str) -> (r: String)
    ensures
        r@ == rule_url(*rule, args@),
{
    match rule {
        UrlRule::Fixed { url } => url.clone(),
        UrlRule::Search { home, search } => {
            let a = get_command_args(args);
            if a.unicode_len() == 0 {
                home.clone()
            } else {
                let e = encode_query(a);
                let mut r = search.clone();
                r.append(e.as_str());
                r
            }
        },
        UrlRule::Path { home, prefix } => {
            let a = get_command_args(args);
            if a.unicode_len() == 0 {
                home.clone()
            } else {
                let mut r = prefix.clone();
                r.append(a);
                r
            }
        },
        UrlRule::Open => OpenCommand::process_args(args),
    }
}

} // verus!
