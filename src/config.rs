//! User configuration: the default search engine and user aliases.
use vstd::prelude::*;
use vstd::string::*;
use crate::encode::{encode_query, query_value};
use crate::text::str_eq;

verus! {

/// The built-in search, used when nothing else is configured.
pub open spec fn google_search() -> Seq<char> {
    "https://www.google.com/search?q="@
}

/// The URL to which an encoded query is appended, for the search engine
/// `engine` names: `google`, `ddg` (or `duckduckgo`) or `bing`; any other
/// non-empty value is itself that URL; an empty one means Google.
pub open spec fn search_base(engine: Seq<char>) -> Seq<char> {
    if engine == "ddg"@ || engine == "duckduckgo"@ {
        "https://duckduckgo.com/?q="@
    } else if engine == "bing"@ {
        "https://www.bing.com/search?q="@
    } else if engine.len() == 0 || engine == "google"@ {
        google_search()
    } else {
        engine
    }
}

/// `raw` after user-alias substitution: the expansion of the first alias
/// whose name is exactly `raw`, else `raw` itself. Expansions are not
/// expanded again.
pub open spec fn expand_alias(aliases: Seq<(String, String)>, raw: Seq<char>) -> Seq<char>
    decreases aliases.len(),
{
    if aliases.len() == 0 {
        raw
    } else if aliases[0].0@ == raw {
        aliases[0].1@
    } else {
        expand_alias(aliases.drop_first(), raw)
    }
}

/// What the resolution core reads of the user's configuration.
pub struct BunnylolConfig {
    /// A search engine name, or a search URL to which the query is appended.
    pub default_search: String,
    /// User aliases, as (alias, expansion) pairs.
    pub aliases: Vec<(String, String)>,
}

impl BunnylolConfig {
    /// Google as the search engine, and no aliases.
    pub fn new() -> (r: Self)
        ensures
            r.default_search@ == "google"@,
            r.aliases@.len() == 0,
    {
        BunnylolConfig { default_search: String::from_str("google"), aliases: Vec::new() }
    }

    /// Makes `alias` expand to `expansion`, in place of what it expanded to before.
    pub fn set_alias(&mut self, alias: String, expansion: String)
        ensures
            final(self).default_search == old(self).default_search,
            forall|raw: Seq<char>|
                expand_alias(final(self).aliases@, raw) == if raw == alias@ {
                    expansion@
                } else {
                    expand_alias(old(self).aliases@, raw)
                },
    {
        let ghost a = alias@;
        let ghost e = expansion@;
        self.aliases.insert(0, (alias, expansion));
        assert(self.aliases@.drop_first() == old(self).aliases@);
        assert forall|raw: Seq<char>|
            expand_alias(self.aliases@, raw) == if raw == a {
                e
            } else {
                expand_alias(old(self).aliases@, raw)
            } by {}
    }

    /// The search destination for `query` under the configured engine.
    pub fn get_search_url(&self, query: &str) -> (r: String)
        ensures
            r@ == search_base(self.default_search@) + query_value(query@),
    {
        let engine = self.default_search.as_str();
        let mut r = if str_eq(engine, "ddg") || str_eq(engine, "duckduckgo") {
            String::from_str("https://duckduckgo.com/?q=")
        } else if str_eq(engine, "bing") {
            String::from_str("https://www.bing.com/search?q=")
        } else if engine.unicode_len() == 0 || str_eq(engine, "google") {
            String::from_str("https://www.google.com/search?q=")
        } else {
            self.default_search.clone()
        };
        let e = encode_query(query);
        r.append(e.as_str());
        r
    }

    /// The typed command `raw` after user-alias substitution.
    pub fn resolve_command(&self, raw: &str) -> (r: String)
        ensures
            r@ == expand_alias(self.aliases@, raw@),
    {
        let n = self.aliases.len();
        let mut i: usize = 0;
        assert(self.aliases@ == self.aliases@.subrange(0, n as int));
        while i < n
            invariant
                n == self.aliases@.len(),
                i <= n,
                expand_alias(self.aliases@.subrange(i as int, n as int), raw@)
                    == expand_alias(self.aliases@, raw@),
            decreases n - i,
        {
            proof {
                assert(self.aliases@.subrange(i as int, n as int).drop_first()
                    == self.aliases@.subrange(i + 1, n as int));
            }
            if str_eq(self.aliases[i].0.as_str(), raw) {
                return self.aliases[i].1.clone();
            }
            i = i + 1;
        }
        String::from_str(raw)
    }
}

} // verus!
