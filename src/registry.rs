//! The command registry and the router that resolves typed commands.
use vstd::prelude::*;
use vstd::string::*;
use crate::command::{apply_rule, rule_url, ticker_url, BunnylolCommandInfo, Command, StockCommand, UrlRule};
use crate::config::{expand_alias, google_search, search_base, BunnylolConfig};
use crate::encode::{encode_query, query_value};
use crate::text::{first_token, get_command_from_query_string, str_eq};

verus! {

/// Why a set of commands cannot form a registry.
#[derive(Debug, PartialEq, Eq, Structural)]
pub enum RegistryError {
    /// A command declares an empty binding.
    EmptyBinding,
    /// Two commands declare the same binding.
    DuplicateBinding,
}

/// Whether `b` is one of the bindings that `info` declares.
pub open spec fn binds(info: BunnylolCommandInfo, b: Seq<char>) -> bool {
    exists|k: int| #![trigger info.bindings@[k]] 0 <= k < info.bindings@.len() && info.bindings@[k]@ == b
}

/// Every declared binding is non-empty.
pub open spec fn bindings_nonempty(infos: Seq<BunnylolCommandInfo>) -> bool {
    forall|i: int, k: int|
        0 <= i < infos.len() && 0 <= k < infos[i].bindings@.len()
            ==> #[trigger] infos[i].bindings@[k]@.len() > 0
}

/// No binding of a command is declared by an earlier command; so no two
/// distinct commands share a binding.
pub open spec fn bindings_unique(infos: Seq<BunnylolCommandInfo>) -> bool {
    forall|i: int, j: int, k: int|
        0 <= j < i < infos.len() && 0 <= k < infos[i].bindings@.len()
            ==> !#[trigger] binds(infos[j], infos[i].bindings@[k]@)
}

/// The descriptors of a list of commands.
pub open spec fn infos_of(commands: Seq<Command>) -> Seq<BunnylolCommandInfo> {
    commands.map_values(|c: Command| c.info)
}

/// A token that is dispatched on its leading `$` (a stock ticker), ahead of
/// the registry; `$` alone is not one.
pub open spec fn is_prefix_command(token: Seq<char>) -> bool {
    token.len() > 1 && token[0] == '$'
}

/// Where input that matches no command goes: the configured search engine, or
/// Google without a configuration, with the whole input as the query.
pub open spec fn default_search_url(config: Option<&BunnylolConfig>, full: Seq<char>) -> Seq<char> {
    match config {
        Some(c) => search_base(c.default_search@) + query_value(full),
        None => google_search() + query_value(full),
    }
}

proof fn lemma_unique_owner(infos: Seq<BunnylolCommandInfo>, a: int, c: int, b: Seq<char>)
    requires
        bindings_unique(infos),
        0 <= a < infos.len(),
        0 <= c < infos.len(),
        binds(infos[a], b),
        binds(infos[c], b),
    ensures
        a == c,
{
    let ka = choose|k: int| 0 <= k < infos[a].bindings@.len() && infos[a].bindings@[k]@ == b;
    let kc = choose|k: int| 0 <= k < infos[c].bindings@.len() && infos[c].bindings@[k]@ == b;
    if c < a {
        assert(!binds(infos[c], infos[a].bindings@[ka]@));
    } else if a < c {
        assert(!binds(infos[a], infos[c].bindings@[kc]@));
    }
}

/// Whether `info` declares the binding `b`.
fn binds_exec(info: &BunnylolCommandInfo, b: &str) -> (r: bool)
    ensures
        r == binds(*info, b@),
{
    let m = info.bindings.len();
    let mut k: usize = 0;
    while k < m
        invariant
            m == info.bindings@.len(),
            k <= m,
            forall|l: int| 0 <= l < k ==> info.bindings@[l]@ != b@,
        decreases m - k,
    {
        if str_eq(info.bindings[k].as_str(), b) {
            return true;
        }
        k = k + 1;
    }
    false
}

/// Whether one of the first `i` descriptors declares the binding `b`.
fn bound_before(infos: &Vec<BunnylolCommandInfo>, i: usize, b: &str) -> (r: bool)
    requires
        i <= infos@.len(),
    ensures
        r == exists|j: int| 0 <= j < i && #[trigger] binds(infos@[j], b@),
{
    let mut j: usize = 0;
    while j < i
        invariant
            i <= infos@.len(),
            j <= i,
            forall|l: int| 0 <= l < j ==> !#[trigger] binds(infos@[l], b@),
        decreases i - j,
    {
        if binds_exec(&infos[j], b) {
            return true;
        }
        j = j + 1;
    }
    false
}

/// Checks that every binding is non-empty and that no two commands share one.
fn check_bindings(infos: &Vec<BunnylolCommandInfo>) -> (r: Result<(), RegistryError>)
    ensures
        r is Ok <==> bindings_nonempty(infos@) && bindings_unique(infos@),
        r == Err::<(), RegistryError>(RegistryError::EmptyBinding) ==> !bindings_nonempty(infos@),
        r == Err::<(), RegistryError>(RegistryError::DuplicateBinding) ==> !bindings_unique(infos@),
{
    let n = infos.len();
    let mut i: usize = 0;
    while i < n
        invariant
            n == infos@.len(),
            i <= n,
            forall|a: int, k: int|
                0 <= a < i && 0 <= k < infos@[a].bindings@.len()
                    ==> #[trigger] infos@[a].bindings@[k]@.len() > 0,
            forall|a: int, j: int, k: int|
                0 <= j < a < i && 0 <= k < infos@[a].bindings@.len()
                    ==> !#[trigger] binds(infos@[j], infos@[a].bindings@[k]@),
        decreases n - i,
    {
        let m = infos[i].bindings.len();
        let mut k: usize = 0;
        while k < m
            invariant
                n == infos@.len(),
                i < n,
                m == infos@[i as int].bindings@.len(),
                k <= m,
                forall|a: int, l: int|
                    0 <= a < i && 0 <= l < infos@[a].bindings@.len()
                        ==> #[trigger] infos@[a].bindings@[l]@.len() > 0,
                forall|a: int, j: int, l: int|
                    0 <= j < a < i && 0 <= l < infos@[a].bindings@.len()
                        ==> !#[trigger] binds(infos@[j], infos@[a].bindings@[l]@),
                forall|l: int| 0 <= l < k ==> #[trigger] infos@[i as int].bindings@[l]@.len() > 0,
                forall|j: int, l: int|
                    0 <= j < i && 0 <= l < k
                        ==> !#[trigger] binds(infos@[j], infos@[i as int].bindings@[l]@),
            decreases m - k,
        {
            let b = infos[i].bindings[k].as_str();
            if b.unicode_len() == 0 {
                assert(infos@[i as int].bindings@[k as int]@.len() == 0);
                return Err(RegistryError::EmptyBinding);
            }
            if bound_before(infos, i, b) {
                proof {
                    let j = choose|j: int| 0 <= j < i && #[trigger] binds(infos@[j], b@);
                    assert(binds(infos@[j], infos@[i as int].bindings@[k as int]@));
                }
                return Err(RegistryError::DuplicateBinding);
            }
            k = k + 1;
        }
        i = i + 1;
    }
    Ok(())
}

/// All commands, by binding, and their descriptors for presentation. Built
/// once and read-only afterwards.
pub struct BunnylolCommandRegistry {
    infos: Vec<BunnylolCommandInfo>,
    rules: Vec<UrlRule>,
}

impl BunnylolCommandRegistry {
    /// The descriptors of the registered commands, in registration order.
    pub closed spec fn descriptors(&self) -> Seq<BunnylolCommandInfo> {
        self.infos@
    }

    /// The rules of the registered commands, in registration order.
    pub closed spec fn rules(&self) -> Seq<UrlRule> {
        self.rules@
    }

    /// One rule per descriptor; bindings non-empty and unique.
    pub open spec fn wf(&self) -> bool {
        &&& self.descriptors().len() == self.rules().len()
        &&& bindings_nonempty(self.descriptors())
        &&& bindings_unique(self.descriptors())
    }

    /// The index of the command that declares the binding `b`, if any.
    pub open spec fn lookup_spec(&self, b: Seq<char>) -> Option<int> {
        if exists|i: int| 0 <= i < self.descriptors().len() && #[trigger] binds(self.descriptors()[i], b) {
            Some(choose|i: int| 0 <= i < self.descriptors().len() && #[trigger] binds(self.descriptors()[i], b))
        } else {
            None
        }
    }

    /// Where the command token `token`, typed as `full`, leads: a prefix
    /// command first, then the registered command that it binds, else the
    /// default search.
    pub open spec fn command_url(
        &self,
        token: Seq<char>,
        full: Seq<char>,
        config: Option<&BunnylolConfig>,
    ) -> Seq<char> {
        if is_prefix_command(token) {
            ticker_url(token.drop_first())
        } else {
            match self.lookup_spec(token) {
                Some(i) => rule_url(self.rules()[i], full),
                None => default_search_url(config, full),
            }
        }
    }

    /// Where the typed input `raw` leads: user aliases first, then the route
    /// of the first token of the result.
    pub open spec fn resolved_url(&self, raw: Seq<char>, config: Option<&BunnylolConfig>) -> Seq<char> {
        let e = match config {
            Some(c) => expand_alias(c.aliases@, raw),
            None => raw,
        };
        self.command_url(first_token(e), e, config)
    }

    /// A registry of `commands`, refused when a binding is empty or shared by
    /// two commands.
    pub fn from_commands(commands: Vec<Command>) -> (r: Result<Self, RegistryError>)
        ensures
            r is Ok <==> bindings_nonempty(infos_of(commands@)) && bindings_unique(infos_of(commands@)),
            r matches Ok(reg) ==> {
                &&& reg.wf()
                &&& reg.descriptors() == infos_of(commands@)
                &&& reg.rules() == commands@.map_values(|c: Command| c.rule)
            },
            r matches Err(e) ==> (e == RegistryError::EmptyBinding ==> !bindings_nonempty(infos_of(commands@))),
            r matches Err(e) ==> (e == RegistryError::DuplicateBinding ==> !bindings_unique(infos_of(commands@))),
    {
        let ghost all = commands@;
        let n = commands.len();
        let mut rest = commands;
        let mut infos: Vec<BunnylolCommandInfo> = Vec::new();
        let mut rules: Vec<UrlRule> = Vec::new();
        let mut i: usize = 0;
        while i < n
            invariant
                n == all.len(),
                i <= n,
                rest@ == all.subrange(i as int, n as int),
                infos@ == infos_of(all.subrange(0, i as int)),
                rules@ == all.subrange(0, i as int).map_values(|c: Command| c.rule),
            decreases n - i,
        {
            let c = rest.remove(0);
            proof {
                assert(all.subrange(0, i + 1) == all.subrange(0, i as int).push(c));
            }
            infos.push(c.info);
            rules.push(c.rule);
            i = i + 1;
            proof {
                assert(infos@ =~= infos_of(all.subrange(0, i as int)));
                assert(rules@ =~= all.subrange(0, i as int).map_values(|c: Command| c.rule));
            }
        }
        proof {
            assert(all.subrange(0, n as int) == all);
        }
        match check_bindings(&infos) {
            Ok(()) => Ok(BunnylolCommandRegistry { infos, rules }),
            Err(e) => Err(e),
        }
    }

    /// The index of the command that declares the binding `token`, if any.
    pub fn lookup(&self, token: &str) -> (r: Option<usize>)
        requires
            self.wf(),
        ensures
            match r {
                Some(i) => self.lookup_spec(token@) == Some(i as int),
                None => self.lookup_spec(token@) is None,
            },
    {
        let n = self.infos.len();
        let mut i: usize = 0;
        while i < n
            invariant
                self.wf(),
                n == self.descriptors().len(),
                n == self.infos@.len(),
                i <= n,
                forall|a: int| 0 <= a < i ==> !#[trigger] binds(self.descriptors()[a], token@),
            decreases n - i,
        {
            if binds_exec(&self.infos[i], token) {
                proof {
                    let c = choose|c: int| 0 <= c < self.descriptors().len() && #[trigger] binds(self.descriptors()[c], token@);
                    lemma_unique_owner(self.descriptors(), i as int, c, token@);
                }
                return Some(i);
            }
            i = i + 1;
        }
        None
    }

    /// The descriptors of all registered commands, in registration order.
    pub fn get_all_commands(&self) -> (r: &Vec<BunnylolCommandInfo>)
        ensures
            r@ == self.descriptors(),
    {
        &self.infos
    }

    /// The destination of a prefix command (`$` and a ticker), or nothing
    /// when `command` is not one.
    pub fn process_prefix_commands(command: &str) -> (r: Option<String>)
        ensures
            match r {
                Some(u) => is_prefix_command(command@) && u@ == ticker_url(command@.drop_first()),
                None => !is_prefix_command(command@),
            },
    {
        if command.unicode_len() > 1 && command.get_char(0) == '$' {
            Some(StockCommand::process_ticker(command))
        } else {
            None
        }
    }

    /// The destination of the command token `command`, typed as `full_args`,
    /// without a configuration.
    pub fn process_command(&self, command: &str, full_args: &str) -> (r: String)
        requires
            self.wf(),
        ensures
            r@ == self.command_url(command@, full_args@, None),
    {
        self.process_command_with_config(command, full_args, None)
    }

    /// The destination of the command token `command`, typed as `full_args`,
    /// with the search engine of `config` as the fallback.
    pub fn process_command_with_config(
        &self,
        command: &str,
        full_args: &str,
        config: Option<&BunnylolConfig>,
    ) -> (r: String)
        requires
            self.wf(),
        ensures
            r@ == self.command_url(command@, full_args@, config),
    {
        if let Some(url) = Self::process_prefix_commands(command) {
            return url;
        }
        match self.lookup(command) {
            Some(i) => apply_rule(&self.rules[i], full_args),
            None => match config {
                Some(cfg) => cfg.get_search_url(full_args),
                None => {
                    let e = encode_query(full_args);
                    let mut r = String::from_str("https://www.google.com/search?q=");
                    r.append(e.as_str());
                    r
                },
            },
        }
    }

    /// The destination of the typed input `raw`: user aliases of `config`
    /// first, then the route of the first token.
    pub fn resolve(&self, raw: &str, config: Option<&BunnylolConfig>) -> (r: String)
        requires
            self.wf(),
        ensures
            r@ == self.resolved_url(raw@, config),
    {
        let expanded = match config {
            Some(cfg) => cfg.resolve_command(raw),
            None => String::from_str(raw),
        };
        let token = get_command_from_query_string(expanded.as_str());
        self.process_command_with_config(token, expanded.as_str(), config)
    }
}

/// Every binding that a registered command declares is looked up to that
/// command, whose descriptor lists the binding.
pub proof fn lemma_binding_round_trip(reg: &BunnylolCommandRegistry, i: int, k: int)
    requires
        reg.wf(),
        0 <= i < reg.descriptors().len(),
        0 <= k < reg.descriptors()[i].bindings@.len(),
    ensures
        reg.lookup_spec(reg.descriptors()[i].bindings@[k]@) == Some(i),
        binds(reg.descriptors()[i], reg.descriptors()[i].bindings@[k]@),
{
    let infos = reg.descriptors();
    let b = infos[i].bindings@[k]@;
    assert(binds(infos[i], b));
    let c = choose|c: int| 0 <= c < infos.len() && #[trigger] binds(infos[c], b);
    lemma_unique_owner(infos, i, c, b);
}

/// No two distinct registered commands share a binding.
pub proof fn lemma_no_shared_binding(reg: &BunnylolCommandRegistry, i: int, j: int, k: int, l: int)
    requires
        reg.wf(),
        0 <= i < reg.descriptors().len(),
        0 <= j < reg.descriptors().len(),
        0 <= k < reg.descriptors()[i].bindings@.len(),
        0 <= l < reg.descriptors()[j].bindings@.len(),
        reg.descriptors()[i].bindings@[k]@ == reg.descriptors()[j].bindings@[l]@,
    ensures
        i == j,
{
    let infos = reg.descriptors();
    assert(binds(infos[i], infos[i].bindings@[k]@));
    assert(binds(infos[j], infos[j].bindings@[l]@));
    lemma_unique_owner(infos, i, j, infos[i].bindings@[k]@);
}

/// Empty input goes to the default search, whose URL is never empty.
pub proof fn lemma_empty_input_searches(reg: &BunnylolCommandRegistry, config: Option<&BunnylolConfig>)
    requires
        reg.wf(),
    ensures
        reg.command_url(Seq::empty(), Seq::empty(), config) == default_search_url(config, Seq::empty()),
        reg.resolved_url(Seq::empty(), None) == default_search_url(None, Seq::empty()),
        default_search_url(config, Seq::empty()).len() > 0,
{
    let infos = reg.descriptors();
    let e = Seq::<char>::empty();
    if exists|i: int| 0 <= i < infos.len() && #[trigger] binds(infos[i], e) {
        let i = choose|i: int| 0 <= i < infos.len() && #[trigger] binds(infos[i], e);
        let k = choose|k: int| 0 <= k < infos[i].bindings@.len() && infos[i].bindings@[k]@ == e;
        assert(infos[i].bindings@[k]@.len() > 0);
    }
    assert(first_token(e) == e);
    reveal_strlit("https://www.google.com/search?q=");
    reveal_strlit("https://duckduckgo.com/?q=");
    reveal_strlit("https://www.bing.com/search?q=");
}

/// A `$`-prefixed token with a ticker goes to that ticker's quote page,
/// whatever the registry holds, and not to the default search.
pub proof fn lemma_ticker_dispatch(
    reg: &BunnylolCommandRegistry,
    token: Seq<char>,
    full: Seq<char>,
    config: Option<&BunnylolConfig>,
)
    requires
        is_prefix_command(token),
    ensures
        reg.command_url(token, full, config) == ticker_url(token.drop_first()),
        ticker_url(token.drop_first()) != default_search_url(None, full),
{
    reveal_strlit("https://finance.yahoo.com/quote/");
    reveal_strlit("https://www.google.com/search?q=");
    assert(ticker_url(token.drop_first())[8] == 'f');
    assert(default_search_url(None, full)[8] == 'w');
}

/// `$` alone is no prefix command: unless it is a binding, it goes to the
/// default search.
pub proof fn lemma_bare_sentinel_searches(reg: &BunnylolCommandRegistry, config: Option<&BunnylolConfig>)
    requires
        reg.wf(),
        reg.lookup_spec(seq!['$']) is None,
    ensures
        reg.command_url(seq!['$'], seq!['$'], config) == default_search_url(config, seq!['$']),
{
}

/// A token that is neither a prefix command nor a binding goes to the
/// default search with the whole input as the query: Google's without a
/// configuration, the configured engine's with one.
pub proof fn lemma_unmatched_searches(
    reg: &BunnylolCommandRegistry,
    token: Seq<char>,
    full: Seq<char>,
    config: Option<&BunnylolConfig>,
)
    requires
        reg.wf(),
        !is_prefix_command(token),
        reg.lookup_spec(token) is None,
    ensures
        config is None ==> reg.command_url(token, full, config) == google_search() + query_value(full),
        config matches Some(c) ==> reg.command_url(token, full, config) == search_base(c.default_search@)
            + query_value(full),
{
}

proof fn lemma_expand_alias_at(aliases: Seq<(String, String)>, raw: Seq<char>, i: int)
    requires
        0 <= i < aliases.len(),
        aliases[i].0@ == raw,
        forall|j: int| 0 <= j < i ==> (#[trigger] aliases[j]).0@ != raw,
    ensures
        expand_alias(aliases, raw) == aliases[i].1@,
    decreases i,
{
    if i > 0 {
        let rest = aliases.drop_first();
        assert forall|j: int| 0 <= j < i - 1 implies (#[trigger] rest[j]).0@ != raw by {
            assert(rest[j] == aliases[j + 1]);
        }
        lemma_expand_alias_at(rest, raw, i - 1);
    }
}

/// An input that is a user alias is routed exactly as its expansion would
/// be, typed directly: by the first token of the expansion, with the
/// expansion as the whole input.
pub proof fn lemma_alias_routes_as_expansion(
    reg: &BunnylolCommandRegistry,
    config: &BunnylolConfig,
    raw: Seq<char>,
    i: int,
)
    requires
        0 <= i < config.aliases@.len(),
        config.aliases@[i].0@ == raw,
        forall|j: int| 0 <= j < i ==> (#[trigger] config.aliases@[j]).0@ != raw,
    ensures
        reg.resolved_url(raw, Some(config)) == reg.command_url(
            first_token(config.aliases@[i].1@),
            config.aliases@[i].1@,
            Some(config),
        ),
{
    lemma_expand_alias_at(config.aliases@, raw, i);
}

} // verus!
