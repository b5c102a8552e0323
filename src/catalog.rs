//! The built-in commands.
use vstd::prelude::*;
use vstd::string::*;
use crate::command::{BunnylolCommandInfo, Command, OpenCommand, UrlRule};
use crate::registry::{bindings_nonempty, bindings_unique, binds, infos_of, BunnylolCommandRegistry};

verus! {

/// The number of built-in commands.
pub const BUILTIN_COUNT: usize = 47;

/// The bindings that a descriptor declares, as character sequences.
pub open spec fn bindings_of(info: BunnylolCommandInfo) -> Seq<Seq<char>> {
    info.bindings@.map_values(|s: String| s@)
}

/// The bindings of the `i`-th built-in command.
pub open spec fn builtin_bindings(i: int) -> Seq<Seq<char>> {
    if i == 0 {
        seq!["bindings"@, "commands"@, "list"@, "help"@]
    } else if i == 1 {
        seq!["gh"@, "github"@]
    } else if i == 2 {
        seq!["gl"@, "gitlab"@]
    } else if i == 3 {
        seq!["tw"@, "twitter"@, "x"@]
    } else if i == 4 {
        seq!["r"@, "reddit"@]
    } else if i == 5 {
        seq!["mail"@, "gmail"@]
    } else if i == 6 {
        seq!["rei"@]
    } else if i == 7 {
        seq!["ig"@, "instagram"@]
    } else if i == 8 {
        seq!["li"@, "linkedin"@]
    } else if i == 9 {
        seq!["fb"@, "facebook"@]
    } else if i == 10 {
        seq!["threads"@, "th"@]
    } else if i == 11 {
        seq!["wa"@, "whatsapp"@]
    } else if i == 12 {
        seq!["meta"@]
    } else if i == 13 {
        seq!["cargo"@, "crates"@]
    } else if i == 14 {
        seq!["npm"@, "npmjs"@]
    } else if i == 15 {
        seq!["1p"@, "onepassword"@]
    } else if i == 16 {
        seq!["gemini"@]
    } else if i == 17 {
        seq!["chatgpt"@, "gpt"@]
    } else if i == 18 {
        seq!["rust"@]
    } else if i == 19 {
        seq!["hack"@]
    } else if i == 20 {
        seq!["az"@, "amazon"@]
    } else if i == 21 {
        seq!["yt"@, "youtube"@]
    } else if i == 22 {
        seq!["wiki"@, "wikipedia"@]
    } else if i == 23 {
        seq!["ddg"@, "duckduckgo"@]
    } else if i == 24 {
        seq!["schwab"@]
    } else if i == 25 {
        seq!["sc"@, "soundcloud"@]
    } else if i == 26 {
        seq!["stock"@, "stocks"@]
    } else if i == 27 {
        seq!["docs"@, "gdocs"@]
    } else if i == 28 {
        seq!["maps"@, "gmaps"@]
    } else if i == 29 {
        seq!["sheets"@, "gsheets"@]
    } else if i == 30 {
        seq!["slides"@, "gslides"@]
    } else if i == 31 {
        seq!["chat"@, "gchat"@]
    } else if i == 32 {
        seq!["g"@, "google"@]
    } else if i == 33 {
        seq!["brew"@, "homebrew"@]
    } else if i == 34 {
        seq!["choco"@, "chocolatey"@]
    } else if i == 35 {
        seq!["docker"@, "dockerhub"@]
    } else if i == 36 {
        seq!["godocs"@, "godoc"@]
    } else if i == 37 {
        seq!["gopkg"@, "gopkgs"@]
    } else if i == 38 {
        seq!["mdn"@]
    } else if i == 39 {
        seq!["node"@, "nodejs"@]
    } else if i == 40 {
        seq!["nuget"@]
    } else if i == 41 {
        seq!["open"@]
    } else if i == 42 {
        seq!["packagist"@, "composer"@]
    } else if i == 43 {
        seq!["pypi"@, "pip"@]
    } else if i == 44 {
        seq!["py"@, "python"@]
    } else if i == 45 {
        seq!["gem"@, "rubygems"@]
    } else {
        seq!["so"@, "stackoverflow"@]
    }
}

/// The description of the `i`-th built-in command.
pub open spec fn builtin_description(i: int) -> Seq<char> {
    if i == 0 {
        "List all available commands"@
    } else if i == 1 {
        "Navigate to GitHub users and repositories"@
    } else if i == 2 {
        "Navigate to GitLab users and projects"@
    } else if i == 3 {
        "Navigate to Twitter profiles"@
    } else if i == 4 {
        "Navigate to Reddit or a subreddit"@
    } else if i == 5 {
        "Navigate to Gmail"@
    } else if i == 6 {
        "Search REI"@
    } else if i == 7 {
        "Navigate to Instagram profiles"@
    } else if i == 8 {
        "Search LinkedIn"@
    } else if i == 9 {
        "Navigate to Facebook pages"@
    } else if i == 10 {
        "Navigate to Threads profiles"@
    } else if i == 11 {
        "Navigate to WhatsApp Web"@
    } else if i == 12 {
        "Navigate to Meta"@
    } else if i == 13 {
        "Search crates.io"@
    } else if i == 14 {
        "Search npm packages"@
    } else if i == 15 {
        "Navigate to 1Password"@
    } else if i == 16 {
        "Navigate to Gemini"@
    } else if i == 17 {
        "Navigate to ChatGPT"@
    } else if i == 18 {
        "Search the Rust standard library documentation"@
    } else if i == 19 {
        "Search the Hack documentation"@
    } else if i == 20 {
        "Search Amazon"@
    } else if i == 21 {
        "Search YouTube"@
    } else if i == 22 {
        "Search Wikipedia"@
    } else if i == 23 {
        "Search DuckDuckGo"@
    } else if i == 24 {
        "Navigate to Charles Schwab"@
    } else if i == 25 {
        "Search SoundCloud"@
    } else if i == 26 {
        "Look up a stock quote (also $TICKER)"@
    } else if i == 27 {
        "Navigate to Google Docs"@
    } else if i == 28 {
        "Search Google Maps"@
    } else if i == 29 {
        "Navigate to Google Sheets"@
    } else if i == 30 {
        "Navigate to Google Slides"@
    } else if i == 31 {
        "Navigate to Google Chat"@
    } else if i == 32 {
        "Search Google"@
    } else if i == 33 {
        "Search Homebrew formulae"@
    } else if i == 34 {
        "Search Chocolatey packages"@
    } else if i == 35 {
        "Search Docker Hub"@
    } else if i == 36 {
        "Search the Go documentation"@
    } else if i == 37 {
        "Search Go packages"@
    } else if i == 38 {
        "Search MDN Web Docs"@
    } else if i == 39 {
        "Search the Node.js documentation"@
    } else if i == 40 {
        "Search NuGet packages"@
    } else if i == 41 {
        "Open an arbitrary website by FQDN"@
    } else if i == 42 {
        "Search Packagist"@
    } else if i == 43 {
        "Search PyPI packages"@
    } else if i == 44 {
        "Search the Python documentation"@
    } else if i == 45 {
        "Search RubyGems"@
    } else {
        "Search Stack Overflow"@
    }
}

/// The example of the `i`-th built-in command.
pub open spec fn builtin_example(i: int) -> Seq<char> {
    if i == 0 {
        "bindings"@
    } else if i == 1 {
        "gh facebook/react"@
    } else if i == 2 {
        "gl gitlab-org"@
    } else if i == 3 {
        "tw rustlang"@
    } else if i == 4 {
        "r rust"@
    } else if i == 5 {
        "mail"@
    } else if i == 6 {
        "rei tent"@
    } else if i == 7 {
        "ig instagram"@
    } else if i == 8 {
        "li rust engineer"@
    } else if i == 9 {
        "fb meta"@
    } else if i == 10 {
        "threads zuck"@
    } else if i == 11 {
        "wa"@
    } else if i == 12 {
        "meta"@
    } else if i == 13 {
        "cargo serde"@
    } else if i == 14 {
        "npm react"@
    } else if i == 15 {
        "1p"@
    } else if i == 16 {
        "gemini"@
    } else if i == 17 {
        "chatgpt"@
    } else if i == 18 {
        "rust HashMap"@
    } else if i == 19 {
        "hack shapes"@
    } else if i == 20 {
        "az headphones"@
    } else if i == 21 {
        "yt rust talks"@
    } else if i == 22 {
        "wiki Rust"@
    } else if i == 23 {
        "ddg rust"@
    } else if i == 24 {
        "schwab"@
    } else if i == 25 {
        "sc lofi"@
    } else if i == 26 {
        "stock AAPL"@
    } else if i == 27 {
        "docs"@
    } else if i == 28 {
        "maps coffee"@
    } else if i == 29 {
        "sheets"@
    } else if i == 30 {
        "slides"@
    } else if i == 31 {
        "chat"@
    } else if i == 32 {
        "g rust lang"@
    } else if i == 33 {
        "brew wget"@
    } else if i == 34 {
        "choco git"@
    } else if i == 35 {
        "docker nginx"@
    } else if i == 36 {
        "godocs generics"@
    } else if i == 37 {
        "gopkg cobra"@
    } else if i == 38 {
        "mdn fetch"@
    } else if i == 39 {
        "node fs"@
    } else if i == 40 {
        "nuget newtonsoft"@
    } else if i == 41 {
        "open example.com"@
    } else if i == 42 {
        "packagist laravel"@
    } else if i == 43 {
        "pypi requests"@
    } else if i == 44 {
        "py asyncio"@
    } else if i == 45 {
        "gem rails"@
    } else {
        "so borrow checker"@
    }
}

/// Whether `rule` is the rule of the `i`-th built-in command.
pub open spec fn builtin_rule_ok(i: int, rule: UrlRule) -> bool {
    if i == 0 {
        rule matches UrlRule::Fixed { url } && url@ == "/"@
    } else if i == 1 {
        rule matches UrlRule::Path { home, prefix } && home@ == "https://github.com"@ && prefix@ == "https://github.com/"@
    } else if i == 2 {
        rule matches UrlRule::Path { home, prefix } && home@ == "https://gitlab.com"@ && prefix@ == "https://gitlab.com/"@
    } else if i == 3 {
        rule matches UrlRule::Path { home, prefix } && home@ == "https://twitter.com"@ && prefix@ == "https://twitter.com/"@
    } else if i == 4 {
        rule matches UrlRule::Path { home, prefix } && home@ == "https://www.reddit.com"@ && prefix@ == "https://www.reddit.com/r/"@
    } else if i == 5 {
        rule matches UrlRule::Fixed { url } && url@ == "https://mail.google.com"@
    } else if i == 6 {
        rule matches UrlRule::Search { home, search } && home@ == "https://www.rei.com"@ && search@ == "https://www.rei.com/search?q="@
    } else if i == 7 {
        rule matches UrlRule::Path { home, prefix } && home@ == "https://www.instagram.com"@ && prefix@ == "https://www.instagram.com/"@
    } else if i == 8 {
        rule matches UrlRule::Search { home, search } && home@ == "https://www.linkedin.com"@ && search@ == "https://www.linkedin.com/search/results/all/?keywords="@
    } else if i == 9 {
        rule matches UrlRule::Path { home, prefix } && home@ == "https://www.facebook.com"@ && prefix@ == "https://www.facebook.com/"@
    } else if i == 10 {
        rule matches UrlRule::Path { home, prefix } && home@ == "https://www.threads.net"@ && prefix@ == "https://www.threads.net/@"@
    } else if i == 11 {
        rule matches UrlRule::Fixed { url } && url@ == "https://web.whatsapp.com"@
    } else if i == 12 {
        rule matches UrlRule::Fixed { url } && url@ == "https://www.meta.com"@
    } else if i == 13 {
        rule matches UrlRule::Search { home, search } && home@ == "https://crates.io"@ && search@ == "https://crates.io/search?q="@
    } else if i == 14 {
        rule matches UrlRule::Search { home, search } && home@ == "https://www.npmjs.com"@ && search@ == "https://www.npmjs.com/search?q="@
    } else if i == 15 {
        rule matches UrlRule::Fixed { url } && url@ == "https://my.1password.com"@
    } else if i == 16 {
        rule matches UrlRule::Fixed { url } && url@ == "https://gemini.google.com"@
    } else if i == 17 {
        rule matches UrlRule::Fixed { url } && url@ == "https://chatgpt.com"@
    } else if i == 18 {
        rule matches UrlRule::Search { home, search } && home@ == "https://doc.rust-lang.org/std/"@ && search@ == "https://doc.rust-lang.org/std/?search="@
    } else if i == 19 {
        rule matches UrlRule::Search { home, search } && home@ == "https://docs.hhvm.com/hack/"@ && search@ == "https://docs.hhvm.com/search?term="@
    } else if i == 20 {
        rule matches UrlRule::Search { home, search } && home@ == "https://www.amazon.com"@ && search@ == "https://www.amazon.com/s?k="@
    } else if i == 21 {
        rule matches UrlRule::Search { home, search } && home@ == "https://www.youtube.com"@ && search@ == "https://www.youtube.com/results?search_query="@
    } else if i == 22 {
        rule matches UrlRule::Search { home, search } && home@ == "https://en.wikipedia.org"@ && search@ == "https://en.wikipedia.org/w/index.php?search="@
    } else if i == 23 {
        rule matches UrlRule::Search { home, search } && home@ == "https://duckduckgo.com"@ && search@ == "https://duckduckgo.com/?q="@
    } else if i == 24 {
        rule matches UrlRule::Fixed { url } && url@ == "https://client.schwab.com"@
    } else if i == 25 {
        rule matches UrlRule::Search { home, search } && home@ == "https://soundcloud.com"@ && search@ == "https://soundcloud.com/search?q="@
    } else if i == 26 {
        rule matches UrlRule::Search { home, search } && home@ == "https://finance.yahoo.com"@ && search@ == "https://finance.yahoo.com/quote/"@
    } else if i == 27 {
        rule matches UrlRule::Fixed { url } && url@ == "https://docs.google.com/document"@
    } else if i == 28 {
        rule matches UrlRule::Search { home, search } && home@ == "https://maps.google.com"@ && search@ == "https://www.google.com/maps/search/"@
    } else if i == 29 {
        rule matches UrlRule::Fixed { url } && url@ == "https://docs.google.com/spreadsheets"@
    } else if i == 30 {
        rule matches UrlRule::Fixed { url } && url@ == "https://docs.google.com/presentation"@
    } else if i == 31 {
        rule matches UrlRule::Fixed { url } && url@ == "https://chat.google.com"@
    } else if i == 32 {
        rule matches UrlRule::Search { home, search } && home@ == "https://www.google.com"@ && search@ == "https://www.google.com/search?q="@
    } else if i == 33 {
        rule matches UrlRule::Search { home, search } && home@ == "https://brew.sh"@ && search@ == "https://formulae.brew.sh/formula/"@
    } else if i == 34 {
        rule matches UrlRule::Search { home, search } && home@ == "https://community.chocolatey.org"@ && search@ == "https://community.chocolatey.org/packages?q="@
    } else if i == 35 {
        rule matches UrlRule::Search { home, search } && home@ == "https://hub.docker.com"@ && search@ == "https://hub.docker.com/search?q="@
    } else if i == 36 {
        rule matches UrlRule::Search { home, search } && home@ == "https://go.dev/doc/"@ && search@ == "https://go.dev/search?q="@
    } else if i == 37 {
        rule matches UrlRule::Search { home, search } && home@ == "https://pkg.go.dev"@ && search@ == "https://pkg.go.dev/search?q="@
    } else if i == 38 {
        rule matches UrlRule::Search { home, search } && home@ == "https://developer.mozilla.org"@ && search@ == "https://developer.mozilla.org/en-US/search?q="@
    } else if i == 39 {
        rule matches UrlRule::Search { home, search } && home@ == "https://nodejs.org/docs/latest/api/"@ && search@ == "https://nodejs.org/docs/latest/api/all.html#"@
    } else if i == 40 {
        rule matches UrlRule::Search { home, search } && home@ == "https://www.nuget.org"@ && search@ == "https://www.nuget.org/packages?q="@
    } else if i == 41 {
        rule is Open
    } else if i == 42 {
        rule matches UrlRule::Search { home, search } && home@ == "https://packagist.org"@ && search@ == "https://packagist.org/?query="@
    } else if i == 43 {
        rule matches UrlRule::Search { home, search } && home@ == "https://pypi.org"@ && search@ == "https://pypi.org/search/?q="@
    } else if i == 44 {
        rule matches UrlRule::Search { home, search } && home@ == "https://docs.python.org/3/"@ && search@ == "https://docs.python.org/3/search.html?q="@
    } else if i == 45 {
        rule matches UrlRule::Search { home, search } && home@ == "https://rubygems.org"@ && search@ == "https://rubygems.org/search?query="@
    } else {
        rule matches UrlRule::Search { home, search } && home@ == "https://stackoverflow.com"@ && search@ == "https://stackoverflow.com/search?q="@
    }
}

/// Whether `info` is the descriptor of the `i`-th built-in command.
pub open spec fn builtin_info_ok(i: int, info: BunnylolCommandInfo) -> bool {
    &&& bindings_of(info) == builtin_bindings(i)
    &&& info.description@ == builtin_description(i)
    &&& info.example@ == builtin_example(i)
}

/// Whether `c` is the `i`-th built-in command.
pub open spec fn builtin_command_ok(i: int, c: Command) -> bool {
    builtin_info_ok(i, c.info) && builtin_rule_ok(i, c.rule)
}

/// The built-in command that declares `s`, read off the length and the
/// characters of `s`; meaningful for built-in bindings only.
pub open spec fn builtin_owner(s: Seq<char>) -> int {
    if s.len() == 1 {
        if s[0] == 'g' {
            32
        } else if s[0] == 'r' {
            4
        } else {
            3
        }
    } else if s.len() == 2 {
        if s[1] == 'a' {
            11
        } else if s[1] == 'b' {
            9
        } else if s[1] == 'c' {
            25
        } else if s[1] == 'g' {
            7
        } else if s[1] == 'h' {
            if s[0] == 'g' {
                1
            } else {
                10
            }
        } else if s[1] == 'i' {
            8
        } else if s[1] == 'l' {
            2
        } else if s[1] == 'o' {
            46
        } else if s[1] == 'p' {
            15
        } else if s[1] == 't' {
            21
        } else if s[1] == 'w' {
            3
        } else if s[1] == 'y' {
            44
        } else {
            20
        }
    } else if s.len() == 3 {
        if s[0] == 'd' {
            23
        } else if s[0] == 'g' {
            if s[1] == 'e' {
                45
            } else {
                17
            }
        } else if s[0] == 'm' {
            38
        } else if s[0] == 'n' {
            14
        } else if s[0] == 'p' {
            43
        } else {
            6
        }
    } else if s.len() == 4 {
        if s[0] == 'b' {
            33
        } else if s[0] == 'c' {
            31
        } else if s[0] == 'd' {
            27
        } else if s[0] == 'h' {
            if s[1] == 'a' {
                19
            } else {
                0
            }
        } else if s[0] == 'l' {
            0
        } else if s[0] == 'm' {
            if s[2] == 'i' {
                5
            } else if s[2] == 'p' {
                28
            } else {
                12
            }
        } else if s[0] == 'n' {
            39
        } else if s[0] == 'o' {
            41
        } else if s[0] == 'p' {
            43
        } else if s[0] == 'r' {
            18
        } else {
            22
        }
    } else if s.len() == 5 {
        if s[1] == 'a' {
            13
        } else if s[1] == 'c' {
            31
        } else if s[1] == 'd' {
            27
        } else if s[1] == 'h' {
            34
        } else if s[1] == 'm' {
            if s[3] == 'i' {
                5
            } else {
                28
            }
        } else if s[1] == 'o' {
            if s[2] == 'd' {
                36
            } else {
                37
            }
        } else if s[1] == 'p' {
            14
        } else if s[1] == 't' {
            26
        } else {
            40
        }
    } else if s.len() == 6 {
        if s[3] == 'c' {
            26
        } else if s[3] == 'd' {
            if s[0] == 'r' {
                4
            } else {
                30
            }
        } else if s[3] == 'e' {
            if s[0] == 'n' {
                39
            } else {
                29
            }
        } else if s[3] == 'g' {
            32
        } else if s[3] == 'h' {
            if s[0] == 'g' {
                1
            } else {
                44
            }
        } else if s[3] == 'i' {
            16
        } else if s[3] == 'k' {
            if s[0] == 'd' {
                35
            } else {
                37
            }
        } else if s[3] == 'l' {
            2
        } else if s[3] == 'o' {
            36
        } else if s[3] == 't' {
            13
        } else if s[3] == 'w' {
            24
        } else {
            20
        }
    } else if s.len() == 7 {
        if s[2] == 'a' {
            17
        } else if s[2] == 'h' {
            29
        } else if s[2] == 'i' {
            3
        } else if s[2] == 'l' {
            30
        } else if s[2] == 'r' {
            10
        } else {
            21
        }
    } else if s.len() == 8 {
        if s[0] == 'b' {
            0
        } else if s[0] == 'c' {
            if s[3] == 'm' {
                0
            } else {
                42
            }
        } else if s[0] == 'f' {
            9
        } else if s[0] == 'h' {
            33
        } else if s[0] == 'l' {
            8
        } else if s[0] == 'r' {
            45
        } else {
            11
        }
    } else if s.len() == 9 {
        if s[0] == 'd' {
            35
        } else if s[0] == 'i' {
            7
        } else if s[0] == 'p' {
            42
        } else {
            22
        }
    } else if s.len() == 10 {
        if s[0] == 'c' {
            34
        } else if s[0] == 'd' {
            23
        } else {
            25
        }
    } else if s.len() == 11 {
        15
    } else {
        46
    }
}

/// Each built-in binding is non-empty, and its owner is the command that
/// declares it.
proof fn lemma_builtin_owners()
    ensures
        forall|i: int, k: int|
            0 <= i < BUILTIN_COUNT && 0 <= k < builtin_bindings(i).len() ==> {
                &&& #[trigger] builtin_bindings(i)[k].len() > 0
                &&& builtin_owner(builtin_bindings(i)[k]) == i
            },
{
    assert forall|i: int, k: int|
        0 <= i < BUILTIN_COUNT && 0 <= k < builtin_bindings(i).len() implies {
            &&& #[trigger] builtin_bindings(i)[k].len() > 0
            &&& builtin_owner(builtin_bindings(i)[k]) == i
        } by {
        if i == 0 {
            assert(builtin_bindings(0) == seq!["bindings"@, "commands"@, "list"@, "help"@]);
            if k == 0 {
                reveal_strlit("bindings");
                assert(builtin_owner("bindings"@) == 0);
            } else if k == 1 {
                reveal_strlit("commands");
                assert(builtin_owner("commands"@) == 0);
            } else if k == 2 {
                reveal_strlit("list");
                assert(builtin_owner("list"@) == 0);
            } else {
                reveal_strlit("help");
                assert(builtin_owner("help"@) == 0);
            }
        } else if i == 1 {
            assert(builtin_bindings(1) == seq!["gh"@, "github"@]);
            if k == 0 {
                reveal_strlit("gh");
                assert(builtin_owner("gh"@) == 1);
            } else {
                reveal_strlit("github");
                assert(builtin_owner("github"@) == 1);
            }
        } else if i == 2 {
            assert(builtin_bindings(2) == seq!["gl"@, "gitlab"@]);
            if k == 0 {
                reveal_strlit("gl");
                assert(builtin_owner("gl"@) == 2);
            } else {
                reveal_strlit("gitlab");
                assert(builtin_owner("gitlab"@) == 2);
            }
        } else if i == 3 {
            assert(builtin_bindings(3) == seq!["tw"@, "twitter"@, "x"@]);
            if k == 0 {
                reveal_strlit("tw");
                assert(builtin_owner("tw"@) == 3);
            } else if k == 1 {
                reveal_strlit("twitter");
                assert(builtin_owner("twitter"@) == 3);
            } else {
                reveal_strlit("x");
                assert(builtin_owner("x"@) == 3);
            }
        } else if i == 4 {
            assert(builtin_bindings(4) == seq!["r"@, "reddit"@]);
            if k == 0 {
                reveal_strlit("r");
                assert(builtin_owner("r"@) == 4);
            } else {
                reveal_strlit("reddit");
                assert(builtin_owner("reddit"@) == 4);
            }
        } else if i == 5 {
            assert(builtin_bindings(5) == seq!["mail"@, "gmail"@]);
            if k == 0 {
                reveal_strlit("mail");
                assert(builtin_owner("mail"@) == 5);
            } else {
                reveal_strlit("gmail");
                assert(builtin_owner("gmail"@) == 5);
            }
        } else if i == 6 {
            assert(builtin_bindings(6) == seq!["rei"@]);
            reveal_strlit("rei");
            assert(builtin_owner("rei"@) == 6);
        } else if i == 7 {
            assert(builtin_bindings(7) == seq!["ig"@, "instagram"@]);
            if k == 0 {
                reveal_strlit("ig");
                assert(builtin_owner("ig"@) == 7);
            } else {
                reveal_strlit("instagram");
                assert(builtin_owner("instagram"@) == 7);
            }
        } else if i == 8 {
            assert(builtin_bindings(8) == seq!["li"@, "linkedin"@]);
            if k == 0 {
                reveal_strlit("li");
                assert(builtin_owner("li"@) == 8);
            } else {
                reveal_strlit("linkedin");
                assert(builtin_owner("linkedin"@) == 8);
            }
        } else if i == 9 {
            assert(builtin_bindings(9) == seq!["fb"@, "facebook"@]);
            if k == 0 {
                reveal_strlit("fb");
                assert(builtin_owner("fb"@) == 9);
            } else {
                reveal_strlit("facebook");
                assert(builtin_owner("facebook"@) == 9);
            }
        } else if i == 10 {
            assert(builtin_bindings(10) == seq!["threads"@, "th"@]);
            if k == 0 {
                reveal_strlit("threads");
                assert(builtin_owner("threads"@) == 10);
            } else {
                reveal_strlit("th");
                assert(builtin_owner("th"@) == 10);
            }
        } else if i == 11 {
            assert(builtin_bindings(11) == seq!["wa"@, "whatsapp"@]);
            if k == 0 {
                reveal_strlit("wa");
                assert(builtin_owner("wa"@) == 11);
            } else {
                reveal_strlit("whatsapp");
                assert(builtin_owner("whatsapp"@) == 11);
            }
        } else if i == 12 {
            assert(builtin_bindings(12) == seq!["meta"@]);
            reveal_strlit("meta");
            assert(builtin_owner("meta"@) == 12);
        } else if i == 13 {
            assert(builtin_bindings(13) == seq!["cargo"@, "crates"@]);
            if k == 0 {
                reveal_strlit("cargo");
                assert(builtin_owner("cargo"@) == 13);
            } else {
                reveal_strlit("crates");
                assert(builtin_owner("crates"@) == 13);
            }
        } else if i == 14 {
            assert(builtin_bindings(14) == seq!["npm"@, "npmjs"@]);
            if k == 0 {
                reveal_strlit("npm");
                assert(builtin_owner("npm"@) == 14);
            } else {
                reveal_strlit("npmjs");
                assert(builtin_owner("npmjs"@) == 14);
            }
        } else if i == 15 {
            assert(builtin_bindings(15) == seq!["1p"@, "onepassword"@]);
            if k == 0 {
                reveal_strlit("1p");
                assert(builtin_owner("1p"@) == 15);
            } else {
                reveal_strlit("onepassword");
                assert(builtin_owner("onepassword"@) == 15);
            }
        } else if i == 16 {
            assert(builtin_bindings(16) == seq!["gemini"@]);
            reveal_strlit("gemini");
            assert(builtin_owner("gemini"@) == 16);
        } else if i == 17 {
            assert(builtin_bindings(17) == seq!["chatgpt"@, "gpt"@]);
            if k == 0 {
                reveal_strlit("chatgpt");
                assert(builtin_owner("chatgpt"@) == 17);
            } else {
                reveal_strlit("gpt");
                assert(builtin_owner("gpt"@) == 17);
            }
        } else if i == 18 {
            assert(builtin_bindings(18) == seq!["rust"@]);
            reveal_strlit("rust");
            assert(builtin_owner("rust"@) == 18);
        } else if i == 19 {
            assert(builtin_bindings(19) == seq!["hack"@]);
            reveal_strlit("hack");
            assert(builtin_owner("hack"@) == 19);
        } else if i == 20 {
            assert(builtin_bindings(20) == seq!["az"@, "amazon"@]);
            if k == 0 {
                reveal_strlit("az");
                assert(builtin_owner("az"@) == 20);
            } else {
                reveal_strlit("amazon");
                assert(builtin_owner("amazon"@) == 20);
            }
        } else if i == 21 {
            assert(builtin_bindings(21) == seq!["yt"@, "youtube"@]);
            if k == 0 {
                reveal_strlit("yt");
                assert(builtin_owner("yt"@) == 21);
            } else {
                reveal_strlit("youtube");
                assert(builtin_owner("youtube"@) == 21);
            }
        } else if i == 22 {
            assert(builtin_bindings(22) == seq!["wiki"@, "wikipedia"@]);
            if k == 0 {
                reveal_strlit("wiki");
                assert(builtin_owner("wiki"@) == 22);
            } else {
                reveal_strlit("wikipedia");
                assert(builtin_owner("wikipedia"@) == 22);
            }
        } else if i == 23 {
            assert(builtin_bindings(23) == seq!["ddg"@, "duckduckgo"@]);
            if k == 0 {
                reveal_strlit("ddg");
                assert(builtin_owner("ddg"@) == 23);
            } else {
                reveal_strlit("duckduckgo");
                assert(builtin_owner("duckduckgo"@) == 23);
            }
        } else if i == 24 {
            assert(builtin_bindings(24) == seq!["schwab"@]);
            reveal_strlit("schwab");
            assert(builtin_owner("schwab"@) == 24);
        } else if i == 25 {
            assert(builtin_bindings(25) == seq!["sc"@, "soundcloud"@]);
            if k == 0 {
                reveal_strlit("sc");
                assert(builtin_owner("sc"@) == 25);
            } else {
                reveal_strlit("soundcloud");
                assert(builtin_owner("soundcloud"@) == 25);
            }
        } else if i == 26 {
            assert(builtin_bindings(26) == seq!["stock"@, "stocks"@]);
            if k == 0 {
                reveal_strlit("stock");
                assert(builtin_owner("stock"@) == 26);
            } else {
                reveal_strlit("stocks");
                assert(builtin_owner("stocks"@) == 26);
            }
        } else if i == 27 {
            assert(builtin_bindings(27) == seq!["docs"@, "gdocs"@]);
            if k == 0 {
                reveal_strlit("docs");
                assert(builtin_owner("docs"@) == 27);
            } else {
                reveal_strlit("gdocs");
                assert(builtin_owner("gdocs"@) == 27);
            }
        } else if i == 28 {
            assert(builtin_bindings(28) == seq!["maps"@, "gmaps"@]);
            if k == 0 {
                reveal_strlit("maps");
                assert(builtin_owner("maps"@) == 28);
            } else {
                reveal_strlit("gmaps");
                assert(builtin_owner("gmaps"@) == 28);
            }
        } else if i == 29 {
            assert(builtin_bindings(29) == seq!["sheets"@, "gsheets"@]);
            if k == 0 {
                reveal_strlit("sheets");
                assert(builtin_owner("sheets"@) == 29);
            } else {
                reveal_strlit("gsheets");
                assert(builtin_owner("gsheets"@) == 29);
            }
        } else if i == 30 {
            assert(builtin_bindings(30) == seq!["slides"@, "gslides"@]);
            if k == 0 {
                reveal_strlit("slides");
                assert(builtin_owner("slides"@) == 30);
            } else {
                reveal_strlit("gslides");
                assert(builtin_owner("gslides"@) == 30);
            }
        } else if i == 31 {
            assert(builtin_bindings(31) == seq!["chat"@, "gchat"@]);
            if k == 0 {
                reveal_strlit("chat");
                assert(builtin_owner("chat"@) == 31);
            } else {
                reveal_strlit("gchat");
                assert(builtin_owner("gchat"@) == 31);
            }
        } else if i == 32 {
            assert(builtin_bindings(32) == seq!["g"@, "google"@]);
            if k == 0 {
                reveal_strlit("g");
                assert(builtin_owner("g"@) == 32);
            } else {
                reveal_strlit("google");
                assert(builtin_owner("google"@) == 32);
            }
        } else if i == 33 {
            assert(builtin_bindings(33) == seq!["brew"@, "homebrew"@]);
            if k == 0 {
                reveal_strlit("brew");
                assert(builtin_owner("brew"@) == 33);
            } else {
                reveal_strlit("homebrew");
                assert(builtin_owner("homebrew"@) == 33);
            }
        } else if i == 34 {
            assert(builtin_bindings(34) == seq!["choco"@, "chocolatey"@]);
            if k == 0 {
                reveal_strlit("choco");
                assert(builtin_owner("choco"@) == 34);
            } else {
                reveal_strlit("chocolatey");
                assert(builtin_owner("chocolatey"@) == 34);
            }
        } else if i == 35 {
            assert(builtin_bindings(35) == seq!["docker"@, "dockerhub"@]);
            if k == 0 {
                reveal_strlit("docker");
                assert(builtin_owner("docker"@) == 35);
            } else {
                reveal_strlit("dockerhub");
                assert(builtin_owner("dockerhub"@) == 35);
            }
        } else if i == 36 {
            assert(builtin_bindings(36) == seq!["godocs"@, "godoc"@]);
            if k == 0 {
                reveal_strlit("godocs");
                assert(builtin_owner("godocs"@) == 36);
            } else {
                reveal_strlit("godoc");
                assert(builtin_owner("godoc"@) == 36);
            }
        } else if i == 37 {
            assert(builtin_bindings(37) == seq!["gopkg"@, "gopkgs"@]);
            if k == 0 {
                reveal_strlit("gopkg");
                assert(builtin_owner("gopkg"@) == 37);
            } else {
                reveal_strlit("gopkgs");
                assert(builtin_owner("gopkgs"@) == 37);
            }
        } else if i == 38 {
            assert(builtin_bindings(38) == seq!["mdn"@]);
            reveal_strlit("mdn");
            assert(builtin_owner("mdn"@) == 38);
        } else if i == 39 {
            assert(builtin_bindings(39) == seq!["node"@, "nodejs"@]);
            if k == 0 {
                reveal_strlit("node");
                assert(builtin_owner("node"@) == 39);
            } else {
                reveal_strlit("nodejs");
                assert(builtin_owner("nodejs"@) == 39);
            }
        } else if i == 40 {
            assert(builtin_bindings(40) == seq!["nuget"@]);
            reveal_strlit("nuget");
            assert(builtin_owner("nuget"@) == 40);
        } else if i == 41 {
            assert(builtin_bindings(41) == seq!["open"@]);
            reveal_strlit("open");
            assert(builtin_owner("open"@) == 41);
        } else if i == 42 {
            assert(builtin_bindings(42) == seq!["packagist"@, "composer"@]);
            if k == 0 {
                reveal_strlit("packagist");
                assert(builtin_owner("packagist"@) == 42);
            } else {
                reveal_strlit("composer");
                assert(builtin_owner("composer"@) == 42);
            }
        } else if i == 43 {
            assert(builtin_bindings(43) == seq!["pypi"@, "pip"@]);
            if k == 0 {
                reveal_strlit("pypi");
                assert(builtin_owner("pypi"@) == 43);
            } else {
                reveal_strlit("pip");
                assert(builtin_owner("pip"@) == 43);
            }
        } else if i == 44 {
            assert(builtin_bindings(44) == seq!["py"@, "python"@]);
            if k == 0 {
                reveal_strlit("py");
                assert(builtin_owner("py"@) == 44);
            } else {
                reveal_strlit("python");
                assert(builtin_owner("python"@) == 44);
            }
        } else if i == 45 {
            assert(builtin_bindings(45) == seq!["gem"@, "rubygems"@]);
            if k == 0 {
                reveal_strlit("gem");
                assert(builtin_owner("gem"@) == 45);
            } else {
                reveal_strlit("rubygems");
                assert(builtin_owner("rubygems"@) == 45);
            }
        } else if i == 46 {
            assert(builtin_bindings(46) == seq!["so"@, "stackoverflow"@]);
            if k == 0 {
                reveal_strlit("so");
                assert(builtin_owner("so"@) == 46);
            } else {
                reveal_strlit("stackoverflow");
                assert(builtin_owner("stackoverflow"@) == 46);
            }
        }
    }
}

/// The built-in bindings are non-empty and no two built-in commands share one.
pub proof fn lemma_builtin_bindings_valid(infos: Seq<BunnylolCommandInfo>)
    requires
        infos.len() == BUILTIN_COUNT,
        forall|i: int| 0 <= i < BUILTIN_COUNT ==> #[trigger] bindings_of(infos[i]) == builtin_bindings(i),
    ensures
        bindings_nonempty(infos),
        bindings_unique(infos),
{
    lemma_builtin_owners();
    assert forall|i: int, k: int|
        0 <= i < infos.len() && 0 <= k < infos[i].bindings@.len() implies #[trigger] infos[i].bindings@[k]@.len() > 0 by {
        assert(bindings_of(infos[i]) == builtin_bindings(i));
        assert(builtin_bindings(i)[k] == infos[i].bindings@[k]@);
    }
    assert forall|i: int, j: int, k: int|
        0 <= j < i < infos.len() && 0 <= k < infos[i].bindings@.len() implies !#[trigger] binds(
            infos[j],
            infos[i].bindings@[k]@,
        ) by {
        let b = infos[i].bindings@[k]@;
        assert(bindings_of(infos[i]) == builtin_bindings(i));
        assert(builtin_bindings(i)[k] == b);
        if binds(infos[j], b) {
            let l = choose|l: int| #![trigger infos[j].bindings@[l]] 0 <= l < infos[j].bindings@.len() && infos[j].bindings@[l]@ == b;
            assert(bindings_of(infos[j]) == builtin_bindings(j));
            assert(builtin_bindings(j)[l] == b);
        }
    }
}

fn names1(a: &str) -> (r: Vec<String>)
    ensures
        r@.map_values(|s: String| s@) == seq![a@],
{
    let mut r: Vec<String> = Vec::new();
    r.push(String::from_str(a));
    assert(r@.map_values(|s: String| s@) =~= seq![a@]);
    r
}

fn names2(a: &str, b: &str) -> (r: Vec<String>)
    ensures
        r@.map_values(|s: String| s@) == seq![a@, b@],
{
    let mut r: Vec<String> = Vec::new();
    r.push(String::from_str(a));
    r.push(String::from_str(b));
    assert(r@.map_values(|s: String| s@) =~= seq![a@, b@]);
    r
}

fn names3(a: &str, b: &str, c: &str) -> (r: Vec<String>)
    ensures
        r@.map_values(|s: String| s@) == seq![a@, b@, c@],
{
    let mut r: Vec<String> = Vec::new();
    r.push(String::from_str(a));
    r.push(String::from_str(b));
    r.push(String::from_str(c));
    assert(r@.map_values(|s: String| s@) =~= seq![a@, b@, c@]);
    r
}

fn names4(a: &str, b: &str, c: &str, d: &str) -> (r: Vec<String>)
    ensures
        r@.map_values(|s: String| s@) == seq![a@, b@, c@, d@],
{
    let mut r: Vec<String> = Vec::new();
    r.push(String::from_str(a));
    r.push(String::from_str(b));
    r.push(String::from_str(c));
    r.push(String::from_str(d));
    assert(r@.map_values(|s: String| s@) =~= seq![a@, b@, c@, d@]);
    r
}

fn info(bindings: Vec<String>, description: &str, example: &str) -> (r: BunnylolCommandInfo)
    ensures
        r.bindings@ == bindings@,
        r.description@ == description@,
        r.example@ == example@,
{
    BunnylolCommandInfo {
        bindings,
        description: String::from_str(description),
        example: String::from_str(example),
    }
}

fn fixed_rule(bindings: Vec<String>, description: &str, example: &str, url: &str) -> (r: Command)
    ensures
        r.info.bindings@ == bindings@,
        r.info.description@ == description@,
        r.info.example@ == example@,
        r.rule matches UrlRule::Fixed { url: u } && u@ == url@,
{
    Command { info: info(bindings, description, example), rule: UrlRule::Fixed { url: String::from_str(url) } }
}

fn search_rule(bindings: Vec<String>, description: &str, example: &str, home: &str, query_url: &str) -> (r: Command)
    ensures
        r.info.bindings@ == bindings@,
        r.info.description@ == description@,
        r.info.example@ == example@,
        r.rule matches UrlRule::Search { home: h, search: s } && h@ == home@ && s@ == query_url@,
{
    Command {
        info: info(bindings, description, example),
        rule: UrlRule::Search { home: String::from_str(home), search: String::from_str(query_url) },
    }
}

fn path_rule(bindings: Vec<String>, description: &str, example: &str, home: &str, prefix: &str) -> (r: Command)
    ensures
        r.info.bindings@ == bindings@,
        r.info.description@ == description@,
        r.info.example@ == example@,
        r.rule matches UrlRule::Path { home: h, prefix: p } && h@ == home@ && p@ == prefix@,
{
    Command {
        info: info(bindings, description, example),
        rule: UrlRule::Path { home: String::from_str(home), prefix: String::from_str(prefix) },
    }
}

fn push_commands_0(v: &mut Vec<Command>)
    requires
        old(v)@.len() == 0,
        forall|i: int| 0 <= i < 0 ==> builtin_command_ok(i, #[trigger] old(v)@[i]),
    ensures
        final(v)@.len() == 8,
        forall|i: int| 0 <= i < 8 ==> builtin_command_ok(i, #[trigger] final(v)@[i]),
{
    let ghost start = v@;
    v.push(fixed_rule(names4("bindings", "commands", "list", "help"), "List all available commands", "bindings", "/"));
    assert(builtin_command_ok(0, v@[0]));
    v.push(path_rule(
        names2("gh", "github"),
        "Navigate to GitHub users and repositories",
        "gh facebook/react",
        "https://github.com",
        "https://github.com/",
    ));
    assert(builtin_command_ok(1, v@[1]));
    v.push(path_rule(
        names2("gl", "gitlab"),
        "Navigate to GitLab users and projects",
        "gl gitlab-org",
        "https://gitlab.com",
        "https://gitlab.com/",
    ));
    assert(builtin_command_ok(2, v@[2]));
    v.push(path_rule(
        names3("tw", "twitter", "x"),
        "Navigate to Twitter profiles",
        "tw rustlang",
        "https://twitter.com",
        "https://twitter.com/",
    ));
    assert(builtin_command_ok(3, v@[3]));
    v.push(path_rule(
        names2("r", "reddit"),
        "Navigate to Reddit or a subreddit",
        "r rust",
        "https://www.reddit.com",
        "https://www.reddit.com/r/",
    ));
    assert(builtin_command_ok(4, v@[4]));
    v.push(fixed_rule(names2("mail", "gmail"), "Navigate to Gmail", "mail", "https://mail.google.com"));
    assert(builtin_command_ok(5, v@[5]));
    v.push(search_rule(
        names1("rei"),
        "Search REI",
        "rei tent",
        "https://www.rei.com",
        "https://www.rei.com/search?q=",
    ));
    assert(builtin_command_ok(6, v@[6]));
    v.push(path_rule(
        names2("ig", "instagram"),
        "Navigate to Instagram profiles",
        "ig instagram",
        "https://www.instagram.com",
        "https://www.instagram.com/",
    ));
    assert(builtin_command_ok(7, v@[7]));
    assert forall|i: int| 0 <= i < 8 implies builtin_command_ok(i, #[trigger] v@[i]) by {
        if i < 0 {
            assert(v@[i] == start[i]);
        }
    }
}

fn push_commands_1(v: &mut Vec<Command>)
    requires
        old(v)@.len() == 8,
        forall|i: int| 0 <= i < 8 ==> builtin_command_ok(i, #[trigger] old(v)@[i]),
    ensures
        final(v)@.len() == 16,
        forall|i: int| 0 <= i < 16 ==> builtin_command_ok(i, #[trigger] final(v)@[i]),
{
    let ghost start = v@;
    v.push(search_rule(
        names2("li", "linkedin"),
        "Search LinkedIn",
        "li rust engineer",
        "https://www.linkedin.com",
        "https://www.linkedin.com/search/results/all/?keywords=",
    ));
    assert(builtin_command_ok(8, v@[8]));
    v.push(path_rule(
        names2("fb", "facebook"),
        "Navigate to Facebook pages",
        "fb meta",
        "https://www.facebook.com",
        "https://www.facebook.com/",
    ));
    assert(builtin_command_ok(9, v@[9]));
    v.push(path_rule(
        names2("threads", "th"),
        "Navigate to Threads profiles",
        "threads zuck",
        "https://www.threads.net",
        "https://www.threads.net/@",
    ));
    assert(builtin_command_ok(10, v@[10]));
    v.push(fixed_rule(names2("wa", "whatsapp"), "Navigate to WhatsApp Web", "wa", "https://web.whatsapp.com"));
    assert(builtin_command_ok(11, v@[11]));
    v.push(fixed_rule(names1("meta"), "Navigate to Meta", "meta", "https://www.meta.com"));
    assert(builtin_command_ok(12, v@[12]));
    v.push(search_rule(
        names2("cargo", "crates"),
        "Search crates.io",
        "cargo serde",
        "https://crates.io",
        "https://crates.io/search?q=",
    ));
    assert(builtin_command_ok(13, v@[13]));
    v.push(search_rule(
        names2("npm", "npmjs"),
        "Search npm packages",
        "npm react",
        "https://www.npmjs.com",
        "https://www.npmjs.com/search?q=",
    ));
    assert(builtin_command_ok(14, v@[14]));
    v.push(fixed_rule(names2("1p", "onepassword"), "Navigate to 1Password", "1p", "https://my.1password.com"));
    assert(builtin_command_ok(15, v@[15]));
    assert forall|i: int| 0 <= i < 16 implies builtin_command_ok(i, #[trigger] v@[i]) by {
        if i < 8 {
            assert(v@[i] == start[i]);
        }
    }
}

fn push_commands_2(v: &mut Vec<Command>)
    requires
        old(v)@.len() == 16,
        forall|i: int| 0 <= i < 16 ==> builtin_command_ok(i, #[trigger] old(v)@[i]),
    ensures
        final(v)@.len() == 24,
        forall|i: int| 0 <= i < 24 ==> builtin_command_ok(i, #[trigger] final(v)@[i]),
{
    let ghost start = v@;
    v.push(fixed_rule(names1("gemini"), "Navigate to Gemini", "gemini", "https://gemini.google.com"));
    assert(builtin_command_ok(16, v@[16]));
    v.push(fixed_rule(names2("chatgpt", "gpt"), "Navigate to ChatGPT", "chatgpt", "https://chatgpt.com"));
    assert(builtin_command_ok(17, v@[17]));
    v.push(search_rule(
        names1("rust"),
        "Search the Rust standard library documentation",
        "rust HashMap",
        "https://doc.rust-lang.org/std/",
        "https://doc.rust-lang.org/std/?search=",
    ));
    assert(builtin_command_ok(18, v@[18]));
    v.push(search_rule(
        names1("hack"),
        "Search the Hack documentation",
        "hack shapes",
        "https://docs.hhvm.com/hack/",
        "https://docs.hhvm.com/search?term=",
    ));
    assert(builtin_command_ok(19, v@[19]));
    v.push(search_rule(
        names2("az", "amazon"),
        "Search Amazon",
        "az headphones",
        "https://www.amazon.com",
        "https://www.amazon.com/s?k=",
    ));
    assert(builtin_command_ok(20, v@[20]));
    v.push(search_rule(
        names2("yt", "youtube"),
        "Search YouTube",
        "yt rust talks",
        "https://www.youtube.com",
        "https://www.youtube.com/results?search_query=",
    ));
    assert(builtin_command_ok(21, v@[21]));
    v.push(search_rule(
        names2("wiki", "wikipedia"),
        "Search Wikipedia",
        "wiki Rust",
        "https://en.wikipedia.org",
        "https://en.wikipedia.org/w/index.php?search=",
    ));
    assert(builtin_command_ok(22, v@[22]));
    v.push(search_rule(
        names2("ddg", "duckduckgo"),
        "Search DuckDuckGo",
        "ddg rust",
        "https://duckduckgo.com",
        "https://duckduckgo.com/?q=",
    ));
    assert(builtin_command_ok(23, v@[23]));
    assert forall|i: int| 0 <= i < 24 implies builtin_command_ok(i, #[trigger] v@[i]) by {
        if i < 16 {
            assert(v@[i] == start[i]);
        }
    }
}

fn push_commands_3(v: &mut Vec<Command>)
    requires
        old(v)@.len() == 24,
        forall|i: int| 0 <= i < 24 ==> builtin_command_ok(i, #[trigger] old(v)@[i]),
    ensures
        final(v)@.len() == 32,
        forall|i: int| 0 <= i < 32 ==> builtin_command_ok(i, #[trigger] final(v)@[i]),
{
    let ghost start = v@;
    v.push(fixed_rule(names1("schwab"), "Navigate to Charles Schwab", "schwab", "https://client.schwab.com"));
    assert(builtin_command_ok(24, v@[24]));
    v.push(search_rule(
        names2("sc", "soundcloud"),
        "Search SoundCloud",
        "sc lofi",
        "https://soundcloud.com",
        "https://soundcloud.com/search?q=",
    ));
    assert(builtin_command_ok(25, v@[25]));
    v.push(search_rule(
        names2("stock", "stocks"),
        "Look up a stock quote (also $TICKER)",
        "stock AAPL",
        "https://finance.yahoo.com",
        "https://finance.yahoo.com/quote/",
    ));
    assert(builtin_command_ok(26, v@[26]));
    v.push(fixed_rule(names2("docs", "gdocs"), "Navigate to Google Docs", "docs", "https://docs.google.com/document"));
    assert(builtin_command_ok(27, v@[27]));
    v.push(search_rule(
        names2("maps", "gmaps"),
        "Search Google Maps",
        "maps coffee",
        "https://maps.google.com",
        "https://www.google.com/maps/search/",
    ));
    assert(builtin_command_ok(28, v@[28]));
    v.push(fixed_rule(names2("sheets", "gsheets"), "Navigate to Google Sheets", "sheets", "https://docs.google.com/spreadsheets"));
    assert(builtin_command_ok(29, v@[29]));
    v.push(fixed_rule(names2("slides", "gslides"), "Navigate to Google Slides", "slides", "https://docs.google.com/presentation"));
    assert(builtin_command_ok(30, v@[30]));
    v.push(fixed_rule(names2("chat", "gchat"), "Navigate to Google Chat", "chat", "https://chat.google.com"));
    assert(builtin_command_ok(31, v@[31]));
    assert forall|i: int| 0 <= i < 32 implies builtin_command_ok(i, #[trigger] v@[i]) by {
        if i < 24 {
            assert(v@[i] == start[i]);
        }
    }
}

fn push_commands_4(v: &mut Vec<Command>)
    requires
        old(v)@.len() == 32,
        forall|i: int| 0 <= i < 32 ==> builtin_command_ok(i, #[trigger] old(v)@[i]),
    ensures
        final(v)@.len() == 40,
        forall|i: int| 0 <= i < 40 ==> builtin_command_ok(i, #[trigger] final(v)@[i]),
{
    let ghost start = v@;
    v.push(search_rule(
        names2("g", "google"),
        "Search Google",
        "g rust lang",
        "https://www.google.com",
        "https://www.google.com/search?q=",
    ));
    assert(builtin_command_ok(32, v@[32]));
    v.push(search_rule(
        names2("brew", "homebrew"),
        "Search Homebrew formulae",
        "brew wget",
        "https://brew.sh",
        "https://formulae.brew.sh/formula/",
    ));
    assert(builtin_command_ok(33, v@[33]));
    v.push(search_rule(
        names2("choco", "chocolatey"),
        "Search Chocolatey packages",
        "choco git",
        "https://community.chocolatey.org",
        "https://community.chocolatey.org/packages?q=",
    ));
    assert(builtin_command_ok(34, v@[34]));
    v.push(search_rule(
        names2("docker", "dockerhub"),
        "Search Docker Hub",
        "docker nginx",
        "https://hub.docker.com",
        "https://hub.docker.com/search?q=",
    ));
    assert(builtin_command_ok(35, v@[35]));
    v.push(search_rule(
        names2("godocs", "godoc"),
        "Search the Go documentation",
        "godocs generics",
        "https://go.dev/doc/",
        "https://go.dev/search?q=",
    ));
    assert(builtin_command_ok(36, v@[36]));
    v.push(search_rule(
        names2("gopkg", "gopkgs"),
        "Search Go packages",
        "gopkg cobra",
        "https://pkg.go.dev",
        "https://pkg.go.dev/search?q=",
    ));
    assert(builtin_command_ok(37, v@[37]));
    v.push(search_rule(
        names1("mdn"),
        "Search MDN Web Docs",
        "mdn fetch",
        "https://developer.mozilla.org",
        "https://developer.mozilla.org/en-US/search?q=",
    ));
    assert(builtin_command_ok(38, v@[38]));
    v.push(search_rule(
        names2("node", "nodejs"),
        "Search the Node.js documentation",
        "node fs",
        "https://nodejs.org/docs/latest/api/",
        "https://nodejs.org/docs/latest/api/all.html#",
    ));
    assert(builtin_command_ok(39, v@[39]));
    assert forall|i: int| 0 <= i < 40 implies builtin_command_ok(i, #[trigger] v@[i]) by {
        if i < 32 {
            assert(v@[i] == start[i]);
        }
    }
}

fn push_commands_5(v: &mut Vec<Command>)
    requires
        old(v)@.len() == 40,
        forall|i: int| 0 <= i < 40 ==> builtin_command_ok(i, #[trigger] old(v)@[i]),
    ensures
        final(v)@.len() == 47,
        forall|i: int| 0 <= i < 47 ==> builtin_command_ok(i, #[trigger] final(v)@[i]),
{
    let ghost start = v@;
    v.push(search_rule(
        names1("nuget"),
        "Search NuGet packages",
        "nuget newtonsoft",
        "https://www.nuget.org",
        "https://www.nuget.org/packages?q=",
    ));
    assert(builtin_command_ok(40, v@[40]));
    v.push(Command { info: OpenCommand::get_info(), rule: UrlRule::Open });
    assert(bindings_of(v@[41].info) =~= seq!["open"@]);
    assert(builtin_command_ok(41, v@[41]));
    v.push(search_rule(
        names2("packagist", "composer"),
        "Search Packagist",
        "packagist laravel",
        "https://packagist.org",
        "https://packagist.org/?query=",
    ));
    assert(builtin_command_ok(42, v@[42]));
    v.push(search_rule(
        names2("pypi", "pip"),
        "Search PyPI packages",
        "pypi requests",
        "https://pypi.org",
        "https://pypi.org/search/?q=",
    ));
    assert(builtin_command_ok(43, v@[43]));
    v.push(search_rule(
        names2("py", "python"),
        "Search the Python documentation",
        "py asyncio",
        "https://docs.python.org/3/",
        "https://docs.python.org/3/search.html?q=",
    ));
    assert(builtin_command_ok(44, v@[44]));
    v.push(search_rule(
        names2("gem", "rubygems"),
        "Search RubyGems",
        "gem rails",
        "https://rubygems.org",
        "https://rubygems.org/search?query=",
    ));
    assert(builtin_command_ok(45, v@[45]));
    v.push(search_rule(
        names2("so", "stackoverflow"),
        "Search Stack Overflow",
        "so borrow checker",
        "https://stackoverflow.com",
        "https://stackoverflow.com/search?q=",
    ));
    assert(builtin_command_ok(46, v@[46]));
    assert forall|i: int| 0 <= i < 47 implies builtin_command_ok(i, #[trigger] v@[i]) by {
        if i < 40 {
            assert(v@[i] == start[i]);
        }
    }
}

/// The built-in commands, in registration order.
pub fn builtin_commands() -> (r: Vec<Command>)
    ensures
        r@.len() == BUILTIN_COUNT,
        forall|i: int| 0 <= i < BUILTIN_COUNT ==> builtin_command_ok(i, #[trigger] r@[i]),
{
    let mut v: Vec<Command> = Vec::new();
    push_commands_0(&mut v);
    push_commands_1(&mut v);
    push_commands_2(&mut v);
    push_commands_3(&mut v);
    push_commands_4(&mut v);
    push_commands_5(&mut v);
    v
}

impl BunnylolCommandRegistry {
    /// The registry of the built-in commands, in registration order.
    pub fn new() -> (r: Self)
        ensures
            r.wf(),
            r.descriptors().len() == BUILTIN_COUNT,
            forall|i: int| 0 <= i < BUILTIN_COUNT ==> builtin_info_ok(i, #[trigger] r.descriptors()[i]),
            forall|i: int| 0 <= i < BUILTIN_COUNT ==> builtin_rule_ok(i, #[trigger] r.rules()[i]),
    {
        let commands = builtin_commands();
        proof {
            let infos = infos_of(commands@);
            assert forall|i: int| 0 <= i < BUILTIN_COUNT implies #[trigger] bindings_of(infos[i]) == builtin_bindings(i) by {
                assert(builtin_command_ok(i, commands@[i]));
            }
            lemma_builtin_bindings_valid(infos);
        }
        let r = Self::from_commands(commands);
        let reg = r.unwrap();
        proof {
            assert forall|i: int| 0 <= i < BUILTIN_COUNT implies builtin_info_ok(i, #[trigger] reg.descriptors()[i]) by {
                assert(builtin_command_ok(i, commands@[i]));
            }
            assert forall|i: int| 0 <= i < BUILTIN_COUNT implies builtin_rule_ok(i, #[trigger] reg.rules()[i]) by {
                assert(builtin_command_ok(i, commands@[i]));
            }
        }
        reg
    }
}

} // verus!
