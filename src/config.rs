use vstd::prelude::*;

use crate::text::{join_parts, joined, lines, split_lines, string_views};

verus! {

pub const DEFAULT_FUNDS_THRESHOLD: u64 = 0;

pub const DEFAULT_RETRY_LIMIT: usize = 5;

/// Total time allowed for one request, in milliseconds.
pub const DEFAULT_TIMEOUT_MS: u64 = 30000;

/// Time allowed for connecting, in milliseconds.
pub const DEFAULT_CONNECT_TIMEOUT_MS: u64 = 10000;

/// Pacing interval of the batch stage, in milliseconds.
pub const DEFAULT_BATCH_WAIT_MS: u64 = 625;

/// Pacing interval of the detailed stage, in milliseconds.
pub const DEFAULT_DETAILED_WAIT_MS: u64 = 8000;

/// The settings as given on the command line or in the config file, each
/// possibly absent.
#[derive(Debug, Clone, Default)]
pub struct ConfigArgs {
    pub retry_limit: Option<usize>,
    pub browser_id: Option<String>,
    pub cookie: Option<String>,
    pub funds_threshold: Option<u64>,
    pub user_agent: Option<String>,
    pub timeout: Option<u64>,
    pub connect_timeout: Option<u64>,
    pub batch_wait: Option<u64>,
    pub detailed_wait: Option<u64>,
}

/// The settings the pipeline runs with; times in milliseconds.
#[derive(Debug, Clone)]
pub struct Settings {
    pub retry_limit: usize,
    pub browser_id: String,
    pub funds_threshold: u64,
    pub cookie: String,
    pub user_agent: String,
    pub timeout_ms: u64,
    pub connect_timeout_ms: u64,
    pub batch_wait_ms: u64,
    pub detailed_wait_ms: u64,
}

/// The settings and the proxies, one per line with their scheme.
#[derive(Debug, Clone)]
pub struct Config {
    pub settings: Settings,
    pub proxies: String,
}

/// Why the pipeline cannot start.
#[derive(Debug, Clone, Copy, PartialEq, Eq, Structural)]
pub enum ConfigError {
    NoBrowserId,
    NoAccount,
    NoProxies,
}

impl ConfigError {
    /// The message for the operator.
    pub fn message(&self) -> (r: &'static str)
        ensures
            *self == ConfigError::NoBrowserId ==> r@ == "No browser ID provided"@,
            *self == ConfigError::NoAccount ==> r@ == "No group claimer account provided"@,
            *self == ConfigError::NoProxies ==> r@ == "No proxies provided"@,
    {
        match self {
            ConfigError::NoBrowserId => "No browser ID provided",
            ConfigError::NoAccount => "No group claimer account provided",
            ConfigError::NoProxies => "No proxies provided",
        }
    }
}

/// Each line of `text`, with `prefix` before it.
pub open spec fn prefixed_lines(prefix: Seq<char>, text: Seq<char>) -> Seq<Seq<char>> {
    lines(text).map_values(|l: Seq<char>| prefix + l)
}

/// The proxy list: the lines of the http list with `http://`, then those of
/// the socks5 list with `socks5://`, one per line.
pub open spec fn proxy_list(http: Seq<char>, socks5: Seq<char>) -> Seq<char> {
    let h = joined(prefixed_lines("http://"@, http), "\n"@);
    let s = joined(prefixed_lines("socks5://"@, socks5), "\n"@);
    if h.len() == 0 {
        s
    } else if s.len() == 0 {
        h
    } else {
        h + "\n"@ + s
    }
}

/// `value`, or `default` where it is absent.
pub open spec fn or_default<T>(value: Option<T>, default: T) -> T {
    match value {
        Some(v) => v,
        None => default,
    }
}

fn prefix_lines(prefix: &str, text: &str) -> (r: Vec<String>)
    ensures
        string_views(r@) == prefixed_lines(prefix@, text@),
{
    let all = split_lines(text);
    let mut r: Vec<String> = Vec::new();
    let mut i: usize = 0;
    while i < all.len()
        invariant
            0 <= i <= all@.len(),
            string_views(all@) == lines(text@),
            string_views(r@) == prefixed_lines(prefix@, text@).take(i as int),
        decreases all@.len() - i,
    {
        let mut line = String::from_str(prefix);
        line.append(&*all[i as usize]);
        let ghost prev = r@;
        r.push(line);
        proof {
            assert(string_views(all@)[i as int] == all@[i as int]@);
            assert(string_views(r@) =~= string_views(prev).push(line@));
            assert(string_views(r@) =~= prefixed_lines(prefix@, text@).take(i + 1));
        }
        i = i + 1;
    }
    proof {
        assert(prefixed_lines(prefix@, text@).take(i as int) =~= prefixed_lines(prefix@, text@));
    }
    r
}

/// The configuration from the merged arguments and the texts of the two
/// proxy lists (empty where a list could not be read). Absent settings take
/// their defaults; the browser identity and the account's session cookie
/// are required.
pub fn get_config(args: ConfigArgs, http_proxies: &str, socks5_proxies: &str) -> (r: Result<
    Config,
    ConfigError,
>)
    ensures
        args.browser_id is None ==> r == Err::<Config, ConfigError>(ConfigError::NoBrowserId),
        args.browser_id is Some && args.cookie is None ==> r == Err::<Config, ConfigError>(
            ConfigError::NoAccount,
        ),
        args.browser_id is Some && args.cookie is Some ==> (r matches Ok(c) && {
            &&& c.settings.browser_id == args.browser_id->Some_0
            &&& c.settings.cookie == args.cookie->Some_0
            &&& c.settings.retry_limit == or_default(args.retry_limit, DEFAULT_RETRY_LIMIT)
            &&& c.settings.funds_threshold == or_default(
                args.funds_threshold,
                DEFAULT_FUNDS_THRESHOLD,
            )
            &&& args.user_agent matches Some(u) ==> c.settings.user_agent == u
            &&& args.user_agent is None ==> c.settings.user_agent@.len() == 0
            &&& c.settings.timeout_ms == or_default(args.timeout, DEFAULT_TIMEOUT_MS)
            &&& c.settings.connect_timeout_ms == or_default(
                args.connect_timeout,
                DEFAULT_CONNECT_TIMEOUT_MS,
            )
            &&& c.settings.batch_wait_ms == or_default(args.batch_wait, DEFAULT_BATCH_WAIT_MS)
            &&& c.settings.detailed_wait_ms == or_default(
                args.detailed_wait,
                DEFAULT_DETAILED_WAIT_MS,
            )
            &&& c.proxies@ == proxy_list(http_proxies@, socks5_proxies@)
        }),
{
    let browser_id = match args.browser_id {
        Some(b) => b,
        None => return Err(ConfigError::NoBrowserId),
    };
    let cookie = match args.cookie {
        Some(c) => c,
        None => return Err(ConfigError::NoAccount),
    };
    let http = join_parts(&prefix_lines("http://", http_proxies), "\n");
    let socks5 = join_parts(&prefix_lines("socks5://", socks5_proxies), "\n");
    let mut lists: Vec<String> = Vec::new();
    let http_empty = http.unicode_len() == 0;
    let socks5_empty = socks5.unicode_len() == 0;
    if !http_empty {
        lists.push(http);
    }
    if !socks5_empty {
        lists.push(socks5);
    }
    let proxies = join_parts(&lists, "\n");
    proof {
        reveal_with_fuel(joined, 3);
        assert(proxies@ =~= proxy_list(http_proxies@, socks5_proxies@));
    }
    let user_agent = match args.user_agent {
        Some(u) => u,
        None => String::new(),
    };
    Ok(Config {
        settings: Settings {
            retry_limit: match args.retry_limit {
                Some(v) => v,
                None => DEFAULT_RETRY_LIMIT,
            },
            browser_id,
            funds_threshold: match args.funds_threshold {
                Some(v) => v,
                None => DEFAULT_FUNDS_THRESHOLD,
            },
            cookie,
            user_agent,
            timeout_ms: match args.timeout {
                Some(v) => v,
                None => DEFAULT_TIMEOUT_MS,
            },
            connect_timeout_ms: match args.connect_timeout {
                Some(v) => v,
                None => DEFAULT_CONNECT_TIMEOUT_MS,
            },
            batch_wait_ms: match args.batch_wait {
                Some(v) => v,
                None => DEFAULT_BATCH_WAIT_MS,
            },
            detailed_wait_ms: match args.detailed_wait {
                Some(v) => v,
                None => DEFAULT_DETAILED_WAIT_MS,
            },
        },
        proxies,
    })
}

impl Config {
    /// The proxies to start workers with, one per line of `proxies`; an
    /// empty list is an error, as the pipeline cannot run without one.
    pub fn proxy_lines(&self) -> (r: Result<Vec<String>, ConfigError>)
        ensures
            lines(self.proxies@).len() == 0 ==> r == Err::<Vec<String>, ConfigError>(
                ConfigError::NoProxies,
            ),
            lines(self.proxies@).len() > 0 ==> (r matches Ok(v) && string_views(v@) == lines(
                self.proxies@,
            )),
    {
        let all = split_lines(&*self.proxies);
        if all.len() == 0 {
            proof {
                assert(string_views(all@).len() == all@.len());
            }
            Err(ConfigError::NoProxies)
        } else {
            Ok(all)
        }
    }
}

/// Empty or missing proxy files leave no proxy: the proxy list is empty
/// and has no lines, which fails the start.
pub proof fn lemma_no_proxy_text_no_proxies()
    ensures
        proxy_list(Seq::empty(), Seq::empty()) == Seq::<char>::empty(),
        lines(proxy_list(Seq::empty(), Seq::empty())).len() == 0,
{
    assert(lines(Seq::<char>::empty()) =~= Seq::<Seq<char>>::empty());
    assert(prefixed_lines("http://"@, Seq::empty()) =~= Seq::<Seq<char>>::empty());
    assert(prefixed_lines("socks5://"@, Seq::empty()) =~= Seq::<Seq<char>>::empty());
}

} // verus!
