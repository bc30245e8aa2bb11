//! The proxy settings that `config_json` describes, with their defaults and checks.

use vstd::prelude::*;

verus! {

/// How the proxy routes requests.
#[derive(Debug, Clone, Copy, PartialEq, Eq, Structural)]
pub enum ProxyMode {
    /// Only hosts that the routing rules name go through the gateway.
    Auto,
    /// Every request goes through the gateway.
    Global,
}

/// The fields of `config_json`, as given: `None` where a field was left out.
/// Addresses are socket addresses in their display form (`127.0.0.1:3128`).
#[derive(Debug, Clone)]
pub struct FfiSettings {
    pub listen: Option<String>,
    pub socks_listen: Option<String>,
    pub gateway: String,
    pub basic_auth: Option<String>,
    pub buffer_size: Option<usize>,
    pub log_level: Option<String>,
    pub custom_domain_rules: Option<String>,
    pub rule_refresh_interval_secs: Option<u64>,
    pub proxy_mode: Option<ProxyMode>,
    pub insecure: Option<bool>,
    /// Extra headers for the gateway websocket handshake, as name and value.
    pub headers: Option<Vec<(String, String)>>,
}

/// The settings the proxy runs with, defaults filled in.
#[derive(Debug, Clone)]
pub struct Settings {
    pub listen: String,
    pub socks_listen: Option<String>,
    pub gateway: String,
    pub basic_auth: Option<String>,
    pub buffer_size: usize,
    pub log_level: Option<String>,
    pub custom_domain_rules: Option<String>,
    pub rule_refresh_interval_secs: u64,
    pub proxy_mode: ProxyMode,
    pub insecure: bool,
    /// Headers for the gateway websocket handshake, in the order they are added.
    pub headers: Vec<(String, String)>,
}

/// Why `config_json` describes no settings the proxy can run with.
#[derive(Debug, Clone, Copy, PartialEq, Eq, Structural)]
pub enum SettingsError {
    /// `buffer_size` was given as 0.
    ZeroBufferSize,
    /// `rule_refresh_interval_secs` was given as 0.
    ZeroRuleRefreshInterval,
}

/// The message of a `SettingsError`.
pub open spec fn settings_error_text(err: SettingsError) -> Seq<char> {
    match err {
        SettingsError::ZeroBufferSize => "buffer_size must be greater than 0"@,
        SettingsError::ZeroRuleRefreshInterval => "rule_refresh_interval_secs must be greater than 0"@,
    }
}

impl SettingsError {
    /// The message of this error.
    pub fn message(&self) -> (res: String)
        ensures
            res@ == settings_error_text(*self),
    {
        match self {
            SettingsError::ZeroBufferSize => "buffer_size must be greater than 0".to_owned(),
            SettingsError::ZeroRuleRefreshInterval => {
                "rule_refresh_interval_secs must be greater than 0".to_owned()
            },
        }
    }
}

/// The buffer size used when `buffer_size` is left out.
pub open spec fn default_buffer_size_value() -> usize {
    16384
}

/// The rule refresh interval, in seconds, used when `rule_refresh_interval_secs` is left out.
pub open spec fn default_refresh_secs_value() -> u64 {
    60
}

/// The address listened on when `listen` is left out.
pub open spec fn default_listen_text() -> Seq<char> {
    "127.0.0.1:3128"@
}

/// The `User-Agent` sent to the gateway unless `headers` names another one.
pub open spec fn default_user_agent_text() -> Seq<char> {
    "ws2tcp-local-ffi/0.1.7"@
}

/// `ws2tcp_local_core::DEFAULT_BUFFER_SIZE`, which that crate's source defines as `16 * 1024`.
#[verifier::external_body]
fn default_buffer_size() -> (n: usize)
    ensures
        n == default_buffer_size_value(),
{
    ws2tcp_local_core::DEFAULT_BUFFER_SIZE
}

/// `ws2tcp_local_core::DEFAULT_RULE_REFRESH_INTERVAL_SECS`, which that crate's source defines
/// as `60`.
#[verifier::external_body]
fn default_rule_refresh_interval_secs() -> (n: u64)
    ensures
        n == default_refresh_secs_value(),
{
    ws2tcp_local_core::DEFAULT_RULE_REFRESH_INTERVAL_SECS
}

/// `ws2tcp_local_core::DEFAULT_LISTEN`, which that crate's source defines as
/// `"127.0.0.1:3128"`, as an owned `String`.
#[verifier::external_body]
fn default_listen() -> (s: String)
    ensures
        s@ == default_listen_text(),
{
    ws2tcp_local_core::DEFAULT_LISTEN.to_owned()
}

/// The view of a header list: each pair of name and value as texts.
pub open spec fn headers_view(headers: Seq<(String, String)>) -> Seq<(Seq<char>, Seq<char>)> {
    headers.map_values(|h: (String, String)| (h.0@, h.1@))
}

/// `User-Agent`, in lower case, as characters.
pub open spec fn user_agent_lower() -> Seq<char> {
    seq!['u', 's', 'e', 'r', '-', 'a', 'g', 'e', 'n', 't']
}

/// `User-Agent`, in upper case, as characters.
pub open spec fn user_agent_upper() -> Seq<char> {
    seq!['U', 'S', 'E', 'R', '-', 'A', 'G', 'E', 'N', 'T']
}

/// True when `name` is `User-Agent`, upper and lower case letters taken as the same
/// (header names are case-insensitive).
pub open spec fn names_user_agent(name: Seq<char>) -> bool {
    &&& name.len() == 10
    &&& forall|i: int| 0 <= i < 10 ==> #[trigger] name[i] == user_agent_lower()[i] || name[i] == user_agent_upper()[i]
}

/// True when one of the given headers is a `User-Agent`.
pub open spec fn overrides_user_agent(given: Seq<(Seq<char>, Seq<char>)>) -> bool {
    exists|j: int| 0 <= j < given.len() && #[trigger] names_user_agent(given[j].0)
}

/// The headers sent to the gateway: the given ones in their order, after the default
/// `User-Agent` unless one of them is a `User-Agent` itself.
pub open spec fn gateway_headers_spec(given: Seq<(Seq<char>, Seq<char>)>) -> Seq<(Seq<char>, Seq<char>)> {
    if overrides_user_agent(given) {
        given
    } else {
        seq![("User-Agent"@, default_user_agent_text())] + given
    }
}

/// The view of an optional text.
pub open spec fn opt_text(s: Option<String>) -> Option<Seq<char>> {
    match s {
        None => None,
        Some(t) => Some(t@),
    }
}

/// The buffer size that `raw` asks for, its default filled in.
pub open spec fn buffer_size_of(raw: FfiSettings) -> usize {
    match raw.buffer_size {
        Some(n) => n,
        None => default_buffer_size_value(),
    }
}

/// The rule refresh interval that `raw` asks for, its default filled in.
pub open spec fn refresh_secs_of(raw: FfiSettings) -> u64 {
    match raw.rule_refresh_interval_secs {
        Some(n) => n,
        None => default_refresh_secs_value(),
    }
}

/// What `resolve_settings` answers for `raw`: the first check that fails, or `None`
/// when the settings can be used.
pub open spec fn settings_problem(raw: FfiSettings) -> Option<SettingsError> {
    if buffer_size_of(raw) == 0 {
        Some(SettingsError::ZeroBufferSize)
    } else if refresh_secs_of(raw) == 0 {
        Some(SettingsError::ZeroRuleRefreshInterval)
    } else {
        None
    }
}

/// `s` is the settings that `raw` describes, every default filled in.
pub open spec fn resolved_from(s: Settings, raw: FfiSettings) -> bool {
    &&& s.listen@ == match raw.listen {
        Some(l) => l@,
        None => default_listen_text(),
    }
    &&& opt_text(s.socks_listen) == opt_text(raw.socks_listen)
    &&& s.gateway@ == raw.gateway@
    &&& opt_text(s.basic_auth) == opt_text(raw.basic_auth)
    &&& s.buffer_size == buffer_size_of(raw)
    &&& opt_text(s.log_level) == opt_text(raw.log_level)
    &&& opt_text(s.custom_domain_rules) == opt_text(raw.custom_domain_rules)
    &&& s.rule_refresh_interval_secs == refresh_secs_of(raw)
    &&& s.proxy_mode == match raw.proxy_mode {
        Some(m) => m,
        None => ProxyMode::Global,
    }
    &&& s.insecure == match raw.insecure {
        Some(b) => b,
        None => false,
    }
    &&& headers_view(s.headers@) == gateway_headers_spec(
        match raw.headers {
            Some(h) => headers_view(h@),
            None => Seq::empty(),
        },
    )
}

/// Whether a header name is `User-Agent`, upper and lower case letters taken as the same.
pub fn is_user_agent_name(name: &str) -> (res: bool)
    ensures
        res == names_user_agent(name@),
{
    let lower: [char; 10] = ['u', 's', 'e', 'r', '-', 'a', 'g', 'e', 'n', 't'];
    let upper: [char; 10] = ['U', 'S', 'E', 'R', '-', 'A', 'G', 'E', 'N', 'T'];
    proof {
        assert(lower@ == user_agent_lower());
        assert(upper@ == user_agent_upper());
    }
    let ghost text = name@;
    let mut count: usize = 0;
    let mut too_long = false;
    let mut same = true;
    for c in it: name.chars()
        invariant
            it.seq() == text,
            count <= 10,
            too_long ==> count == 10 && it.index() > 10,
            !too_long ==> count == it.index(),
            lower@ == user_agent_lower(),
            upper@ == user_agent_upper(),
            same == forall|i: int| 0 <= i < count ==> #[trigger] text[i] == user_agent_lower()[i] || text[i] == user_agent_upper()[i],
    {
        if count == 10 {
            too_long = true;
        } else {
            if c != lower[count] && c != upper[count] {
                same = false;
            }
            count = count + 1;
        }
    }
    !too_long && same && count == 10
}

/// Builds the header list for the gateway: `given` in its order, after the default
/// `User-Agent` unless `given` holds a `User-Agent` of its own.
pub fn gateway_headers(given: Vec<(String, String)>) -> (res: Vec<(String, String)>)
    ensures
        headers_view(res@) == gateway_headers_spec(headers_view(given@)),
        (exists|j: int| 0 <= j < given@.len() && #[trigger] names_user_agent(given@[j].0@)) ==> res@ == given@,
        (forall|j: int| 0 <= j < given@.len() ==> !#[trigger] names_user_agent(given@[j].0@)) ==> {
            &&& res@.len() == given@.len() + 1
            &&& res@[0].0@ == "User-Agent"@
            &&& res@[0].1@ == "ws2tcp-local-ffi/0.1.7"@
            &&& res@.drop_first() == given@
        },
{
    let ghost gv = headers_view(given@);
    let mut overridden = false;
    let mut i: usize = 0;
    while i < given.len()
        invariant
            gv == headers_view(given@),
            i <= given@.len(),
            overridden == exists|j: int| 0 <= j < i && #[trigger] names_user_agent(gv[j].0),
        decreases given@.len() - i,
    {
        let named = is_user_agent_name(given[i].0.as_str());
        proof {
            assert(gv[i as int].0 == given@[i as int].0@);
            if named {
                assert(names_user_agent(gv[i as int].0));
            }
        }
        overridden = overridden || named;
        i = i + 1;
    }
    if overridden {
        return given;
    }
    proof {
        assert forall|j: int| 0 <= j < given@.len() implies !#[trigger] names_user_agent(given@[j].0@) by {
            assert(gv[j].0 == given@[j].0@);
        }
    }
    let mut res: Vec<(String, String)> = Vec::new();
    res.push(("User-Agent".to_owned(), "ws2tcp-local-ffi/0.1.7".to_owned()));
    let ghost first = res@;
    let mut rest = given;
    res.append(&mut rest);
    proof {
        assert(res@ == first + given@);
        assert(headers_view(res@) =~= gateway_headers_spec(headers_view(given@)));
    }
    res
}

/// The default `User-Agent` is sent unless one of the given headers is a `User-Agent`;
/// every given header is sent, in its order, after it.
pub proof fn law_default_user_agent_unless_overridden(given: Seq<(Seq<char>, Seq<char>)>)
    ensures
        !overrides_user_agent(given) ==> gateway_headers_spec(given)[0] == ("User-Agent"@, default_user_agent_text())
            && gateway_headers_spec(given).drop_first() == given,
        overrides_user_agent(given) ==> gateway_headers_spec(given) == given,
{
    if !overrides_user_agent(given) {
        assert(gateway_headers_spec(given).drop_first() =~= given);
    }
}

/// A `User-Agent` among the given headers, wherever it stands, replaces the default one:
/// the headers sent are exactly the given ones.
pub proof fn law_any_user_agent_overrides(given: Seq<(Seq<char>, Seq<char>)>, j: int)
    requires
        0 <= j < given.len(),
        names_user_agent(given[j].0),
    ensures
        overrides_user_agent(given),
        gateway_headers_spec(given) == given,
{
}

/// Without a `User-Agent` among the given headers, the default one is sent first and the
/// given ones follow, each in its place.
pub proof fn law_default_user_agent_without_override(given: Seq<(Seq<char>, Seq<char>)>)
    requires
        forall|j: int| 0 <= j < given.len() ==> !#[trigger] names_user_agent(given[j].0),
    ensures
        !overrides_user_agent(given),
        gateway_headers_spec(given).len() == given.len() + 1,
        gateway_headers_spec(given)[0] == ("User-Agent"@, default_user_agent_text()),
        forall|k: int| 0 <= k < given.len() ==> #[trigger] gateway_headers_spec(given)[k + 1] == given[k],
{
}

/// Settings are refused only for a zero buffer size or a zero refresh interval, each after
/// its default: any other values are accepted.
pub proof fn law_only_zero_values_are_refused(raw: FfiSettings)
    ensures
        (buffer_size_of(raw) > 0 && refresh_secs_of(raw) > 0) <==> settings_problem(raw) is None,
        buffer_size_of(raw) == 0 ==> settings_problem(raw) == Some(SettingsError::ZeroBufferSize),
        buffer_size_of(raw) > 0 && refresh_secs_of(raw) == 0 ==> settings_problem(raw) == Some(
            SettingsError::ZeroRuleRefreshInterval,
        ),
        raw.buffer_size matches Some(n) ==> buffer_size_of(raw) == n,
        raw.rule_refresh_interval_secs matches Some(n) ==> refresh_secs_of(raw) == n,
        raw.buffer_size is None ==> buffer_size_of(raw) == 16384,
        raw.rule_refresh_interval_secs is None ==> refresh_secs_of(raw) == 60,
{
}

/// What `config_json` gives is kept; only what it leaves out is filled in: a given proxy
/// mode, buffer size, refresh interval, certificate setting, address or gateway is the one
/// the proxy runs with.
pub proof fn law_given_settings_are_kept(s: Settings, raw: FfiSettings)
    requires
        resolved_from(s, raw),
    ensures
        raw.proxy_mode matches Some(m) ==> s.proxy_mode == m,
        raw.proxy_mode is None ==> s.proxy_mode == ProxyMode::Global,
        raw.buffer_size matches Some(n) ==> s.buffer_size == n,
        raw.rule_refresh_interval_secs matches Some(n) ==> s.rule_refresh_interval_secs == n,
        raw.insecure matches Some(b) ==> s.insecure == b,
        raw.insecure is None ==> !s.insecure,
        raw.listen matches Some(l) ==> s.listen@ == l@,
        s.gateway@ == raw.gateway@,
{
}

/// Fills in the defaults of `raw` and checks the result: the settings the proxy runs
/// with, or the first check that fails.
pub fn resolve_settings(raw: FfiSettings) -> (res: Result<Settings, SettingsError>)
    ensures
        match settings_problem(raw) {
            Some(e) => res == Err::<Settings, SettingsError>(e),
            None => res matches Ok(s) && resolved_from(s, raw),
        },
        res is Ok <==> (raw.buffer_size != Some(0usize) && raw.rule_refresh_interval_secs != Some(0u64)),
        raw.buffer_size == Some(0usize) ==> res == Err::<Settings, SettingsError>(SettingsError::ZeroBufferSize),
        res matches Ok(s) ==> {
            &&& (raw.proxy_mode matches Some(m) ==> s.proxy_mode == m)
            &&& (raw.proxy_mode is None ==> s.proxy_mode == ProxyMode::Global)
            &&& (raw.buffer_size matches Some(n) ==> s.buffer_size == n)
            &&& (raw.buffer_size is None ==> s.buffer_size == 16384)
            &&& (raw.rule_refresh_interval_secs matches Some(n) ==> s.rule_refresh_interval_secs == n)
            &&& (raw.rule_refresh_interval_secs is None ==> s.rule_refresh_interval_secs == 60)
            &&& (raw.insecure matches Some(b) ==> s.insecure == b)
            &&& (raw.insecure is None ==> !s.insecure)
            &&& (raw.listen matches Some(l) ==> s.listen@ == l@)
            &&& s.gateway@ == raw.gateway@
        },
{
    let buffer_size: usize = match raw.buffer_size {
        Some(n) => n,
        None => default_buffer_size(),
    };
    if buffer_size == 0 {
        return Err(SettingsError::ZeroBufferSize);
    }
    let rule_refresh_interval_secs: u64 = match raw.rule_refresh_interval_secs {
        Some(n) => n,
        None => default_rule_refresh_interval_secs(),
    };
    if rule_refresh_interval_secs == 0 {
        return Err(SettingsError::ZeroRuleRefreshInterval);
    }
    let listen = match raw.listen {
        Some(l) => l,
        None => default_listen(),
    };
    let proxy_mode = match raw.proxy_mode {
        Some(m) => m,
        None => ProxyMode::Global,
    };
    let insecure = match raw.insecure {
        Some(b) => b,
        None => false,
    };
    let given = match raw.headers {
        Some(h) => h,
        None => Vec::new(),
    };
    let headers = gateway_headers(given);
    Ok(Settings {
        listen,
        socks_listen: raw.socks_listen,
        gateway: raw.gateway,
        basic_auth: raw.basic_auth,
        buffer_size,
        log_level: raw.log_level,
        custom_domain_rules: raw.custom_domain_rules,
        rule_refresh_interval_secs,
        proxy_mode,
        insecure,
        headers,
    })
}

/// The name that `Debug` gives a proxy mode.
pub open spec fn proxy_mode_name(mode: ProxyMode) -> Seq<char> {
    match mode {
        ProxyMode::Auto => "Auto"@,
        ProxyMode::Global => "Global"@,
    }
}

/// The log line written when the proxy is about to start.
pub open spec fn startup_line(s: Settings) -> Seq<char> {
    "starting proxy listen="@ + s.listen@ + " gateway="@ + s.gateway@ + " proxy_mode="@
        + proxy_mode_name(s.proxy_mode)
}

/// Writes the log line for a proxy that is about to start with `settings`.
pub fn startup_log_line(settings: &Settings) -> (res: String)
    ensures
        res@ == startup_line(*settings),
{
    let mut line = "starting proxy listen=".to_owned();
    line.append(settings.listen.as_str());
    line.append(" gateway=");
    line.append(settings.gateway.as_str());
    line.append(" proxy_mode=");
    match settings.proxy_mode {
        ProxyMode::Auto => line.append("Auto"),
        ProxyMode::Global => line.append("Global"),
    }
    line
}

} // verus!
