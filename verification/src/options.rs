//! Request options and the configuration records derived from them, plus
//! the pipeline's client- and jar-resolution decisions.

use vstd::prelude::*;
use crate::util::clone_opt_string;

verus! {

/// How redirects are handled: follow them (the client default), stop at the
/// first redirect and surface it, or fail the request.
#[derive(Clone, Copy, Debug, PartialEq, Eq, Structural)]
pub enum RedirectMode {
    Follow,
    Manual,
    Error,
}

impl Default for RedirectMode {
    fn default() -> (r: Self)
        ensures
            r == RedirectMode::Follow,
    {
        RedirectMode::Follow
    }
}

/// One request, as handed over by the host: everything the pipeline needs
/// to pick a client, build the outgoing request, and shape the response.
/// Emulation profile and operating system are carried as their catalogue
/// labels; durations are milliseconds.
#[derive(Debug)]
pub struct RequestOptions {
    pub url: String,
    pub emulation: String,
    pub emulation_os: String,
    pub headers: Vec<(String, String)>,
    pub method: String,
    pub body: Option<Vec<u8>>,
    pub proxy: Option<String>,
    pub timeout: u64,
    pub redirect: RedirectMode,
    pub session_id: String,
    pub ephemeral: bool,
    pub disable_default_headers: bool,
    pub insecure: bool,
    pub transport_id: Option<String>,
    pub pool_idle_timeout: Option<u64>,
    pub pool_max_idle_per_host: Option<usize>,
    pub pool_max_size: Option<u32>,
    pub connect_timeout: Option<u64>,
    pub read_timeout: Option<u64>,
}

/// The structural key under which ephemeral clients are cached: emulation,
/// operating system, proxy and certificate-verification choice. Never a
/// serialised label string.
#[derive(Debug)]
pub struct SessionConfig {
    pub emulation: String,
    pub emulation_os: String,
    pub proxy: Option<String>,
    pub insecure: bool,
}

impl View for SessionConfig {
    type V = (Seq<char>, Seq<char>, Option<Seq<char>>, bool);

    open spec fn view(&self) -> Self::V {
        (self.emulation@, self.emulation_os@, self.proxy.deep_view(), self.insecure)
    }
}

impl RequestOptions {
    /// The structural cache key this request falls under.
    pub open spec fn spec_session_config(&self) -> (Seq<char>, Seq<char>, Option<Seq<char>>, bool) {
        (self.emulation@, self.emulation_os@, self.proxy.deep_view(), self.insecure)
    }
}

impl SessionConfig {
    /// Project the structural key out of a request.
    pub fn from_request(options: &RequestOptions) -> (r: SessionConfig)
        ensures
            r@ == options.spec_session_config(),
    {
        SessionConfig {
            emulation: options.emulation.clone(),
            emulation_os: options.emulation_os.clone(),
            proxy: clone_opt_string(&options.proxy),
            insecure: options.insecure,
        }
    }

    /// Clone, preserving the view.
    pub fn duplicate(&self) -> (r: SessionConfig)
        ensures
            r@ == self@,
    {
        SessionConfig {
            emulation: self.emulation.clone(),
            emulation_os: self.emulation_os.clone(),
            proxy: clone_opt_string(&self.proxy),
            insecure: self.insecure,
        }
    }
}

/// Everything needed to construct a client: the structural key plus the
/// pool and timeout tunables, all in milliseconds. Used only when building.
#[derive(Debug)]
pub struct TransportConfig {
    pub emulation: String,
    pub emulation_os: String,
    pub proxy: Option<String>,
    pub insecure: bool,
    pub pool_idle_timeout: Option<u64>,
    pub pool_max_idle_per_host: Option<usize>,
    pub pool_max_size: Option<u32>,
    pub connect_timeout: Option<u64>,
    pub read_timeout: Option<u64>,
}

impl TransportConfig {
    /// Project a full transport configuration out of a request.
    pub fn from_request(options: &RequestOptions) -> (r: TransportConfig)
        ensures
            r.emulation@ == options.emulation@,
            r.emulation_os@ == options.emulation_os@,
            r.proxy.deep_view() == options.proxy.deep_view(),
            r.insecure == options.insecure,
            r.pool_idle_timeout == options.pool_idle_timeout,
            r.pool_max_idle_per_host == options.pool_max_idle_per_host,
            r.pool_max_size == options.pool_max_size,
            r.connect_timeout == options.connect_timeout,
            r.read_timeout == options.read_timeout,
    {
        TransportConfig {
            emulation: options.emulation.clone(),
            emulation_os: options.emulation_os.clone(),
            proxy: clone_opt_string(&options.proxy),
            insecure: options.insecure,
            pool_idle_timeout: options.pool_idle_timeout,
            pool_max_idle_per_host: options.pool_max_idle_per_host,
            pool_max_size: options.pool_max_size,
            connect_timeout: options.connect_timeout,
            read_timeout: options.read_timeout,
        }
    }

    /// Assemble a transport configuration from its parts.
    pub fn new(
        emulation: String,
        emulation_os: String,
        proxy: Option<String>,
        insecure: bool,
        pool_idle_timeout: Option<u64>,
        pool_max_idle_per_host: Option<usize>,
        pool_max_size: Option<u32>,
        connect_timeout: Option<u64>,
        read_timeout: Option<u64>,
    ) -> (r: TransportConfig)
        ensures
            r.emulation@ == emulation@,
            r.emulation_os@ == emulation_os@,
            r.proxy.deep_view() == proxy.deep_view(),
            r.insecure == insecure,
            r.pool_idle_timeout == pool_idle_timeout,
            r.pool_max_idle_per_host == pool_max_idle_per_host,
            r.pool_max_size == pool_max_size,
            r.connect_timeout == connect_timeout,
            r.read_timeout == read_timeout,
    {
        TransportConfig {
            emulation,
            emulation_os,
            proxy,
            insecure,
            pool_idle_timeout,
            pool_max_idle_per_host,
            pool_max_size,
            connect_timeout,
            read_timeout,
        }
    }
}

/// The build settings of an ephemeral (one-off) client: the structural key
/// with per-host idle pooling switched off, so connections do not linger,
/// and no other tunables.
pub fn ephemeral_transport_config(config: &SessionConfig) -> (r: TransportConfig)
    ensures
        r.emulation@ == config.emulation@,
        r.emulation_os@ == config.emulation_os@,
        r.proxy.deep_view() == config.proxy.deep_view(),
        r.insecure == config.insecure,
        r.pool_max_idle_per_host == Some(0usize),
        r.pool_idle_timeout is None,
        r.pool_max_size is None,
        r.connect_timeout is None,
        r.read_timeout is None,
{
    TransportConfig {
        emulation: config.emulation.clone(),
        emulation_os: config.emulation_os.clone(),
        proxy: clone_opt_string(&config.proxy),
        insecure: config.insecure,
        pool_idle_timeout: None,
        pool_max_idle_per_host: Some(0),
        pool_max_size: None,
        connect_timeout: None,
        read_timeout: None,
    }
}

/// The overall request deadline applied when the caller names none,
/// in milliseconds.
pub const DEFAULT_TIMEOUT_MS: u64 = 30000;

/// The overall request timeout: as requested, or the default.
pub fn effective_timeout_ms(requested: Option<u64>) -> (r: u64)
    ensures
        requested matches Some(t) ==> r == t,
        requested is None ==> r == DEFAULT_TIMEOUT_MS,
{
    match requested {
        Some(t) => t,
        None => DEFAULT_TIMEOUT_MS,
    }
}

/// Whether the outside construction of a client from its configuration
/// succeeded; on failure, the builder's message.
#[derive(Debug)]
pub enum BuildOutcome {
    Built,
    BuildFailed(String),
}

/// Which client a request uses: a registered transport takes priority, then
/// the ephemeral cache, else a fresh client built for this request alone.
#[derive(Debug)]
pub enum ClientPlan {
    UseTransport(String),
    UseEphemeral(SessionConfig),
    BuildFresh(TransportConfig),
}

/// Decide which client the request uses, in the documented priority order.
pub fn plan_client(options: &RequestOptions) -> (r: ClientPlan)
    ensures
        options.transport_id matches Some(tid) ==> (r matches ClientPlan::UseTransport(t) && t@
            == tid@),
        options.transport_id is None && options.ephemeral ==> (r matches ClientPlan::UseEphemeral(
            c,
        ) && c@ == options.spec_session_config()),
        options.transport_id is None && !options.ephemeral ==> (r matches ClientPlan::BuildFresh(
            tc,
        ) && tc.emulation@ == options.emulation@ && tc.emulation_os@ == options.emulation_os@
            && tc.proxy.deep_view() == options.proxy.deep_view() && tc.insecure == options.insecure
            && tc.pool_idle_timeout == options.pool_idle_timeout && tc.pool_max_idle_per_host
            == options.pool_max_idle_per_host && tc.pool_max_size == options.pool_max_size
            && tc.connect_timeout == options.connect_timeout && tc.read_timeout
            == options.read_timeout),
{
    match &options.transport_id {
        Some(tid) => ClientPlan::UseTransport(tid.clone()),
        None => {
            if options.ephemeral {
                ClientPlan::UseEphemeral(SessionConfig::from_request(options))
            } else {
                ClientPlan::BuildFresh(TransportConfig::from_request(options))
            }
        },
    }
}

/// Which cookie jar a request binds: ephemeral requests get a fresh detached
/// jar, anything else shares the session's jar.
#[derive(Debug)]
pub enum JarPlan {
    Detached,
    Session(String),
}

/// Decide which jar the request binds.
pub fn plan_jar(options: &RequestOptions) -> (r: JarPlan)
    ensures
        options.ephemeral ==> r is Detached,
        !options.ephemeral ==> (r matches JarPlan::Session(s) && s@ == options.session_id@),
{
    if options.ephemeral {
        JarPlan::Detached
    } else {
        JarPlan::Session(options.session_id.clone())
    }
}

} // verus!
