//! What a node is started with: the command line first, then the configuration file,
//! then what holds without either.

use crate::auth::opt_bytes;
use crate::config::{Policy, ProviderConfig};
use crate::peers::{
    address_of_text, id_bytes, listen_address, listen_bytes, model_key, parse_address, record_key,
};
use crate::text::{append_decimal, decimal, opt_text, texts};
use vstd::prelude::*;
use vstd::string::*;

verus! {

/// The port for peers that leaves the choice to the operating system.
pub const DEFAULT_P2P_PORT: u16 = 0;

/// The port of the local API where none is given.
pub const DEFAULT_HTTP_PORT: u16 = 8080;

/// How many seconds lie between two announcements of the node's models.
pub const ANNOUNCE_SECONDS: u64 = 30;

/// What the command line gives.
#[derive(Debug, Clone)]
pub struct Options {
    pub p2p_port: Option<u16>,
    pub bootstrap: Option<String>,
    pub models: Vec<String>,
    pub http_port: Option<u16>,
    pub local_llm: Option<String>,
    pub access_key: Option<String>,
}

/// What a node is started with.
#[derive(Debug, Clone)]
pub struct Settings {
    pub p2p_port: u16,
    pub http_port: u16,
    pub bootstrap: Option<String>,
    pub provider: ProviderConfig,
}

/// The first of two values that is given.
pub open spec fn first_given<T>(first: Option<T>, second: Option<T>) -> Option<T> {
    if first is Some {
        first
    } else {
        second
    }
}

/// A value that is given, or else `default`.
pub open spec fn given_or<T>(value: Option<T>, default: T) -> T {
    match value {
        Some(v) => v,
        None => default,
    }
}

/// The first entry of a list of bootstrap nodes: the one that is dialed.
pub open spec fn first_node(nodes: Seq<String>) -> Option<Seq<char>> {
    if nodes.len() > 0 {
        Some(nodes[0]@)
    } else {
        None
    }
}

/// The rules of a configuration file, with the backend and the access key of the
/// command line in place of its own.
pub open spec fn overridden(policy: Policy, options: Options) -> Policy {
    Policy {
        local_llm: first_given(opt_text(options.local_llm), policy.local_llm),
        access_key: first_given(opt_text(options.access_key), policy.access_key),
        ..policy
    }
}

/// A configuration that sets nothing.
pub open spec fn sets_nothing(config: ProviderConfig) -> bool {
    &&& config.http_port is None
    &&& config.p2p_port is None
    &&& config.bootstrap_nodes@.len() == 0
    &&& config.local_llm is None
    &&& config.local_llm_api_key is None
    &&& config.access_key is None
    &&& config.models@.len() == 0
    &&& config.max_context is None
    &&& config.rate_limit is None
    &&& config.schedule is None
}

fn first_string(first: Option<String>, second: Option<String>) -> (r: Option<String>)
    ensures
        opt_text(r) == first_given(opt_text(first), opt_text(second)),
{
    match first {
        Some(text) => Some(text),
        None => second,
    }
}

fn first_number(first: Option<u16>, second: Option<u16>, default: u16) -> (r: u16)
    ensures
        r == given_or(first_given(first, second), default),
{
    match first {
        Some(number) => number,
        None => match second {
            Some(number) => number,
            None => default,
        },
    }
}

impl ProviderConfig {
    /// The configuration of a node without a configuration file.
    pub fn empty() -> (config: ProviderConfig)
        ensures
            sets_nothing(config),
    {
        ProviderConfig {
            http_port: None,
            p2p_port: None,
            bootstrap_nodes: Vec::new(),
            local_llm: None,
            local_llm_api_key: None,
            access_key: None,
            models: Vec::new(),
            max_context: None,
            rate_limit: None,
            schedule: None,
        }
    }
}

/// Why a node does not start.
#[derive(Clone, Copy, Debug, PartialEq, Eq, Structural)]
pub enum StartupError {
    /// The address to listen on is no address.
    ListenAddress,
    /// The address of the bootstrap node is no address.
    BootstrapAddress,
}

/// The bytes of the addresses that a node starts with.
#[derive(Debug, Clone, PartialEq, Eq)]
pub struct Addresses {
    pub listen: Vec<u8>,
    pub bootstrap: Option<Vec<u8>>,
}

/// Settles the addresses that a node starts with, from what was read of the address to
/// listen on and, where it has a bootstrap node, of that one's.
pub fn settle_addresses(listen: Option<Vec<u8>>, bootstrap: Option<Option<Vec<u8>>>) -> (addresses:
    Result<Addresses, StartupError>)
    ensures
        addresses == (match (listen, bootstrap) {
            (None, _) => Err::<Addresses, StartupError>(StartupError::ListenAddress),
            (Some(_), Some(None)) => Err(StartupError::BootstrapAddress),
            (Some(listen), Some(Some(node))) => Ok(Addresses { listen, bootstrap: Some(node) }),
            (Some(listen), None) => Ok(Addresses { listen, bootstrap: None }),
        }),
{
    let listen = match listen {
        Some(listen) => listen,
        None => {
            return Err(StartupError::ListenAddress);
        },
    };
    match bootstrap {
        Some(Some(node)) => Ok(Addresses { listen, bootstrap: Some(node) }),
        Some(None) => Err(StartupError::BootstrapAddress),
        None => Ok(Addresses { listen, bootstrap: None }),
    }
}

/// The keys that a node announces: those of its models, if it has a backend.
pub open spec fn announced(local_llm: Option<Seq<char>>, models: Seq<Seq<char>>) -> Seq<Seq<u8>> {
    if local_llm is Some {
        models.map_values(|model: Seq<char>| model_key(model))
    } else {
        Seq::empty()
    }
}

impl Settings {
    /// Settles what the node is started with, from the command line and the
    /// configuration file, where it could be loaded.
    pub fn resolve(options: Options, config: ProviderConfig) -> (settings: Settings)
        ensures
            settings.p2p_port == given_or(
                first_given(options.p2p_port, config.p2p_port),
                DEFAULT_P2P_PORT,
            ),
            settings.http_port == given_or(
                first_given(options.http_port, config.http_port),
                DEFAULT_HTTP_PORT,
            ),
            opt_text(settings.bootstrap) == first_given(
                opt_text(options.bootstrap),
                first_node(config.bootstrap_nodes@),
            ),
            settings.provider@ == overridden(config@, options),
            settings.provider.max_context == config.max_context,
            settings.provider.rate_limit == config.rate_limit,
            settings.provider.schedule == config.schedule,
            settings.provider.local_llm_api_key == config.local_llm_api_key,
            settings.provider.models == (if options.models@.len() > 0 {
                options.models
            } else {
                config.models
            }),
            settings.provider.p2p_port == Some(settings.p2p_port),
            settings.provider.http_port == Some(settings.http_port),
            settings.provider.bootstrap_nodes == config.bootstrap_nodes,
    {
        let p2p_port: u16 = first_number(options.p2p_port, config.p2p_port, DEFAULT_P2P_PORT);
        let http_port: u16 = first_number(options.http_port, config.http_port, DEFAULT_HTTP_PORT);
        let listed = if config.bootstrap_nodes.len() > 0 {
            Some(config.bootstrap_nodes[0].clone())
        } else {
            None
        };
        let bootstrap = first_string(options.bootstrap, listed);
        let models = if options.models.len() > 0 {
            options.models
        } else {
            config.models
        };
        let provider = ProviderConfig {
            http_port: Some(http_port),
            p2p_port: Some(p2p_port),
            bootstrap_nodes: config.bootstrap_nodes,
            local_llm: first_string(options.local_llm, config.local_llm),
            local_llm_api_key: config.local_llm_api_key,
            access_key: first_string(options.access_key, config.access_key),
            models,
            max_context: config.max_context,
            rate_limit: config.rate_limit,
            schedule: config.schedule,
        };
        Settings { p2p_port, http_port, bootstrap, provider }
    }

    /// Reads the addresses that the node starts with. It fails exactly if it has a
    /// bootstrap node whose address is none.
    pub fn addresses(&self) -> (addresses: Result<Addresses, StartupError>)
        ensures
            match opt_text(self.bootstrap) {
                Some(text) => match address_of_text(text) {
                    Some(bytes) => addresses matches Ok(a) && a.listen@ == listen_bytes(
                        self.p2p_port,
                    ) && opt_bytes(a.bootstrap) == Some(bytes),
                    None => addresses == Err::<Addresses, StartupError>(
                        StartupError::BootstrapAddress,
                    ),
                },
                None => addresses matches Ok(a) && a.listen@ == listen_bytes(self.p2p_port)
                    && a.bootstrap is None,
            },
    {
        let listen_text = listen_address(self.p2p_port);
        let listen = parse_address(listen_text.as_str());
        let bootstrap = match &self.bootstrap {
            Some(text) => Some(parse_address(text.as_str())),
            None => None,
        };
        settle_addresses(listen, bootstrap)
    }

    /// Whether the node was given models that it cannot serve for want of a backend.
    pub fn lacks_backend(&self) -> (r: bool)
        ensures
            r == (self.provider@.local_llm is None && self.provider.models@.len() > 0),
    {
        self.provider.local_llm.is_none() && self.provider.models.len() > 0
    }

    /// The keys that the node announces, at its start and again at every interval.
    pub fn announced_keys(&self) -> (keys: Vec<Vec<u8>>)
        ensures
            id_bytes(keys@) == announced(self.provider@.local_llm, texts(self.provider.models@)),
    {
        let ghost all = announced(self.provider@.local_llm, texts(self.provider.models@));
        let mut keys: Vec<Vec<u8>> = Vec::new();
        if self.provider.local_llm.is_some() {
            let mut i: usize = 0;
            while i < self.provider.models.len()
                invariant
                    i <= self.provider.models.len(),
                    self.provider@.local_llm is Some,
                    all == announced(self.provider@.local_llm, texts(self.provider.models@)),
                    keys@.len() == i,
                    forall|k: int| 0 <= k < i ==> (#[trigger] keys@[k])@ == all[k],
                decreases self.provider.models.len() - i,
            {
                keys.push(record_key(self.provider.models[i].as_str()));
                i = i + 1;
            }
        }
        assert(id_bytes(keys@) =~= all);
        keys
    }
}

/// The address on which the local API listens: a port on every interface.
pub open spec fn api_text(port: u16) -> Seq<char> {
    "0.0.0.0:"@ + decimal(port as nat)
}

/// Writes the address on which the local API listens.
pub fn api_address(port: u16) -> (text: String)
    ensures
        text@ == api_text(port),
{
    let mut text = "0.0.0.0:".to_owned();
    append_decimal(&mut text, port as u64);
    text
}

/// A node without models, or without a backend, announces itself as a provider of nothing.
pub proof fn node_without_offer_is_no_provider(
    local_llm: Option<Seq<char>>,
    models: Seq<Seq<char>>,
)
    requires
        local_llm is None || models.len() == 0,
    ensures
        announced(local_llm, models) == Seq::<Seq<u8>>::empty(),
{
    assert(announced(local_llm, models) =~= Seq::<Seq<u8>>::empty());
}

/// A node with a backend announces the key of a model exactly if the model is among those
/// that it was given.
pub proof fn provider_is_found_under_its_models(
    base: Seq<char>,
    models: Seq<Seq<char>>,
    asked: Seq<char>,
)
    ensures
        announced(Some(base), models).contains(model_key(asked)) <==> models.contains(asked),
{
    let keys = announced(Some(base), models);
    if models.contains(asked) {
        let i = models.index_of(asked);
        assert(keys[i] == model_key(asked));
    }
    if keys.contains(model_key(asked)) {
        let i = keys.index_of(model_key(asked));
        crate::peers::lookup_finds_the_exact_model(models[i], asked);
        assert(models[i] == asked);
    }
}

/// Whatever the command line gives, the rules of the configuration file stand: its longest
/// conversation, its rate limit, its hours and the key of its backend.
pub proof fn rules_of_the_file_stand(
    options: Options,
    config: ProviderConfig,
    settings: Settings,
)
    requires
        call_ensures(Settings::resolve, (options, config), settings),
    ensures
        settings.provider.max_context == config.max_context,
        settings.provider.rate_limit is Some <==> config.rate_limit is Some,
        config.rate_limit matches Some(limit) ==> (settings.provider.rate_limit->0).requests_per_minute
            == limit.requests_per_minute,
        settings.provider.schedule is Some <==> config.schedule is Some,
        config.schedule matches Some(hours) ==> (settings.provider.schedule->0).start@
            == hours.start@ && (settings.provider.schedule->0).end@ == hours.end@,
        settings.provider.local_llm_api_key is Some <==> config.local_llm_api_key is Some,
        config.local_llm_api_key matches Some(key) ==> (settings.provider.local_llm_api_key->0)@
            == key@,
{
}

/// What the command line gives comes before what the file gives: the ports, the bootstrap
/// node, the models, the backend and the access key. What neither gives is missing, but for
/// the ports, which are 0 and 8080 then.
pub proof fn command_line_comes_first(
    options: Options,
    config: ProviderConfig,
    settings: Settings,
)
    requires
        call_ensures(Settings::resolve, (options, config), settings),
    ensures
        options.p2p_port matches Some(port) ==> settings.p2p_port == port,
        options.p2p_port is None ==> (config.p2p_port matches Some(port) ==> settings.p2p_port
            == port),
        options.p2p_port is None && config.p2p_port is None ==> settings.p2p_port == 0,
        options.http_port matches Some(port) ==> settings.http_port == port,
        options.http_port is None ==> (config.http_port matches Some(port) ==> settings.http_port
            == port),
        options.http_port is None && config.http_port is None ==> settings.http_port == 8080,
        settings.provider.p2p_port == Some(settings.p2p_port),
        settings.provider.http_port == Some(settings.http_port),
        settings.bootstrap is Some <==> options.bootstrap is Some || config.bootstrap_nodes@.len()
            > 0,
        options.bootstrap matches Some(node) ==> (settings.bootstrap->0)@ == node@,
        options.bootstrap is None && config.bootstrap_nodes@.len() > 0 ==> (settings.bootstrap->0)@
            == config.bootstrap_nodes@[0]@,
        settings.provider.bootstrap_nodes@ == config.bootstrap_nodes@,
        options.models@.len() > 0 ==> settings.provider.models@ == options.models@,
        options.models@.len() == 0 ==> settings.provider.models@ == config.models@,
        settings.provider.local_llm is Some <==> options.local_llm is Some
            || config.local_llm is Some,
        options.local_llm matches Some(base) ==> (settings.provider.local_llm->0)@ == base@,
        options.local_llm is None ==> (config.local_llm matches Some(base) ==> (
        settings.provider.local_llm->0)@ == base@),
        settings.provider.access_key is Some <==> options.access_key is Some
            || config.access_key is Some,
        options.access_key matches Some(key) ==> (settings.provider.access_key->0)@ == key@,
        options.access_key is None ==> (config.access_key matches Some(key) ==> (
        settings.provider.access_key->0)@ == key@),
{
    assert(opt_text(settings.provider.local_llm) == settings.provider@.local_llm);
    assert(opt_text(settings.provider.access_key) == settings.provider@.access_key);
}

/// Without a configuration file nothing is bound and nothing is offered.
pub proof fn node_without_a_file_has_no_rules(config: ProviderConfig)
    requires
        call_ensures(ProviderConfig::empty, (), config),
    ensures
        config.http_port is None && config.p2p_port is None,
        config.bootstrap_nodes@.len() == 0 && config.models@.len() == 0,
        config.local_llm is None && config.local_llm_api_key is None && config.access_key is None,
        config.max_context is None && config.rate_limit is None && config.schedule is None,
{
}

/// A node with a backend announces one key for each of its models, in their order: the name of
/// the model in UTF-8. A node without a backend announces nothing.
pub proof fn each_model_is_announced(settings: Settings, keys: Vec<Vec<u8>>)
    requires
        call_ensures(Settings::announced_keys, (&settings,), keys),
    ensures
        settings.provider.local_llm is None ==> keys@.len() == 0,
        settings.provider.local_llm is Some ==> keys@.len() == settings.provider.models@.len()
            && forall|i: int|
            0 <= i < keys@.len() ==> (#[trigger] keys@[i])@ == vstd::utf8::encode_utf8(
                settings.provider.models@[i]@,
            ),
{
    let all = announced(settings.provider@.local_llm, texts(settings.provider.models@));
    assert(id_bytes(keys@) == all);
    assert(id_bytes(keys@).len() == keys@.len());
    if settings.provider.local_llm is Some {
        assert(texts(settings.provider.models@).len() == settings.provider.models@.len());
        assert forall|i: int| 0 <= i < keys@.len() implies (#[trigger] keys@[i])@
            == vstd::utf8::encode_utf8(settings.provider.models@[i]@) by {
            assert(id_bytes(keys@)[i] == keys@[i]@);
            assert(all[i] == model_key(texts(settings.provider.models@)[i]));
        }
    }
}

/// A node lacks a backend exactly if it was given models and no backend.
pub proof fn models_need_a_backend(settings: Settings, r: bool)
    requires
        call_ensures(Settings::lacks_backend, (&settings,), r),
    ensures
        r <==> settings.provider.models@.len() > 0 && settings.provider.local_llm is None,
{
}

/// A node starts exactly if it has no bootstrap node, or that one's text is an address. It
/// listens on its port and dials that very address.
pub proof fn node_starts_with_its_addresses(
    settings: Settings,
    node: &str,
    read: Option<Vec<u8>>,
    addresses: Result<Addresses, StartupError>,
)
    requires
        settings.bootstrap matches Some(text) ==> node@ == text@,
        call_ensures(parse_address, (node,), read),
        call_ensures(Settings::addresses, (&settings,), addresses),
    ensures
        addresses is Err <==> settings.bootstrap is Some && read is None,
        addresses is Err ==> addresses->Err_0 == StartupError::BootstrapAddress,
        addresses matches Ok(a) ==> {
            &&& a.listen@.len() == 8
            &&& a.listen@[0] == 4
            &&& a.listen@[1] == 0 && a.listen@[2] == 0 && a.listen@[3] == 0 && a.listen@[4] == 0
            &&& a.listen@[5] == 6
            &&& a.listen@[6] * 256 + a.listen@[7] == settings.p2p_port
            &&& a.bootstrap is Some <==> settings.bootstrap is Some
            &&& a.bootstrap matches Some(bytes) ==> bytes@ == (read->0)@
        },
{
}

/// The address to listen on is asked for first, then that of the bootstrap node; what was read
/// of them is kept as it is.
pub proof fn addresses_are_kept(
    listen: Option<Vec<u8>>,
    bootstrap: Option<Option<Vec<u8>>>,
    addresses: Result<Addresses, StartupError>,
)
    requires
        call_ensures(settle_addresses, (listen, bootstrap), addresses),
    ensures
        addresses is Ok <==> listen is Some && bootstrap != Some(None::<Vec<u8>>),
        listen is None ==> addresses->Err_0 == StartupError::ListenAddress,
        listen is Some && bootstrap == Some(None::<Vec<u8>>) ==> addresses->Err_0
            == StartupError::BootstrapAddress,
        addresses matches Ok(a) ==> a.listen == listen->0 && a.bootstrap == (match bootstrap {
            Some(node) => node,
            None => None,
        }),
{
}

/// The local API listens on its port, on every interface.
pub proof fn api_listens_on_its_port(port: u16, text: String)
    requires
        call_ensures(api_address, (port,), text),
    ensures
        text@ == "0.0.0.0:"@ + decimal(port as nat),
{
}

/// A node announces its models every thirty seconds.
pub proof fn announcements_come_every_half_minute()
    ensures
        ANNOUNCE_SECONDS == 30,
{
}

} // verus!
