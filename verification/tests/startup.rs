use conduit::api::{chat_completions_start, AppState, ChatStart};
use conduit::config::ProviderConfig;
use conduit::guard::Guard;
use conduit::network::InferenceRequest;
use conduit::router::{route_command, CommandAction, NetworkCommand};
use conduit::startup::{api_address, settle_addresses, Addresses, Options, Settings, StartupError};

fn no_options() -> Options {
    Options {
        p2p_port: None,
        bootstrap: None,
        models: vec![],
        http_port: None,
        local_llm: None,
        access_key: None,
    }
}

fn file() -> ProviderConfig {
    let mut config = ProviderConfig::empty();
    config.http_port = Some(8888);
    config.p2p_port = Some(8000);
    config.bootstrap_nodes =
        vec!["/ip4/172.232.46.58/tcp/1334".to_string(), "/ip4/10.0.0.1/tcp/1".to_string()];
    config.local_llm = Some("http://127.0.0.1:11434/v1".to_string());
    config.access_key = Some("tutu".to_string());
    config.models = vec!["llama-3".to_string(), "mistral-7b".to_string()];
    config.max_context = Some(5000);
    config
}

#[test]
fn node_without_anything_uses_the_defaults() {
    let settings = Settings::resolve(no_options(), ProviderConfig::empty());
    assert_eq!(settings.p2p_port, 0);
    assert_eq!(settings.http_port, 8080);
    assert_eq!(settings.bootstrap, None);
    assert!(settings.announced_keys().is_empty());
    assert!(!settings.lacks_backend());
}

#[test]
fn file_gives_the_settings() {
    let settings = Settings::resolve(no_options(), file());
    assert_eq!(settings.p2p_port, 8000);
    assert_eq!(settings.http_port, 8888);
    assert_eq!(settings.bootstrap, Some("/ip4/172.232.46.58/tcp/1334".to_string()));
    assert_eq!(settings.provider.access_key, Some("tutu".to_string()));
    assert_eq!(settings.provider.max_context, Some(5000));
    assert_eq!(settings.announced_keys(), vec![b"llama-3".to_vec(), b"mistral-7b".to_vec()]);
}

#[test]
fn command_line_comes_first() {
    let options = Options {
        p2p_port: Some(8001),
        bootstrap: Some("/ip4/10.0.0.2/tcp/8000".to_string()),
        models: vec!["glm4".to_string()],
        http_port: Some(8889),
        local_llm: Some("http://192.168.0.124:8080/v1".to_string()),
        access_key: Some("other".to_string()),
    };
    let settings = Settings::resolve(options, file());
    assert_eq!(settings.p2p_port, 8001);
    assert_eq!(settings.http_port, 8889);
    assert_eq!(settings.bootstrap, Some("/ip4/10.0.0.2/tcp/8000".to_string()));
    assert_eq!(settings.provider.local_llm, Some("http://192.168.0.124:8080/v1".to_string()));
    assert_eq!(settings.provider.access_key, Some("other".to_string()));
    assert_eq!(settings.announced_keys(), vec![b"glm4".to_vec()]);
}

#[test]
fn models_without_backend_are_not_announced() {
    let mut config = file();
    config.local_llm = None;
    let settings = Settings::resolve(no_options(), config);
    assert!(settings.lacks_backend());
    assert!(settings.announced_keys().is_empty());
}

#[test]
fn backend_without_models_announces_nothing() {
    let mut config = file();
    config.models = vec![];
    let settings = Settings::resolve(no_options(), config);
    assert!(!settings.lacks_backend());
    assert!(settings.announced_keys().is_empty());
}

#[test]
fn addresses_are_read() {
    let settings = Settings::resolve(no_options(), file());
    assert_eq!(
        settings.addresses(),
        Ok(Addresses {
            listen: vec![4, 0, 0, 0, 0, 6, 31, 64],
            bootstrap: Some(vec![4, 172, 232, 46, 58, 6, 5, 54]),
        })
    );
    let settings = Settings::resolve(no_options(), ProviderConfig::empty());
    assert_eq!(
        settings.addresses(),
        Ok(Addresses { listen: vec![4, 0, 0, 0, 0, 6, 0, 0], bootstrap: None })
    );
}

#[test]
fn bad_bootstrap_stops_the_start() {
    let mut options = no_options();
    options.bootstrap = Some("example.org:8000".to_string());
    let settings = Settings::resolve(options, ProviderConfig::empty());
    assert_eq!(settings.addresses(), Err(StartupError::BootstrapAddress));
}

#[test]
fn addresses_are_settled() {
    assert_eq!(settle_addresses(None, Some(None)), Err(StartupError::ListenAddress));
    assert_eq!(settle_addresses(Some(vec![1]), Some(None)), Err(StartupError::BootstrapAddress));
    assert_eq!(
        settle_addresses(Some(vec![1]), Some(Some(vec![2]))),
        Ok(Addresses { listen: vec![1], bootstrap: Some(vec![2]) })
    );
}

#[test]
fn api_listens_on_every_interface() {
    assert_eq!(api_address(8888), "0.0.0.0:8888");
}

#[test]
fn chat_is_looked_up_where_its_model_is_announced() {
    let announced = Settings::resolve(no_options(), file()).announced_keys();
    let state = AppState::new((), &ProviderConfig::empty());
    let mut guard = Guard::new(ProviderConfig::empty());
    for (model, served) in [("llama-3", true), ("mistral-7b", true), ("llama", false)] {
        let payload = InferenceRequest {
            model: model.to_string(),
            messages: vec![],
            stream: None,
            access_key: None,
        };
        let model = match chat_completions_start(&state, &mut guard, &None, payload, 0) {
            ChatStart::Lookup { model, .. } => model,
            ChatStart::Respond(_) => panic!("refused"),
        };
        let command: NetworkCommand<u8, u8, u8> =
            NetworkCommand::GetProviders { model, responder: 1 };
        match route_command(Some(command)) {
            CommandAction::Lookup { key, .. } => assert_eq!(announced.contains(&key), served),
            _ => panic!("not looked up"),
        }
    }
}
