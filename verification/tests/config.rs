use bitwarden_ssh_agent::config::{
    check_permissions, default_config_path, Config, ConfigEnv, ConfigFile,
};

fn text(s: Option<&str>) -> Option<String> {
    s.map(|s| s.to_string())
}

fn env(id: Option<&str>, secret: Option<&str>, server: Option<&str>) -> ConfigEnv {
    ConfigEnv { client_id: text(id), client_secret: text(secret), server: text(server) }
}

fn file(id: Option<&str>, secret: Option<&str>, server: Option<&str>) -> Option<ConfigFile> {
    Some(ConfigFile { client_id: text(id), client_secret: text(secret), server: text(server) })
}

/// The client id, the client secret and the server that count.
fn loaded(env: ConfigEnv, file: Option<ConfigFile>) -> (Option<(String, String)>, Option<String>) {
    match Config::load_from(env, file) {
        Ok(c) => (
            c.api_key.map(|k| (k.client_id, k.client_secret.expose().to_string())),
            c.server,
        ),
        Err(e) => panic!("{}", e),
    }
}

fn pair(a: &str, b: &str) -> Option<(String, String)> {
    Some((a.to_string(), b.to_string()))
}

#[test]
fn nothing_at_all_is_a_configuration() {
    assert_eq!(loaded(env(None, None, None), None), (None, None));
    assert_eq!(loaded(env(None, None, None), file(None, None, None)), (None, None));
}

#[test]
fn the_file_counts_where_the_environment_is_silent() {
    assert_eq!(
        loaded(env(None, Some(""), None), file(Some("i"), Some("s"), Some("v"))),
        (pair("i", "s"), text(Some("v")))
    );
}

#[test]
fn the_environment_counts_before_the_file() {
    assert_eq!(
        loaded(
            env(Some("I"), None, Some("V")),
            file(Some("i"), Some("s"), Some("v"))
        ),
        (pair("I", "s"), text(Some("V")))
    );
    assert_eq!(
        loaded(env(Some("I"), Some("S"), None), None),
        (pair("I", "S"), None)
    );
}

#[test]
fn half_an_api_key_is_refused() {
    let why = |e, f| match Config::load_from(e, f) {
        Ok(_) => panic!("taken"),
        Err(e) => e,
    };
    let incomplete = "incomplete Bitwarden API key: both client_id and client_secret must be set (via BW_CLIENTID/BW_CLIENTSECRET or the config file)";
    assert_eq!(why(env(Some("I"), None, None), None), incomplete);
    assert_eq!(why(env(None, None, None), file(None, Some("s"), None)), incomplete);
    assert_eq!(why(env(Some("I"), Some(""), None), file(Some("i"), None, None)), incomplete);
}

#[test]
fn a_key_with_an_empty_half_in_the_file_is_none() {
    assert_eq!(
        loaded(env(None, None, None), file(Some(""), Some("s"), None)),
        (None, None)
    );
}

#[test]
fn lax_permissions_are_refused() {
    assert_eq!(check_permissions("/c", 0o100600), Ok(()));
    assert_eq!(check_permissions("/c", 0o400), Ok(()));
    assert_eq!(
        check_permissions("/c", 0o100640),
        Err("config file /c has insecure permissions 0o640; it may contain your Bitwarden API secret. Run: chmod 600 /c".to_string())
    );
    assert_eq!(
        check_permissions("/c", 0o700),
        Err("config file /c has insecure permissions 0o700; it may contain your Bitwarden API secret. Run: chmod 600 /c".to_string())
    );
    assert!(check_permissions("/c", 0o500).is_err());
    assert!(check_permissions("/c", 0o604).is_err());
    assert!(check_permissions("/c", 0o610).is_err());
}

#[test]
fn the_configuration_file_is_among_the_users_own() {
    assert_eq!(
        default_config_path(Some(b"/xdg".to_vec()), Some(b"/home/me".to_vec())),
        b"/xdg/bitwarden-ssh-agent/config.toml".to_vec()
    );
    assert_eq!(
        default_config_path(Some(Vec::new()), Some(b"/home/me".to_vec())),
        b"/home/me/.config/bitwarden-ssh-agent/config.toml".to_vec()
    );
    assert_eq!(
        default_config_path(None, None),
        b".config/bitwarden-ssh-agent/config.toml".to_vec()
    );
}
