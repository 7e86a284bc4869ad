//! The configuration: the Bitwarden API key and the server to talk to.
//!
//! The API key only authenticates the device. The master password, which
//! unlocks the vault, is never part of the configuration.

use vstd::prelude::*;

use crate::json::field_views;
pub use crate::paths::default_config_path;
use crate::secret::Secret;
use crate::text;

verus! {

/// A Bitwarden API key.
pub struct ApiKey {
    pub client_id: String,
    pub client_secret: Secret,
}

/// The contents of an [`ApiKey`].
pub struct ApiKeyView {
    pub client_id: Seq<char>,
    pub client_secret: Seq<char>,
}

impl View for ApiKey {
    type V = ApiKeyView;

    open spec fn view(&self) -> ApiKeyView {
        ApiKeyView { client_id: self.client_id@, client_secret: self.client_secret@ }
    }
}

/// The contents of an optional API key.
pub open spec fn key_of(k: Option<ApiKey>) -> Option<ApiKeyView> {
    match k {
        Some(k) => Some(k@),
        None => None,
    }
}

/// What the configuration file says.
pub struct ConfigFile {
    pub client_id: Option<String>,
    pub client_secret: Option<String>,
    pub server: Option<String>,
}

/// What the environment says: the values of `BW_CLIENTID`, `BW_CLIENTSECRET`
/// and `BW_SERVER`.
pub struct ConfigEnv {
    pub client_id: Option<String>,
    pub client_secret: Option<String>,
    pub server: Option<String>,
}

/// The configuration that is in force.
pub struct Config {
    /// The API key, if there is one.
    pub api_key: Option<ApiKey>,
    /// The server to use in place of the official one.
    pub server: Option<String>,
}

/// Three settings, from one source.
pub struct Settings {
    pub client_id: Option<Seq<char>>,
    pub client_secret: Option<Seq<char>>,
    pub server: Option<Seq<char>>,
}

impl View for ConfigFile {
    type V = Settings;

    open spec fn view(&self) -> Settings {
        Settings {
            client_id: text::text_of(self.client_id),
            client_secret: text::text_of(self.client_secret),
            server: text::text_of(self.server),
        }
    }
}

impl View for ConfigEnv {
    type V = Settings;

    open spec fn view(&self) -> Settings {
        Settings {
            client_id: text::text_of(self.client_id),
            client_secret: text::text_of(self.client_secret),
            server: text::text_of(self.server),
        }
    }
}

/// The field that holds a setting, where it is set.
pub open spec fn setting_field(name: Seq<char>, value: Option<Seq<char>>) -> Seq<
    (Seq<char>, Seq<char>),
> {
    match value {
        Some(v) => seq![(name, v)],
        None => Seq::empty(),
    }
}

/// The fields of a configuration file with these settings.
pub open spec fn setting_fields(settings: Settings) -> Seq<(Seq<char>, Seq<char>)> {
    setting_field("client_id"@, settings.client_id) + setting_field(
        "client_secret"@,
        settings.client_secret,
    ) + setting_field("server"@, settings.server)
}

/// The text that `toml::to_string` writes for a table with these strings, or what
/// `toml` says where it writes none.
pub uninterp spec fn toml_text(fields: Seq<(Seq<char>, Seq<char>)>) -> Result<
    Seq<char>,
    Seq<char>,
>;

/// Wraps `toml::to_string` on a `toml::Table` of strings.
#[verifier::external_body]
fn write_toml(fields: &Vec<(String, String)>) -> (r: Result<String, String>)
    ensures
        text::told(r) == toml_text(field_views(fields@)),
{
    let table: toml::Table = fields
        .iter()
        .map(|(name, text)| (name.clone(), toml::Value::from(text.as_str())))
        .collect();
    toml::to_string(&table).map_err(|e| e.to_string())
}

/// Adds the field that holds a setting, where it is set.
fn push_setting(fields: &mut Vec<(String, String)>, name: &str, value: Option<String>)
    ensures
        field_views(final(fields)@) == field_views(old(fields)@) + setting_field(
            name@,
            text::text_of(value),
        ),
{
    let ghost before = field_views(fields@);
    match value {
        Some(v) => {
            fields.push((name.to_owned(), v));
            assert(field_views(fields@) =~= before + seq![(name@, v@)]);
        },
        None => {
            assert(before =~= before + Seq::empty());
        },
    }
}

/// The settings of a configuration file as they are written in it. Those that
/// were handed over are wiped.
pub fn settings_text(file: ConfigFile) -> (r: Result<String, String>)
    ensures
        text::told(r) == toml_text(setting_fields(file@)),
{
    let ghost settings = file@;
    let mut fields: Vec<(String, String)> = Vec::new();
    assert(field_views(fields@) =~= Seq::empty());
    push_setting(&mut fields, "client_id", file.client_id);
    push_setting(&mut fields, "client_secret", file.client_secret);
    push_setting(&mut fields, "server", file.server);
    assert(field_views(fields@) =~= setting_fields(settings));
    let text = write_toml(&fields);
    let mut i: usize = 0;
    while i < fields.len()
        invariant
            i <= fields.len(),
        decreases fields.len() - i,
    {
        text::wipe_text(&mut fields[i].1);
        i = i + 1;
    }
    text
}

/// The settings of a configuration file that may not be there.
pub open spec fn file_settings(file: Option<ConfigFile>) -> Settings {
    match file {
        Some(f) => f@,
        None => Settings { client_id: None, client_secret: None, server: None },
    }
}

/// A value from the environment counts only if it is not empty.
pub open spec fn non_empty(value: Option<Seq<char>>) -> Option<Seq<char>> {
    match value {
        Some(v) => if v.len() == 0 {
            None
        } else {
            Some(v)
        },
        None => None,
    }
}

/// The environment wins over the file.
pub open spec fn prefer(env: Option<Seq<char>>, file: Option<Seq<char>>) -> Option<Seq<char>> {
    match non_empty(env) {
        Some(v) => Some(v),
        None => file,
    }
}

/// The settings in force.
pub open spec fn effective(env: Settings, file: Settings) -> Settings {
    Settings {
        client_id: prefer(env.client_id, file.client_id),
        client_secret: prefer(env.client_secret, file.client_secret),
        server: prefer(env.server, file.server),
    }
}

/// Whether exactly one half of the API key is set.
pub open spec fn half_a_key(s: Settings) -> bool {
    s.client_id is Some != s.client_secret is Some
}

/// The API key that the settings make up: there is one if both halves are set
/// and neither is empty.
pub open spec fn whole_key(s: Settings) -> Option<ApiKeyView> {
    match (s.client_id, s.client_secret) {
        (Some(id), Some(secret)) => if id.len() > 0 && secret.len() > 0 {
            Some(ApiKeyView { client_id: id, client_secret: secret })
        } else {
            None
        },
        _ => None,
    }
}

/// `value`, unless it is empty.
fn non_empty_env(value: Option<String>) -> (r: Option<String>)
    ensures
        text::text_of(r) == non_empty(text::text_of(value)),
{
    match value {
        Some(v) => if v.as_str().is_empty() {
            None
        } else {
            Some(v)
        },
        None => None,
    }
}

/// The value from the environment, or else the one from the file.
fn prefer_env(env: Option<String>, file: Option<String>) -> (r: Option<String>)
    ensures
        text::text_of(r) == prefer(text::text_of(env), text::text_of(file)),
{
    match non_empty_env(env) {
        Some(v) => Some(v),
        None => file,
    }
}

/// Why half an API key is refused.
pub open spec fn incomplete_key_text() -> Seq<char> {
    "incomplete Bitwarden API key: both client_id and client_secret must be set (via BW_CLIENTID/BW_CLIENTSECRET or the config file)"@
}

impl Config {
    /// The configuration that the environment and the file add up to. Half an
    /// API key is an error; an API key with an empty half is none.
    pub fn load_from(env: ConfigEnv, file: Option<ConfigFile>) -> (r: Result<Config, String>)
        ensures
            r is Err <==> half_a_key(effective(env@, file_settings(file))),
            r matches Err(e) ==> e@ == incomplete_key_text(),
            r matches Ok(c) ==> key_of(c.api_key) == whole_key(
                effective(env@, file_settings(file)),
            ) && text::text_of(c.server) == effective(env@, file_settings(file)).server,
    {
        let ConfigEnv { client_id: env_id, client_secret: env_secret, server: env_server } = env;
        let (file_id, file_secret, file_server) = match file {
            Some(f) => (f.client_id, f.client_secret, f.server),
            None => (None, None, None),
        };
        let client_id = prefer_env(env_id, file_id);
        let client_secret = prefer_env(env_secret, file_secret);
        let api_key = match (client_id, client_secret) {
            (Some(id), Some(secret)) => if !id.as_str().is_empty() && !secret.as_str().is_empty() {
                Some(ApiKey { client_id: id, client_secret: Secret::new(secret) })
            } else {
                None
            },
            (None, None) => None,
            _ => {
                return Err(
                    "incomplete Bitwarden API key: both client_id and client_secret must be set (via BW_CLIENTID/BW_CLIENTSECRET or the config file)".to_owned(),
                );
            },
        };
        Ok(Config { api_key, server: prefer_env(env_server, file_server) })
    }
}

// --- the configuration file -------------------------------------------------

/// The permission bits of a file mode.
pub open spec fn permission_bits(mode: u32) -> u32 {
    mode & 0o777
}

/// Whether the mode permits more than reading and writing by the owner.
pub open spec fn is_lax(mode: u32) -> bool {
    permission_bits(mode) & 0o177 != 0
}

/// The permission bits the way they are shown: `0o640`.
pub open spec fn shown_mode(mode: u32) -> Seq<char> {
    "0o"@ + text::numeral(permission_bits(mode) as nat, 8)
}

/// Why a configuration file with lax permissions is refused.
pub open spec fn lax_text(path: Seq<char>, mode: u32) -> Seq<char> {
    "config file "@ + path + " has insecure permissions "@ + shown_mode(mode) + (
    "; it may contain your Bitwarden API secret. Run: chmod 600 "@ + path)
}

/// Refuses a configuration file whose permissions are looser than `0600`, since
/// it may hold the API secret. `path` is the file's name for the message.
pub fn check_permissions(path: &str, mode: u32) -> (r: Result<(), String>)
    ensures
        r is Err <==> is_lax(mode),
        r matches Err(e) ==> e@ == lax_text(path@, mode),
{
    let bits: u32 = mode & 0o777;
    if bits & 0o177 != 0 {
        let shown = text::cat2("0o", text::octal_text(bits as u64).as_str());
        let advice = text::cat2("; it may contain your Bitwarden API secret. Run: chmod 600 ", path);
        Err(
            text::cat5(
                "config file ",
                path,
                " has insecure permissions ",
                shown.as_str(),
                advice.as_str(),
            ),
        )
    } else {
        Ok(())
    }
}

// --- laws -------------------------------------------------------------------

/// What the environment sets is what counts; the file counts where the
/// environment says nothing, or sets nothing but an empty text.
pub proof fn the_environment_wins(env: Settings, file: Settings)
    ensures
        (env.client_id matches Some(v) && v.len() > 0) ==> effective(env, file).client_id
            == env.client_id,
        (env.client_secret matches Some(v) && v.len() > 0) ==> effective(env, file).client_secret
            == env.client_secret,
        (env.server matches Some(v) && v.len() > 0) ==> effective(env, file).server == env.server,
        non_empty(env.client_id) is None ==> effective(env, file).client_id == file.client_id,
        non_empty(env.client_secret) is None ==> effective(env, file).client_secret
            == file.client_secret,
        non_empty(env.server) is None ==> effective(env, file).server == file.server,
{
}

/// An API key is used whole or not at all: half of one is refused, and one that
/// is used has both its halves as they were set, neither of them empty.
pub proof fn a_key_is_whole_or_absent(s: Settings)
    ensures
        half_a_key(s) <==> (s.client_id is Some) != (s.client_secret is Some),
        whole_key(s) is Some ==> !half_a_key(s),
        whole_key(s) matches Some(k) ==> s.client_id == Some(k.client_id) && s.client_secret
            == Some(k.client_secret) && k.client_id.len() > 0 && k.client_secret.len() > 0,
{
}

/// A file that only its owner can read and write is taken. One that permits
/// anything else is refused: anything to the group or to others, or its
/// execution.
pub proof fn only_private_files_are_taken(mode: u32)
    ensures
        !is_lax(0o600),
        !is_lax(0o400),
        is_lax(0o700),
        mode & 0o077 != 0 ==> is_lax(mode),
        !is_lax(mode) <==> permission_bits(mode) & 0o600 == permission_bits(mode),
{
    assert(0o600u32 & 0o777u32 & 0o177u32 == 0) by (bit_vector);
    assert(0o400u32 & 0o777u32 & 0o177u32 == 0) by (bit_vector);
    assert(0o700u32 & 0o777u32 & 0o177u32 != 0) by (bit_vector);
    assert(mode & 0o077u32 != 0 ==> mode & 0o777u32 & 0o177u32 != 0) by (bit_vector);
    assert(mode & 0o777u32 & 0o177u32 == 0 <==> mode & 0o777u32 & 0o600u32 == mode & 0o777u32)
        by (bit_vector);
}

/// Each setting is looked for in the environment first and then in the file, and
/// no setting has a part in what another comes to. A variable that is empty is as
/// good as none, and so is a file that is not there.
pub proof fn each_setting_is_found_by_itself(
    env: Settings,
    file: Settings,
    other_env: Settings,
    other_file: Settings,
)
    ensures
        env.client_id is None || env.client_id == Some(Seq::<char>::empty()) ==> effective(
            env,
            file,
        ).client_id == file.client_id,
        env.client_secret is None || env.client_secret == Some(Seq::<char>::empty()) ==> effective(
            env,
            file,
        ).client_secret == file.client_secret,
        env.server is None || env.server == Some(Seq::<char>::empty()) ==> effective(
            env,
            file,
        ).server == file.server,
        env.client_id == other_env.client_id && file.client_id == other_file.client_id
            ==> effective(env, file).client_id == effective(other_env, other_file).client_id,
        env.client_secret == other_env.client_secret && file.client_secret
            == other_file.client_secret ==> effective(env, file).client_secret == effective(
            other_env,
            other_file,
        ).client_secret,
        env.server == other_env.server && file.server == other_file.server ==> effective(
            env,
            file,
        ).server == effective(other_env, other_file).server,
        effective(env, file_settings(None)) == effective(
            env,
            Settings { client_id: None, client_secret: None, server: None },
        ),
{
}

/// An API key of which both halves are set, and neither is empty, is used as it
/// was set. One with an empty half is none, and none at all is no error.
pub proof fn a_key_that_is_set_is_used(
    client_id: Seq<char>,
    client_secret: Seq<char>,
    server: Option<Seq<char>>,
)
    ensures
        ({
            let set = Settings {
                client_id: Some(client_id),
                client_secret: Some(client_secret),
                server,
            };
            &&& !half_a_key(set)
            &&& client_id.len() > 0 && client_secret.len() > 0 ==> whole_key(set) == Some(
                ApiKeyView { client_id, client_secret },
            )
            &&& client_id.len() == 0 || client_secret.len() == 0 ==> whole_key(set) is None
            &&& half_a_key(Settings { client_id: None, ..set })
            &&& half_a_key(Settings { client_secret: None, ..set })
            &&& !half_a_key(Settings { client_id: None, client_secret: None, server })
            &&& whole_key(Settings { client_id: None, client_secret: None, server }) is None
        }),
{
}

/// A setting that is set is written to the file under its name, in the order of
/// the key and the server, and one that is not is left out.
pub proof fn settings_are_written_under_their_names(
    client_id: Seq<char>,
    client_secret: Seq<char>,
    server: Seq<char>,
)
    ensures
        ({
            let all = Settings {
                client_id: Some(client_id),
                client_secret: Some(client_secret),
                server: Some(server),
            };
            let written = seq![
                ("client_id"@, client_id),
                ("client_secret"@, client_secret),
                ("server"@, server),
            ];
            &&& setting_fields(all) == written
            &&& setting_fields(Settings { server: None, ..all }) == written.drop_last()
            &&& setting_fields(Settings { client_id: None, ..all }) == written.drop_first()
            &&& setting_fields(Settings { client_secret: None, ..all }) == written.remove(1)
            &&& setting_fields(Settings { client_id: None, client_secret: None, server: None })
                == Seq::<(Seq<char>, Seq<char>)>::empty()
        }),
{
    let all = Settings {
        client_id: Some(client_id),
        client_secret: Some(client_secret),
        server: Some(server),
    };
    let written = seq![
        ("client_id"@, client_id),
        ("client_secret"@, client_secret),
        ("server"@, server),
    ];
    assert(setting_fields(all) =~= written);
    assert(setting_fields(Settings { server: None, ..all }) =~= written.drop_last());
    assert(setting_fields(Settings { client_id: None, ..all }) =~= written.drop_first());
    assert(setting_fields(Settings { client_secret: None, ..all }) =~= written.remove(1));
    assert(setting_fields(Settings { client_id: None, client_secret: None, server: None })
        =~= Seq::<(Seq<char>, Seq<char>)>::empty());
}

/// Only the nine permission bits of a mode count, and of them the owner's right to
/// read and write is the only one that does no harm. The message names the file
/// and its permissions in octal, and how to mend them.
pub proof fn permissions_alone_decide(path: Seq<char>, mode: u32, rest: u32)
    requires
        rest & 0o777 == 0,
    ensures
        is_lax(mode) <==> mode & 0o177 != 0,
        is_lax(mode | rest) <==> is_lax(mode),
        lax_text(path, mode | rest) == lax_text(path, mode),
        lax_text(path, mode) == "config file "@ + path + " has insecure permissions 0o"@
            + text::numeral((mode & 0o777) as nat, 8)
            + "; it may contain your Bitwarden API secret. Run: chmod 600 "@ + path,
{
    assert(mode & 0o777u32 & 0o177u32 != 0 <==> mode & 0o177u32 != 0) by (bit_vector);
    assert((mode | rest) & 0o777u32 == mode & 0o777u32) by (bit_vector)
        requires
            rest & 0o777u32 == 0,
    ;
    reveal_strlit(" has insecure permissions ");
    reveal_strlit("0o");
    reveal_strlit(" has insecure permissions 0o");
    assert(" has insecure permissions "@ + "0o"@ =~= " has insecure permissions 0o"@);
    assert(lax_text(path, mode) =~= "config file "@ + path + " has insecure permissions 0o"@
        + text::numeral((mode & 0o777) as nat, 8)
        + "; it may contain your Bitwarden API secret. Run: chmod 600 "@ + path);
}

/// What a file or the environment holds is taken as it stands there.
pub proof fn settings_are_taken_as_they_stand(file: ConfigFile, env: ConfigEnv)
    ensures
        file_settings(Some(file)).client_id == text::text_of(file.client_id),
        file_settings(Some(file)).client_secret == text::text_of(file.client_secret),
        file_settings(Some(file)).server == text::text_of(file.server),
        env@.client_id == text::text_of(env.client_id),
        env@.client_secret == text::text_of(env.client_secret),
        env@.server == text::text_of(env.server),
{
}

/// The configuration that is loaded has the key and the server that were set, each
/// from the environment where it is set there and not empty, and else from the file;
/// it is refused exactly where one half of a key is set and the other is not.
pub proof fn the_configuration_is_what_was_set(
    env: ConfigEnv,
    file: ConfigFile,
    r: Result<Config, String>,
)
    requires
        call_ensures(Config::load_from, (env, Some(file)), r),
    ensures
        ({
            let pick = |e: Option<String>, f: Option<String>|
                if e is Some && e->0@.len() > 0 {
                    Some(e->0@)
                } else {
                    text::text_of(f)
                };
            let id = pick(env.client_id, file.client_id);
            let secret = pick(env.client_secret, file.client_secret);
            &&& r is Err <==> (id is Some) != (secret is Some)
            &&& r matches Ok(c) ==> {
                &&& text::text_of(c.server) == pick(env.server, file.server)
                &&& c.api_key is Some <==> id is Some && secret is Some && id->0.len() > 0
                    && secret->0.len() > 0
                &&& c.api_key matches Some(k) ==> Some(k.client_id@) == id && Some(
                    k.client_secret@,
                ) == secret
            }
        }),
{
}

/// Without a file the environment alone decides.
pub proof fn without_a_file_the_environment_decides(env: ConfigEnv, r: Result<Config, String>)
    requires
        call_ensures(Config::load_from, (env, None), r),
    ensures
        ({
            let id = env.client_id is Some && env.client_id->0@.len() > 0;
            let secret = env.client_secret is Some && env.client_secret->0@.len() > 0;
            &&& r is Err <==> id != secret
            &&& r matches Ok(c) ==> (c.api_key is Some <==> id && secret)
            &&& r matches Ok(c) ==> (c.api_key matches Some(k) ==> k.client_id@
                == env.client_id->0@ && k.client_secret@ == env.client_secret->0@)
            &&& r matches Ok(c) ==> (c.server matches Some(s) ==> env.server is Some && s@
                == env.server->0@ && s@.len() > 0)
            &&& r matches Ok(c) ==> (env.server is Some && env.server->0@.len() > 0
                ==> c.server is Some)
        }),
{
}

/// A file is refused exactly where its mode lets anybody do more with it than its owner
/// read and write it.
pub proof fn a_file_is_refused_for_its_mode_alone(path: &str, mode: u32, r: Result<(), String>)
    requires
        call_ensures(check_permissions, (path, mode), r),
    ensures
        r is Ok <==> mode & 0o177 == 0,
{
    assert(mode & 0o777u32 & 0o177u32 != 0 <==> mode & 0o177u32 != 0) by (bit_vector);
}

/// An API key is its two halves as they are held.
pub proof fn a_key_is_its_two_halves(key: ApiKey)
    ensures
        key@.client_id == key.client_id@,
        key@.client_secret == key.client_secret@,
        key_of(Some(key)) == Some(key@),
        key_of(None) is None,
        incomplete_key_text()
            == "incomplete Bitwarden API key: both client_id and client_secret must be set (via BW_CLIENTID/BW_CLIENTSECRET or the config file)"@,
{
}

} // verus!
