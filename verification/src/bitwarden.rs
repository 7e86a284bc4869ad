//! The Bitwarden CLI `bw`: how it is called, and how its answers are read.
//!
//! Secrets reach `bw` through its own environment or its standard input. What
//! other users can see of the process, its arguments, holds none of them.

use vstd::prelude::*;

use crate::config::{key_of, ApiKey, ApiKeyView};
use crate::json::{json_string, read_json_string};
use crate::process::{
    because, complaint, expect_success, failure, ran, run_failure, stderr, with_context, words1,
    words2, words3, words4, Input, Invocation, InvocationView, Output, OutputView, Ran, Variable,
    Visible,
};
use crate::secret::Secret;
use crate::text;

verus! {

/// The key of an unlocked vault (the value of `BW_SESSION`).
pub struct Session {
    pub key: Secret,
}

impl View for Session {
    type V = Seq<char>;

    open spec fn view(&self) -> Seq<char> {
        self.key@
    }
}

/// An SSH key in the vault.
pub struct SshKeyItem {
    /// The item's id in the vault.
    pub id: String,
    pub name: String,
    pub ssh_key: SshKeyData,
}

/// The key itself.
pub struct SshKeyData {
    pub private_key: String,
    pub public_key: String,
    pub key_fingerprint: Option<String>,
}

/// The contents of an [`SshKeyItem`].
pub struct ItemView {
    pub id: Seq<char>,
    pub name: Seq<char>,
    pub private_key: Seq<char>,
    pub public_key: Seq<char>,
    pub key_fingerprint: Option<Seq<char>>,
}

impl View for SshKeyItem {
    type V = ItemView;

    open spec fn view(&self) -> ItemView {
        ItemView {
            id: self.id@,
            name: self.name@,
            private_key: self.ssh_key.private_key@,
            public_key: self.ssh_key.public_key@,
            key_fingerprint: text::text_of(self.ssh_key.key_fingerprint),
        }
    }
}

/// The contents of a list of items.
pub open spec fn item_views(items: Seq<SshKeyItem>) -> Seq<ItemView> {
    items.map_values(|i: SshKeyItem| i@)
}

/// The answer of `bw status`.
pub struct Status {
    /// One of `unauthenticated`, `locked` and `unlocked`.
    pub status: String,
}

/// Whether a device with this status is logged in: with any status but one.
pub open spec fn logged_in(status: Seq<char>) -> bool {
    status != "unauthenticated"@
}

impl Status {
    /// Whether the device is logged in.
    pub fn is_logged_in(&self) -> (r: bool)
        ensures
            r == logged_in(self.status@),
    {
        !text::same_text(self.status.as_str(), "unauthenticated")
    }
}

/// How to reach the `bw` program, and the server it is to talk to.
pub struct BitwardenCli {
    pub program: String,
    pub server: Option<String>,
}

// --- calls ------------------------------------------------------------------

/// The variable that hands the master password to `bw unlock`.
pub const PW_VAR: &'static str = "BW_SSH_AGENT_MASTER_PW";

/// A call of `bw`: never with a session or prompts that are left over in the
/// environment.
pub open spec fn bw(
    program: Seq<char>,
    args: Seq<Seq<char>>,
    env: Seq<(Seq<char>, Seq<char>)>,
    input: Option<Seq<u8>>,
) -> InvocationView {
    InvocationView {
        visible: Visible { program, args, path: None },
        removed: seq!["BW_SESSION"@],
        env: seq![("BW_NOINTERACTION"@, "true"@)] + env,
        input,
    }
}

/// A [`BitwardenCli`] is its program and its server.
pub struct CliView {
    pub program: Seq<char>,
    pub server: Option<Seq<char>>,
}

impl View for BitwardenCli {
    type V = CliView;

    open spec fn view(&self) -> CliView {
        CliView { program: self.program@, server: text::text_of(self.server) }
    }
}

impl CliView {
    /// Asks whether the device is logged in.
    pub open spec fn status_call(self) -> InvocationView {
        bw(self.program, seq!["status"@], Seq::empty(), None)
    }

    /// Logs in with an API key.
    pub open spec fn login_call(self, key: ApiKeyView) -> InvocationView {
        bw(
            self.program,
            seq!["login"@, "--apikey"@],
            seq![("BW_CLIENTID"@, key.client_id), ("BW_CLIENTSECRET"@, key.client_secret)],
            None,
        )
    }

    /// Points the CLI at `server`.
    pub open spec fn server_call(self, server: Seq<char>) -> InvocationView {
        bw(self.program, seq!["config"@, "server"@, server], Seq::empty(), None)
    }

    /// Unlocks the vault.
    pub open spec fn unlock_call(self, password: Seq<char>) -> InvocationView {
        bw(
            self.program,
            seq!["unlock"@, "--passwordenv"@, PW_VAR@, "--raw"@],
            seq![(PW_VAR@, password)],
            None,
        )
    }

    /// Brings the local copy of the vault up to date.
    pub open spec fn sync_call(self, session: Seq<char>) -> InvocationView {
        bw(self.program, seq!["sync"@], seq![("BW_SESSION"@, session)], None)
    }

    /// Lists the items of the vault.
    pub open spec fn list_call(self, session: Seq<char>) -> InvocationView {
        bw(self.program, seq!["list"@, "items"@], seq![("BW_SESSION"@, session)], None)
    }

    /// Asks for the version.
    pub open spec fn version_call(self) -> InvocationView {
        bw(self.program, seq!["--version"@], Seq::empty(), None)
    }

    /// Logs out.
    pub open spec fn logout_call(self) -> InvocationView {
        bw(self.program, seq!["logout"@], Seq::empty(), None)
    }

    /// Asks for the empty form of an item.
    pub open spec fn template_call(self) -> InvocationView {
        bw(self.program, seq!["get"@, "template"@, "item"@], Seq::empty(), None)
    }

    /// Asks for the item `id`.
    pub open spec fn item_call(self, session: Seq<char>, id: Seq<char>) -> InvocationView {
        bw(self.program, seq!["get"@, "item"@, id], seq![("BW_SESSION"@, session)], None)
    }

    /// Encodes the JSON of an item.
    pub open spec fn encode_call(self, json: Seq<u8>) -> InvocationView {
        bw(self.program, seq!["encode"@], Seq::empty(), Some(json))
    }

    /// Creates an item.
    pub open spec fn create_call(self, session: Seq<char>, encoded: Seq<u8>) -> InvocationView {
        bw(
            self.program,
            seq!["create"@, "item"@],
            seq![("BW_SESSION"@, session)],
            Some(encoded),
        )
    }

    /// Replaces the item `id`.
    pub open spec fn edit_call(
        self,
        session: Seq<char>,
        id: Seq<char>,
        encoded: Seq<u8>,
    ) -> InvocationView {
        bw(
            self.program,
            seq!["edit"@, "item"@, id],
            seq![("BW_SESSION"@, session)],
            Some(encoded),
        )
    }
}

impl BitwardenCli {
    /// The CLI for `server`; `cli_path`, from `BW_CLI_PATH`, names the program
    /// where it is not simply `bw`.
    pub fn new(server: Option<String>, cli_path: Option<String>) -> (r: BitwardenCli)
        ensures
            text::text_of(r.server) == text::text_of(server),
            r.program@ == (match text::text_of(cli_path) {
                Some(p) => p,
                None => "bw"@,
            }),
    {
        let program = match cli_path {
            Some(p) => p,
            None => "bw".to_owned(),
        };
        BitwardenCli { program, server }
    }

    /// A call of `bw` with `args`.
    fn base_command(&self, args: Vec<String>) -> (r: Invocation)
        ensures
            r@ == bw(self.program@, text::texts(args@), Seq::empty(), None),
    {
        let env = vec![
            Variable { name: "BW_NOINTERACTION".to_owned(), value: Secret::new("true".to_owned()) },
        ];
        let r = Invocation {
            program: self.program.clone(),
            args,
            path: None,
            removed: words1("BW_SESSION"),
            env,
            input: Input::Nothing,
        };
        assert(r@.env =~= seq![("BW_NOINTERACTION"@, "true"@)] + Seq::empty());
        r
    }

    /// A call of `bw` with `args` and one more variable.
    fn command_with(&self, args: Vec<String>, name: &str, value: Secret) -> (r: Invocation)
        ensures
            r@ == bw(self.program@, text::texts(args@), seq![(name@, value@)], None),
    {
        let mut r = self.base_command(args);
        r.env.push(Variable { name: name.to_owned(), value });
        assert(r@.env =~= seq![("BW_NOINTERACTION"@, "true"@)] + seq![(name@, value@)]);
        r
    }

    /// Asks for the version.
    pub fn version(&self) -> (r: Invocation)
        ensures
            r@ == self@.version_call(),
    {
        self.base_command(words1("--version"))
    }

    /// Points the CLI at `server`.
    pub fn configure_server(&self, server: &str) -> (r: Invocation)
        ensures
            r@ == self@.server_call(server@),
    {
        self.base_command(words3("config", "server", server))
    }

    /// Asks whether the device is logged in.
    pub fn status(&self) -> (r: Invocation)
        ensures
            r@ == self@.status_call(),
    {
        self.base_command(words1("status"))
    }

    /// Logs the device in with the API key, which travels in the environment.
    pub fn login_with_api_key(&self, api_key: &ApiKey) -> (r: Invocation)
        ensures
            r@ == self@.login_call(api_key@),
    {
        let mut r = self.command_with(
            words2("login", "--apikey"),
            "BW_CLIENTID",
            Secret::new(api_key.client_id.clone()),
        );
        let ghost before = r@.env;
        r.env.push(
            Variable { name: "BW_CLIENTSECRET".to_owned(), value: api_key.client_secret.copy() },
        );
        assert(r@.env =~= before.push(("BW_CLIENTSECRET"@, api_key.client_secret@)));
        assert(r@.env =~= seq![("BW_NOINTERACTION"@, "true"@)] + seq![
            ("BW_CLIENTID"@, api_key.client_id@),
            ("BW_CLIENTSECRET"@, api_key.client_secret@),
        ]);
        r
    }

    /// Logs the device out.
    pub fn logout(&self) -> (r: Invocation)
        ensures
            r@ == self@.logout_call(),
    {
        self.base_command(words1("logout"))
    }

    /// Unlocks the vault with the master password, which travels in the
    /// environment.
    pub fn unlock(&self, master_password: &Secret) -> (r: Invocation)
        ensures
            r@ == self@.unlock_call(master_password@),
    {
        self.command_with(
            words4("unlock", "--passwordenv", PW_VAR, "--raw"),
            PW_VAR,
            master_password.copy(),
        )
    }

    /// Brings the local copy of the vault up to date.
    pub fn sync(&self, session: &Session) -> (r: Invocation)
        ensures
            r@ == self@.sync_call(session@),
    {
        self.command_with(words1("sync"), "BW_SESSION", session.key.copy())
    }

    /// Lists the items of the vault.
    pub fn list_ssh_keys(&self, session: &Session) -> (r: Invocation)
        ensures
            r@ == self@.list_call(session@),
    {
        self.command_with(words2("list", "items"), "BW_SESSION", session.key.copy())
    }

    /// Asks for the empty form of an item.
    pub fn item_template(&self) -> (r: Invocation)
        ensures
            r@ == self@.template_call(),
    {
        self.base_command(words3("get", "template", "item"))
    }

    /// Asks for one item.
    pub fn get_item(&self, session: &Session, id: &str) -> (r: Invocation)
        ensures
            r@ == self@.item_call(session@, id@),
    {
        self.command_with(words3("get", "item", id), "BW_SESSION", session.key.copy())
    }

    /// Encodes the JSON of an item, which travels on standard input, the way
    /// that creating and editing want it.
    pub fn encode_item(&self, json: Vec<u8>) -> (r: Invocation)
        ensures
            r@ == self@.encode_call(json@),
    {
        let mut r = self.base_command(words1("encode"));
        r.input = Input::Bytes(json);
        r
    }

    /// Creates an item from its encoded form, which travels on standard input.
    pub fn create_item(&self, session: &Session, encoded: Vec<u8>) -> (r: Invocation)
        ensures
            r@ == self@.create_call(session@, encoded@),
    {
        let mut r = self.command_with(words2("create", "item"), "BW_SESSION", session.key.copy());
        r.input = Input::Bytes(encoded);
        r
    }

    /// Replaces an item by its encoded form, which travels on standard input.
    pub fn edit_item(&self, session: &Session, id: &str, encoded: Vec<u8>) -> (r: Invocation)
        ensures
            r@ == self@.edit_call(session@, id@, encoded@),
    {
        let mut r = self.command_with(words3("edit", "item", id), "BW_SESSION", session.key.copy());
        r.input = Input::Bytes(encoded);
        r
    }
}

// --- answers ----------------------------------------------------------------

/// Why `bw` is not there, for a message.
pub open spec fn not_runnable(program: Seq<char>) -> Seq<char> {
    "failed to run `"@ + program
        + "` \u{2014} is the Bitwarden CLI installed? (`npm install -g @bitwarden/cli`)"@
}

impl BitwardenCli {
    /// The version that `bw --version` answered.
    pub fn version_answer(&self, r: Ran) -> (res: Result<String, String>)
        ensures
            failure(res) == run_failure(
                ran(r),
                not_runnable(self.program@),
                "`"@ + self.program@ + " --version` failed: "@,
            ),
            res matches Ok(v) ==> v@ == text::trimmed(text::utf8_lossy(ran(r)->Ok_0.stdout)),
    {
        let context = text::cat3(
            "failed to run `",
            self.program.as_str(),
            "` \u{2014} is the Bitwarden CLI installed? (`npm install -g @bitwarden/cli`)",
        );
        let blame = text::cat3("`", self.program.as_str(), " --version` failed: ");
        match expect_success(r, context.as_str(), blame.as_str()) {
            Ok(stdout) => Ok(
                text::trim(text::from_utf8_lossy(stdout.as_slice()).as_str()),
            ),
            Err(e) => Err(e),
        }
    }

    /// What came of pointing the CLI at `server`.
    pub fn server_answer(server: &str, r: Ran) -> (res: Result<(), String>)
        ensures
            failure(res) == run_failure(
                ran(r),
                "running `bw config server`"@,
                "`bw config server "@ + server@ + "` failed: "@,
            ),
    {
        let blame = text::cat3("`bw config server ", server, "` failed: ");
        match expect_success(r, "running `bw config server`", blame.as_str()) {
            Ok(_) => Ok(()),
            Err(e) => Err(e),
        }
    }

    /// The JSON that `bw status` answered.
    pub fn status_answer(r: Ran) -> (res: Result<Vec<u8>, String>)
        ensures
            failure(res) == run_failure(ran(r), "running `bw status`"@, "`bw status` failed: "@),
            res matches Ok(stdout) ==> stdout@ == ran(r)->Ok_0.stdout,
    {
        expect_success(r, "running `bw status`", "`bw status` failed: ")
    }

    /// What came of logging in.
    pub fn login_answer(r: Ran) -> (res: Result<(), String>)
        ensures
            failure(res) == run_failure(
                ran(r),
                "running `bw login --apikey`"@,
                "`bw login --apikey` failed: "@,
            ),
    {
        match expect_success(r, "running `bw login --apikey`", "`bw login --apikey` failed: ") {
            Ok(_) => Ok(()),
            Err(e) => Err(e),
        }
    }

    /// What came of logging out: a device that was logged out already makes
    /// `bw` fail, which is as good.
    pub fn logout_answer(r: Ran) -> (res: Result<(), String>)
        ensures
            failure(res) == (match ran(r) {
                Err(cause) => Some(because("running `bw logout`"@, cause)),
                Ok(_) => None,
            }),
    {
        match r {
            Ok(_) => Ok(()),
            Err(cause) => Err(with_context("running `bw logout`", cause.as_str())),
        }
    }

    /// The session that unlocking the vault yielded.
    pub fn unlock_answer(r: Ran) -> (res: Result<Session, String>)
        ensures
            failure(res) == unlock_failure(ran(r)),
            res matches Ok(s) ==> s@ == session_text(ran(r)->Ok_0.stdout),
    {
        let stdout = match expect_success(
            r,
            "running `bw unlock`",
            "`bw unlock` failed (wrong master password?): ",
        ) {
            Ok(stdout) => stdout,
            Err(e) => {
                return Err(e);
            },
        };
        let mut raw: String = match text::from_utf8(stdout) {
            Ok(raw) => raw,
            Err(cause) => {
                return Err(
                    with_context(
                        "`bw unlock --raw` returned non-UTF8 session key",
                        cause.as_str(),
                    ),
                );
            },
        };
        let session = text::trim(raw.as_str());
        text::wipe_text(&mut raw);
        if session.as_str().is_empty() {
            return Err("`bw unlock --raw` returned an empty session key".to_owned());
        }
        Ok(Session { key: Secret::new(session) })
    }

    /// What came of bringing the local copy up to date.
    pub fn sync_answer(r: Ran) -> (res: Result<(), String>)
        ensures
            failure(res) == run_failure(ran(r), "running `bw sync`"@, "`bw sync` failed: "@),
    {
        match expect_success(r, "running `bw sync`", "`bw sync` failed: ") {
            Ok(_) => Ok(()),
            Err(e) => Err(e),
        }
    }

    /// The JSON that `bw list items` answered.
    pub fn list_answer(r: Ran) -> (res: Result<Vec<u8>, String>)
        ensures
            failure(res) == run_failure(
                ran(r),
                "running `bw list items`"@,
                "`bw list items` failed: "@,
            ),
            res matches Ok(stdout) ==> stdout@ == ran(r)->Ok_0.stdout,
    {
        expect_success(r, "running `bw list items`", "`bw list items` failed: ")
    }

    /// The JSON that `bw get template item` answered.
    pub fn template_answer(r: Ran) -> (res: Result<Vec<u8>, String>)
        ensures
            failure(res) == run_failure(
                ran(r),
                "running `bw get template item`"@,
                "`bw get template item` failed: "@,
            ),
            res matches Ok(stdout) ==> stdout@ == ran(r)->Ok_0.stdout,
    {
        expect_success(r, "running `bw get template item`", "`bw get template item` failed: ")
    }

    /// The JSON that `bw get item` answered for the item `id`.
    pub fn item_answer(id: &str, r: Ran) -> (res: Result<Vec<u8>, String>)
        ensures
            failure(res) == run_failure(
                ran(r),
                "running `bw get item`"@,
                "`bw get item "@ + id@ + "` failed: "@,
            ),
            res matches Ok(stdout) ==> stdout@ == ran(r)->Ok_0.stdout,
    {
        let blame = text::cat3("`bw get item ", id, "` failed: ");
        expect_success(r, "running `bw get item`", blame.as_str())
    }
}

/// The session key in what `bw unlock --raw` wrote.
pub open spec fn session_text(stdout: Seq<u8>) -> Seq<char> {
    text::trimmed(vstd::utf8::decode_utf8(stdout))
}

/// Why unlocking the vault went wrong, if it did.
pub open spec fn unlock_failure(r: Result<OutputView, Seq<char>>) -> Option<Seq<char>> {
    match run_failure(
        r,
        "running `bw unlock`"@,
        "`bw unlock` failed (wrong master password?): "@,
    ) {
        Some(e) => Some(e),
        None => {
            let stdout = r->Ok_0.stdout;
            if !vstd::utf8::valid_utf8(stdout) {
                Some(
                    because(
                        "`bw unlock --raw` returned non-UTF8 session key"@,
                        text::utf8_error(stdout),
                    ),
                )
            } else if session_text(stdout).len() == 0 {
                Some("`bw unlock --raw` returned an empty session key"@)
            } else {
                None
            }
        },
    }
}

// --- logging in -------------------------------------------------------------

/// What it takes to get the device logged in, as far as is known.
pub enum LoginStep {
    /// Point the CLI at the server `server`, then log in.
    SetServer { server: String, call: Invocation, login: Invocation },
    /// Log in.
    Login(Invocation),
    /// Nothing: the device is logged in.
    LoggedIn,
    /// It cannot be done; why not.
    Failed(String),
}

/// The contents of a [`LoginStep`].
pub enum LoginView {
    SetServer { server: Seq<char>, call: InvocationView, login: InvocationView },
    Login(InvocationView),
    LoggedIn,
    Failed(Seq<char>),
}

impl View for LoginStep {
    type V = LoginView;

    open spec fn view(&self) -> LoginView {
        match self {
            LoginStep::SetServer { server, call, login } => LoginView::SetServer {
                server: server@,
                call: call@,
                login: login@,
            },
            LoginStep::Login(login) => LoginView::Login(login@),
            LoginStep::LoggedIn => LoginView::LoggedIn,
            LoginStep::Failed(e) => LoginView::Failed(e@),
        }
    }
}

/// The status that `bw status` gave, or why it gave none.
pub open spec fn status_text(status: Result<Status, String>) -> Result<Seq<char>, Seq<char>> {
    match status {
        Ok(s) => Ok(s.status@),
        Err(e) => Err(e@),
    }
}

impl CliView {
    /// What it takes to get a device with this status logged in. A device that
    /// is logged in is left alone: `bw` refuses to change the server of one. One
    /// that is not needs an API key, and is pointed at its server first.
    pub open spec fn login_plan(
        self,
        key: Option<ApiKeyView>,
        status: Result<Seq<char>, Seq<char>>,
    ) -> LoginView {
        match status {
            Err(e) => LoginView::Failed(e),
            Ok(s) => if logged_in(s) {
                LoginView::LoggedIn
            } else {
                match key {
                    None => LoginView::Failed(no_key_text()),
                    Some(k) => match self.server {
                        Some(server) => LoginView::SetServer {
                            server,
                            call: self.server_call(server),
                            login: self.login_call(k),
                        },
                        None => LoginView::Login(self.login_call(k)),
                    },
                }
            },
        }
    }
}

/// Why a device that is logged out cannot be logged in without an API key.
pub open spec fn no_key_text() -> Seq<char> {
    "no Bitwarden API key configured and the CLI is not logged in; set BW_CLIENTID/BW_CLIENTSECRET or run `bw login` once"@
}

/// What follows pointing the CLI at `server`: logging in, if that went well.
pub open spec fn after_server(
    server: Seq<char>,
    login: InvocationView,
    r: Result<OutputView, Seq<char>>,
) -> LoginView {
    match run_failure(
        r,
        "running `bw config server`"@,
        "`bw config server "@ + server + "` failed: "@,
    ) {
        Some(e) => LoginView::Failed(e),
        None => LoginView::Login(login),
    }
}

/// What follows logging in.
pub open spec fn after_login(r: Result<OutputView, Seq<char>>) -> LoginView {
    match run_failure(r, "running `bw login --apikey`"@, "`bw login --apikey` failed: "@) {
        Some(e) => LoginView::Failed(e),
        None => LoginView::LoggedIn,
    }
}

impl BitwardenCli {
    /// What it takes to get the device logged in, once its status is known.
    pub fn login_plan(&self, api_key: &Option<ApiKey>, status: Result<Status, String>) -> (r:
        LoginStep)
        ensures
            r@ == self@.login_plan(key_of(*api_key), status_text(status)),
    {
        let status: Status = match status {
            Ok(s) => s,
            Err(e) => {
                return LoginStep::Failed(e);
            },
        };
        if status.is_logged_in() {
            return LoginStep::LoggedIn;
        }
        match api_key {
            None => LoginStep::Failed(
                "no Bitwarden API key configured and the CLI is not logged in; set BW_CLIENTID/BW_CLIENTSECRET or run `bw login` once".to_owned(),
            ),
            Some(key) => {
                let login = self.login_with_api_key(key);
                match &self.server {
                    Some(server) => {
                        let call = self.configure_server(server.as_str());
                        LoginStep::SetServer { server: server.clone(), call, login }
                    },
                    None => LoginStep::Login(login),
                }
            },
        }
    }

    /// What follows pointing the CLI at `server`.
    pub fn login_after_server(server: &str, login: Invocation, r: Ran) -> (res: LoginStep)
        ensures
            res@ == after_server(server@, login@, ran(r)),
    {
        match Self::server_answer(server, r) {
            Ok(()) => LoginStep::Login(login),
            Err(e) => LoginStep::Failed(e),
        }
    }

    /// What follows logging in.
    pub fn login_after_login(r: Ran) -> (res: LoginStep)
        ensures
            res@ == after_login(ran(r)),
    {
        match Self::login_answer(r) {
            Ok(()) => LoginStep::LoggedIn,
            Err(e) => LoginStep::Failed(e),
        }
    }
}

// --- calls that read standard input -----------------------------------------

/// Where a call that reads its standard input broke off.
pub enum Broken {
    /// It could not be started.
    Spawn(String),
    /// Its standard input was not there.
    NoInput,
    /// Its standard input could not be written.
    Write(String),
    /// It could not be waited for.
    Wait(String),
}

/// The arguments of a call, as one would type them.
pub open spec fn typed(args: Seq<Seq<char>>) -> Seq<char> {
    "`bw "@ + text::joined(args, " "@) + "`"@
}

/// Why a call with `args` that reads its standard input went wrong, if it did.
pub open spec fn capture_failure(args: Seq<Seq<char>>, r: Result<Output, Broken>) -> Option<
    Seq<char>,
> {
    match r {
        Err(Broken::Spawn(cause)) => Some(because("spawning "@ + typed(args), cause@)),
        Err(Broken::NoInput) => Some("failed to open stdin for `bw`"@),
        Err(Broken::Write(cause)) => Some(because("writing to `bw` stdin"@, cause@)),
        Err(Broken::Wait(cause)) => Some(because("waiting for "@ + typed(args), cause@)),
        Ok(out) => if out.success {
            None
        } else {
            Some(typed(args) + " failed: "@ + complaint(out.stderr@))
        },
    }
}

/// What a call that reads its standard input wrote, if all went well.
pub fn run_capturing_stdin(args: &Vec<String>, r: Result<Output, Broken>) -> (res: Result<
    Vec<u8>,
    String,
>)
    ensures
        failure(res) == capture_failure(text::texts(args@), r),
        res matches Ok(stdout) ==> stdout@ == r->Ok_0.stdout@,
{
    let call = text::cat3("`bw ", text::join(args, " ").as_str(), "`");
    match r {
        Err(Broken::Spawn(cause)) => Err(
            with_context(text::cat2("spawning ", call.as_str()).as_str(), cause.as_str()),
        ),
        Err(Broken::NoInput) => Err("failed to open stdin for `bw`".to_owned()),
        Err(Broken::Write(cause)) => Err(with_context("writing to `bw` stdin", cause.as_str())),
        Err(Broken::Wait(cause)) => Err(
            with_context(text::cat2("waiting for ", call.as_str()).as_str(), cause.as_str()),
        ),
        Ok(out) => if out.success {
            Ok(out.stdout)
        } else {
            Err(
                text::cat3(
                    call.as_str(),
                    " failed: ",
                    stderr(out.stderr.as_slice()).as_str(),
                ),
            )
        },
    }
}

/// `bytes` without the line ends at their back.
pub open spec fn without_line_end_bytes(bytes: Seq<u8>) -> Seq<u8>
    decreases bytes.len(),
{
    if bytes.len() > 0 && (bytes.last() == 0x0a || bytes.last() == 0x0d) {
        without_line_end_bytes(bytes.drop_last())
    } else {
        bytes
    }
}

/// The encoded item that `bw encode` answered, without the line end it puts
/// behind it. `args` are the arguments of the call.
pub fn encode_answer(args: &Vec<String>, r: Result<Output, Broken>) -> (res: Result<
    Vec<u8>,
    String,
>)
    ensures
        failure(res) == (match capture_failure(text::texts(args@), r) {
            Some(e) => Some(because("running `bw encode`"@, e)),
            None => None,
        }),
        res matches Ok(encoded) ==> encoded@ == without_line_end_bytes(r->Ok_0.stdout@),
{
    let mut encoded: Vec<u8> = match run_capturing_stdin(args, r) {
        Ok(stdout) => stdout,
        Err(e) => {
            return Err(with_context("running `bw encode`", e.as_str()));
        },
    };
    let ghost whole = encoded@;
    while encoded.len() > 0 && (encoded[encoded.len() - 1] == 0x0a || encoded[encoded.len() - 1]
        == 0x0d)
        invariant
            without_line_end_bytes(encoded@) == without_line_end_bytes(whole),
        decreases encoded.len(),
    {
        encoded.pop();
    }
    Ok(encoded)
}

/// Why a new or changed item has no id.
pub enum ItemIdError {
    /// The answer is not JSON; why not.
    NotJson(String),
    /// The answer holds no id.
    Missing,
}

impl ItemIdError {
    /// The error as a message.
    pub fn message(&self) -> (r: String)
        ensures
            r@ == (match self {
                ItemIdError::NotJson(cause) => because(
                    "parsing `bw create/edit item` output"@,
                    cause@,
                ),
                ItemIdError::Missing => "`bw` response did not contain an item id"@,
            }),
    {
        match self {
            ItemIdError::NotJson(cause) => with_context(
                "parsing `bw create/edit item` output",
                cause.as_str(),
            ),
            ItemIdError::Missing => "`bw` response did not contain an item id".to_owned(),
        }
    }
}

/// The id of an item, given the string under `id` in the answer.
pub fn item_id(found: Option<String>) -> (r: Result<String, ItemIdError>)
    ensures
        r matches Err(e) ==> e is Missing,
        text::text_of(found) == (match r {
            Ok(id) => Some(id@),
            Err(_) => None,
        }),
{
    match found {
        Some(id) => Ok(id),
        None => Err(ItemIdError::Missing),
    }
}

/// The id of the item that `bw create item` or `bw edit item` answered with.
/// What is wrong with an answer that is not JSON is told in the words of
/// `serde_json`.
pub fn parse_item_id(stdout: &[u8]) -> (r: Result<String, ItemIdError>)
    ensures
        match json_string(stdout@, "id"@) {
            Err(cause) => r matches Err(ItemIdError::NotJson(why)) && why@ == cause,
            Ok(None) => r matches Err(ItemIdError::Missing),
            Ok(Some(id)) => r matches Ok(s) && s@ == id,
        },
{
    match read_json_string(stdout, "id") {
        Ok(found) => item_id(found),
        Err(cause) => Err(ItemIdError::NotJson(cause)),
    }
}

// --- picking the SSH keys out of the vault ----------------------------------

/// The `type` of an item that is an SSH key.
pub const CIPHER_TYPE_SSH_KEY: i64 = 5;

/// The SSH keys among the items, in their order: the entries of the right type
/// that could be read. `types` are the types of the items, `entries` what could
/// be read of each as an SSH key.
pub open spec fn ssh_items(types: Seq<i64>, entries: Seq<Option<SshKeyItem>>) -> Seq<SshKeyItem>
    decreases types.len(),
{
    if types.len() == 0 {
        Seq::empty()
    } else {
        let before = ssh_items(types.drop_last(), entries);
        let last = types.len() - 1;
        if types[last] == CIPHER_TYPE_SSH_KEY && entries[last] is Some {
            before.push(entries[last]->0)
        } else {
            before
        }
    }
}

/// Whether item `i` is an SSH key.
pub open spec fn is_ssh_key(types: Seq<i64>, i: int) -> bool {
    0 <= i < types.len() && types[i] == CIPHER_TYPE_SSH_KEY
}

/// What can go wrong in picking out the SSH keys.
pub enum PickError {
    /// The list of items could not be read; why not.
    Unreadable(String),
    /// The list of items could not be read a second time; why not.
    UnreadableTwice(String),
    /// The second reading ends before this item.
    OutOfRange(usize),
}

impl PickError {
    /// The error as a message.
    pub fn message(&self) -> (r: String)
        ensures
            r@ == (match self {
                PickError::Unreadable(cause) => because(
                    "parsing `bw list items` output"@,
                    cause@,
                ),
                PickError::UnreadableTwice(cause) => because(
                    "re-parsing `bw list items` output"@,
                    cause@,
                ),
                PickError::OutOfRange(i) => "item index "@ + text::decimal(*i as nat)
                    + " out of range"@,
            }),
    {
        match self {
            PickError::Unreadable(cause) => with_context(
                "parsing `bw list items` output",
                cause.as_str(),
            ),
            PickError::UnreadableTwice(cause) => with_context(
                "re-parsing `bw list items` output",
                cause.as_str(),
            ),
            PickError::OutOfRange(i) => text::cat3(
                "item index ",
                text::decimal_text(*i as u64).as_str(),
                " out of range",
            ),
        }
    }
}

/// The first item at or after `from` that is an SSH key, if there is one.
fn find_ssh_key(types: &Vec<i64>, from: usize) -> (r: Option<usize>)
    ensures
        r is None <==> forall|i: int| from <= i ==> !is_ssh_key(types@, i),
        r matches Some(i) ==> from <= i && is_ssh_key(types@, i as int) && forall|j: int|
            from <= j < i ==> !is_ssh_key(types@, j),
{
    let mut i: usize = from;
    while i < types.len()
        invariant
            from <= i,
            forall|j: int| from <= j < i ==> !is_ssh_key(types@, j),
        decreases types.len() - i,
    {
        if types[i] == CIPHER_TYPE_SSH_KEY {
            assert(is_ssh_key(types@, i as int));
            return Some(i);
        }
        i = i + 1;
    }
    None
}

/// Picks the SSH keys out of the list of items. The list is read twice: first
/// for nothing but the types of its items, so that no other kind of item can
/// spoil it, then for the SSH keys; an entry that cannot be read as one is
/// passed over. Where there are no SSH keys the second reading does not matter.
pub fn select_ssh_keys(
    types: Result<Vec<i64>, String>,
    entries: Result<Vec<Option<SshKeyItem>>, String>,
) -> (r: Result<Vec<SshKeyItem>, PickError>)
    ensures
        match (types, entries) {
            (Err(cause), _) => r == Err::<Vec<SshKeyItem>, _>(PickError::Unreadable(cause)),
            (Ok(types), Err(cause)) => if exists|i: int| is_ssh_key(types@, i) {
                r == Err::<Vec<SshKeyItem>, _>(PickError::UnreadableTwice(cause))
            } else {
                r matches Ok(keys) && keys@.len() == 0
            },
            (Ok(types), Ok(entries)) => match r {
                Ok(keys) => {
                    &&& forall|i: int| entries@.len() <= i ==> !is_ssh_key(types@, i)
                    &&& keys@ == ssh_items(types@, entries@)
                },
                Err(e) => {
                    &&& e matches PickError::OutOfRange(i)
                    &&& entries@.len() <= i
                    &&& is_ssh_key(types@, i as int)
                    &&& forall|j: int| entries@.len() <= j < i ==> !is_ssh_key(types@, j)
                },
            },
        },
{
    let types: Vec<i64> = match types {
        Ok(t) => t,
        Err(cause) => {
            return Err(PickError::Unreadable(cause));
        },
    };
    let entries: Vec<Option<SshKeyItem>> = match entries {
        Ok(e) => e,
        Err(cause) => {
            return match find_ssh_key(&types, 0) {
                Some(i) => {
                    assert(is_ssh_key(types@, i as int));
                    Err(PickError::UnreadableTwice(cause))
                },
                None => Ok(Vec::new()),
            };
        },
    };
    match find_ssh_key(&types, entries.len()) {
        Some(i) => {
            return Err(PickError::OutOfRange(i));
        },
        None => {},
    }
    let ghost read = entries@;
    let mut keys: Vec<SshKeyItem> = Vec::new();
    let mut i: usize = 0;
    for entry in it: entries
        invariant
            it.seq() == read,
            i == (if it.index() <= types@.len() {
                it.index() as int
            } else {
                types@.len() as int
            }),
            keys@ == ssh_items(types@.take(i as int), read),
    {
        if i < types.len() {
            assert(types@.take(i + 1).drop_last() == types@.take(i as int));
            if types[i] == CIPHER_TYPE_SSH_KEY {
                match entry {
                    Some(item) => keys.push(item),
                    None => {},
                }
            }
            i = i + 1;
        }
    }
    while i < types.len()
        invariant
            i <= types.len(),
            i == types.len() || i >= read.len(),
            forall|j: int| read.len() <= j ==> !is_ssh_key(types@, j),
            keys@ == ssh_items(types@.take(i as int), read),
        decreases types.len() - i,
    {
        assert(!is_ssh_key(types@, i as int));
        assert(types@.take(i + 1).drop_last() == types@.take(i as int));
        i = i + 1;
    }
    assert(types@.take(types@.len() as int) == types@);
    Ok(keys)
}

/// What came of creating or editing an item, by a call with `args` that reads its
/// standard input: the item's id. `context` is put in front of the reason why the
/// call went wrong.
fn changed_item(context: &str, args: &Vec<String>, r: Result<Output, Broken>) -> (res: Result<
    String,
    String,
>)
    ensures
        text::told(res) == changed_id(context@, text::texts(args@), r),
{
    match run_capturing_stdin(args, r) {
        Ok(stdout) => match parse_item_id(stdout.as_slice()) {
            Ok(id) => Ok(id),
            Err(e) => Err(e.message()),
        },
        Err(e) => Err(with_context(context, e.as_str())),
    }
}

/// The id of an item in an answer, or why there is none.
pub open spec fn answered_id(stdout: Seq<u8>) -> Result<Seq<char>, Seq<char>> {
    match json_string(stdout, "id"@) {
        Ok(Some(id)) => Ok(id),
        Ok(None) => Err("`bw` response did not contain an item id"@),
        Err(cause) => Err(because("parsing `bw create/edit item` output"@, cause)),
    }
}

/// The id of an item that was created or replaced, or why there is none. `args`
/// are the arguments of the call, and `context` is put in front of the reason why
/// it went wrong.
pub open spec fn changed_id(
    context: Seq<char>,
    args: Seq<Seq<char>>,
    r: Result<Output, Broken>,
) -> Result<Seq<char>, Seq<char>> {
    match capture_failure(args, r) {
        Some(e) => Err(because(context, e)),
        None => answered_id(r->Ok_0.stdout@),
    }
}

/// The id of the item that was created. `args` are the arguments of the call.
pub fn create_answer(args: &Vec<String>, r: Result<Output, Broken>) -> (res: Result<
    String,
    String,
>)
    ensures
        text::told(res) == changed_id("running `bw create item`"@, text::texts(args@), r),
{
    changed_item("running `bw create item`", args, r)
}

/// The id of the item that was replaced. `args` are the arguments of the call.
pub fn edit_answer(args: &Vec<String>, r: Result<Output, Broken>) -> (res: Result<String, String>)
    ensures
        text::told(res) == changed_id("running `bw edit item`"@, text::texts(args@), r),
{
    changed_item("running `bw edit item`", args, r)
}

// --- laws -------------------------------------------------------------------

/// What other users can see of a call of `bw` tells them nothing of a secret:
/// it is the same whatever the API secret, the master password, the session or
/// the item's contents are.
pub proof fn secrets_stay_out_of_sight(
    cli: CliView,
    key: ApiKeyView,
    client_secret: Seq<char>,
    secret: Seq<char>,
    other: Seq<char>,
    id: Seq<char>,
    contents: Seq<u8>,
    other_contents: Seq<u8>,
)
    ensures
        cli.login_call(key).visible == cli.login_call(
            ApiKeyView { client_secret, ..key },
        ).visible,
        cli.unlock_call(secret).visible == cli.unlock_call(other).visible,
        cli.sync_call(secret).visible == cli.sync_call(other).visible,
        cli.list_call(secret).visible == cli.list_call(other).visible,
        cli.item_call(secret, id).visible == cli.item_call(other, id).visible,
        cli.encode_call(contents).visible == cli.encode_call(other_contents).visible,
        cli.create_call(secret, contents).visible == cli.create_call(
            other,
            other_contents,
        ).visible,
        cli.edit_call(secret, id, contents).visible == cli.edit_call(
            other,
            id,
            other_contents,
        ).visible,
{
}

/// A device that is logged in is left alone, and one that is not is never
/// pointed at a server after its login.
pub proof fn the_server_comes_before_the_login(
    cli: CliView,
    key: Option<ApiKeyView>,
    status: Seq<char>,
    server: Seq<char>,
    login: InvocationView,
    r: Result<OutputView, Seq<char>>,
)
    ensures
        logged_in(status) ==> cli.login_plan(key, Ok(status)) == LoginView::LoggedIn,
        cli.login_plan(key, Ok(status)) is SetServer <==> !logged_in(status) && key is Some
            && cli.server is Some,
        !(after_server(server, login, r) is SetServer),
        !(after_login(r) is SetServer),
{
}

/// What other kinds of items look like does not matter for the SSH keys: two
/// readings that agree on the SSH keys give the same ones.
pub proof fn other_items_do_not_matter(
    types: Seq<i64>,
    one: Seq<Option<SshKeyItem>>,
    two: Seq<Option<SshKeyItem>>,
)
    requires
        forall|i: int| is_ssh_key(types, i) ==> one[i] == two[i],
    ensures
        ssh_items(types, one) == ssh_items(types, two),
    decreases types.len(),
{
    if types.len() > 0 {
        let rest = types.drop_last();
        assert forall|i: int| is_ssh_key(rest, i) implies one[i] == two[i] by {
            assert(is_ssh_key(types, i));
        }
        other_items_do_not_matter(rest, one, two);
        let last = types.len() - 1;
        if types[last] == CIPHER_TYPE_SSH_KEY {
            assert(is_ssh_key(types, last));
        }
    }
}

/// Every call of `bw` says in its arguments what it is for, and nothing else. It
/// never prompts and never has a session that is left over.
pub proof fn calls_say_what_they_are_for(
    cli: CliView,
    key: ApiKeyView,
    server: Seq<char>,
    secret: Seq<char>,
    id: Seq<char>,
    bytes: Seq<u8>,
)
    ensures
        cli.version_call().visible.args == seq!["--version"@],
        cli.status_call().visible.args == seq!["status"@],
        cli.login_call(key).visible.args == seq!["login"@, "--apikey"@],
        cli.logout_call().visible.args == seq!["logout"@],
        cli.server_call(server).visible.args == seq!["config"@, "server"@, server],
        cli.unlock_call(secret).visible.args == seq![
            "unlock"@,
            "--passwordenv"@,
            "BW_SSH_AGENT_MASTER_PW"@,
            "--raw"@,
        ],
        cli.sync_call(secret).visible.args == seq!["sync"@],
        cli.list_call(secret).visible.args == seq!["list"@, "items"@],
        cli.template_call().visible.args == seq!["get"@, "template"@, "item"@],
        cli.item_call(secret, id).visible.args == seq!["get"@, "item"@, id],
        cli.encode_call(bytes).visible.args == seq!["encode"@],
        cli.create_call(secret, bytes).visible.args == seq!["create"@, "item"@],
        cli.edit_call(secret, id, bytes).visible.args == seq!["edit"@, "item"@, id],
        ({
            let calls = seq![
                cli.version_call(),
                cli.status_call(),
                cli.login_call(key),
                cli.logout_call(),
                cli.server_call(server),
                cli.unlock_call(secret),
                cli.sync_call(secret),
                cli.list_call(secret),
                cli.template_call(),
                cli.item_call(secret, id),
                cli.encode_call(bytes),
                cli.create_call(secret, bytes),
                cli.edit_call(secret, id, bytes),
            ];
            forall|i: int| #![trigger calls[i]]
                0 <= i < calls.len() ==> calls[i].visible.program == cli.program
                    && calls[i].visible.path is None && calls[i].removed == seq!["BW_SESSION"@]
                    && calls[i].env.len() > 0 && calls[i].env[0] == ("BW_NOINTERACTION"@, "true"@)
        }),
{
}

/// A call gets the secret that it needs in its environment, under the name that `bw`
/// looks for, and no other secret; an item travels on standard input, and nothing
/// else does.
pub proof fn secrets_travel_where_bw_looks_for_them(
    cli: CliView,
    key: ApiKeyView,
    server: Seq<char>,
    secret: Seq<char>,
    id: Seq<char>,
    bytes: Seq<u8>,
)
    ensures
        ({
            let quiet = ("BW_NOINTERACTION"@, "true"@);
            let session = seq![quiet, ("BW_SESSION"@, secret)];
            &&& cli.version_call().env == seq![quiet]
            &&& cli.status_call().env == seq![quiet]
            &&& cli.logout_call().env == seq![quiet]
            &&& cli.server_call(server).env == seq![quiet]
            &&& cli.template_call().env == seq![quiet]
            &&& cli.encode_call(bytes).env == seq![quiet]
            &&& cli.login_call(key).env == seq![
                quiet,
                ("BW_CLIENTID"@, key.client_id),
                ("BW_CLIENTSECRET"@, key.client_secret),
            ]
            &&& cli.unlock_call(secret).env == seq![quiet, ("BW_SSH_AGENT_MASTER_PW"@, secret)]
            &&& cli.sync_call(secret).env == session
            &&& cli.list_call(secret).env == session
            &&& cli.item_call(secret, id).env == session
            &&& cli.create_call(secret, bytes).env == session
            &&& cli.edit_call(secret, id, bytes).env == session
        }),
        cli.encode_call(bytes).input == Some(bytes),
        cli.create_call(secret, bytes).input == Some(bytes),
        cli.edit_call(secret, id, bytes).input == Some(bytes),
        cli.version_call().input is None,
        cli.status_call().input is None,
        cli.login_call(key).input is None,
        cli.logout_call().input is None,
        cli.server_call(server).input is None,
        cli.unlock_call(secret).input is None,
        cli.sync_call(secret).input is None,
        cli.list_call(secret).input is None,
        cli.template_call().input is None,
        cli.item_call(secret, id).input is None,
{
    let quiet = ("BW_NOINTERACTION"@, "true"@);
    let session = seq![quiet, ("BW_SESSION"@, secret)];
    assert(seq![quiet] + Seq::empty() =~= seq![quiet]);
    assert(seq![quiet] + seq![("BW_SESSION"@, secret)] =~= session);
    assert(cli.unlock_call(secret).env =~= seq![quiet, ("BW_SSH_AGENT_MASTER_PW"@, secret)]);
    assert(cli.login_call(key).env =~= seq![
        quiet,
        ("BW_CLIENTID"@, key.client_id),
        ("BW_CLIENTSECRET"@, key.client_secret),
    ]);
}

/// A device is logged in with every status but `unauthenticated`. One that is logged
/// out needs an API key, and is logged in with that key, at its server where it has
/// one; what keeps its status from being known keeps it from being logged in.
pub proof fn a_login_uses_the_key_that_there_is(
    cli: CliView,
    key: ApiKeyView,
    any: Option<ApiKeyView>,
    status: Seq<char>,
    e: Seq<char>,
)
    ensures
        logged_in(status) <==> status != "unauthenticated"@,
        status != "unauthenticated"@ ==> cli.login_plan(any, Ok(status)) == LoginView::LoggedIn,
        cli.login_plan(any, Err(e)) == LoginView::Failed(e),
        cli.login_plan(None, Ok("unauthenticated"@)) == LoginView::Failed(
            "no Bitwarden API key configured and the CLI is not logged in; set BW_CLIENTID/BW_CLIENTSECRET or run `bw login` once"@,
        ),
        cli.server is None ==> cli.login_plan(Some(key), Ok("unauthenticated"@))
            == LoginView::Login(cli.login_call(key)),
        cli.server matches Some(server) ==> cli.login_plan(Some(key), Ok("unauthenticated"@)) == (
        LoginView::SetServer {
            server,
            call: cli.server_call(server),
            login: cli.login_call(key),
        }),
{
}

/// Once the server is set the login follows, the very one that was planned; once the
/// login went well the device is logged in. Whatever fails ends it, with the reason.
pub proof fn a_login_goes_on_only_after_success(
    server: Seq<char>,
    login: InvocationView,
    out: OutputView,
    e: Seq<char>,
)
    ensures
        out.success ==> after_server(server, login, Ok(out)) == LoginView::Login(login),
        !out.success ==> after_server(server, login, Ok(out)) is Failed,
        after_server(server, login, Err(e)) == LoginView::Failed(
            "running `bw config server`: "@ + e,
        ),
        out.success ==> after_login(Ok(out)) == LoginView::LoggedIn,
        !out.success ==> after_login(Ok(out)) is Failed,
        after_login(Err(e)) == LoginView::Failed("running `bw login --apikey`: "@ + e),
{
    reveal_strlit(": ");
    reveal_strlit("running `bw config server`");
    reveal_strlit("running `bw config server`: ");
    assert("running `bw config server`"@ + ": "@ =~= "running `bw config server`: "@);
    reveal_strlit("running `bw login --apikey`");
    reveal_strlit("running `bw login --apikey`: ");
    assert("running `bw login --apikey`"@ + ": "@ =~= "running `bw login --apikey`: "@);
}

/// Unlocking yields the session that `bw` wrote, without whitespace around it, and
/// fails exactly where `bw` failed or wrote none.
pub proof fn unlocking_yields_what_was_written(
    head: Seq<char>,
    session: Seq<char>,
    tail: Seq<char>,
    stderr: Seq<u8>,
    out: OutputView,
    e: Seq<char>,
)
    requires
        forall|i: int| 0 <= i < head.len() ==> text::is_whitespace(#[trigger] head[i]),
        forall|i: int| 0 <= i < tail.len() ==> text::is_whitespace(#[trigger] tail[i]),
        session.len() > 0 ==> !text::is_whitespace(session[0]) && !text::is_whitespace(
            session.last(),
        ),
    ensures
        ({
            let stdout = vstd::utf8::encode_utf8(head + session + tail);
            let wrote = OutputView { success: true, stdout, stderr };
            &&& session.len() > 0 ==> unlock_failure(Ok(wrote)) is None && session_text(stdout)
                == session
            &&& session.len() == 0 ==> unlock_failure(Ok(wrote)) == Some(
                "`bw unlock --raw` returned an empty session key"@,
            )
        }),
        !out.success ==> unlock_failure(Ok(out)) is Some,
        !vstd::utf8::valid_utf8(out.stdout) ==> unlock_failure(Ok(out)) is Some,
        unlock_failure(Err(e)) == Some("running `bw unlock`: "@ + e),
{
    text::trimming_takes_whitespace_alone(head, session, tail);
    vstd::utf8::encode_utf8_valid_utf8(head + session + tail);
    vstd::utf8::encode_utf8_decode_utf8(head + session + tail);
    reveal_strlit(": ");
    reveal_strlit("running `bw unlock`");
    reveal_strlit("running `bw unlock`: ");
    assert("running `bw unlock`"@ + ": "@ =~= "running `bw unlock`: "@);
}

/// A call that reads its standard input goes wrong exactly where it broke off or did
/// not exit with status zero, and is named with its arguments.
pub proof fn a_broken_call_is_named(args: Seq<Seq<char>>, cause: String, out: Output)
    ensures
        capture_failure(args, Ok(out)) is None <==> out.success,
        capture_failure(args, Err(Broken::Spawn(cause))) == Some(
            "spawning `bw "@ + text::joined(args, " "@) + "`: "@ + cause@,
        ),
        capture_failure(args, Err(Broken::NoInput)) == Some("failed to open stdin for `bw`"@),
        capture_failure(args, Err(Broken::Write(cause))) == Some(
            "writing to `bw` stdin: "@ + cause@,
        ),
        capture_failure(args, Err(Broken::Wait(cause))) == Some(
            "waiting for `bw "@ + text::joined(args, " "@) + "`: "@ + cause@,
        ),
        !out.success ==> capture_failure(args, Ok(out)) == Some(
            "`bw "@ + text::joined(args, " "@) + "` failed: "@ + complaint(out.stderr@),
        ),
{
    reveal_strlit(": ");
    reveal_strlit("`");
    reveal_strlit("`: ");
    reveal_strlit("`bw ");
    reveal_strlit("spawning ");
    reveal_strlit("spawning `bw ");
    reveal_strlit("waiting for ");
    reveal_strlit("waiting for `bw ");
    reveal_strlit(" failed: ");
    reveal_strlit("` failed: ");
    reveal_strlit("writing to `bw` stdin");
    reveal_strlit("writing to `bw` stdin: ");
    let words = text::joined(args, " "@);
    assert("spawning "@ + typed(args) + ": "@ + cause@ =~= "spawning `bw "@ + words + "`: "@
        + cause@);
    assert("waiting for "@ + typed(args) + ": "@ + cause@ =~= "waiting for `bw "@ + words + "`: "@
        + cause@);
    assert("writing to `bw` stdin"@ + ": "@ =~= "writing to `bw` stdin: "@);
    assert(typed(args) + " failed: "@ + complaint(out.stderr@) =~= "`bw "@ + words + "` failed: "@
        + complaint(out.stderr@));
}

/// The line ends at the back of what was encoded are taken off, however many there
/// are, and nothing else is.
pub proof fn only_line_ends_are_taken_off(bytes: Seq<u8>, tail: Seq<u8>)
    requires
        forall|i: int| 0 <= i < tail.len() ==> (#[trigger] tail[i]) == 0x0a || tail[i] == 0x0d,
        bytes.len() > 0 ==> bytes.last() != 0x0a && bytes.last() != 0x0d,
    ensures
        without_line_end_bytes(bytes + tail) == bytes,
    decreases tail.len(),
{
    if tail.len() == 0 {
        assert(bytes + tail =~= bytes);
    } else {
        assert((bytes + tail).last() == tail.last());
        assert((bytes + tail).drop_last() =~= bytes + tail.drop_last());
        only_line_ends_are_taken_off(bytes, tail.drop_last());
    }
}

/// The id of an item that was created or changed is the one in the answer; what keeps
/// it from being known is told, and where the call itself went wrong, that is told
/// with the call.
pub proof fn the_id_is_the_one_in_the_answer(
    context: Seq<char>,
    args: Seq<Seq<char>>,
    out: Output,
    e: Broken,
    id: Seq<char>,
    cause: Seq<char>,
)
    ensures
        out.success && json_string(out.stdout@, "id"@) == Ok::<Option<Seq<char>>, Seq<char>>(
            Some(id),
        ) ==> changed_id(context, args, Ok(out)) == Ok::<Seq<char>, Seq<char>>(id),
        out.success && json_string(out.stdout@, "id"@) == Ok::<Option<Seq<char>>, Seq<char>>(None)
            ==> changed_id(context, args, Ok(out)) == Err::<Seq<char>, Seq<char>>(
            "`bw` response did not contain an item id"@,
        ),
        out.success && json_string(out.stdout@, "id"@) == Err::<Option<Seq<char>>, Seq<char>>(cause)
            ==> changed_id(context, args, Ok(out)) == Err::<Seq<char>, Seq<char>>(
            "parsing `bw create/edit item` output: "@ + cause,
        ),
        !out.success ==> changed_id(context, args, Ok(out)) == Err::<Seq<char>, Seq<char>>(
            context + ": "@ + capture_failure(args, Ok(out))->0,
        ),
        changed_id(context, args, Err(e)) == Err::<Seq<char>, Seq<char>>(
            context + ": "@ + capture_failure(args, Err(e))->0,
        ),
{
    reveal_strlit(": ");
    reveal_strlit("parsing `bw create/edit item` output");
    reveal_strlit("parsing `bw create/edit item` output: ");
    assert("parsing `bw create/edit item` output"@ + ": "@
        =~= "parsing `bw create/edit item` output: "@);
}

/// Of two lists of items in a row, the SSH keys are those of the one and then those of
/// the other. One item alone is among them exactly where it is of the type of SSH keys
/// and could be read, and then as it was read.
pub proof fn ssh_keys_are_picked_one_by_one(
    types: Seq<i64>,
    entries: Seq<Option<SshKeyItem>>,
    more_types: Seq<i64>,
    more: Seq<Option<SshKeyItem>>,
    kind: i64,
    item: SshKeyItem,
)
    requires
        types.len() == entries.len(),
        more_types.len() == more.len(),
    ensures
        ssh_items(Seq::empty(), Seq::empty()) == Seq::<SshKeyItem>::empty(),
        ssh_items(seq![5i64], seq![Some(item)]) == seq![item],
        kind != 5 ==> ssh_items(seq![kind], seq![Some(item)]) == Seq::<SshKeyItem>::empty(),
        ssh_items(seq![kind], seq![None]) == Seq::<SshKeyItem>::empty(),
        ssh_items(types + more_types, entries + more) == ssh_items(types, entries) + ssh_items(
            more_types,
            more,
        ),
    decreases more.len(),
{
    one_item_is_picked_or_not(5, Some(item));
    one_item_is_picked_or_not(kind, Some(item));
    one_item_is_picked_or_not(kind, None);
    let all_types = types + more_types;
    let all = entries + more;
    if more.len() == 0 {
        assert(all_types =~= types);
        assert(all =~= entries);
        assert(ssh_items(types, entries) + ssh_items(more_types, more) =~= ssh_items(
            types,
            entries,
        ));
    } else {
        let rest = more.drop_last();
        let rest_types = more_types.drop_last();
        ssh_keys_are_picked_one_by_one(types, entries, rest_types, rest, kind, item);
        assert(all_types.drop_last() =~= types + rest_types);
        entries_beyond_do_not_matter(types + rest_types, all, entries + rest);
        entries_beyond_do_not_matter(rest_types, more, rest);
        assert(all[all_types.len() - 1] == more.last());
        assert(ssh_items(all_types, all) =~= ssh_items(types, entries) + ssh_items(
            more_types,
            more,
        ));
    }
}

/// What is picked out of a list of one item.
proof fn one_item_is_picked_or_not(kind: i64, entry: Option<SshKeyItem>)
    ensures
        ssh_items(seq![kind], seq![entry]) == if kind == 5 && entry is Some {
            seq![entry->0]
        } else {
            Seq::<SshKeyItem>::empty()
        },
{
    let types = seq![kind];
    let entries = seq![entry];
    assert(types.drop_last() =~= Seq::empty());
    assert(ssh_items(types.drop_last(), entries) =~= Seq::empty());
    assert(entries[0] == entry);
    if kind == 5 && entry is Some {
        assert(Seq::<SshKeyItem>::empty().push(entry->0) =~= seq![entry->0]);
    }
}

/// What stands behind the items of which the types are known does not matter.
proof fn entries_beyond_do_not_matter(
    types: Seq<i64>,
    one: Seq<Option<SshKeyItem>>,
    two: Seq<Option<SshKeyItem>>,
)
    requires
        types.len() <= one.len(),
        types.len() <= two.len(),
        forall|i: int| 0 <= i < types.len() ==> (#[trigger] one[i]) == two[i],
    ensures
        ssh_items(types, one) == ssh_items(types, two),
    decreases types.len(),
{
    if types.len() > 0 {
        let last = types.len() - 1;
        assert(one[last] == two[last]);
        entries_beyond_do_not_matter(types.drop_last(), one, two);
    }
}

/// The SSH keys are taken from the items that are of type 5, each as it was read, and
/// only an item of that type that was not read a second time stops it.
pub proof fn the_ssh_keys_are_the_items_of_their_type(
    types: Vec<i64>,
    entries: Vec<Option<SshKeyItem>>,
    r: Result<Vec<SshKeyItem>, PickError>,
)
    requires
        call_ensures(
            select_ssh_keys,
            (Ok::<Vec<i64>, String>(types), Ok::<Vec<Option<SshKeyItem>>, String>(entries)),
            r,
        ),
        types@.len() <= entries@.len(),
    ensures
        r matches Ok(keys) && keys@ == ssh_items(types@, entries@),
        forall|i: int|
            is_ssh_key(types@, i) <==> 0 <= i < types@.len() && #[trigger] types@[i] == 5,
{
}

/// What is found in the answers of `bw` is what stands in them.
pub proof fn answers_are_what_stands_in_them(
    items: Seq<SshKeyItem>,
    i: int,
    cli: BitwardenCli,
    session: Session,
    status: Status,
    e: String,
)
    ensures
        item_views(items).len() == items.len(),
        0 <= i < items.len() ==> item_views(items)[i] == (ItemView {
            id: items[i].id@,
            name: items[i].name@,
            private_key: items[i].ssh_key.private_key@,
            public_key: items[i].ssh_key.public_key@,
            key_fingerprint: text::text_of(items[i].ssh_key.key_fingerprint),
        }),
        cli@ == (CliView { program: cli.program@, server: text::text_of(cli.server) }),
        session@ == session.key@,
        status_text(Ok(status)) == Ok::<Seq<char>, Seq<char>>(status.status@),
        status_text(Err(e)) == Err::<Seq<char>, Seq<char>>(e@),
{
}

/// The CLI is the program that was named, or `bw`, and talks to the server that was
/// named, if one was.
pub proof fn the_cli_is_the_one_that_was_named(
    server: Option<String>,
    path: Option<String>,
    cli: BitwardenCli,
)
    requires
        call_ensures(BitwardenCli::new, (server, path), cli),
    ensures
        path matches Some(p) ==> cli@.program == p@,
        path is None ==> cli@.program == "bw"@,
        server matches Some(s) ==> cli@.server == Some(s@),
        server is None ==> cli@.server is None,
{
}

/// Each function that makes a call makes the one it is named after, with what it was
/// given.
pub proof fn each_call_is_made_with_what_was_given(
    cli: &BitwardenCli,
    api_key: &ApiKey,
    password: &Secret,
    session: &Session,
    server: &str,
    id: &str,
    bytes: Vec<u8>,
    calls: Seq<Invocation>,
)
    requires
        calls.len() == 13,
        call_ensures(BitwardenCli::version, (cli,), calls[0]),
        call_ensures(BitwardenCli::configure_server, (cli, server), calls[1]),
        call_ensures(BitwardenCli::status, (cli,), calls[2]),
        call_ensures(BitwardenCli::login_with_api_key, (cli, api_key), calls[3]),
        call_ensures(BitwardenCli::logout, (cli,), calls[4]),
        call_ensures(BitwardenCli::unlock, (cli, password), calls[5]),
        call_ensures(BitwardenCli::sync, (cli, session), calls[6]),
        call_ensures(BitwardenCli::list_ssh_keys, (cli, session), calls[7]),
        call_ensures(BitwardenCli::item_template, (cli,), calls[8]),
        call_ensures(BitwardenCli::get_item, (cli, session, id), calls[9]),
        call_ensures(BitwardenCli::encode_item, (cli, bytes), calls[10]),
        call_ensures(BitwardenCli::create_item, (cli, session, bytes), calls[11]),
        call_ensures(BitwardenCli::edit_item, (cli, session, id, bytes), calls[12]),
    ensures
        calls[0]@ == cli@.version_call(),
        calls[1]@ == cli@.server_call(server@),
        calls[2]@ == cli@.status_call(),
        calls[3]@ == cli@.login_call(
            ApiKeyView { client_id: api_key.client_id@, client_secret: api_key.client_secret@ },
        ),
        calls[4]@ == cli@.logout_call(),
        calls[5]@ == cli@.unlock_call(password@),
        calls[6]@ == cli@.sync_call(session@),
        calls[7]@ == cli@.list_call(session@),
        calls[8]@ == cli@.template_call(),
        calls[9]@ == cli@.item_call(session@, id@),
        calls[10]@ == cli@.encode_call(bytes@),
        calls[11]@ == cli@.create_call(session@, bytes@),
        calls[12]@ == cli@.edit_call(session@, id@, bytes@),
{
}

/// What `bw` wrote is handed on as it is where it exited with status zero, and an error
/// is told where it did not.
pub proof fn answers_are_handed_on_as_they_are(
    out: Output,
    id: &str,
    server: &str,
    status: Result<Vec<u8>, String>,
    list: Result<Vec<u8>, String>,
    template: Result<Vec<u8>, String>,
    item: Result<Vec<u8>, String>,
    login: Result<(), String>,
    pointed: Result<(), String>,
    sync: Result<(), String>,
    logout: Result<(), String>,
)
    requires
        call_ensures(BitwardenCli::status_answer, (Ok::<Output, String>(out),), status),
        call_ensures(BitwardenCli::list_answer, (Ok::<Output, String>(out),), list),
        call_ensures(BitwardenCli::template_answer, (Ok::<Output, String>(out),), template),
        call_ensures(BitwardenCli::item_answer, (id, Ok::<Output, String>(out)), item),
        call_ensures(BitwardenCli::login_answer, (Ok::<Output, String>(out),), login),
        call_ensures(BitwardenCli::server_answer, (server, Ok::<Output, String>(out)), pointed),
        call_ensures(BitwardenCli::sync_answer, (Ok::<Output, String>(out),), sync),
        call_ensures(BitwardenCli::logout_answer, (Ok::<Output, String>(out),), logout),
    ensures
        out.success ==> (status matches Ok(b) && b@ == out.stdout@),
        out.success ==> (list matches Ok(b) && b@ == out.stdout@),
        out.success ==> (template matches Ok(b) && b@ == out.stdout@),
        out.success ==> (item matches Ok(b) && b@ == out.stdout@),
        !out.success ==> (status matches Err(e) && e@ == "`bw status` failed: "@ + complaint(
            out.stderr@,
        )),
        !out.success ==> (list matches Err(e) && e@ == "`bw list items` failed: "@ + complaint(
            out.stderr@,
        )),
        !out.success ==> (template matches Err(e) && e@ == "`bw get template item` failed: "@
            + complaint(out.stderr@)),
        !out.success ==> (item matches Err(e) && e@ == "`bw get item "@ + id@ + "` failed: "@
            + complaint(out.stderr@)),
        !out.success ==> (login matches Err(e) && e@ == "`bw login --apikey` failed: "@ + complaint(
            out.stderr@,
        )),
        !out.success ==> (pointed matches Err(e) && e@ == "`bw config server "@ + server@
            + "` failed: "@ + complaint(out.stderr@)),
        !out.success ==> (sync matches Err(e) && e@ == "`bw sync` failed: "@ + complaint(
            out.stderr@,
        )),
        login is Ok <==> out.success,
        pointed is Ok <==> out.success,
        sync is Ok <==> out.success,
        logout is Ok,
{
}

/// A vault that `bw` does not unlock is told as a password that may be wrong, with what
/// `bw` said of it; one that it unlocks yields the session that it wrote.
pub proof fn a_refused_password_is_told_as_such(
    out: Output,
    head: Seq<char>,
    session: Seq<char>,
    tail: Seq<char>,
    r: Result<Session, String>,
)
    requires
        call_ensures(BitwardenCli::unlock_answer, (Ok::<Output, String>(out),), r),
        forall|i: int| 0 <= i < head.len() ==> text::is_whitespace(#[trigger] head[i]),
        forall|i: int| 0 <= i < tail.len() ==> text::is_whitespace(#[trigger] tail[i]),
        session.len() > 0,
        !text::is_whitespace(session[0]),
        !text::is_whitespace(session.last()),
    ensures
        !out.success ==> (r matches Err(e) && e@
            == "`bw unlock` failed (wrong master password?): "@ + complaint(out.stderr@)),
        out.success && out.stdout@ == vstd::utf8::encode_utf8(head + session + tail) ==> (
        r matches Ok(s) && s@ == session),
{
    unlocking_yields_what_was_written(head, session, tail, out.stderr@, out@, session);
}

/// The version of the CLI is what it wrote, without whitespace around it; where it does
/// not run, the message says how to install it.
pub proof fn the_version_is_what_the_cli_wrote(
    cli: &BitwardenCli,
    out: Output,
    cause: String,
    r: Result<String, String>,
    missing: Result<String, String>,
)
    requires
        call_ensures(BitwardenCli::version_answer, (cli, Ok::<Output, String>(out)), r),
        call_ensures(BitwardenCli::version_answer, (cli, Err::<Output, String>(cause)), missing),
    ensures
        out.success ==> (r matches Ok(v) && v@ == text::trimmed(text::utf8_lossy(out.stdout@))),
        !out.success ==> (r matches Err(e) && e@ == "`"@ + cli.program@ + " --version` failed: "@
            + complaint(out.stderr@)),
        missing matches Err(e) && e@ == "failed to run `"@ + cli.program@
            + "` \u{2014} is the Bitwarden CLI installed? (`npm install -g @bitwarden/cli`)"@ + ": "@
            + cause@,
{
}

/// What is encoded is what `bw encode` wrote, without the line ends behind it, and the
/// id of an item is the string under `id` in the answer.
pub proof fn encoded_items_and_ids_are_what_was_written(
    args: &Vec<String>,
    out: Output,
    code: Seq<u8>,
    end: Seq<u8>,
    encoded: Result<Vec<u8>, String>,
    stdout: &[u8],
    id: Result<String, ItemIdError>,
    created: Result<String, String>,
    edited: Result<String, String>,
)
    requires
        call_ensures(encode_answer, (args, Ok::<Output, Broken>(out)), encoded),
        call_ensures(parse_item_id, (stdout,), id),
        call_ensures(create_answer, (args, Ok::<Output, Broken>(out)), created),
        call_ensures(edit_answer, (args, Ok::<Output, Broken>(out)), edited),
        forall|i: int| 0 <= i < end.len() ==> (#[trigger] end[i]) == 0x0a || end[i] == 0x0d,
        code.len() > 0 ==> code.last() != 0x0a && code.last() != 0x0d,
    ensures
        out.success && out.stdout@ == code + end ==> (encoded matches Ok(b) && b@ == code),
        !out.success ==> encoded is Err && created is Err && edited is Err,
        match json_string(stdout@, "id"@) {
            Ok(Some(s)) => id matches Ok(found) && found@ == s,
            Ok(None) => id matches Err(ItemIdError::Missing),
            Err(cause) => id matches Err(ItemIdError::NotJson(why)) && why@ == cause,
        },
        out.success ==> (json_string(out.stdout@, "id"@) matches Ok(Some(s)) ==> (created matches Ok(
            c,
        ) && c@ == s) && (edited matches Ok(e) && e@ == s)),
        out.success ==> (created is Ok <==> json_string(out.stdout@, "id"@) matches Ok(Some(_))),
        out.success ==> (edited is Ok <==> json_string(out.stdout@, "id"@) matches Ok(Some(_))),
{
    only_line_ends_are_taken_off(code, end);
}

/// The plan for a login is made from the status and the key at hand.
pub proof fn a_login_is_planned_from_what_is_known(
    cli: &BitwardenCli,
    api_key: ApiKey,
    status: Status,
    plan: LoginStep,
    without: LoginStep,
    login: Invocation,
    server: &str,
    out: Output,
    pointed: LoginStep,
    done: LoginStep,
)
    requires
        call_ensures(
            BitwardenCli::login_plan,
            (cli, &Some(api_key), Ok::<Status, String>(status)),
            plan,
        ),
        call_ensures(
            BitwardenCli::login_plan,
            (cli, &None::<ApiKey>, Ok::<Status, String>(status)),
            without,
        ),
        call_ensures(
            BitwardenCli::login_after_server,
            (server, login, Ok::<Output, String>(out)),
            pointed,
        ),
        call_ensures(BitwardenCli::login_after_login, (Ok::<Output, String>(out),), done),
    ensures
        status.status@ != "unauthenticated"@ ==> plan@ is LoggedIn && without@ is LoggedIn,
        status.status@ == "unauthenticated"@ ==> without@ is Failed,
        status.status@ == "unauthenticated"@ && cli.server is None ==> plan@ == LoginView::Login(
            cli@.login_call(
                ApiKeyView { client_id: api_key.client_id@, client_secret: api_key.client_secret@ },
            ),
        ),
        status.status@ == "unauthenticated"@ && cli.server is Some ==> plan@ is SetServer,
        out.success ==> pointed@ == LoginView::Login(login@) && done@ is LoggedIn,
        !out.success ==> pointed@ is Failed && done@ is Failed,
{
}

} // verus!
