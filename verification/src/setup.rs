//! Setting the agent up: the decisions of the `setup` wizard.
//!
//! Each part of the wizard is a chain of steps. A step says what has to be asked
//! or run; the function named after it takes up the answer.

use vstd::prelude::*;
use vstd::slice::slice_to_vec;
use vstd::utf8::encode_utf8;

use crate::bitwarden::{
    after_login, after_server, logged_in, status_text, unlock_failure, BitwardenCli, Broken,
    CliView, LoginStep, LoginView, Status,
};
use crate::config::{
    effective, half_a_key, is_lax, setting_fields, settings_text, toml_text, whole_key, ApiKey,
    ApiKeyView, ConfigFile, Settings,
};
use crate::paths::{MASTER_PW_CREDENTIAL, UNIT_FILENAME};
use crate::process::{
    because, failure, ran, said, with_context, words1, words2, words3, words4, Input, Invocation,
    InvocationView, Output, OutputView, Ran, Visible,
};
use crate::secret::Secret;
use crate::text;
use crate::ui;

verus! {

/// How many numbered steps the wizard has.
pub const TOTAL_STEPS: u8 = 6;

/// The mode of a file that is nobody else's business.
pub const PRIVATE_FILE_MODE: u32 = 0o600;

/// The banner over step `n` of the wizard.
pub fn step(n: u8, title: &str, color: bool) -> (r: String)
    ensures
        r@ == ui::in_bold_cyan(ui::step_title(n, TOTAL_STEPS, title@), color),
{
    ui::step_banner(n, TOTAL_STEPS, title, color)
}

/// What to do about something that is there already.
#[derive(Clone, Copy, PartialEq, Eq, Structural, Debug)]
pub enum Existing {
    /// Replace it.
    Overwrite,
    /// Keep it as it is.
    Reuse,
    /// Stop the wizard.
    Abort,
}

/// A call of `program` with `args` that reads nothing.
pub open spec fn plain_call(program: Seq<char>, args: Seq<Seq<char>>) -> InvocationView {
    InvocationView {
        visible: Visible { program, args, path: None },
        removed: Seq::empty(),
        env: Seq::empty(),
        input: None,
    }
}

/// A call of `program` with `args` that reads nothing.
fn call(program: &str, args: Vec<String>) -> (r: Invocation)
    ensures
        r@ == plain_call(program@, text::texts(args@)),
{
    let r = Invocation {
        program: program.to_owned(),
        args,
        path: None,
        removed: Vec::new(),
        env: Vec::new(),
        input: Input::Nothing,
    };
    assert(r@.removed =~= Seq::empty());
    assert(r@.env =~= Seq::empty());
    r
}

/// What a process wrote, for a message.
pub open spec fn shown(bytes: Seq<u8>) -> Seq<char> {
    text::trimmed(text::utf8_lossy(bytes))
}

/// What a process wrote, for a message.
fn show(bytes: &Vec<u8>) -> (r: String)
    ensures
        r@ == shown(bytes@),
{
    text::trim(text::from_utf8_lossy(bytes.as_slice()).as_str())
}

// --- the Bitwarden CLI ------------------------------------------------------

/// What is done to have the Bitwarden CLI at hand.
pub enum CliStep {
    /// See whether `npm` is there.
    CheckNpm(Invocation),
    /// Ask whether to install the CLI.
    AskInstall,
    /// Install the CLI.
    Install(Invocation),
    /// Ask the CLI for its version once more.
    CheckAgain,
    /// The CLI is there; what to say of it.
    Ready(String),
    /// Give up, for this reason.
    Fail(String),
}

/// The contents of a [`CliStep`].
pub enum CliStepView {
    CheckNpm(InvocationView),
    AskInstall,
    Install(InvocationView),
    CheckAgain,
    Ready(Seq<char>),
    Fail(Seq<char>),
}

impl View for CliStep {
    type V = CliStepView;

    open spec fn view(&self) -> CliStepView {
        match self {
            CliStep::CheckNpm(i) => CliStepView::CheckNpm(i@),
            CliStep::AskInstall => CliStepView::AskInstall,
            CliStep::Install(i) => CliStepView::Install(i@),
            CliStep::CheckAgain => CliStepView::CheckAgain,
            CliStep::Ready(line) => CliStepView::Ready(line@),
            CliStep::Fail(why) => CliStepView::Fail(why@),
        }
    }
}

/// Why the wizard stops where neither `bw` nor `npm` is there.
pub const NO_NPM: &'static str = "`bw` is not installed and `npm` is not available to install it.\nInstall Node.js (which provides npm) from https://nodejs.org, then\nrun `npm install -g @bitwarden/cli`, and re-run `setup`.";

/// Why the wizard stops where the user does not want `bw` installed.
pub const CLI_REQUIRED: &'static str = "Bitwarden CLI is required. Install it with\n`npm install -g @bitwarden/cli` and re-run `setup`.";

/// Why the wizard stops where `npm` could not install `bw`.
pub const INSTALL_FAILED: &'static str = "`npm install -g @bitwarden/cli` failed. Install `bw` manually and re-run `setup`.";

/// Why the wizard stops where `bw` is installed and still not found.
pub const NOT_ON_PATH: &'static str = "`bw` was installed but is still not on your PATH. The npm global bin directory (`npm config get prefix`/bin) may not be on PATH. Add it, or set BW_CLI_PATH, then re-run `setup`.";

/// What follows the first look for the CLI.
pub open spec fn after_version(version: Option<Seq<char>>) -> CliStepView {
    match version {
        Some(v) => CliStepView::Ready("Found Bitwarden CLI (version "@ + v + ")."@),
        None => CliStepView::CheckNpm(plain_call("npm"@, seq!["--version"@])),
    }
}

/// What follows the look for `npm`.
pub open spec fn after_npm(runs: bool) -> CliStepView {
    if runs {
        CliStepView::AskInstall
    } else {
        CliStepView::Fail(NO_NPM@)
    }
}

/// What follows the answer on whether to install the CLI.
pub open spec fn after_install_answer(install: bool) -> CliStepView {
    if install {
        CliStepView::Install(plain_call("npm"@, seq!["install"@, "-g"@, "@bitwarden/cli"@]))
    } else {
        CliStepView::Fail(CLI_REQUIRED@)
    }
}

/// What follows the installation; `ran` says whether it went well, or why it
/// did not even start.
pub open spec fn after_install(ran: Result<bool, Seq<char>>) -> CliStepView {
    match ran {
        Ok(true) => CliStepView::CheckAgain,
        Ok(false) => CliStepView::Fail(INSTALL_FAILED@),
        Err(e) => CliStepView::Fail(because("spawning `npm install -g @bitwarden/cli`"@, e)),
    }
}

/// What follows the second look for the CLI.
pub open spec fn after_second_version(version: Option<Seq<char>>) -> CliStepView {
    match version {
        Some(v) => CliStepView::Ready("Installed Bitwarden CLI (version "@ + v + ")."@),
        None => CliStepView::Fail(NOT_ON_PATH@),
    }
}

/// The version that the CLI answered with, if it did.
pub open spec fn answered<E>(r: Result<String, E>) -> Option<Seq<char>> {
    match r {
        Ok(v) => Some(v@),
        Err(_) => None,
    }
}

/// Begins to have the CLI at hand: takes up what it said of its version, if it is
/// there.
pub fn ensure_bw_cli(version: Result<String, String>) -> (r: CliStep)
    ensures
        r@ == after_version(answered(version)),
{
    match version {
        Ok(v) => CliStep::Ready(text::cat3("Found Bitwarden CLI (version ", v.as_str(), ").")),
        Err(_) => CliStep::CheckNpm(call("npm", words1("--version"))),
    }
}

/// Whether a program ran and exited with status zero; `ran` says which, or why
/// it did not run.
pub fn program_runs(ran: Result<bool, String>) -> (r: bool)
    ensures
        r == (ran matches Ok(true)),
{
    match ran {
        Ok(success) => success,
        Err(_) => false,
    }
}

/// Takes up whether `npm` runs.
pub fn npm_checked(ran: Result<bool, String>) -> (r: CliStep)
    ensures
        r@ == after_npm(ran matches Ok(true)),
{
    if program_runs(ran) {
        CliStep::AskInstall
    } else {
        CliStep::Fail(NO_NPM.to_owned())
    }
}

/// Takes up whether the user wants the CLI installed.
pub fn install_answered(install: bool) -> (r: CliStep)
    ensures
        r@ == after_install_answer(install),
{
    if install {
        CliStep::Install(call("npm", words3("install", "-g", "@bitwarden/cli")))
    } else {
        CliStep::Fail(CLI_REQUIRED.to_owned())
    }
}

/// Takes up what came of installing the CLI.
pub fn cli_installed(ran: Result<bool, String>) -> (r: CliStep)
    ensures
        r@ == after_install(said(ran)),
{
    match ran {
        Ok(true) => CliStep::CheckAgain,
        Ok(false) => CliStep::Fail(INSTALL_FAILED.to_owned()),
        Err(e) => CliStep::Fail(
            with_context("spawning `npm install -g @bitwarden/cli`", e.as_str()),
        ),
    }
}

/// Takes up what the CLI said of its version after it was installed.
pub fn version_checked_again(version: Result<String, String>) -> (r: CliStep)
    ensures
        r@ == after_second_version(answered(version)),
{
    match version {
        Ok(v) => CliStep::Ready(text::cat3("Installed Bitwarden CLI (version ", v.as_str(), ").")),
        Err(_) => CliStep::Fail(NOT_ON_PATH.to_owned()),
    }
}

// --- the API key ------------------------------------------------------------

/// The API key that the user entered.
pub struct ApiKeyInput {
    pub client_id: String,
    pub client_secret: Secret,
    /// The server it is for, where it is not the official one.
    pub server: Option<String>,
}

/// The contents of an [`ApiKeyInput`].
pub struct ApiKeyInputView {
    pub client_id: Seq<char>,
    pub client_secret: Seq<char>,
    pub server: Option<Seq<char>>,
}

impl View for ApiKeyInput {
    type V = ApiKeyInputView;

    open spec fn view(&self) -> ApiKeyInputView {
        ApiKeyInputView {
            client_id: self.client_id@,
            client_secret: self.client_secret@,
            server: text::text_of(self.server),
        }
    }
}

impl ApiKeyInputView {
    /// The key itself.
    pub open spec fn key(self) -> ApiKeyView {
        ApiKeyView { client_id: self.client_id, client_secret: self.client_secret }
    }
}

/// The API key that the user entered: the client id and the server without the
/// whitespace around them, and no server where that leaves nothing.
pub fn api_key_entered(client_id: &str, client_secret: Secret, server: &str) -> (r: ApiKeyInput)
    ensures
        r@ == (ApiKeyInputView {
            client_id: text::trimmed(client_id@),
            client_secret: client_secret@,
            server: if text::trimmed(server@).len() == 0 {
                None
            } else {
                Some(text::trimmed(server@))
            },
        }),
{
    let server = text::trim(server);
    ApiKeyInput {
        client_id: text::trim(client_id),
        client_secret,
        server: if server.as_str().is_empty() {
            None
        } else {
            Some(server)
        },
    }
}

/// An API key on trial, and the CLI that it is tried with.
pub struct KeyTrial {
    pub input: ApiKeyInput,
    pub cli: BitwardenCli,
}

/// The contents of a [`KeyTrial`].
pub struct KeyTrialView {
    pub input: ApiKeyInputView,
    pub cli: CliView,
}

impl View for KeyTrial {
    type V = KeyTrialView;

    open spec fn view(&self) -> KeyTrialView {
        KeyTrialView { input: self.input@, cli: self.cli@ }
    }
}

/// What is done to get an API key that is good.
pub enum KeyCheck {
    /// Ask for a key.
    AskKey,
    /// Log the device out, so that the login is a real one.
    Logout(Invocation, KeyTrial),
    /// Ask for the status of the device.
    AskStatus(Invocation, KeyTrial),
    /// Point the CLI at the server `server`, then log in.
    SetServer { server: String, call: Invocation, login: Invocation, trial: KeyTrial },
    /// Log the device in with the key.
    Login(Invocation, KeyTrial),
    /// This key is good.
    Accepted(ApiKeyInput),
    /// Ask whether to try another key; this one was rejected for the reason given.
    AskRetry(String),
    /// Give up, for this reason.
    Fail(String),
}

/// The contents of a [`KeyCheck`].
pub enum KeyCheckView {
    AskKey,
    Logout(InvocationView, KeyTrialView),
    AskStatus(InvocationView, KeyTrialView),
    SetServer {
        server: Seq<char>,
        call: InvocationView,
        login: InvocationView,
        trial: KeyTrialView,
    },
    Login(InvocationView, KeyTrialView),
    Accepted(ApiKeyInputView),
    AskRetry(Seq<char>),
    Fail(Seq<char>),
}

impl View for KeyCheck {
    type V = KeyCheckView;

    open spec fn view(&self) -> KeyCheckView {
        match self {
            KeyCheck::AskKey => KeyCheckView::AskKey,
            KeyCheck::Logout(i, trial) => KeyCheckView::Logout(i@, trial@),
            KeyCheck::AskStatus(i, trial) => KeyCheckView::AskStatus(i@, trial@),
            KeyCheck::SetServer { server, call, login, trial } => KeyCheckView::SetServer {
                server: server@,
                call: call@,
                login: login@,
                trial: trial@,
            },
            KeyCheck::Login(i, trial) => KeyCheckView::Login(i@, trial@),
            KeyCheck::Accepted(input) => KeyCheckView::Accepted(input@),
            KeyCheck::AskRetry(why) => KeyCheckView::AskRetry(why@),
            KeyCheck::Fail(why) => KeyCheckView::Fail(why@),
        }
    }
}

/// What a key is tried with: the CLI at `cli_path`, or `bw`, and the server of
/// the key.
pub open spec fn trial_of(input: ApiKeyInputView, cli_path: Option<Seq<char>>) -> KeyTrialView {
    KeyTrialView {
        input,
        cli: CliView {
            program: match cli_path {
                Some(p) => p,
                None => "bw"@,
            },
            server: input.server,
        },
    }
}

/// What follows the logout. That there was no session to end is as good.
pub open spec fn after_logout(
    trial: KeyTrialView,
    r: Result<OutputView, Seq<char>>,
) -> KeyCheckView {
    match r {
        Err(e) => KeyCheckView::AskRetry(because("running `bw logout`"@, e)),
        Ok(_) => KeyCheckView::AskStatus(trial.cli.status_call(), trial),
    }
}

/// What a step towards a device that is logged in means for the key on trial.
pub open spec fn key_check(trial: KeyTrialView, plan: LoginView) -> KeyCheckView {
    match plan {
        LoginView::SetServer { server, call, login } => KeyCheckView::SetServer {
            server,
            call,
            login,
            trial,
        },
        LoginView::Login(call) => KeyCheckView::Login(call, trial),
        LoginView::LoggedIn => KeyCheckView::Accepted(trial.input),
        LoginView::Failed(e) => KeyCheckView::AskRetry(e),
    }
}

/// What follows the status of the device.
pub open spec fn after_status(
    trial: KeyTrialView,
    status: Result<Seq<char>, Seq<char>>,
) -> KeyCheckView {
    key_check(trial, trial.cli.login_plan(Some(trial.input.key()), status))
}

/// What follows the answer on whether to try another key.
pub open spec fn after_key_retry(again: bool) -> KeyCheckView {
    if again {
        KeyCheckView::AskKey
    } else {
        KeyCheckView::Fail("aborted: API key not validated"@)
    }
}

/// What a step towards a device that is logged in means for the key on trial.
fn check_step(trial: KeyTrial, plan: LoginStep) -> (r: KeyCheck)
    ensures
        r@ == key_check(trial@, plan@),
{
    match plan {
        LoginStep::SetServer { server, call, login } => KeyCheck::SetServer {
            server,
            call,
            login,
            trial,
        },
        LoginStep::Login(call) => KeyCheck::Login(call, trial),
        LoginStep::LoggedIn => KeyCheck::Accepted(trial.input),
        LoginStep::Failed(e) => KeyCheck::AskRetry(e),
    }
}

/// What is done first to get an API key that is good.
pub fn collect_and_validate_api_key() -> (r: KeyCheck)
    ensures
        r@ == KeyCheckView::AskKey,
{
    KeyCheck::AskKey
}

/// Takes up an API key that was entered, to see whether it is good: whatever
/// session there is ends. `cli_path` is the CLI, where it is not `bw`.
pub fn validate_api_key(input: ApiKeyInput, cli_path: Option<String>) -> (r: KeyCheck)
    ensures
        ({
            let trial = trial_of(input@, text::text_of(cli_path));
            r@ == KeyCheckView::Logout(trial.cli.logout_call(), trial)
        }),
{
    let server = match &input.server {
        Some(server) => Some(server.clone()),
        None => None,
    };
    let cli = BitwardenCli::new(server, cli_path);
    KeyCheck::Logout(cli.logout(), KeyTrial { input, cli })
}

/// Takes up what came of the logout.
pub fn logged_out(trial: KeyTrial, r: Ran) -> (res: KeyCheck)
    ensures
        res@ == after_logout(trial@, ran(r)),
{
    match BitwardenCli::logout_answer(r) {
        Ok(_) => KeyCheck::AskStatus(trial.cli.status(), trial),
        Err(e) => KeyCheck::AskRetry(e),
    }
}

/// Takes up the status of the device.
pub fn status_known(trial: KeyTrial, status: Result<Status, String>) -> (r: KeyCheck)
    ensures
        r@ == after_status(trial@, status_text(status)),
{
    let key = ApiKey {
        client_id: trial.input.client_id.clone(),
        client_secret: trial.input.client_secret.copy(),
    };
    let plan = trial.cli.login_plan(&Some(key), status);
    check_step(trial, plan)
}

/// Takes up what came of pointing the CLI at `server`.
pub fn server_set(trial: KeyTrial, server: &str, login: Invocation, r: Ran) -> (res: KeyCheck)
    ensures
        res@ == key_check(trial@, after_server(server@, login@, ran(r))),
{
    check_step(trial, BitwardenCli::login_after_server(server, login, r))
}

/// Takes up what came of the login.
pub fn login_tried(trial: KeyTrial, r: Ran) -> (res: KeyCheck)
    ensures
        res@ == key_check(trial@, after_login(ran(r))),
{
    check_step(trial, BitwardenCli::login_after_login(r))
}

/// Takes up whether the user wants to try again after a key was rejected.
pub fn key_retry_answered(again: bool) -> (r: KeyCheck)
    ensures
        r@ == after_key_retry(again),
{
    if again {
        KeyCheck::AskKey
    } else {
        KeyCheck::Fail("aborted: API key not validated".to_owned())
    }
}

// --- the configuration file -------------------------------------------------

/// What is done about the configuration file.
pub enum ConfigStep {
    /// Ask what to do with the one that is there.
    Ask,
    /// Write it.
    Write,
    /// Leave the one that is there alone.
    Keep,
    /// Give up, for this reason.
    Fail(String),
}

/// What is done first about the configuration file.
pub fn write_config(present: bool) -> (r: ConfigStep)
    ensures
        present ==> r is Ask,
        !present ==> r is Write,
{
    if present {
        ConfigStep::Ask
    } else {
        ConfigStep::Write
    }
}

/// Takes up what to do with the configuration file that is there.
pub fn config_answered(answer: Existing) -> (r: ConfigStep)
    ensures
        match answer {
            Existing::Overwrite => r is Write,
            Existing::Reuse => r is Keep,
            Existing::Abort => r matches ConfigStep::Fail(why) && why@
                == "aborted at config-file step"@,
        },
{
    match answer {
        Existing::Overwrite => ConfigStep::Write,
        Existing::Reuse => ConfigStep::Keep,
        Existing::Abort => ConfigStep::Fail("aborted at config-file step".to_owned()),
    }
}

/// The settings that the configuration file is written with.
pub open spec fn written_settings(input: ApiKeyInputView) -> Settings {
    Settings {
        client_id: Some(input.client_id),
        client_secret: Some(input.client_secret),
        server: input.server,
    }
}

/// The settings that the configuration file is written with: the API key that
/// was entered, and its server.
pub fn config_settings(input: &ApiKeyInput) -> (r: ConfigFile)
    ensures
        r@ == written_settings(input@),
{
    ConfigFile {
        client_id: Some(input.client_id.clone()),
        client_secret: Some(input.client_secret.expose().to_owned()),
        server: match &input.server {
            Some(server) => Some(server.clone()),
            None => None,
        },
    }
}

/// What stands at the top of the configuration file.
pub const CONFIG_HEADER: &'static str = "# Managed by `bitwarden-ssh-agent setup`.\n# Holds ONLY the Bitwarden API key (device auth). Never put your\n# master password here.\n\n";

/// The configuration file, given what became of writing its settings as TOML: the
/// header and the settings, or why there are none.
pub open spec fn config_contents(settings: Result<Seq<char>, Seq<char>>) -> Result<
    Seq<char>,
    Seq<char>,
> {
    match settings {
        Ok(body) => Ok(CONFIG_HEADER@ + body),
        Err(e) => Err(because("serializing config file"@, e)),
    }
}

/// A secret, or the message why there is none.
pub open spec fn sealed(r: Result<Secret, String>) -> Result<Seq<char>, Seq<char>> {
    match r {
        Ok(s) => Ok(s@),
        Err(e) => Err(e@),
    }
}

/// The configuration file, given what became of writing its settings as TOML.
/// They are wiped.
pub fn under_header(settings: Result<String, String>) -> (r: Result<Secret, String>)
    ensures
        sealed(r) == config_contents(text::told(settings)),
{
    match settings {
        Ok(body) => {
            let mut body = body;
            let contents = Secret::new(text::cat2(CONFIG_HEADER, body.as_str()));
            text::wipe_text(&mut body);
            Ok(contents)
        },
        Err(e) => Err(with_context("serializing config file", e.as_str())),
    }
}

/// The configuration file for the API key that was entered.
pub fn config_text(input: &ApiKeyInput) -> (r: Result<Secret, String>)
    ensures
        sealed(r) == config_contents(toml_text(setting_fields(written_settings(input@)))),
{
    under_header(settings_text(config_settings(input)))
}

// --- the master password ----------------------------------------------------

/// How the vault is unlocked.
#[derive(Clone, Copy, PartialEq, Eq, Structural, Debug)]
pub enum UnlockStrategy {
    /// At startup, with an encrypted systemd credential.
    Credential,
    /// By hand, or on the first request.
    OnDemand,
}

/// A master password on trial, and the file that it is to be encrypted into.
pub struct PasswordTrial {
    pub password: Secret,
    pub file: Vec<u8>,
}

/// The contents of a [`PasswordTrial`].
pub struct PasswordTrialView {
    pub password: Seq<char>,
    pub file: Seq<u8>,
}

impl View for PasswordTrial {
    type V = PasswordTrialView;

    open spec fn view(&self) -> PasswordTrialView {
        PasswordTrialView { password: self.password@, file: self.file@ }
    }
}

/// What is done about the master password.
pub enum PasswordStep {
    /// Ask what to do with the credential that is there.
    AskExisting,
    /// Ask for the master password.
    AskPassword,
    /// See whether the password unlocks the vault.
    Verify(Invocation, PasswordTrial),
    /// Ask whether to try another password; this one was refused for the reason
    /// given.
    AskRetry(String),
    /// Make the directory of the file that the password is to be encrypted into.
    MakeDirectory(PasswordTrial),
    /// Encrypt the password into the file at `file`.
    Encrypt { call: Invocation, file: Vec<u8> },
    /// Give the file at `file` this mode.
    SetMode { file: Vec<u8>, mode: u32 },
    /// It is settled how the vault is unlocked.
    Settled(UnlockStrategy),
    /// Give up, for this reason.
    Fail(String),
}

/// The contents of a [`PasswordStep`].
pub enum PasswordStepView {
    AskExisting,
    AskPassword,
    Verify(InvocationView, PasswordTrialView),
    AskRetry(Seq<char>),
    MakeDirectory(PasswordTrialView),
    Encrypt { call: InvocationView, file: Seq<u8> },
    SetMode { file: Seq<u8>, mode: u32 },
    Settled(UnlockStrategy),
    Fail(Seq<char>),
}

impl View for PasswordStep {
    type V = PasswordStepView;

    open spec fn view(&self) -> PasswordStepView {
        match self {
            PasswordStep::AskExisting => PasswordStepView::AskExisting,
            PasswordStep::AskPassword => PasswordStepView::AskPassword,
            PasswordStep::Verify(i, trial) => PasswordStepView::Verify(i@, trial@),
            PasswordStep::AskRetry(why) => PasswordStepView::AskRetry(why@),
            PasswordStep::MakeDirectory(trial) => PasswordStepView::MakeDirectory(trial@),
            PasswordStep::Encrypt { call, file } => PasswordStepView::Encrypt {
                call: call@,
                file: file@,
            },
            PasswordStep::SetMode { file, mode } => PasswordStepView::SetMode {
                file: file@,
                mode: *mode,
            },
            PasswordStep::Settled(strategy) => PasswordStepView::Settled(*strategy),
            PasswordStep::Fail(why) => PasswordStepView::Fail(why@),
        }
    }
}

/// What follows the answer on whether the vault is to be unlocked at startup;
/// `present` says whether there is a credential already.
pub open spec fn after_auto_unlock(auto: bool, present: bool) -> PasswordStepView {
    if !auto {
        PasswordStepView::Settled(UnlockStrategy::OnDemand)
    } else if present {
        PasswordStepView::AskExisting
    } else {
        PasswordStepView::AskPassword
    }
}

/// What follows the answer on the credential that is there.
pub open spec fn after_existing_credential(answer: Existing) -> PasswordStepView {
    match answer {
        Existing::Overwrite => PasswordStepView::AskPassword,
        Existing::Reuse => PasswordStepView::Settled(UnlockStrategy::Credential),
        Existing::Abort => PasswordStepView::Fail("aborted at master-password step"@),
    }
}

/// What follows the attempt to unlock the vault with a password: only one that
/// unlocks it is gone on with.
pub open spec fn after_verification(
    trial: PasswordTrialView,
    r: Result<OutputView, Seq<char>>,
) -> PasswordStepView {
    match unlock_failure(r) {
        Some(e) => PasswordStepView::AskRetry(e),
        None => PasswordStepView::MakeDirectory(trial),
    }
}

/// What follows the making of `directory`: the password is encrypted.
pub open spec fn after_directory(
    trial: PasswordTrialView,
    directory: Seq<char>,
    r: Result<(), Seq<char>>,
) -> PasswordStepView {
    match r {
        Err(e) => PasswordStepView::Fail(
            because("creating credential directory "@ + directory, e),
        ),
        Ok(_) => PasswordStepView::Encrypt {
            call: encrypt_call(trial.password, trial.file),
            file: trial.file,
        },
    }
}

/// What follows the encryption into `file`: nobody else may read it.
pub open spec fn after_encryption(
    file: Seq<u8>,
    r: Result<Output, Broken>,
) -> PasswordStepView {
    match encrypt_failure(r) {
        Some(e) => PasswordStepView::Fail(e),
        None => PasswordStepView::SetMode { file, mode: PRIVATE_FILE_MODE },
    }
}

/// What follows the change of the mode of `file`.
pub open spec fn after_mode(file: Seq<u8>, r: Result<(), Seq<char>>) -> PasswordStepView {
    match r {
        Err(e) => PasswordStepView::Fail(
            because("setting permissions on "@ + text::utf8_lossy(file), e),
        ),
        Ok(_) => PasswordStepView::Settled(UnlockStrategy::Credential),
    }
}

/// What follows the answer on whether to try another password.
pub open spec fn after_retry(again: bool) -> PasswordStepView {
    if again {
        PasswordStepView::AskPassword
    } else {
        PasswordStepView::Fail("aborted: master password not verified"@)
    }
}

/// The call that encrypts the master password into the file at `path`. The
/// password travels on standard input. The credential belongs to the user, so
/// that the user's own service manager can decrypt it.
pub open spec fn encrypt_call(password: Seq<char>, path: Seq<u8>) -> InvocationView {
    InvocationView {
        visible: Visible {
            program: "systemd-creds"@,
            args: seq!["encrypt"@, "--user"@, "--name="@ + MASTER_PW_CREDENTIAL@, "-"@],
            path: Some(path),
        },
        removed: Seq::empty(),
        env: Seq::empty(),
        input: Some(encode_utf8(password)),
    }
}

/// Why the master password could not be encrypted, if it could not.
pub open spec fn encrypt_failure(r: Result<Output, Broken>) -> Option<Seq<char>> {
    match r {
        Err(Broken::Spawn(cause)) => Some(
            because("spawning `systemd-creds encrypt` (is systemd installed?)"@, cause@),
        ),
        Err(Broken::NoInput) => Some("failed to open stdin for systemd-creds"@),
        Err(Broken::Write(cause)) => Some(
            because("writing master password to systemd-creds"@, cause@),
        ),
        Err(Broken::Wait(cause)) => Some(because("waiting for `systemd-creds encrypt`"@, cause@)),
        Ok(out) => if out.success {
            None
        } else {
            Some("`systemd-creds encrypt` failed: "@ + shown(out.stderr@))
        },
    }
}

/// Takes up whether the vault is to be unlocked at startup.
pub fn provision_master_password(auto: bool, present: bool) -> (r: PasswordStep)
    ensures
        r@ == after_auto_unlock(auto, present),
{
    if !auto {
        PasswordStep::Settled(UnlockStrategy::OnDemand)
    } else if present {
        PasswordStep::AskExisting
    } else {
        PasswordStep::AskPassword
    }
}

/// Takes up what to do with the credential that is there.
pub fn credential_answered(answer: Existing) -> (r: PasswordStep)
    ensures
        r@ == after_existing_credential(answer),
{
    match answer {
        Existing::Overwrite => PasswordStep::AskPassword,
        Existing::Reuse => PasswordStep::Settled(UnlockStrategy::Credential),
        Existing::Abort => PasswordStep::Fail("aborted at master-password step".to_owned()),
    }
}

/// Takes up the master password, to be encrypted into `file`: it is tried before
/// anything is done with it.
pub fn master_password_entered(cli: &BitwardenCli, password: Secret, file: Vec<u8>) -> (r:
    PasswordStep)
    ensures
        r@ == PasswordStepView::Verify(
            cli@.unlock_call(password@),
            PasswordTrialView { password: password@, file: file@ },
        ),
{
    PasswordStep::Verify(cli.unlock(&password), PasswordTrial { password, file })
}

/// The call that encrypts the master password into the file at `path`.
fn encrypt_master_password_credential(password: &Secret, path: Vec<u8>) -> (r: Invocation)
    ensures
        r@ == encrypt_call(password@, path@),
{
    let name = text::cat2("--name=", MASTER_PW_CREDENTIAL);
    let mut r = call("systemd-creds", words4("encrypt", "--user", name.as_str(), "-"));
    r.path = Some(path);
    r.input = Input::Sealed(password.copy());
    r
}

/// Takes up what came of trying the master password.
pub fn master_password_tried(trial: PasswordTrial, r: Ran) -> (res: PasswordStep)
    ensures
        res@ == after_verification(trial@, ran(r)),
{
    match BitwardenCli::unlock_answer(r) {
        Ok(_) => PasswordStep::MakeDirectory(trial),
        Err(e) => PasswordStep::AskRetry(e),
    }
}

/// Takes up what came of making `directory`.
pub fn credential_directory_made(
    trial: PasswordTrial,
    directory: &str,
    r: Result<(), String>,
) -> (res: PasswordStep)
    ensures
        res@ == after_directory(trial@, directory@, said(r)),
{
    match r {
        Ok(_) => {
            let file = slice_to_vec(trial.file.as_slice());
            PasswordStep::Encrypt {
                call: encrypt_master_password_credential(&trial.password, file),
                file: trial.file,
            }
        },
        Err(e) => PasswordStep::Fail(
            with_context(
                text::cat2("creating credential directory ", directory).as_str(),
                e.as_str(),
            ),
        ),
    }
}

/// Takes up whether to try another master password.
pub fn password_retry_answered(again: bool) -> (r: PasswordStep)
    ensures
        r@ == after_retry(again),
{
    if again {
        PasswordStep::AskPassword
    } else {
        PasswordStep::Fail("aborted: master password not verified".to_owned())
    }
}

/// Takes up what came of encrypting the master password into `file`.
pub fn master_password_encrypted(file: Vec<u8>, r: Result<Output, Broken>) -> (res: PasswordStep)
    ensures
        res@ == after_encryption(file@, r),
{
    match r {
        Err(Broken::Spawn(cause)) => PasswordStep::Fail(
            with_context(
                "spawning `systemd-creds encrypt` (is systemd installed?)",
                cause.as_str(),
            ),
        ),
        Err(Broken::NoInput) => PasswordStep::Fail(
            "failed to open stdin for systemd-creds".to_owned(),
        ),
        Err(Broken::Write(cause)) => PasswordStep::Fail(
            with_context("writing master password to systemd-creds", cause.as_str()),
        ),
        Err(Broken::Wait(cause)) => PasswordStep::Fail(
            with_context("waiting for `systemd-creds encrypt`", cause.as_str()),
        ),
        Ok(out) => if out.success {
            PasswordStep::SetMode { file, mode: PRIVATE_FILE_MODE }
        } else {
            PasswordStep::Fail(
                text::cat2("`systemd-creds encrypt` failed: ", show(&out.stderr).as_str()),
            )
        },
    }
}

/// Takes up what came of giving the credential in `file` its mode.
pub fn credential_made_private(file: &Vec<u8>, r: Result<(), String>) -> (res: PasswordStep)
    ensures
        res@ == after_mode(file@, said(r)),
{
    match r {
        Ok(_) => PasswordStep::Settled(UnlockStrategy::Credential),
        Err(e) => {
            let shown = text::from_utf8_lossy(file.as_slice());
            PasswordStep::Fail(
                with_context(
                    text::cat2("setting permissions on ", shown.as_str()).as_str(),
                    e.as_str(),
                ),
            )
        },
    }
}

// --- the systemd unit -------------------------------------------------------

/// Whether the unit file is written: always where there is none, and over one
/// that is there where the user said so.
pub fn install_systemd_unit(present: bool, overwrite: bool) -> (r: bool)
    ensures
        r == (!present || overwrite),
{
    !present || overwrite
}

/// What stands in the unit before the path of the program.
pub const UNIT_HEAD: &'static str = "[Unit]\nDescription=Bitwarden-backed SSH agent\nDocumentation=https://github.com/kierandrewett/bitwarden-ssh-agent\nAfter=default.target\n\n[Service]\nType=simple\n# Generated by `bitwarden-ssh-agent setup`; points at the installed binary.\nExecStart=";

/// What stands in the unit between the path of the program and the search path.
pub const UNIT_MIDDLE: &'static str = " serve\nRestart=on-failure\nRestartSec=2\n# PATH captured at setup time so `bw` (and its node) are reachable.\nEnvironment=PATH=";

/// What stands at the end of the unit.
pub const UNIT_TAIL: &'static str = "# Modest hardening. Do not add ProtectHome \u{2014} `bw` needs ~/.config.\nNoNewPrivileges=true\n\n[Install]\nWantedBy=default.target\n";

/// The search path of the service where the wizard has none.
pub const DEFAULT_PATH: &'static str = "/usr/local/bin:/usr/bin:/bin";

/// The line of the unit that hands the credential at `path` to the service,
/// where it is unlocked with one.
pub open spec fn credential_line(strategy: UnlockStrategy, path: Seq<u8>) -> Seq<char> {
    match strategy {
        UnlockStrategy::Credential => "LoadCredentialEncrypted="@ + MASTER_PW_CREDENTIAL@ + ":"@
            + text::utf8_lossy(path) + "\n"@,
        UnlockStrategy::OnDemand => ""@,
    }
}

/// The unit that runs the program at `exe`.
pub open spec fn unit_text(
    exe: Seq<u8>,
    strategy: UnlockStrategy,
    credential: Seq<u8>,
    path: Option<Seq<char>>,
) -> Seq<char> {
    UNIT_HEAD@ + text::utf8_lossy(exe) + UNIT_MIDDLE@ + (match path {
        Some(p) => p,
        None => DEFAULT_PATH@,
    }) + ("\n"@ + credential_line(strategy, credential) + UNIT_TAIL@)
}

/// The unit that runs the program at `exe`, with the search path of the wizard,
/// so that the service finds the programs that the wizard found.
pub fn render_unit(
    exe: &Vec<u8>,
    strategy: UnlockStrategy,
    credential: &Vec<u8>,
    path: Option<String>,
) -> (r: String)
    ensures
        r@ == unit_text(exe@, strategy, credential@, text::text_of(path)),
{
    let line = match strategy {
        UnlockStrategy::Credential => {
            let file = text::from_utf8_lossy(credential.as_slice());
            text::cat5("LoadCredentialEncrypted=", MASTER_PW_CREDENTIAL, ":", file.as_str(), "\n")
        },
        UnlockStrategy::OnDemand => "".to_owned(),
    };
    let tail = text::cat3("\n", line.as_str(), UNIT_TAIL);
    let path = match path {
        Some(p) => p,
        None => DEFAULT_PATH.to_owned(),
    };
    let exe = text::from_utf8_lossy(exe.as_slice());
    text::cat5(UNIT_HEAD, exe.as_str(), UNIT_MIDDLE, path.as_str(), tail.as_str())
}

// --- the service ------------------------------------------------------------

/// A call of `systemctl` on the way to a running service, in their order.
#[derive(Clone, Copy, PartialEq, Eq, Structural, Debug)]
pub enum ServiceCall {
    /// Read the units anew.
    Reload,
    /// Start the service at every boot.
    Enable,
    /// Start the service now, or start it over: one that is running already
    /// would go on with what it read before.
    Restart,
    /// Ask whether the service is running.
    IsActive,
}

/// What is done to have the service running.
pub enum ServiceStep {
    /// Make this call.
    Run(ServiceCall),
    /// The service is running.
    Active,
    /// The service is not running; what to say of it.
    Inactive(String),
    /// Give up, for this reason.
    Fail(String),
}

/// The contents of a [`ServiceStep`].
pub enum ServiceStepView {
    Run(ServiceCall),
    Active,
    Inactive(Seq<char>),
    Fail(Seq<char>),
}

impl View for ServiceStep {
    type V = ServiceStepView;

    open spec fn view(&self) -> ServiceStepView {
        match self {
            ServiceStep::Run(c) => ServiceStepView::Run(*c),
            ServiceStep::Active => ServiceStepView::Active,
            ServiceStep::Inactive(said) => ServiceStepView::Inactive(said@),
            ServiceStep::Fail(why) => ServiceStepView::Fail(why@),
        }
    }
}

/// Why the wizard stops where the service does not run.
pub const NOT_STARTED: &'static str = "service failed to start; see the logs above";

/// The arguments of a call.
pub open spec fn service_args(c: ServiceCall) -> Seq<Seq<char>> {
    match c {
        ServiceCall::Reload => seq!["--user"@, "daemon-reload"@],
        ServiceCall::Enable => seq!["--user"@, "enable"@, UNIT_FILENAME@],
        ServiceCall::Restart => seq!["--user"@, "restart"@, UNIT_FILENAME@],
        ServiceCall::IsActive => seq!["--user"@, "is-active"@, UNIT_FILENAME@],
    }
}

/// The arguments of a call.
fn service_words(c: ServiceCall) -> (r: Vec<String>)
    ensures
        text::texts(r@) == service_args(c),
{
    match c {
        ServiceCall::Reload => words2("--user", "daemon-reload"),
        ServiceCall::Enable => words3("--user", "enable", UNIT_FILENAME),
        ServiceCall::Restart => words3("--user", "restart", UNIT_FILENAME),
        ServiceCall::IsActive => words3("--user", "is-active", UNIT_FILENAME),
    }
}

/// The call as a process to be run.
pub fn systemctl(c: ServiceCall) -> (r: Invocation)
    ensures
        r@ == plain_call("systemctl"@, service_args(c)),
{
    call("systemctl", service_words(c))
}

/// Why a call of `systemctl` went wrong, if it did.
pub open spec fn systemctl_failure(
    args: Seq<Seq<char>>,
    r: Result<OutputView, Seq<char>>,
) -> Option<Seq<char>> {
    let call = "`systemctl "@ + text::joined(args, " "@) + "`"@;
    match r {
        Err(e) => Some(because("running "@ + call, e)),
        Ok(out) => if out.success {
            None
        } else {
            Some(call + " failed: "@ + shown(out.stderr))
        },
    }
}

/// What is said of a service in this state, which is not running.
pub open spec fn inactive_text(state: Seq<char>) -> Seq<char> {
    "\nThe service is not active (state: "@ + (if state.len() == 0 {
        "unknown"@
    } else {
        state
    }) + ").\nInspect the logs with:\n  journalctl --user -u "@ + UNIT_FILENAME@ + " -e"@
}

/// What follows a call: the next one, and at the end whether the service runs.
/// That it does not run makes the last call fail, so only what it wrote counts.
pub open spec fn after_service_call(
    c: ServiceCall,
    r: Result<OutputView, Seq<char>>,
) -> ServiceStepView {
    match c {
        ServiceCall::IsActive => match r {
            Err(e) => ServiceStepView::Fail(because("running `systemctl --user is-active`"@, e)),
            Ok(out) => if shown(out.stdout) == "active"@ {
                ServiceStepView::Active
            } else {
                ServiceStepView::Inactive(inactive_text(shown(out.stdout)))
            },
        },
        _ => match systemctl_failure(service_args(c), r) {
            Some(e) => ServiceStepView::Fail(e),
            None => ServiceStepView::Run(
                match c {
                    ServiceCall::Reload => ServiceCall::Enable,
                    ServiceCall::Enable => ServiceCall::Restart,
                    _ => ServiceCall::IsActive,
                },
            ),
        },
    }
}

/// What is done first to have the service running.
pub fn enable_and_start() -> (r: ServiceStep)
    ensures
        r@ == ServiceStepView::Run(ServiceCall::Reload),
{
    ServiceStep::Run(ServiceCall::Reload)
}

/// Fails loudly where a call of `systemctl` with `args` went wrong.
pub fn run_systemctl(args: &Vec<String>, r: Ran) -> (res: Result<(), String>)
    ensures
        failure(res) == systemctl_failure(text::texts(args@), ran(r)),
{
    let call = text::cat3("`systemctl ", text::join(args, " ").as_str(), "`");
    match r {
        Err(e) => Err(with_context(text::cat2("running ", call.as_str()).as_str(), e.as_str())),
        Ok(out) => if out.success {
            Ok(())
        } else {
            Err(text::cat3(call.as_str(), " failed: ", show(&out.stderr).as_str()))
        },
    }
}

/// Takes up what came of a call.
pub fn service_called(c: ServiceCall, r: Ran) -> (res: ServiceStep)
    ensures
        res@ == after_service_call(c, ran(r)),
{
    let next = match c {
        ServiceCall::Reload => ServiceCall::Enable,
        ServiceCall::Enable => ServiceCall::Restart,
        ServiceCall::Restart => ServiceCall::IsActive,
        ServiceCall::IsActive => {
            return match r {
                Err(e) => ServiceStep::Fail(
                    with_context("running `systemctl --user is-active`", e.as_str()),
                ),
                Ok(out) => {
                    let state = show(&out.stdout);
                    if text::same_text(state.as_str(), "active") {
                        ServiceStep::Active
                    } else {
                        let named = if state.as_str().is_empty() {
                            "unknown"
                        } else {
                            state.as_str()
                        };
                        ServiceStep::Inactive(
                            text::cat5(
                                "\nThe service is not active (state: ",
                                named,
                                ").\nInspect the logs with:\n  journalctl --user -u ",
                                UNIT_FILENAME,
                                " -e",
                            ),
                        )
                    }
                },
            };
        },
    };
    match run_systemctl(&service_words(c), r) {
        Ok(_) => ServiceStep::Run(next),
        Err(e) => ServiceStep::Fail(e),
    }
}

// --- the closing note -------------------------------------------------------

/// How `SSH_AUTH_SOCK` is set in the user's shell.
pub enum ShellHint {
    /// With this line, in this file.
    Known { rc_file: &'static str, line: &'static str },
    /// As in other shells, but in a file that is read only on request.
    Ksh,
    /// In a way that depends on a shell which is not known.
    Unknown,
}

/// The line for shells of the Bourne family.
pub const POSIX_LINE: &'static str = "export SSH_AUTH_SOCK=\"$XDG_RUNTIME_DIR/bitwarden-ssh-agent.sock\"";

/// The line for shells of the C family.
pub const CSH_LINE: &'static str = "setenv SSH_AUTH_SOCK \"$XDG_RUNTIME_DIR/bitwarden-ssh-agent.sock\"";

/// The line for fish.
pub const FISH_LINE: &'static str = "set -gx SSH_AUTH_SOCK \"$XDG_RUNTIME_DIR/bitwarden-ssh-agent.sock\"";

/// The line for nushell.
pub const NU_LINE: &'static str = "$env.SSH_AUTH_SOCK = ($env.XDG_RUNTIME_DIR | path join \"bitwarden-ssh-agent.sock\")";

/// The contents of a [`ShellHint`].
pub enum ShellHintView {
    Known(Seq<char>, Seq<char>),
    Ksh,
    Unknown,
}

impl View for ShellHint {
    type V = ShellHintView;

    open spec fn view(&self) -> ShellHintView {
        match self {
            ShellHint::Known { rc_file, line } => ShellHintView::Known(rc_file@, line@),
            ShellHint::Ksh => ShellHintView::Ksh,
            ShellHint::Unknown => ShellHintView::Unknown,
        }
    }
}

/// What follows the last `/` of a path.
pub open spec fn last_part(path: Seq<char>) -> Seq<char>
    decreases path.len(),
{
    if path.len() == 0 || path.last() == '/' {
        Seq::empty()
    } else {
        last_part(path.drop_last()).push(path.last())
    }
}

/// The name of the file that a path leads to: its last part, where a `/` or a
/// `/.` at its end does not count.
pub open spec fn file_name(path: Seq<char>) -> Seq<char>
    decreases path.len(),
{
    if path.len() > 0 && path.last() == '/' {
        file_name(path.drop_last())
    } else if path.len() > 1 && path.last() == '.' && path[path.len() - 2] == '/' {
        file_name(path.drop_last())
    } else {
        last_part(path)
    }
}

/// How `SSH_AUTH_SOCK` is set in the shell with this name.
pub open spec fn hint_for(name: Seq<char>) -> ShellHintView {
    if name == "bash"@ {
        ShellHintView::Known("~/.bashrc"@, POSIX_LINE@)
    } else if name == "zsh"@ {
        ShellHintView::Known("~/.zshrc"@, POSIX_LINE@)
    } else if name == "fish"@ {
        ShellHintView::Known("~/.config/fish/config.fish"@, FISH_LINE@)
    } else if name == "ksh"@ {
        ShellHintView::Ksh
    } else if name == "dash"@ || name == "sh"@ {
        ShellHintView::Known("~/.profile"@, POSIX_LINE@)
    } else if name == "csh"@ {
        ShellHintView::Known("~/.cshrc"@, CSH_LINE@)
    } else if name == "tcsh"@ {
        ShellHintView::Known("~/.tcshrc"@, CSH_LINE@)
    } else if name == "nu"@ {
        ShellHintView::Known("~/.config/nushell/env.nu"@, NU_LINE@)
    } else {
        ShellHintView::Unknown
    }
}

/// The last part of a path is what stands behind a `/` with none after it.
proof fn last_part_is_a_range(path: Seq<char>, start: int)
    requires
        0 <= start <= path.len(),
        start > 0 ==> path[start - 1] == '/',
        forall|j: int| start <= j < path.len() ==> path[j] != '/',
    ensures
        last_part(path) == path.skip(start),
    decreases path.len(),
{
    if start < path.len() {
        last_part_is_a_range(path.drop_last(), start);
        assert(path.skip(start) =~= path.drop_last().skip(start).push(path.last()));
    }
}

/// The name of the file that a path leads to.
fn name_in(path: &str) -> (r: String)
    ensures
        r@ == file_name(path@),
{
    let chars = text::chars_of(path);
    let mut end: usize = chars.len();
    assert(chars@.take(end as int) =~= path@);
    while end > 0 && (chars[end - 1] == '/' || (end > 1 && chars[end - 1] == '.' && chars[end - 2]
        == '/'))
        invariant
            end <= chars.len(),
            chars@ == path@,
            file_name(chars@.take(end as int)) == file_name(path@),
        decreases end,
    {
        assert(chars@.take(end as int).drop_last() == chars@.take(end - 1));
        end = end - 1;
    }
    let mut start: usize = end;
    while start > 0 && chars[start - 1] != '/'
        invariant
            start <= end <= chars.len(),
            forall|j: int| start <= j < end ==> chars@[j] != '/',
        decreases start,
    {
        start = start - 1;
    }
    proof {
        last_part_is_a_range(path@.take(end as int), start as int);
        assert(path@.take(end as int).skip(start as int) =~= path@.subrange(
            start as int,
            end as int,
        ));
    }
    path.substring_char(start, end).to_owned()
}

/// How `SSH_AUTH_SOCK` is set in the user's shell, going by `$SHELL`.
pub fn shell_rc_hint(shell: Option<String>) -> (r: ShellHint)
    ensures
        r@ == hint_for(
            file_name(
                match text::text_of(shell) {
                    Some(s) => s,
                    None => Seq::empty(),
                },
            ),
        ),
{
    let path = match shell {
        Some(s) => s,
        None => "".to_owned(),
    };
    proof {
        reveal_strlit("");
        assert(""@ =~= Seq::empty());
    }
    let name = name_in(path.as_str());
    let name = name.as_str();
    if text::same_text(name, "bash") {
        ShellHint::Known { rc_file: "~/.bashrc", line: POSIX_LINE }
    } else if text::same_text(name, "zsh") {
        ShellHint::Known { rc_file: "~/.zshrc", line: POSIX_LINE }
    } else if text::same_text(name, "fish") {
        ShellHint::Known { rc_file: "~/.config/fish/config.fish", line: FISH_LINE }
    } else if text::same_text(name, "ksh") {
        ShellHint::Ksh
    } else if text::same_text(name, "dash") || text::same_text(name, "sh") {
        ShellHint::Known { rc_file: "~/.profile", line: POSIX_LINE }
    } else if text::same_text(name, "csh") {
        ShellHint::Known { rc_file: "~/.cshrc", line: CSH_LINE }
    } else if text::same_text(name, "tcsh") {
        ShellHint::Known { rc_file: "~/.tcshrc", line: CSH_LINE }
    } else if text::same_text(name, "nu") {
        ShellHint::Known { rc_file: "~/.config/nushell/env.nu", line: NU_LINE }
    } else {
        ShellHint::Unknown
    }
}

/// What the user of a shell that is read only on request is told.
pub const KSH_NOTE: &'static str = "Add the line below to your shell startup file (~/.kshrc,\nsourced only if `ENV=~/.kshrc` is set):\n\n    ";

/// What the user of a shell that is not known is told.
pub const UNKNOWN_NOTE: &'static str = "Add the appropriate line to your shell's startup file. The syntax\nto set an environment variable varies by shell:\n\n  POSIX-style shells (bash, zsh, sh, ksh):\n    ";

/// What stands in front of the closing words for a shell that is not known.
pub const OTHER_SHELLS: &'static str = "\n\n  For anything else (nushell, elvish, ...) check your shell's docs.\n";

/// What the user is told about setting `SSH_AUTH_SOCK`.
pub open spec fn hint_text(hint: ShellHintView) -> Seq<char> {
    match hint {
        ShellHintView::Known(rc_file, line) =>
            "Add the line below to your shell startup file ("@ + rc_file + "):\n\n    "@ + line
                + "\n"@,
        ShellHintView::Ksh => KSH_NOTE@ + POSIX_LINE@ + "\n"@,
        ShellHintView::Unknown => UNKNOWN_NOTE@ + POSIX_LINE@ + "\n\n  csh / tcsh:\n    "@
            + CSH_LINE@ + OTHER_SHELLS@,
    }
}

/// What the user is told about setting `SSH_AUTH_SOCK`.
pub fn ssh_auth_sock_hint(hint: &ShellHint) -> (r: String)
    ensures
        r@ == hint_text(hint@),
{
    match hint {
        ShellHint::Known { rc_file, line } => text::cat5(
            "Add the line below to your shell startup file (",
            rc_file,
            "):\n\n    ",
            line,
            "\n",
        ),
        ShellHint::Ksh => text::cat3(KSH_NOTE, POSIX_LINE, "\n"),
        ShellHint::Unknown => text::cat5(
            UNKNOWN_NOTE,
            POSIX_LINE,
            "\n\n  csh / tcsh:\n    ",
            CSH_LINE,
            OTHER_SHELLS,
        ),
    }
}

// --- laws -------------------------------------------------------------------

/// What the wizard writes to the configuration file is what the daemon loads
/// from it: where the environment sets nothing, the API key and the server are
/// those that were entered.
pub proof fn a_written_configuration_is_loaded_again(input: ApiKeyInputView)
    requires
        input.client_id.len() > 0,
        input.client_secret.len() > 0,
    ensures
        ({
            let nothing = Settings { client_id: None, client_secret: None, server: None };
            let loaded = effective(nothing, written_settings(input));
            &&& !half_a_key(loaded)
            &&& whole_key(loaded) == Some(input.key())
            &&& loaded.server == input.server
        }),
{
}

/// The master password stays out of what other users can see of the call that
/// encrypts it, and travels on its standard input alone.
pub proof fn the_master_password_stays_out_of_sight(
    password: Seq<char>,
    other: Seq<char>,
    path: Seq<u8>,
)
    ensures
        encrypt_call(password, path).visible == encrypt_call(other, path).visible,
        encrypt_call(password, path).env == Seq::<(Seq<char>, Seq<char>)>::empty(),
        encrypt_call(password, path).input == Some(encode_utf8(password)),
{
}

/// A credential that is there is never replaced unless the user said so, and
/// only a password that unlocks the vault is ever encrypted: the very one that was
/// tried, into the file that was meant.
pub proof fn credentials_are_replaced_only_on_request(
    auto: bool,
    answer: Existing,
    again: bool,
    trial: PasswordTrialView,
    directory: Seq<char>,
    r: Result<OutputView, Seq<char>>,
    made: Result<(), Seq<char>>,
)
    ensures
        !(after_auto_unlock(auto, true) is AskPassword),
        !(after_auto_unlock(auto, true) is MakeDirectory),
        !(after_auto_unlock(auto, true) is Encrypt),
        after_existing_credential(answer) is AskPassword <==> answer == Existing::Overwrite,
        !(after_existing_credential(answer) is MakeDirectory),
        !(after_existing_credential(answer) is Encrypt),
        after_verification(trial, r) is MakeDirectory <==> unlock_failure(r) is None,
        after_verification(trial, r) matches PasswordStepView::MakeDirectory(t) ==> t == trial,
        !(after_verification(trial, r) is Encrypt),
        after_directory(trial, directory, made) matches PasswordStepView::Encrypt { call, file }
            ==> call == encrypt_call(trial.password, trial.file) && file == trial.file,
        !(after_retry(again) is MakeDirectory),
        !(after_retry(again) is Encrypt),
{
}

/// A credential that was made is closed to all but its owner before the wizard
/// goes on: the encryption leads to nothing but the change of the file's mode, and
/// only that change, without fail, settles the matter.
pub proof fn a_new_credential_is_always_made_private(
    file: Seq<u8>,
    encrypted: Result<Output, Broken>,
    changed: Result<(), Seq<char>>,
)
    ensures
        encrypt_failure(encrypted) is None ==> after_encryption(file, encrypted)
            == (PasswordStepView::SetMode { file, mode: PRIVATE_FILE_MODE }),
        encrypt_failure(encrypted) is Some ==> after_encryption(file, encrypted) is Fail,
        after_mode(file, changed) is Settled <==> changed is Ok,
        changed is Err ==> after_mode(file, changed) is Fail,
        !is_lax(PRIVATE_FILE_MODE),
{
    assert(0o600u32 & 0o777u32 & 0o177u32 == 0) by (bit_vector);
}

/// The service gets the credential that the wizard made, and only where it made
/// or kept one: the unit names it as it was encrypted, in the file it was
/// written to, and a unit without it differs in that line alone.
pub proof fn the_service_gets_the_credential_that_was_made(
    exe: Seq<u8>,
    file: Seq<u8>,
    other: Seq<u8>,
    path: Option<Seq<char>>,
    password: Seq<char>,
)
    ensures
        encrypt_call(password, file).visible.path == Some(file),
        encrypt_call(password, file).visible.args[2] == "--name="@ + MASTER_PW_CREDENTIAL@,
        credential_line(UnlockStrategy::Credential, file) == "LoadCredentialEncrypted="@
            + MASTER_PW_CREDENTIAL@ + ":"@ + text::utf8_lossy(file) + "\n"@,
        credential_line(UnlockStrategy::OnDemand, file) == Seq::<char>::empty(),
        exists|head: Seq<char>, tail: Seq<char>|
            unit_text(exe, UnlockStrategy::OnDemand, file, path) == #[trigger] (head + tail)
                && unit_text(exe, UnlockStrategy::Credential, file, path) == head
                + credential_line(UnlockStrategy::Credential, file) + tail,
        unit_text(exe, UnlockStrategy::OnDemand, file, path) == unit_text(
            exe,
            UnlockStrategy::OnDemand,
            other,
            path,
        ),
{
    reveal_strlit("");
    assert(""@ =~= Seq::<char>::empty());
    let head = UNIT_HEAD@ + text::utf8_lossy(exe) + UNIT_MIDDLE@ + (match path {
        Some(p) => p,
        None => DEFAULT_PATH@,
    }) + "\n"@;
    let tail = UNIT_TAIL@;
    assert(unit_text(exe, UnlockStrategy::OnDemand, file, path) =~= head + tail);
    assert(unit_text(exe, UnlockStrategy::Credential, file, path) =~= head + credential_line(
        UnlockStrategy::Credential,
        file,
    ) + tail);
}

/// A service that is running already is started over, so that it reads what was
/// set up: before anything is said of it, the units were read anew, and it was
/// enabled and restarted without fail.
pub proof fn the_service_is_always_restarted(c: ServiceCall, r: Result<OutputView, Seq<char>>)
    ensures
        after_service_call(c, r) is Active ==> c == ServiceCall::IsActive,
        after_service_call(c, r) == ServiceStepView::Run(ServiceCall::IsActive) ==> c
            == ServiceCall::Restart && systemctl_failure(service_args(c), r) is None,
        after_service_call(c, r) == ServiceStepView::Run(ServiceCall::Restart) ==> c
            == ServiceCall::Enable && systemctl_failure(service_args(c), r) is None,
        after_service_call(c, r) == ServiceStepView::Run(ServiceCall::Enable) ==> c
            == ServiceCall::Reload && systemctl_failure(service_args(c), r) is None,
        after_service_call(c, r) != ServiceStepView::Run(ServiceCall::Reload),
{
}

/// A device that was logged out is logged in with the key that was entered, at
/// the server that was entered, before the key is accepted; a login that fails
/// rejects it. The key that is accepted is the one that was tried, and giving up is
/// the user's choice alone.
pub proof fn an_accepted_key_has_logged_in(
    input: ApiKeyInputView,
    cli_path: Option<Seq<char>>,
    status: Seq<char>,
    r: Result<OutputView, Seq<char>>,
    again: bool,
)
    ensures
        ({
            let trial = trial_of(input, cli_path);
            let login = trial.cli.login_call(input.key());
            &&& match after_logout(trial, r) {
                KeyCheckView::AskStatus(_, t) => t == trial,
                next => next is AskRetry,
            }
            &&& !logged_in(status) ==> after_status(trial, Ok(status)) == (match input.server {
                Some(server) => KeyCheckView::SetServer {
                    server,
                    call: trial.cli.server_call(server),
                    login,
                    trial,
                },
                None => KeyCheckView::Login(login, trial),
            })
            &&& forall|server: Seq<char>|
                match #[trigger] key_check(trial, after_server(server, login, r)) {
                    KeyCheckView::Login(call, t) => call == login && t == trial,
                    next => next is AskRetry,
                }
            &&& key_check(trial, after_login(r)) == KeyCheckView::Accepted(input) <==> (r matches Ok(
                out,
            ) && out.success)
            &&& key_check(trial, after_login(r)) is Accepted || key_check(
                trial,
                after_login(r),
            ) is AskRetry
        }),
        after_key_retry(again) is Fail <==> !again,
{
}

/// A plain call is the program and its arguments: it reads nothing, and its
/// environment is the one it inherits.
pub proof fn a_plain_call_is_its_program_and_arguments(
    program: Seq<char>,
    args: Seq<Seq<char>>,
)
    ensures
        plain_call(program, args).visible.program == program,
        plain_call(program, args).visible.args == args,
        plain_call(program, args).visible.path is None,
        plain_call(program, args).removed.len() == 0,
        plain_call(program, args).env.len() == 0,
        plain_call(program, args).input is None,
{
}

/// A CLI that is there is used. One that is not is installed with `npm`, where that is
/// there and the user wants it, and is looked for once more; nothing else makes the
/// wizard go on without it.
pub proof fn a_missing_cli_is_installed_on_request(v: Seq<char>, e: Seq<char>)
    ensures
        after_version(Some(v)) == CliStepView::Ready("Found Bitwarden CLI (version "@ + v + ")."@),
        after_version(None) matches CliStepView::CheckNpm(call) && call.visible.program == "npm"@
            && call.visible.args == seq!["--version"@],
        after_npm(true) == CliStepView::AskInstall,
        after_npm(false) is Fail,
        after_install_answer(true) matches CliStepView::Install(call) && call.visible.program
            == "npm"@ && call.visible.args == seq!["install"@, "-g"@, "@bitwarden/cli"@],
        after_install_answer(false) is Fail,
        after_install(Ok(true)) == CliStepView::CheckAgain,
        after_install(Ok(false)) is Fail,
        after_install(Err(e)) == CliStepView::Fail(
            "spawning `npm install -g @bitwarden/cli`: "@ + e,
        ),
        after_second_version(Some(v)) == CliStepView::Ready(
            "Installed Bitwarden CLI (version "@ + v + ")."@,
        ),
        after_second_version(None) is Fail,
{
    reveal_strlit(": ");
    reveal_strlit("spawning `npm install -g @bitwarden/cli`");
    reveal_strlit("spawning `npm install -g @bitwarden/cli`: ");
    assert("spawning `npm install -g @bitwarden/cli`"@ + ": "@ =~= "spawning `npm install -g @bitwarden/cli`: "@);
}

/// The API key is taken as it was typed: the client id and the server without the
/// whitespace around them, the secret untouched, and no server where nothing was
/// typed. It is tried with a logout first, by the CLI that was named, at that server.
pub proof fn the_key_is_taken_as_it_was_typed(
    head: Seq<char>,
    id: Seq<char>,
    server: Seq<char>,
    tail: Seq<char>,
    typed_id: &str,
    secret: Secret,
    typed_server: &str,
    cli_path: Option<String>,
    input: ApiKeyInput,
    step: KeyCheck,
)
    requires
        forall|i: int| 0 <= i < head.len() ==> text::is_whitespace(#[trigger] head[i]),
        forall|i: int| 0 <= i < tail.len() ==> text::is_whitespace(#[trigger] tail[i]),
        id.len() > 0 ==> !text::is_whitespace(id[0]) && !text::is_whitespace(id.last()),
        server.len() > 0 ==> !text::is_whitespace(server[0]) && !text::is_whitespace(server.last()),
        typed_id@ == head + id + tail,
        typed_server@ == head + server + tail,
        call_ensures(api_key_entered, (typed_id, secret, typed_server), input),
        call_ensures(validate_api_key, (input, cli_path), step),
    ensures
        input.client_id@ == id,
        input.client_secret@ == secret@,
        server.len() > 0 ==> (input.server matches Some(s) && s@ == server),
        server.len() == 0 ==> input.server is None,
        step@ matches KeyCheckView::Logout(call, trial) && call == trial.cli.logout_call()
            && trial.input == input@ && trial.cli.server == input@.server && trial.cli.program == (
        match cli_path {
            Some(p) => p@,
            None => "bw"@,
        }),
{
    text::trimming_takes_whitespace_alone(head, id, tail);
    text::trimming_takes_whitespace_alone(head, server, tail);
}

/// Once the device is logged out its status is asked for; only a logout that did not
/// even run stops the trial. Whatever stops it leads to the question whether to try
/// again, with the reason; the user's answer decides.
pub proof fn a_trial_goes_on_or_asks(
    trial: KeyTrialView,
    out: OutputView,
    server: Seq<char>,
    login: InvocationView,
    e: Seq<char>,
)
    ensures
        after_logout(trial, Ok(out)) == KeyCheckView::AskStatus(trial.cli.status_call(), trial),
        after_logout(trial, Err(e)) == KeyCheckView::AskRetry("running `bw logout`: "@ + e),
        after_status(trial, Err(e)) == KeyCheckView::AskRetry(e),
        out.success ==> key_check(trial, after_server(server, login, Ok(out)))
            == KeyCheckView::Login(login, trial),
        key_check(trial, after_server(server, login, Err(e))) == KeyCheckView::AskRetry(
            "running `bw config server`: "@ + e,
        ),
        out.success ==> key_check(trial, after_login(Ok(out))) == KeyCheckView::Accepted(
            trial.input,
        ),
        !out.success ==> key_check(trial, after_login(Ok(out))) is AskRetry,
        after_key_retry(true) == KeyCheckView::AskKey,
        after_key_retry(false) == KeyCheckView::Fail("aborted: API key not validated"@),
        trial.input.key().client_id == trial.input.client_id,
        trial.input.key().client_secret == trial.input.client_secret,
{
    reveal_strlit(": ");
    reveal_strlit("running `bw logout`");
    reveal_strlit("running `bw logout`: ");
    assert("running `bw logout`"@ + ": "@ =~= "running `bw logout`: "@);
    reveal_strlit("running `bw config server`");
    reveal_strlit("running `bw config server`: ");
    assert("running `bw config server`"@ + ": "@ =~= "running `bw config server`: "@);
}

/// The configuration file is a note on what it is for and then the settings that were
/// entered, the key and the server where there is one, as TOML writes them.
pub proof fn the_configuration_file_holds_what_was_entered(
    input: &ApiKeyInput,
    r: Result<Secret, String>,
)
    requires
        call_ensures(config_text, (input,), r),
    ensures
        ({
            let key = seq![
                ("client_id"@, input.client_id@),
                ("client_secret"@, input.client_secret@),
            ];
            let fields = match input.server {
                Some(s) => key.push(("server"@, s@)),
                None => key,
            };
            match toml_text(fields) {
                Ok(body) => r matches Ok(file) && file@
                    == "# Managed by `bitwarden-ssh-agent setup`.\n# Holds ONLY the Bitwarden API key (device auth). Never put your\n# master password here.\n\n"@
                    + body,
                Err(e) => r matches Err(why) && why@ == "serializing config file: "@ + e,
            }
        }),
{
    reveal_strlit(": ");
    reveal_strlit("serializing config file");
    reveal_strlit("serializing config file: ");
    assert("serializing config file"@ + ": "@ =~= "serializing config file: "@);
    let key = seq![
        ("client_id"@, input.client_id@),
        ("client_secret"@, input.client_secret@),
    ];
    let fields = match input.server {
        Some(s) => key.push(("server"@, s@)),
        None => key,
    };
    assert(setting_fields(written_settings(input@)) =~= fields);
}

/// The vault is unlocked at startup only where the user wants that; a credential that
/// is there is kept, replaced or left with the wizard, as the user says.
pub proof fn the_users_answers_decide_about_the_credential(present: bool)
    ensures
        after_auto_unlock(false, present) == PasswordStepView::Settled(UnlockStrategy::OnDemand),
        after_auto_unlock(true, true) == PasswordStepView::AskExisting,
        after_auto_unlock(true, false) == PasswordStepView::AskPassword,
        after_existing_credential(Existing::Overwrite) == PasswordStepView::AskPassword,
        after_existing_credential(Existing::Reuse) == PasswordStepView::Settled(
            UnlockStrategy::Credential,
        ),
        after_existing_credential(Existing::Abort) == PasswordStepView::Fail(
            "aborted at master-password step"@,
        ),
        after_retry(true) == PasswordStepView::AskPassword,
        after_retry(false) == PasswordStepView::Fail("aborted: master password not verified"@),
{
}

/// A master password is tried by unlocking the vault with it, and what unlocked the
/// vault is what is encrypted, with `systemd-creds`, for the user, under the name that
/// the service looks for, into the file that was meant.
pub proof fn the_password_that_was_tried_is_encrypted(
    cli: &BitwardenCli,
    password: Secret,
    file: Vec<u8>,
    entered: PasswordStep,
    directory: Seq<char>,
    r: Result<OutputView, Seq<char>>,
    e: Seq<char>,
)
    requires
        call_ensures(master_password_entered, (cli, password, file), entered),
    ensures
        entered@ matches PasswordStepView::Verify(call, trial) && call == cli@.unlock_call(
            password@,
        ) && trial.password == password@ && trial.file == file@ && (unlock_failure(r) is None
            ==> after_verification(trial, r) == PasswordStepView::MakeDirectory(trial)) && (
        unlock_failure(r) matches Some(why) ==> after_verification(trial, r)
            == PasswordStepView::AskRetry(why)),
        ({
            let trial = PasswordTrialView { password: password@, file: file@ };
            &&& after_directory(trial, directory, Ok(())) matches PasswordStepView::Encrypt {
                call,
                file: f,
            }
            &&& f == file@
            &&& call.visible.program == "systemd-creds"@
            &&& call.visible.args == seq![
                "encrypt"@,
                "--user"@,
                "--name=bw_master_password"@,
                "-"@,
            ]
            &&& call.visible.path == Some(file@)
            &&& call.input == Some(encode_utf8(password@))
            &&& call.env.len() == 0
            &&& after_directory(trial, directory, Err(e)) == PasswordStepView::Fail(
                "creating credential directory "@ + directory + ": "@ + e,
            )
        }),
{
    reveal_strlit("--name=");
    reveal_strlit("bw_master_password");
    reveal_strlit("--name=bw_master_password");
    assert("--name="@ + MASTER_PW_CREDENTIAL@ =~= "--name=bw_master_password"@);
}

/// What keeps the password from being encrypted, or its file from being closed, is
/// told, and nothing is settled; a credential that was made is closed with mode 0600.
pub proof fn what_keeps_the_credential_away_is_told(
    file: Seq<u8>,
    cause: String,
    out: Output,
    e: Seq<char>,
)
    ensures
        encrypt_failure(Ok(out)) is None <==> out.success,
        !out.success ==> encrypt_failure(Ok(out)) == Some(
            "`systemd-creds encrypt` failed: "@ + text::trimmed(text::utf8_lossy(out.stderr@)),
        ),
        encrypt_failure(Err(Broken::Spawn(cause))) == Some(
            "spawning `systemd-creds encrypt` (is systemd installed?): "@ + cause@,
        ),
        encrypt_failure(Err(Broken::NoInput)) == Some("failed to open stdin for systemd-creds"@),
        encrypt_failure(Err(Broken::Write(cause))) == Some(
            "writing master password to systemd-creds: "@ + cause@,
        ),
        encrypt_failure(Err(Broken::Wait(cause))) == Some(
            "waiting for `systemd-creds encrypt`: "@ + cause@,
        ),
        out.success ==> after_encryption(file, Ok(out)) == (PasswordStepView::SetMode {
            file,
            mode: 0o600,
        }),
        encrypt_failure(Ok(out)) matches Some(why) ==> after_encryption(file, Ok(out))
            == PasswordStepView::Fail(why),
        after_mode(file, Ok(())) == PasswordStepView::Settled(UnlockStrategy::Credential),
        after_mode(file, Err(e)) == PasswordStepView::Fail(
            "setting permissions on "@ + text::utf8_lossy(file) + ": "@ + e,
        ),
{
    reveal_strlit(": ");
    reveal_strlit("spawning `systemd-creds encrypt` (is systemd installed?)");
    reveal_strlit("spawning `systemd-creds encrypt` (is systemd installed?): ");
    assert("spawning `systemd-creds encrypt` (is systemd installed?)"@ + ": "@ =~= "spawning `systemd-creds encrypt` (is systemd installed?): "@);
    reveal_strlit("writing master password to systemd-creds");
    reveal_strlit("writing master password to systemd-creds: ");
    assert("writing master password to systemd-creds"@ + ": "@ =~= "writing master password to systemd-creds: "@);
    reveal_strlit("waiting for `systemd-creds encrypt`");
    reveal_strlit("waiting for `systemd-creds encrypt`: ");
    assert("waiting for `systemd-creds encrypt`"@ + ": "@ =~= "waiting for `systemd-creds encrypt`: "@);
}

/// The unit runs the program that was set up, with the search path of the wizard or a
/// plain one, and hands it the credential where there is one.
pub proof fn the_unit_runs_what_was_set_up(
    exe: Seq<u8>,
    file: Seq<u8>,
    path: Option<Seq<char>>,
)
    ensures
        ({
            let start = "[Unit]\nDescription=Bitwarden-backed SSH agent\nDocumentation=https://github.com/kierandrewett/bitwarden-ssh-agent\nAfter=default.target\n\n[Service]\nType=simple\n# Generated by `bitwarden-ssh-agent setup`; points at the installed binary.\nExecStart="@
                + text::utf8_lossy(exe)
                + " serve\nRestart=on-failure\nRestartSec=2\n# PATH captured at setup time so `bw` (and its node) are reachable.\nEnvironment=PATH="@
                + (match path {
                Some(p) => p,
                None => "/usr/local/bin:/usr/bin:/bin"@,
            }) + "\n"@;
            let end = "# Modest hardening. Do not add ProtectHome \u{2014} `bw` needs ~/.config.\nNoNewPrivileges=true\n\n[Install]\nWantedBy=default.target\n"@;
            &&& unit_text(exe, UnlockStrategy::OnDemand, file, path) == start + end
            &&& unit_text(exe, UnlockStrategy::Credential, file, path) == start
                + "LoadCredentialEncrypted=bw_master_password:"@ + text::utf8_lossy(file) + "\n"@
                + end
        }),
{
    reveal_strlit("");
    assert(""@ =~= Seq::<char>::empty());
    reveal_strlit("LoadCredentialEncrypted=");
    reveal_strlit("bw_master_password");
    reveal_strlit(":");
    reveal_strlit("LoadCredentialEncrypted=bw_master_password:");
    assert("LoadCredentialEncrypted="@ + MASTER_PW_CREDENTIAL@ + ":"@
        =~= "LoadCredentialEncrypted=bw_master_password:"@);
    let start = UNIT_HEAD@ + text::utf8_lossy(exe) + UNIT_MIDDLE@ + (match path {
        Some(p) => p,
        None => DEFAULT_PATH@,
    }) + "\n"@;
    assert(unit_text(exe, UnlockStrategy::OnDemand, file, path) =~= start + UNIT_TAIL@);
    assert(unit_text(exe, UnlockStrategy::Credential, file, path) =~= start
        + "LoadCredentialEncrypted=bw_master_password:"@ + text::utf8_lossy(file) + "\n"@
        + UNIT_TAIL@);
}

/// The service is brought up by four calls of `systemctl` in a row, each only after
/// the one before went well; the first that fails ends it, named with its arguments.
/// It is running exactly where the last of them says so.
pub proof fn the_service_is_brought_up_in_order(out: OutputView, e: Seq<char>)
    ensures
        service_args(ServiceCall::Reload) == seq!["--user"@, "daemon-reload"@],
        service_args(ServiceCall::Enable) == seq![
            "--user"@,
            "enable"@,
            "bitwarden-ssh-agent.service"@,
        ],
        service_args(ServiceCall::Restart) == seq![
            "--user"@,
            "restart"@,
            "bitwarden-ssh-agent.service"@,
        ],
        service_args(ServiceCall::IsActive) == seq![
            "--user"@,
            "is-active"@,
            "bitwarden-ssh-agent.service"@,
        ],
        out.success ==> after_service_call(ServiceCall::Reload, Ok(out)) == ServiceStepView::Run(
            ServiceCall::Enable,
        ),
        out.success ==> after_service_call(ServiceCall::Enable, Ok(out)) == ServiceStepView::Run(
            ServiceCall::Restart,
        ),
        out.success ==> after_service_call(ServiceCall::Restart, Ok(out)) == ServiceStepView::Run(
            ServiceCall::IsActive,
        ),
        forall|c: ServiceCall|
            c != ServiceCall::IsActive && !out.success ==> #[trigger] after_service_call(c, Ok(out))
                == ServiceStepView::Fail(
                "`systemctl "@ + text::joined(service_args(c), " "@) + "` failed: "@
                    + text::trimmed(text::utf8_lossy(out.stderr)),
            ),
        forall|c: ServiceCall|
            c != ServiceCall::IsActive ==> #[trigger] after_service_call(c, Err(e))
                == ServiceStepView::Fail(
                "running `systemctl "@ + text::joined(service_args(c), " "@) + "`: "@ + e,
            ),
        after_service_call(ServiceCall::IsActive, Err(e)) == ServiceStepView::Fail(
            "running `systemctl --user is-active`: "@ + e,
        ),
        after_service_call(ServiceCall::IsActive, Ok(out)) is Active <==> text::trimmed(
            text::utf8_lossy(out.stdout),
        ) == "active"@,
        text::trimmed(text::utf8_lossy(out.stdout)) != "active"@ ==> after_service_call(
            ServiceCall::IsActive,
            Ok(out),
        ) == ServiceStepView::Inactive(
            "\nThe service is not active (state: "@ + (if text::trimmed(
                text::utf8_lossy(out.stdout),
            ).len() == 0 {
                "unknown"@
            } else {
                text::trimmed(text::utf8_lossy(out.stdout))
            })
                + ").\nInspect the logs with:\n  journalctl --user -u bitwarden-ssh-agent.service -e"@,
        ),
{
    reveal_strlit(": ");
    reveal_strlit("`");
    reveal_strlit("`: ");
    reveal_strlit(" failed: ");
    reveal_strlit("` failed: ");
    reveal_strlit("running ");
    reveal_strlit("`systemctl ");
    reveal_strlit("running `systemctl ");
    reveal_strlit("running `systemctl --user is-active`");
    reveal_strlit("running `systemctl --user is-active`: ");
    assert("running `systemctl --user is-active`"@ + ": "@ =~= "running `systemctl --user is-active`: "@);
    reveal_strlit(").\nInspect the logs with:\n  journalctl --user -u ");
    reveal_strlit("bitwarden-ssh-agent.service");
    reveal_strlit(" -e");
    reveal_strlit(").\nInspect the logs with:\n  journalctl --user -u bitwarden-ssh-agent.service -e");
    assert(").\nInspect the logs with:\n  journalctl --user -u "@ + UNIT_FILENAME@ + " -e"@
        =~= ").\nInspect the logs with:\n  journalctl --user -u bitwarden-ssh-agent.service -e"@);
    assert forall|c: ServiceCall|
        c != ServiceCall::IsActive && !out.success implies #[trigger] after_service_call(c, Ok(out))
        == ServiceStepView::Fail(
        "`systemctl "@ + text::joined(service_args(c), " "@) + "` failed: "@ + text::trimmed(
            text::utf8_lossy(out.stderr),
        ),
    ) by {
        let words = text::joined(service_args(c), " "@);
        assert("`systemctl "@ + words + "`"@ + " failed: "@ + shown(out.stderr) =~= "`systemctl "@
            + words + "` failed: "@ + shown(out.stderr));
    }
    assert forall|c: ServiceCall|
        c != ServiceCall::IsActive implies #[trigger] after_service_call(c, Err(e))
        == ServiceStepView::Fail(
        "running `systemctl "@ + text::joined(service_args(c), " "@) + "`: "@ + e,
    ) by {
        let words = text::joined(service_args(c), " "@);
        assert("running "@ + ("`systemctl "@ + words + "`"@) + ": "@ + e =~= "running `systemctl "@
            + words + "`: "@ + e);
    }
    let state = shown(out.stdout);
    if state != "active"@ {
        let named = if state.len() == 0 {
            "unknown"@
        } else {
            state
        };
        assert(inactive_text(state) =~= "\nThe service is not active (state: "@ + named
            + ").\nInspect the logs with:\n  journalctl --user -u bitwarden-ssh-agent.service -e"@);
    }
}

/// A shell goes by the last part of its path, however the path begins; a `/` behind it
/// does not count.
pub proof fn a_shell_goes_by_the_end_of_its_path(directory: Seq<char>, name: Seq<char>)
    requires
        name.len() > 0,
        forall|i: int| 0 <= i < name.len() ==> (#[trigger] name[i]) != '/',
        name.last() != '.',
    ensures
        file_name(name) == name,
        file_name(directory.push('/') + name) == name,
        file_name((directory.push('/') + name).push('/')) == name,
        file_name(Seq::empty()) == Seq::<char>::empty(),
{
    last_part_is_a_range(name, 0);
    assert(name.skip(0) =~= name);
    assert(name.last() == name[name.len() - 1]);
    let path = directory.push('/') + name;
    assert(path.last() == name.last());
    assert(path[directory.len() as int] == '/');
    assert forall|j: int| directory.len() + 1 <= j < path.len() implies path[j] != '/' by {
        assert(path[j] == name[j - directory.len() - 1]);
    }
    last_part_is_a_range(path, (directory.len() + 1) as int);
    assert(path.skip((directory.len() + 1) as int) =~= name);
    assert(path.push('/').drop_last() =~= path);
    assert(path.push('/').last() == '/');
    assert(file_name(path.push('/')) == file_name(path)) by {
        reveal_with_fuel(file_name, 2);
    }
}

/// Each shell that is known gets the line of its own family, for the file that it
/// reads when it starts; any other gets none.
pub proof fn each_shell_gets_its_own_line(name: Seq<char>)
    ensures
        ({
            let posix = "export SSH_AUTH_SOCK=\"$XDG_RUNTIME_DIR/bitwarden-ssh-agent.sock\""@;
            let csh = "setenv SSH_AUTH_SOCK \"$XDG_RUNTIME_DIR/bitwarden-ssh-agent.sock\""@;
            let fish = "set -gx SSH_AUTH_SOCK \"$XDG_RUNTIME_DIR/bitwarden-ssh-agent.sock\""@;
            let nu = "$env.SSH_AUTH_SOCK = ($env.XDG_RUNTIME_DIR | path join \"bitwarden-ssh-agent.sock\")"@;
            &&& hint_for("bash"@) == ShellHintView::Known("~/.bashrc"@, posix)
            &&& hint_for("zsh"@) == ShellHintView::Known("~/.zshrc"@, posix)
            &&& hint_for("fish"@) == ShellHintView::Known("~/.config/fish/config.fish"@, fish)
            &&& hint_for("ksh"@) == ShellHintView::Ksh
            &&& hint_for("dash"@) == ShellHintView::Known("~/.profile"@, posix)
            &&& hint_for("sh"@) == ShellHintView::Known("~/.profile"@, posix)
            &&& hint_for("csh"@) == ShellHintView::Known("~/.cshrc"@, csh)
            &&& hint_for("tcsh"@) == ShellHintView::Known("~/.tcshrc"@, csh)
            &&& hint_for("nu"@) == ShellHintView::Known("~/.config/nushell/env.nu"@, nu)
        }),
        hint_for(name) is Unknown <==> name != "bash"@ && name != "zsh"@ && name != "fish"@ && name
            != "ksh"@ && name != "dash"@ && name != "sh"@ && name != "csh"@ && name != "tcsh"@
            && name != "nu"@,
{
    reveal_strlit("bash");
    reveal_strlit("zsh");
    reveal_strlit("fish");
    reveal_strlit("ksh");
    reveal_strlit("dash");
    reveal_strlit("sh");
    reveal_strlit("csh");
    reveal_strlit("tcsh");
    reveal_strlit("nu");
    assert("bash"@[0] == 'b' && "zsh"@[0] == 'z' && "fish"@[0] == 'f' && "ksh"@[0] == 'k');
    assert("dash"@[0] == 'd' && "sh"@[0] == 's' && "csh"@[0] == 'c' && "tcsh"@[0] == 't');
    assert("nu"@[0] == 'n');
}

/// The closing note shows the line for the user's shell and the file it goes into.
pub proof fn the_closing_note_shows_the_line(rc_file: Seq<char>, line: Seq<char>)
    ensures
        hint_text(ShellHintView::Known(rc_file, line))
            == "Add the line below to your shell startup file ("@ + rc_file + "):\n\n    "@ + line
            + "\n"@,
        hint_text(ShellHintView::Ksh)
            == "Add the line below to your shell startup file (~/.kshrc,\nsourced only if `ENV=~/.kshrc` is set):\n\n    "@
            + "export SSH_AUTH_SOCK=\"$XDG_RUNTIME_DIR/bitwarden-ssh-agent.sock\""@ + "\n"@,
        text::has_prefix(hint_text(ShellHintView::Unknown), UNKNOWN_NOTE@ + POSIX_LINE@),
        text::has_suffix(hint_text(ShellHintView::Unknown), CSH_LINE@ + OTHER_SHELLS@),
{
    let whole = hint_text(ShellHintView::Unknown);
    let middle = "\n\n  csh / tcsh:\n    "@;
    assert(whole =~= UNKNOWN_NOTE@ + POSIX_LINE@ + (middle + CSH_LINE@ + OTHER_SHELLS@));
    text::prefixes_and_suffixes_are_parts(
        UNKNOWN_NOTE@ + POSIX_LINE@,
        middle + CSH_LINE@ + OTHER_SHELLS@,
        whole,
    );
    assert(whole =~= UNKNOWN_NOTE@ + POSIX_LINE@ + middle + (CSH_LINE@ + OTHER_SHELLS@));
    text::prefixes_and_suffixes_are_parts(
        UNKNOWN_NOTE@ + POSIX_LINE@ + middle,
        CSH_LINE@ + OTHER_SHELLS@,
        whole,
    );
}

/// What the wizard has in hand at each step is what stands there.
pub proof fn steps_are_what_stands_in_them(
    i: Invocation,
    s: String,
    input: ApiKeyInput,
    trial: KeyTrial,
    login: Invocation,
    attempt: PasswordTrial,
    file: Vec<u8>,
    mode: u32,
    secret: Secret,
    strategy: UnlockStrategy,
    c: ServiceCall,
)
    ensures
        CliStep::CheckNpm(i)@ == CliStepView::CheckNpm(i@),
        CliStep::AskInstall@ == CliStepView::AskInstall,
        CliStep::Install(i)@ == CliStepView::Install(i@),
        CliStep::CheckAgain@ == CliStepView::CheckAgain,
        CliStep::Ready(s)@ == CliStepView::Ready(s@),
        CliStep::Fail(s)@ == CliStepView::Fail(s@),
        answered(Ok::<String, String>(s)) == Some(s@),
        answered(Err::<String, String>(s)) is None,
        input@.client_id == input.client_id@,
        input@.client_secret == input.client_secret@,
        input@.server == text::text_of(input.server),
        trial@.input == trial.input@,
        trial@.cli == trial.cli@,
        KeyCheck::AskKey@ == KeyCheckView::AskKey,
        KeyCheck::Logout(i, trial)@ == KeyCheckView::Logout(i@, trial@),
        KeyCheck::AskStatus(i, trial)@ == KeyCheckView::AskStatus(i@, trial@),
        (KeyCheck::SetServer { server: s, call: i, login, trial })@ == (KeyCheckView::SetServer {
            server: s@,
            call: i@,
            login: login@,
            trial: trial@,
        }),
        KeyCheck::Login(i, trial)@ == KeyCheckView::Login(i@, trial@),
        KeyCheck::Accepted(input)@ == KeyCheckView::Accepted(input@),
        KeyCheck::AskRetry(s)@ == KeyCheckView::AskRetry(s@),
        KeyCheck::Fail(s)@ == KeyCheckView::Fail(s@),
        sealed(Ok(secret)) == Ok::<Seq<char>, Seq<char>>(secret@),
        sealed(Err(s)) == Err::<Seq<char>, Seq<char>>(s@),
        attempt@.password == attempt.password@,
        attempt@.file == attempt.file@,
        PasswordStep::AskExisting@ == PasswordStepView::AskExisting,
        PasswordStep::AskPassword@ == PasswordStepView::AskPassword,
        PasswordStep::Verify(i, attempt)@ == PasswordStepView::Verify(i@, attempt@),
        PasswordStep::AskRetry(s)@ == PasswordStepView::AskRetry(s@),
        PasswordStep::MakeDirectory(attempt)@ == PasswordStepView::MakeDirectory(attempt@),
        (PasswordStep::Encrypt { call: i, file })@ == (PasswordStepView::Encrypt {
            call: i@,
            file: file@,
        }),
        (PasswordStep::SetMode { file, mode })@ == (PasswordStepView::SetMode { file: file@, mode }),
        PasswordStep::Settled(strategy)@ == PasswordStepView::Settled(strategy),
        PasswordStep::Fail(s)@ == PasswordStepView::Fail(s@),
        ServiceStep::Run(c)@ == ServiceStepView::Run(c),
        ServiceStep::Active@ == ServiceStepView::Active,
        ServiceStep::Inactive(s)@ == ServiceStepView::Inactive(s@),
        ServiceStep::Fail(s)@ == ServiceStepView::Fail(s@),
{
}

/// A configuration or a unit that is there is never overwritten unless the user said
/// so, and one that is not there is written.
pub proof fn files_are_overwritten_on_request_only(
    fresh: ConfigStep,
    present: ConfigStep,
    overwrite: ConfigStep,
    reuse: ConfigStep,
    abort: ConfigStep,
    there: bool,
    wanted: bool,
    unit: bool,
)
    requires
        call_ensures(write_config, (false,), fresh),
        call_ensures(write_config, (true,), present),
        call_ensures(config_answered, (Existing::Overwrite,), overwrite),
        call_ensures(config_answered, (Existing::Reuse,), reuse),
        call_ensures(config_answered, (Existing::Abort,), abort),
        call_ensures(install_systemd_unit, (there, wanted), unit),
    ensures
        fresh is Write,
        present is Ask,
        overwrite is Write,
        reuse is Keep,
        abort is Fail,
        unit <==> !there || wanted,
{
}

/// The unit that is written is the one for the program, the credential and the search
/// path that it was asked for.
pub proof fn the_unit_is_rendered_as_asked(
    exe: &Vec<u8>,
    strategy: UnlockStrategy,
    credential: &Vec<u8>,
    path: Option<String>,
    r: String,
    c: ServiceCall,
    call: Invocation,
    first: ServiceStep,
)
    requires
        call_ensures(render_unit, (exe, strategy, credential, path), r),
        call_ensures(systemctl, (c,), call),
        call_ensures(enable_and_start, (), first),
    ensures
        r@ == unit_text(exe@, strategy, credential@, text::text_of(path)),
        call@.visible.program == "systemctl"@,
        call@.visible.args == service_args(c),
        first@ == ServiceStepView::Run(ServiceCall::Reload),
{
}

/// The trial of a key goes on with what came of each call, and the key that was tried
/// stays the one that is accepted.
pub proof fn the_trial_of_a_key_is_followed_through(
    trial: KeyTrial,
    out: Output,
    status: Status,
    gone: KeyCheck,
    known: KeyCheck,
    tried: KeyCheck,
    again: bool,
    answered: KeyCheck,
)
    requires
        call_ensures(logged_out, (trial, Ok::<Output, String>(out)), gone),
        call_ensures(status_known, (trial, Ok::<Status, String>(status)), known),
        call_ensures(login_tried, (trial, Ok::<Output, String>(out)), tried),
        call_ensures(key_retry_answered, (again,), answered),
    ensures
        gone@ == KeyCheckView::AskStatus(trial@.cli.status_call(), trial@),
        status.status@ == "unauthenticated"@ && trial@.cli.server is None ==> known@
            == KeyCheckView::Login(trial@.cli.login_call(trial@.input.key()), trial@),
        out.success ==> tried@ == KeyCheckView::Accepted(trial@.input),
        !out.success ==> tried@ is AskRetry,
        again ==> answered@ is AskKey,
        !again ==> answered@ is Fail,
{
}

/// The master password is followed through in the same way: what was tried is what is
/// encrypted, and the file is closed before anything is settled.
pub proof fn the_password_is_followed_through(
    trial: PasswordTrial,
    ran_well: Output,
    directory: &str,
    tried: PasswordStep,
    made: PasswordStep,
    file: Vec<u8>,
    encrypted: PasswordStep,
    kept: &Vec<u8>,
    closed: PasswordStep,
)
    requires
        call_ensures(master_password_tried, (trial, Ok::<Output, String>(ran_well)), tried),
        call_ensures(credential_directory_made, (trial, directory, Ok::<(), String>(())), made),
        call_ensures(
            master_password_encrypted,
            (file, Ok::<Output, Broken>(ran_well)),
            encrypted,
        ),
        call_ensures(credential_made_private, (kept, Ok::<(), String>(())), closed),
    ensures
        unlock_failure(Ok(ran_well@)) is None ==> tried@ == PasswordStepView::MakeDirectory(trial@),
        unlock_failure(Ok(ran_well@)) is Some ==> tried@ is AskRetry,
        made@ == (PasswordStepView::Encrypt {
            call: encrypt_call(trial@.password, trial@.file),
            file: trial@.file,
        }),
        ran_well.success ==> encrypted@ == (PasswordStepView::SetMode { file: file@, mode: 0o600 }),
        !ran_well.success ==> encrypted@ is Fail,
        closed@ == PasswordStepView::Settled(UnlockStrategy::Credential),
{
}

/// The first steps of the wizard, and the last, are taken up as they were answered.
pub proof fn the_wizard_takes_up_what_it_is_told(
    version: String,
    e: String,
    found: CliStep,
    missing: CliStep,
    wanted: CliStep,
    refused: CliStep,
    installed: CliStep,
    again: CliStep,
    out: Output,
    reloaded: ServiceStep,
    enabled: ServiceStep,
    restarted: ServiceStep,
    state: ServiceStep,
    shell: String,
    directory: Seq<char>,
    hint: ShellHint,
)
    requires
        call_ensures(ensure_bw_cli, (Ok::<String, String>(version),), found),
        call_ensures(ensure_bw_cli, (Err::<String, String>(e),), missing),
        call_ensures(install_answered, (true,), wanted),
        call_ensures(install_answered, (false,), refused),
        call_ensures(cli_installed, (Ok::<bool, String>(true),), installed),
        call_ensures(version_checked_again, (Ok::<String, String>(version),), again),
        call_ensures(service_called, (ServiceCall::Reload, Ok::<Output, String>(out)), reloaded),
        call_ensures(service_called, (ServiceCall::Enable, Ok::<Output, String>(out)), enabled),
        call_ensures(service_called, (ServiceCall::Restart, Ok::<Output, String>(out)), restarted),
        call_ensures(service_called, (ServiceCall::IsActive, Ok::<Output, String>(out)), state),
        call_ensures(shell_rc_hint, (Some(shell),), hint),
        shell@ == directory.push('/') + "zsh"@,
    ensures
        found@ is Ready,
        missing@ is CheckNpm,
        wanted@ is Install,
        refused@ is Fail,
        installed@ is CheckAgain,
        again@ is Ready,
        out.success ==> reloaded@ == ServiceStepView::Run(ServiceCall::Enable),
        out.success ==> enabled@ == ServiceStepView::Run(ServiceCall::Restart),
        out.success ==> restarted@ == ServiceStepView::Run(ServiceCall::IsActive),
        !out.success ==> reloaded@ is Fail && enabled@ is Fail && restarted@ is Fail,
        state@ is Active <==> text::trimmed(text::utf8_lossy(out.stdout@)) == "active"@,
        hint@ matches ShellHintView::Known(file, _) && file == "~/.zshrc"@,
{
    reveal_strlit("zsh");
    a_shell_goes_by_the_end_of_its_path(directory, "zsh"@);
    each_shell_gets_its_own_line("zsh"@);
}

/// What the user wants done about the credential is what is done.
pub proof fn the_credential_is_treated_as_wanted(
    present: bool,
    off: PasswordStep,
    on: PasswordStep,
    replace: PasswordStep,
    keep: PasswordStep,
    stop: PasswordStep,
    more: PasswordStep,
    enough: PasswordStep,
)
    requires
        call_ensures(provision_master_password, (false, present), off),
        call_ensures(provision_master_password, (true, present), on),
        call_ensures(credential_answered, (Existing::Overwrite,), replace),
        call_ensures(credential_answered, (Existing::Reuse,), keep),
        call_ensures(credential_answered, (Existing::Abort,), stop),
        call_ensures(password_retry_answered, (true,), more),
        call_ensures(password_retry_answered, (false,), enough),
    ensures
        off@ == PasswordStepView::Settled(UnlockStrategy::OnDemand),
        present ==> on@ is AskExisting,
        !present ==> on@ is AskPassword,
        replace@ is AskPassword,
        keep@ == PasswordStepView::Settled(UnlockStrategy::Credential),
        stop@ is Fail,
        more@ is AskPassword,
        enough@ is Fail,
{
}

} // verus!
