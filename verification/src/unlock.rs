//! The vault's lock: when it is opened, and which keys are then served.
//!
//! The vault starts out locked. It is unlocked at startup with a credential
//! from systemd, on the first request that needs its keys, or by hand; from
//! then on it stays unlocked, and its keys can be refreshed.
//!
//! Each of these operations is a chain of steps. A [`Step`] says what has to be
//! done outside (run a program, read a file) and what to take up afterwards
//! with what came of it; the last one holds the outcome.

use std::sync::Arc;
use vstd::prelude::*;
use vstd::utf8::{
    decode_utf8, encode_utf8, encode_utf8_decode_utf8, encode_utf8_valid_utf8, valid_utf8,
};

use crate::agent::{refusal, servable, RefusalView, VaultKey, VaultKeyError, VaultKeyView};
use crate::bitwarden::{
    after_login, after_server, item_views, status_text, unlock_failure, session_text, BitwardenCli,
    CliView, ItemView, LoginStep, LoginView, Session, SshKeyItem, Status,
};
use crate::config::{key_of, ApiKey, ApiKeyView};
use crate::openssh::private_key_in;
use crate::process::{
    because, ran, said, with_context, words4, Input, Invocation, InvocationView, Output, OutputView,
    Ran, Visible,
};
use crate::secret::Secret;
use crate::text;

verus! {

// --- outcomes ---------------------------------------------------------------

/// What came of unlocking the vault by hand.
pub enum UnlockOutcome {
    /// The vault was locked and is not any more; how many keys it has.
    Unlocked(usize),
    /// The vault was not locked; how many keys it has.
    AlreadyUnlocked(usize),
}

/// What came of refreshing the keys.
pub enum RefreshOutcome {
    /// The keys were read anew; how many there are.
    Refreshed(usize),
    /// The vault is locked, so there is nothing to refresh.
    StillLocked,
}

/// Why the vault could not be unlocked by hand.
pub enum UnlockError {
    /// The master password was rejected.
    WrongPassword(String),
    /// Something else went wrong.
    Other(String),
}

/// The contents of an [`UnlockError`].
pub enum UnlockErrorView {
    WrongPassword(Seq<char>),
    Other(Seq<char>),
}

/// What came of an operation.
pub enum Outcome {
    /// Of asking for the keys.
    Keys(Result<Arc<Vec<VaultKey>>, String>),
    /// Of unlocking at startup: whether there was a credential.
    Startup(Result<bool, String>),
    /// Of unlocking by hand.
    Manual(Result<UnlockOutcome, UnlockError>),
    /// Of refreshing the keys.
    Refresh(Result<RefreshOutcome, String>),
}

/// The contents of an [`Outcome`].
pub enum OutcomeView {
    Keys(Result<Seq<VaultKeyView>, Seq<char>>),
    Startup(Result<bool, Seq<char>>),
    Manual(Result<UnlockOutcome, UnlockErrorView>),
    Refresh(Result<RefreshOutcome, Seq<char>>),
}

/// The contents of a list of keys.
pub open spec fn key_views(keys: Seq<VaultKey>) -> Seq<VaultKeyView> {
    keys.map_values(|k: VaultKey| k@)
}

impl View for Outcome {
    type V = OutcomeView;

    open spec fn view(&self) -> OutcomeView {
        match self {
            Outcome::Keys(Ok(keys)) => OutcomeView::Keys(Ok(key_views(keys@))),
            Outcome::Keys(Err(e)) => OutcomeView::Keys(Err(e@)),
            Outcome::Startup(r) => OutcomeView::Startup(said(*r)),
            Outcome::Manual(Ok(o)) => OutcomeView::Manual(Ok(*o)),
            Outcome::Manual(Err(UnlockError::WrongPassword(e))) => OutcomeView::Manual(
                Err(UnlockErrorView::WrongPassword(e@)),
            ),
            Outcome::Manual(Err(UnlockError::Other(e))) => OutcomeView::Manual(
                Err(UnlockErrorView::Other(e@)),
            ),
            Outcome::Refresh(r) => OutcomeView::Refresh(said(*r)),
        }
    }
}

// --- steps ------------------------------------------------------------------

/// What the vault is unlocked for.
pub enum Purpose {
    /// Somebody asked for the keys.
    Keys,
    /// The daemon starts.
    Startup,
    /// The user unlocks it by hand.
    Manual,
    /// A refresh failed, for this reason, and gets a new session.
    Retry(String),
}

/// The contents of a [`Purpose`].
pub enum PurposeView {
    Keys,
    Startup,
    Manual,
    Retry(Seq<char>),
}

impl View for Purpose {
    type V = PurposeView;

    open spec fn view(&self) -> PurposeView {
        match self {
            Purpose::Keys => PurposeView::Keys,
            Purpose::Startup => PurposeView::Startup,
            Purpose::Manual => PurposeView::Manual,
            Purpose::Retry(e) => PurposeView::Retry(e@),
        }
    }
}

/// What the keys are read for.
pub enum Loading {
    /// The vault was unlocked for this purpose.
    Fresh(Purpose),
    /// The keys are refreshed with the session at hand.
    Refresh,
}

/// The contents of a [`Loading`].
pub enum LoadingView {
    Fresh(PurposeView),
    Refresh,
}

impl View for Loading {
    type V = LoadingView;

    open spec fn view(&self) -> LoadingView {
        match self {
            Loading::Fresh(p) => LoadingView::Fresh(p@),
            Loading::Refresh => LoadingView::Refresh,
        }
    }
}

/// To be taken up when the credential has been read.
pub enum AfterCredential {
    Startup,
    /// A refresh failed for this reason.
    Retry(String),
}

/// To be taken up when the user has been asked for the master password.
pub struct AfterPassword;

/// To be taken up when the status of the device is known.
pub struct AfterStatus {
    pub purpose: Purpose,
    pub password: Secret,
}

/// To be taken up when a program has run.
pub enum AfterRun {
    /// The CLI has been pointed at the server; `login` comes next.
    Server { purpose: Purpose, password: Secret, server: String, login: Invocation },
    /// The device has been logged in.
    Login { purpose: Purpose, password: Secret },
    /// The vault has been unlocked.
    Unlock { purpose: Purpose },
    /// The local copy of the vault has been brought up to date.
    Sync { loading: Loading, session: Arc<Session> },
}

/// To be taken up when the SSH keys of the vault have been listed.
pub struct AfterList {
    pub loading: Loading,
    pub session: Arc<Session>,
}

/// What has to be done outside, and what to take up afterwards.
pub enum Step {
    /// Read the systemd credential.
    ReadCredential(AfterCredential),
    /// Ask the user for the master password.
    AskPassword(Invocation, AfterPassword),
    /// Ask for the status of the device.
    AskStatus(Invocation, AfterStatus),
    /// Run a program.
    Run(Invocation, AfterRun),
    /// List the SSH keys of the vault.
    ListItems(Invocation, AfterList),
    /// Nothing: this came of it.
    Done(Outcome),
}

/// The contents of an [`AfterCredential`].
pub enum CredentialView {
    Startup,
    Retry(Seq<char>),
}

/// The contents of an [`AfterRun`].
pub enum AfterView {
    Server {
        purpose: PurposeView,
        password: Seq<char>,
        server: Seq<char>,
        login: InvocationView,
    },
    Login { purpose: PurposeView, password: Seq<char> },
    Unlock { purpose: PurposeView },
    Sync { loading: LoadingView, session: Seq<char> },
}

/// The contents of a [`Step`].
pub enum StepView {
    ReadCredential(CredentialView),
    AskPassword(InvocationView),
    AskStatus { call: InvocationView, purpose: PurposeView, password: Seq<char> },
    Run(InvocationView, AfterView),
    ListItems { call: InvocationView, loading: LoadingView, session: Seq<char> },
    Done(OutcomeView),
}

impl View for AfterCredential {
    type V = CredentialView;

    open spec fn view(&self) -> CredentialView {
        match self {
            AfterCredential::Startup => CredentialView::Startup,
            AfterCredential::Retry(e) => CredentialView::Retry(e@),
        }
    }
}

impl View for AfterRun {
    type V = AfterView;

    open spec fn view(&self) -> AfterView {
        match self {
            AfterRun::Server { purpose, password, server, login } => AfterView::Server {
                purpose: purpose@,
                password: password@,
                server: server@,
                login: login@,
            },
            AfterRun::Login { purpose, password } => AfterView::Login {
                purpose: purpose@,
                password: password@,
            },
            AfterRun::Unlock { purpose } => AfterView::Unlock { purpose: purpose@ },
            AfterRun::Sync { loading, session } => AfterView::Sync {
                loading: loading@,
                session: session@,
            },
        }
    }
}

impl View for Step {
    type V = StepView;

    open spec fn view(&self) -> StepView {
        match self {
            Step::ReadCredential(after) => StepView::ReadCredential(after@),
            Step::AskPassword(call, _) => StepView::AskPassword(call@),
            Step::AskStatus(call, after) => StepView::AskStatus {
                call: call@,
                purpose: after.purpose@,
                password: after.password@,
            },
            Step::Run(call, after) => StepView::Run(call@, after@),
            Step::ListItems(call, after) => StepView::ListItems {
                call: call@,
                loading: after.loading@,
                session: after.session@,
            },
            Step::Done(outcome) => StepView::Done(outcome@),
        }
    }
}

// --- the manager ------------------------------------------------------------

/// Whether the vault is locked.
pub enum State {
    Locked,
    /// With this session and these keys.
    Unlocked { session: Arc<Session>, keys: Arc<Vec<VaultKey>> },
}

/// The contents of a [`State`].
pub enum StateView {
    Locked,
    Unlocked { session: Seq<char>, keys: Seq<VaultKeyView> },
}

impl View for State {
    type V = StateView;

    open spec fn view(&self) -> StateView {
        match self {
            State::Locked => StateView::Locked,
            State::Unlocked { session, keys } => StateView::Unlocked {
                session: session@,
                keys: key_views(keys@),
            },
        }
    }
}

/// The vault's lock, and the keys that are served.
pub struct UnlockManager {
    cli: BitwardenCli,
    api_key: Option<ApiKey>,
    state: State,
}

/// The contents of an [`UnlockManager`].
pub struct ManagerView {
    pub cli: CliView,
    pub api_key: Option<ApiKeyView>,
    pub state: StateView,
}

impl View for UnlockManager {
    type V = ManagerView;

    closed spec fn view(&self) -> ManagerView {
        ManagerView { cli: self.cli@, api_key: key_of(self.api_key), state: self.state@ }
    }
}

/// How long the user is waited for when the daemon asks for the password.
pub const ASK_PASSWORD_TIMEOUT_SECS: u64 = 10;

/// Asks the user for the master password, for a short while.
pub open spec fn ask_call() -> InvocationView {
    InvocationView {
        visible: Visible {
            program: "systemd-ask-password"@,
            args: seq![
                "--icon=dialog-password"@,
                "--id=bitwarden-ssh-agent"@,
                "--timeout="@ + text::decimal(ASK_PASSWORD_TIMEOUT_SECS as nat),
                "Bitwarden master password (to unlock SSH agent):"@,
            ],
            path: None,
        },
        removed: Seq::empty(),
        env: Seq::empty(),
        input: None,
    }
}

/// Said where a refresh failed and a new session could not be had.
pub open spec fn reunlock_failed_text() -> Seq<char> {
    "listing SSH keys from vault (re-unlock via systemd credential also failed; existing cached keys are still served, but run `bitwarden-ssh-agent unlock` to refresh)"@
}

/// Said where a refresh failed and there is no credential for a new session.
pub open spec fn no_credential_text() -> Seq<char> {
    "listing SSH keys from vault (no systemd credential to silently retry with; run `bitwarden-ssh-agent unlock` to refresh)"@
}

/// The outcome of a refresh that failed for the reason `e`, with a note.
pub open spec fn refresh_failed(note: Seq<char>, e: Seq<char>) -> StepView {
    StepView::Done(OutcomeView::Refresh(Err(because(note, e))))
}

/// The outcome where getting the device logged in, or reading the keys, failed.
pub open spec fn gave_up(purpose: PurposeView, e: Seq<char>) -> StepView {
    match purpose {
        PurposeView::Keys => StepView::Done(OutcomeView::Keys(Err(e))),
        PurposeView::Startup => StepView::Done(OutcomeView::Startup(Err(e))),
        PurposeView::Manual => StepView::Done(OutcomeView::Manual(Err(UnlockErrorView::Other(e)))),
        PurposeView::Retry(first) => refresh_failed(reunlock_failed_text(), first),
    }
}

/// Whether `bw unlock` ran and rejected the password.
pub open spec fn password_rejected(r: Result<OutputView, Seq<char>>) -> bool {
    r matches Ok(out) && !out.success
}

/// The outcome where unlocking failed for the reason `e`. Where `bw unlock`
/// rejected the password, the user who typed it is told so; that it could not be
/// run, or answered with no session, is no wrong password.
pub open spec fn unlock_failed(
    purpose: PurposeView,
    e: Seq<char>,
    r: Result<OutputView, Seq<char>>,
) -> StepView {
    if purpose is Manual && password_rejected(r) {
        StepView::Done(OutcomeView::Manual(Err(UnlockErrorView::WrongPassword(e))))
    } else {
        gave_up(purpose, e)
    }
}

/// The outcome where `count` keys were read and are now served: `keys`.
pub open spec fn loaded(loading: LoadingView, keys: Seq<VaultKeyView>) -> OutcomeView {
    let count = keys.len() as usize;
    match loading {
        LoadingView::Fresh(PurposeView::Keys) => OutcomeView::Keys(Ok(keys)),
        LoadingView::Fresh(PurposeView::Startup) => OutcomeView::Startup(Ok(true)),
        LoadingView::Fresh(PurposeView::Manual) => OutcomeView::Manual(
            Ok(UnlockOutcome::Unlocked(count)),
        ),
        LoadingView::Fresh(PurposeView::Retry(_)) => OutcomeView::Refresh(
            Ok(RefreshOutcome::Refreshed(count)),
        ),
        LoadingView::Refresh => OutcomeView::Refresh(Ok(RefreshOutcome::Refreshed(count))),
    }
}

/// The keys that can be served of the items of the vault, in their order.
pub open spec fn servable_keys(items: Seq<ItemView>) -> Seq<VaultKeyView>
    decreases items.len(),
{
    if items.len() == 0 {
        Seq::empty()
    } else {
        let before = servable_keys(items.drop_last());
        let item = items.last();
        if servable(item.private_key) {
            before.push(VaultKeyView { pem: item.private_key, comment: item.name })
        } else {
            before
        }
    }
}

impl ManagerView {
    /// The next step towards a device that is logged in, for unlocking it.
    pub open spec fn login_step(
        self,
        purpose: PurposeView,
        password: Seq<char>,
        plan: LoginView,
    ) -> StepView {
        match plan {
            LoginView::SetServer { server, call, login } => StepView::Run(
                call,
                AfterView::Server { purpose, password, server, login },
            ),
            LoginView::Login(call) => StepView::Run(call, AfterView::Login { purpose, password }),
            LoginView::LoggedIn => StepView::Run(
                self.cli.unlock_call(password),
                AfterView::Unlock { purpose },
            ),
            LoginView::Failed(e) => gave_up(purpose, e),
        }
    }

    /// The first step of unlocking the vault with `password`.
    pub open spec fn unlock_with(self, purpose: PurposeView, password: Seq<char>) -> StepView {
        StepView::AskStatus { call: self.cli.status_call(), purpose, password }
    }

    /// The first step of reading the keys with `session`.
    pub open spec fn load_with(self, loading: LoadingView, session: Seq<char>) -> StepView {
        StepView::Run(self.cli.sync_call(session), AfterView::Sync { loading, session })
    }

    /// The first step of getting the keys: an unlocked vault has them.
    pub open spec fn keys_step(self) -> StepView {
        match self.state {
            StateView::Unlocked { session, keys } => StepView::Done(OutcomeView::Keys(Ok(keys))),
            StateView::Locked => StepView::AskPassword(ask_call()),
        }
    }

    /// The first step of a refresh: there is none for a locked vault.
    pub open spec fn refresh_step(self) -> StepView {
        match self.state {
            StateView::Locked => StepView::Done(
                OutcomeView::Refresh(Ok(RefreshOutcome::StillLocked)),
            ),
            StateView::Unlocked { session, keys } => self.load_with(LoadingView::Refresh, session),
        }
    }

    /// The first step of unlocking by hand: there is none for an unlocked vault.
    pub open spec fn manual_step(self, password: Seq<char>) -> StepView {
        match self.state {
            StateView::Unlocked { session, keys } => StepView::Done(
                OutcomeView::Manual(Ok(UnlockOutcome::AlreadyUnlocked(keys.len() as usize))),
            ),
            StateView::Locked => self.unlock_with(PurposeView::Manual, password),
        }
    }

    /// What follows the user's being asked for the password.
    pub open spec fn after_password(self, password: Result<Seq<char>, Seq<char>>) -> StepView {
        match password {
            Ok(p) => self.unlock_with(PurposeView::Keys, p),
            Err(e) => gave_up(PurposeView::Keys, e),
        }
    }

    /// What follows the reading of the credential.
    pub open spec fn after_credential(
        self,
        after: CredentialView,
        credential: Result<Option<Seq<char>>, Seq<char>>,
    ) -> StepView {
        match after {
            CredentialView::Startup => match credential {
                Ok(Some(p)) => self.unlock_with(PurposeView::Startup, p),
                Ok(None) => StepView::Done(OutcomeView::Startup(Ok(false))),
                Err(e) => StepView::Done(OutcomeView::Startup(Err(e))),
            },
            CredentialView::Retry(first) => match credential {
                Ok(Some(p)) => self.unlock_with(PurposeView::Retry(first), p),
                _ => refresh_failed(no_credential_text(), first),
            },
        }
    }

    /// What follows once the status of the device is known.
    pub open spec fn after_status(
        self,
        purpose: PurposeView,
        password: Seq<char>,
        status: Result<Seq<char>, Seq<char>>,
    ) -> StepView {
        self.login_step(purpose, password, self.cli.login_plan(self.api_key, status))
    }

    /// What follows a program's run. Bringing the local copy up to date may
    /// fail: the keys are then read from the copy as it is.
    pub open spec fn after_run(
        self,
        after: AfterView,
        r: Result<OutputView, Seq<char>>,
    ) -> StepView {
        match after {
            AfterView::Server { purpose, password, server, login } => self.login_step(
                purpose,
                password,
                after_server(server, login, r),
            ),
            AfterView::Login { purpose, password } => self.login_step(
                purpose,
                password,
                after_login(r),
            ),
            AfterView::Unlock { purpose } => match unlock_failure(r) {
                Some(e) => unlock_failed(purpose, e, r),
                None => self.load_with(
                    LoadingView::Fresh(purpose),
                    session_text(r->Ok_0.stdout),
                ),
            },
            AfterView::Sync { loading, session } => StepView::ListItems {
                call: self.cli.list_call(session),
                loading,
                session,
            },
        }
    }

    /// What follows the listing of the SSH keys. Where it failed, a refresh
    /// looks for a credential to get a new session with.
    pub open spec fn after_list(
        self,
        loading: LoadingView,
        items: Result<Seq<ItemView>, Seq<char>>,
    ) -> StepView {
        match items {
            Ok(items) => StepView::Done(loaded(loading, servable_keys(items))),
            Err(cause) => {
                let e = because("listing SSH keys from vault"@, cause);
                match loading {
                    LoadingView::Fresh(purpose) => gave_up(purpose, e),
                    LoadingView::Refresh => StepView::ReadCredential(CredentialView::Retry(e)),
                }
            },
        }
    }

    /// The state that the listing of the SSH keys leaves behind: it is changed
    /// only where the listing succeeded.
    pub open spec fn state_after_list(
        self,
        session: Seq<char>,
        items: Result<Seq<ItemView>, Seq<char>>,
    ) -> StateView {
        match items {
            Ok(items) => StateView::Unlocked { session, keys: servable_keys(items) },
            Err(_) => self.state,
        }
    }
}

/// The text of a password, or why there is none.
pub open spec fn password_text(p: Result<Secret, String>) -> Result<Seq<char>, Seq<char>> {
    match p {
        Ok(p) => Ok(p@),
        Err(e) => Err(e@),
    }
}

/// The text of a credential that may not be there, or what went wrong.
pub open spec fn credential_text(c: Result<Option<Secret>, String>) -> Result<
    Option<Seq<char>>,
    Seq<char>,
> {
    match c {
        Ok(Some(p)) => Ok(Some(p@)),
        Ok(None) => Ok(None),
        Err(e) => Err(e@),
    }
}

/// The items of the vault, or why there are none.
pub open spec fn items_text(items: Result<Vec<SshKeyItem>, String>) -> Result<
    Seq<ItemView>,
    Seq<char>,
> {
    match items {
        Ok(items) => Ok(item_views(items@)),
        Err(e) => Err(e@),
    }
}

/// Asks the user for the master password. On a headless machine there is mostly
/// nobody to answer, so the question stands for a short while only.
pub fn ask_password() -> (r: Invocation)
    ensures
        r@ == ask_call(),
{
    let timeout = text::cat2(
        "--timeout=",
        text::decimal_text(ASK_PASSWORD_TIMEOUT_SECS).as_str(),
    );
    let r = Invocation {
        program: "systemd-ask-password".to_owned(),
        args: words4(
            "--icon=dialog-password",
            "--id=bitwarden-ssh-agent",
            timeout.as_str(),
            "Bitwarden master password (to unlock SSH agent):",
        ),
        path: None,
        removed: Vec::new(),
        env: Vec::new(),
        input: Input::Nothing,
    };
    assert(r@.removed =~= Seq::empty());
    assert(r@.env =~= Seq::empty());
    r
}

/// The outcome of a refresh that failed for the reason `e`, with a note.
fn refresh_gave_up(note: &str, e: &str) -> (r: Step)
    ensures
        r@ == refresh_failed(note@, e@),
{
    Step::Done(Outcome::Refresh(Err(with_context(note, e))))
}

/// The outcome where getting the device logged in, or reading the keys, failed.
fn give_up(purpose: Purpose, e: String) -> (r: Step)
    ensures
        r@ == gave_up(purpose@, e@),
{
    match purpose {
        Purpose::Keys => Step::Done(Outcome::Keys(Err(e))),
        Purpose::Startup => Step::Done(Outcome::Startup(Err(e))),
        Purpose::Manual => Step::Done(Outcome::Manual(Err(UnlockError::Other(e)))),
        Purpose::Retry(first) => refresh_gave_up(
            "listing SSH keys from vault (re-unlock via systemd credential also failed; existing cached keys are still served, but run `bitwarden-ssh-agent unlock` to refresh)",
            first.as_str(),
        ),
    }
}

/// The outcome where unlocking failed; `rejected` says whether `bw unlock` ran
/// and rejected the password.
fn fail_unlock(purpose: Purpose, e: String, rejected: bool) -> (r: Step)
    ensures
        r@ == (if purpose@ is Manual && rejected {
            StepView::Done(OutcomeView::Manual(Err(UnlockErrorView::WrongPassword(e@))))
        } else {
            gave_up(purpose@, e@)
        }),
{
    match purpose {
        Purpose::Manual => if rejected {
            Step::Done(Outcome::Manual(Err(UnlockError::WrongPassword(e))))
        } else {
            give_up(Purpose::Manual, e)
        },
        other => give_up(other, e),
    }
}

/// The keys that can be served of the items of the vault. The others are passed
/// over.
pub fn usable_keys(items: &Vec<SshKeyItem>) -> (r: Vec<VaultKey>)
    ensures
        key_views(r@) == servable_keys(item_views(items@)),
{
    let mut keys: Vec<VaultKey> = Vec::new();
    let ghost all = item_views(items@);
    assert(key_views(keys@) =~= servable_keys(all.take(0)));
    let mut i: usize = 0;
    while i < items.len()
        invariant
            i <= items.len(),
            all == item_views(items@),
            key_views(keys@) == servable_keys(all.take(i as int)),
        decreases items.len() - i,
    {
        let ghost before = key_views(keys@);
        assert(all.take(i + 1).drop_last() == all.take(i as int));
        assert(all.take(i + 1).last() == items@[i as int]@);
        match VaultKey::from_item(&items[i]) {
            Ok(key) => {
                keys.push(key);
                assert(key_views(keys@) =~= before.push(key@));
            },
            Err(_) => {},
        }
        i = i + 1;
    }
    assert(all.take(all.len() as int) == all);
    keys
}

/// Why those items of the vault that cannot be served cannot be, in the order of
/// the items.
pub open spec fn refusals(items: Seq<ItemView>) -> Seq<RefusalView>
    decreases items.len(),
{
    if items.len() == 0 {
        Seq::empty()
    } else {
        let before = refusals(items.drop_last());
        match refusal(items.last()) {
            Some(e) => before.push(e),
            None => before,
        }
    }
}

/// The contents of a list of errors.
pub open spec fn refusal_views(errors: Seq<VaultKeyError>) -> Seq<RefusalView> {
    errors.map_values(|e: VaultKeyError| e@)
}

/// Why those items of the vault that cannot be served cannot be, in the order of
/// the items. Every item is served or refused.
pub fn unusable_items(items: &Vec<SshKeyItem>) -> (r: Vec<VaultKeyError>)
    ensures
        refusal_views(r@) == refusals(item_views(items@)),
        r@.len() + servable_keys(item_views(items@)).len() == items@.len(),
{
    let mut errors: Vec<VaultKeyError> = Vec::new();
    let ghost all = item_views(items@);
    assert(refusal_views(errors@) =~= refusals(all.take(0)));
    let mut i: usize = 0;
    while i < items.len()
        invariant
            i <= items.len(),
            all == item_views(items@),
            refusal_views(errors@) == refusals(all.take(i as int)),
            errors@.len() + servable_keys(all.take(i as int)).len() == i,
        decreases items.len() - i,
    {
        let ghost before = refusal_views(errors@);
        assert(all.take(i + 1).drop_last() == all.take(i as int));
        assert(all.take(i + 1).last() == items@[i as int]@);
        match VaultKey::from_item(&items[i]) {
            Ok(_) => {},
            Err(e) => {
                errors.push(e);
                assert(refusal_views(errors@) =~= before.push(e@));
            },
        }
        i = i + 1;
    }
    assert(all.take(all.len() as int) == all);
    errors
}

/// What came of reading `keys`, which are now served.
fn report(loading: Loading, keys: &Arc<Vec<VaultKey>>) -> (r: Outcome)
    ensures
        r@ == loaded(loading@, key_views(keys@)),
{
    let count: usize = keys.len();
    match loading {
        Loading::Fresh(Purpose::Keys) => Outcome::Keys(Ok(Arc::clone(keys))),
        Loading::Fresh(Purpose::Startup) => Outcome::Startup(Ok(true)),
        Loading::Fresh(Purpose::Manual) => Outcome::Manual(Ok(UnlockOutcome::Unlocked(count))),
        Loading::Fresh(Purpose::Retry(_)) => Outcome::Refresh(
            Ok(RefreshOutcome::Refreshed(count)),
        ),
        Loading::Refresh => Outcome::Refresh(Ok(RefreshOutcome::Refreshed(count))),
    }
}

impl UnlockManager {
    /// A locked vault.
    pub fn new(cli: BitwardenCli, api_key: Option<ApiKey>) -> (r: UnlockManager)
        ensures
            r@ == (ManagerView { cli: cli@, api_key: key_of(api_key), state: StateView::Locked }),
    {
        UnlockManager { cli, api_key, state: State::Locked }
    }

    /// Asks for the keys. An unlocked vault has them at hand; for a locked one
    /// the user is asked for the master password.
    pub fn keys(&self) -> (r: Step)
        ensures
            r@ == self@.keys_step(),
    {
        match &self.state {
            State::Unlocked { session: _, keys } => Step::Done(Outcome::Keys(Ok(Arc::clone(keys)))),
            State::Locked => Step::AskPassword(ask_password(), AfterPassword),
        }
    }

    /// Refreshes the keys with the session at hand, without the master password.
    pub fn refresh(&self) -> (r: Step)
        ensures
            r@ == self@.refresh_step(),
    {
        match &self.state {
            State::Locked => Step::Done(Outcome::Refresh(Ok(RefreshOutcome::StillLocked))),
            State::Unlocked { session, keys: _ } => self.load_keys(
                Loading::Refresh,
                Arc::clone(session),
            ),
        }
    }

    /// Unlocks the vault at startup, if there is a credential for that.
    pub fn try_startup_unlock(&self) -> (r: Step)
        ensures
            r@ == StepView::ReadCredential(CredentialView::Startup),
    {
        Step::ReadCredential(AfterCredential::Startup)
    }

    /// Unlocks the vault by hand.
    pub fn unlock_with_password(&self, password: Secret) -> (r: Step)
        ensures
            r@ == self@.manual_step(password@),
    {
        match &self.state {
            State::Unlocked { session: _, keys } => Step::Done(
                Outcome::Manual(Ok(UnlockOutcome::AlreadyUnlocked(keys.len()))),
            ),
            State::Locked => self.unlock_and_load(Purpose::Manual, password),
        }
    }

    /// Takes up what the user answered when asked for the master password.
    pub fn password_entered(&self, after: AfterPassword, password: Result<Secret, String>) -> (r:
        Step)
        ensures
            r@ == self@.after_password(password_text(password)),
    {
        match password {
            Ok(p) => self.unlock_and_load(Purpose::Keys, p),
            Err(e) => give_up(Purpose::Keys, e),
        }
    }

    /// Takes up the systemd credential, or that there is none.
    pub fn credential_read(
        &self,
        after: AfterCredential,
        credential: Result<Option<Secret>, String>,
    ) -> (r: Step)
        ensures
            r@ == self@.after_credential(after@, credential_text(credential)),
    {
        match after {
            AfterCredential::Startup => match credential {
                Ok(Some(p)) => self.unlock_and_load(Purpose::Startup, p),
                Ok(None) => Step::Done(Outcome::Startup(Ok(false))),
                Err(e) => Step::Done(Outcome::Startup(Err(e))),
            },
            AfterCredential::Retry(first) => match credential {
                Ok(Some(p)) => self.unlock_and_load(Purpose::Retry(first), p),
                _ => refresh_gave_up(
                    "listing SSH keys from vault (no systemd credential to silently retry with; run `bitwarden-ssh-agent unlock` to refresh)",
                    first.as_str(),
                ),
            },
        }
    }

    /// The first step of unlocking the vault with `password`.
    fn unlock_and_load(&self, purpose: Purpose, password: Secret) -> (r: Step)
        ensures
            r@ == self@.unlock_with(purpose@, password@),
    {
        Step::AskStatus(self.cli.status(), AfterStatus { purpose, password })
    }

    /// The first step of reading the keys with `session`.
    fn load_keys(&self, loading: Loading, session: Arc<Session>) -> (r: Step)
        ensures
            r@ == self@.load_with(loading@, session@),
    {
        Step::Run(self.cli.sync(&session), AfterRun::Sync { loading, session })
    }

    /// The next step towards a device that is logged in.
    fn ensure_logged_in(&self, purpose: Purpose, password: Secret, plan: LoginStep) -> (r: Step)
        ensures
            r@ == self@.login_step(purpose@, password@, plan@),
    {
        match plan {
            LoginStep::SetServer { server, call, login } => Step::Run(
                call,
                AfterRun::Server { purpose, password, server, login },
            ),
            LoginStep::Login(call) => Step::Run(call, AfterRun::Login { purpose, password }),
            LoginStep::LoggedIn => Step::Run(
                self.cli.unlock(&password),
                AfterRun::Unlock { purpose },
            ),
            LoginStep::Failed(e) => give_up(purpose, e),
        }
    }

    /// Takes up the status of the device.
    pub fn status_known(&self, after: AfterStatus, status: Result<Status, String>) -> (r: Step)
        ensures
            r@ == self@.after_status(after.purpose@, after.password@, status_text(status)),
    {
        let plan = self.cli.login_plan(&self.api_key, status);
        self.ensure_logged_in(after.purpose, after.password, plan)
    }

    /// Takes up what came of a program's run.
    pub fn command_ran(&self, after: AfterRun, r: Ran) -> (res: Step)
        ensures
            res@ == self@.after_run(after@, ran(r)),
    {
        match after {
            AfterRun::Server { purpose, password, server, login } => {
                let plan = BitwardenCli::login_after_server(server.as_str(), login, r);
                self.ensure_logged_in(purpose, password, plan)
            },
            AfterRun::Login { purpose, password } => {
                let plan = BitwardenCli::login_after_login(r);
                self.ensure_logged_in(purpose, password, plan)
            },
            AfterRun::Unlock { purpose } => {
                let rejected = match &r {
                    Ok(out) => !out.success,
                    Err(_) => false,
                };
                match BitwardenCli::unlock_answer(r) {
                    Ok(session) => self.load_keys(Loading::Fresh(purpose), Arc::new(session)),
                    Err(e) => fail_unlock(purpose, e, rejected),
                }
            },
            AfterRun::Sync { loading, session } => Step::ListItems(
                self.cli.list_ssh_keys(&session),
                AfterList { loading, session },
            ),
        }
    }

    /// Takes up the SSH keys of the vault. From here on they are served.
    pub fn items_listed(&mut self, after: AfterList, items: Result<Vec<SshKeyItem>, String>) -> (r:
        Step)
        ensures
            r@ == old(self)@.after_list(after.loading@, items_text(items)),
            final(self)@ == (ManagerView {
                state: old(self)@.state_after_list(after.session@, items_text(items)),
                ..old(self)@
            }),
    {
        match items {
            Ok(items) => {
                let keys = Arc::new(usable_keys(&items));
                let outcome = report(after.loading, &keys);
                self.state = State::Unlocked { session: after.session, keys };
                Step::Done(outcome)
            },
            Err(cause) => {
                let e = with_context("listing SSH keys from vault", cause.as_str());
                match after.loading {
                    Loading::Fresh(purpose) => give_up(purpose, e),
                    Loading::Refresh => Step::ReadCredential(AfterCredential::Retry(e)),
                }
            },
        }
    }
}

// --- passwords from outside -------------------------------------------------

/// Why the answer to the question for the master password is not one, if so.
pub open spec fn ask_failure(r: Result<OutputView, Seq<char>>) -> Option<Seq<char>> {
    match r {
        Err(cause) => Some(
            because("spawning systemd-ask-password (is systemd installed?)"@, cause),
        ),
        Ok(out) => if !out.success {
            Some(
                "systemd-ask-password failed ("@ + text::trimmed(text::utf8_lossy(out.stderr))
                    + "); no ask-password agent answered. Unlock the daemon directly with `bitwarden-ssh-agent unlock`"@,
            )
        } else if !valid_utf8(out.stdout) {
            Some(
                because(
                    "systemd-ask-password returned non-UTF8 output"@,
                    text::utf8_error(out.stdout),
                ),
            )
        } else if text::without_line_end(decode_utf8(out.stdout)).len() == 0 {
            Some("no master password was entered"@)
        } else {
            None
        },
    }
}

/// The master password that the user entered.
pub fn ask_answer(r: Ran) -> (res: Result<Secret, String>)
    ensures
        password_text(res) == (match ask_failure(ran(r)) {
            Some(e) => Err::<Seq<char>, Seq<char>>(e),
            None => Ok(text::without_line_end(decode_utf8(ran(r)->Ok_0.stdout))),
        }),
{
    let out: Output = match r {
        Ok(out) => out,
        Err(cause) => {
            return Err(
                with_context(
                    "spawning systemd-ask-password (is systemd installed?)",
                    cause.as_str(),
                ),
            );
        },
    };
    if !out.success {
        let said = text::trim(text::from_utf8_lossy(out.stderr.as_slice()).as_str());
        return Err(
            text::cat3(
                "systemd-ask-password failed (",
                said.as_str(),
                "); no ask-password agent answered. Unlock the daemon directly with `bitwarden-ssh-agent unlock`",
            ),
        );
    }
    let mut raw: String = match text::from_utf8(out.stdout) {
        Ok(raw) => raw,
        Err(cause) => {
            return Err(
                with_context("systemd-ask-password returned non-UTF8 output", cause.as_str()),
            );
        },
    };
    let password = text::trim_line_end(raw.as_str());
    text::wipe_text(&mut raw);
    if password.as_str().is_empty() {
        return Err("no master password was entered".to_owned());
    }
    Ok(Secret::new(password))
}

/// The master password in the contents of the systemd credential, which may or
/// may not end in a line end. `path` is the credential's name for the message.
pub fn credential_password(path: &str, contents: String) -> (r: Result<Secret, String>)
    ensures
        r is Err <==> text::without_line_end(contents@).len() == 0,
        r matches Ok(p) ==> p@ == text::without_line_end(contents@),
        r matches Err(e) ==> e@ == "master password credential "@ + path@ + " is empty"@,
{
    let mut contents: String = contents;
    let password = text::trim_line_end(contents.as_str());
    text::wipe_text(&mut contents);
    if password.as_str().is_empty() {
        Err(text::cat3("master password credential ", path, " is empty"))
    } else {
        Ok(Secret::new(password))
    }
}

// --- laws -------------------------------------------------------------------

/// What comes back from outside.
pub enum EventView {
    Password(Result<Seq<char>, Seq<char>>),
    Credential(Result<Option<Seq<char>>, Seq<char>>),
    Status(Result<Seq<char>, Seq<char>>),
    Ran(Result<OutputView, Seq<char>>),
    Items(Result<Seq<ItemView>, Seq<char>>),
}

impl ManagerView {
    /// Where the manager and the operation at `step` stand once `event` has been
    /// taken up; nothing where `event` does not belong to `step`.
    pub open spec fn follow(self, step: StepView, event: EventView) -> Option<
        (ManagerView, StepView),
    > {
        match (step, event) {
            (StepView::AskPassword(_), EventView::Password(p)) => Some(
                (self, self.after_password(p)),
            ),
            (StepView::ReadCredential(after), EventView::Credential(c)) => Some(
                (self, self.after_credential(after, c)),
            ),
            (StepView::AskStatus { call: _, purpose, password }, EventView::Status(s)) => Some(
                (self, self.after_status(purpose, password, s)),
            ),
            (StepView::Run(_, after), EventView::Ran(r)) => Some((self, self.after_run(after, r))),
            (StepView::ListItems { call: _, loading, session }, EventView::Items(items)) => Some(
                (
                    ManagerView { state: self.state_after_list(session, items), ..self },
                    self.after_list(loading, items),
                ),
            ),
            _ => None,
        }
    }

    /// Where the manager and the operation at `step` stand once `events` have
    /// been taken up, as far as they belong to the operation.
    pub open spec fn run(self, step: StepView, events: Seq<EventView>) -> (ManagerView, StepView)
        decreases events.len(),
    {
        if events.len() == 0 {
            (self, step)
        } else {
            match self.follow(step, events[0]) {
                Some((m, s)) => m.run(s, events.drop_first()),
                None => (self, step),
            }
        }
    }
}

/// A bound on the outside calls that an operation at `step` still makes.
pub open spec fn calls_left(step: StepView) -> nat {
    match step {
        StepView::Done(_) => 0,
        StepView::ListItems { call: _, loading: LoadingView::Fresh(_), session: _ } => 1,
        StepView::Run(_, AfterView::Sync { loading: LoadingView::Fresh(_), session: _ }) => 2,
        StepView::Run(_, AfterView::Unlock { .. }) => 3,
        StepView::Run(_, AfterView::Login { .. }) => 4,
        StepView::Run(_, AfterView::Server { .. }) => 5,
        StepView::AskStatus { .. } => 6,
        StepView::AskPassword(_) => 7,
        StepView::ReadCredential(_) => 7,
        StepView::ListItems { call: _, loading: LoadingView::Refresh, session: _ } => 8,
        StepView::Run(_, AfterView::Sync { loading: LoadingView::Refresh, session: _ }) => 9,
    }
}

/// Every operation comes to its end: each event that is taken up brings it
/// nearer, and none is more than nine outside calls away from it.
pub proof fn operations_end(m: ManagerView, step: StepView, event: EventView)
    ensures
        calls_left(step) <= 9,
        calls_left(step) == 0 <==> step is Done,
        m.follow(step, event) matches Some((m2, next)) ==> calls_left(next) < calls_left(step),
{
}

/// Nobody is asked for the master password in the middle of an operation: only
/// asking a locked vault for its keys does that, as the first thing.
pub proof fn only_asking_for_keys_prompts(
    m: ManagerView,
    step: StepView,
    event: EventView,
    password: Seq<char>,
)
    ensures
        m.keys_step() is AskPassword <==> m.state is Locked,
        !(m.refresh_step() is AskPassword),
        !(m.manual_step(password) is AskPassword),
        m.follow(step, event) matches Some((m2, next)) ==> !(next is AskPassword),
{
}

/// Requests that come while the vault is unlocked are answered at once: the keys
/// are handed out and unlocking again does nothing.
pub proof fn an_unlocked_vault_answers_at_once(m: ManagerView, password: Seq<char>)
    requires
        m.state is Unlocked,
    ensures
        m.keys_step() == StepView::Done(OutcomeView::Keys(Ok(m.state->keys))),
        m.manual_step(password) == StepView::Done(
            OutcomeView::Manual(Ok(UnlockOutcome::AlreadyUnlocked(m.state->keys.len() as usize))),
        ),
{
}

/// Whether an operation has come to a good end that left `keys` to be served.
pub open spec fn serves(step: StepView, keys: Seq<VaultKeyView>) -> bool {
    match step {
        StepView::Done(OutcomeView::Keys(Ok(served))) => served == keys,
        StepView::Done(OutcomeView::Startup(Ok(true))) => true,
        StepView::Done(OutcomeView::Manual(Ok(UnlockOutcome::Unlocked(n)))) => n
            == keys.len() as usize,
        StepView::Done(OutcomeView::Refresh(Ok(RefreshOutcome::Refreshed(n)))) => n
            == keys.len() as usize,
        _ => false,
    }
}

/// Whatever comes back from outside, an operation either leaves the vault as it
/// was, with the keys it serves, or comes to a good end with the vault unlocked
/// and reports the keys that are now served. In particular one that fails
/// changes nothing.
pub proof fn an_operation_succeeds_or_changes_nothing(
    m: ManagerView,
    step: StepView,
    events: Seq<EventView>,
)
    ensures
        ({
            let (end, last) = m.run(step, events);
            &&& end.cli == m.cli
            &&& end.api_key == m.api_key
            &&& end.state == m.state || (end.state is Unlocked && serves(last, end.state->keys))
        }),
    decreases events.len(),
{
    if events.len() > 0 {
        match m.follow(step, events[0]) {
            Some((m2, next)) => {
                an_operation_succeeds_or_changes_nothing(m2, next, events.drop_first());
                if m2.state != m.state {
                    assert(next is Done);
                    assert(m2.run(next, events.drop_first()) == (m2, next)) by {
                        reveal_with_fuel(ManagerView::run, 2);
                    }
                }
            },
            None => {},
        }
    }
}

/// A vault that is unlocked stays unlocked.
pub proof fn an_unlocked_vault_stays_unlocked(
    m: ManagerView,
    step: StepView,
    events: Seq<EventView>,
)
    requires
        m.state is Unlocked,
    ensures
        m.run(step, events).0.state is Unlocked,
{
    an_operation_succeeds_or_changes_nothing(m, step, events);
}

/// The server of the CLI is changed only on a device that is known to be logged
/// out, since `bw` refuses it on any other.
pub proof fn the_server_is_set_only_while_logged_out(
    m: ManagerView,
    step: StepView,
    event: EventView,
)
    ensures
        m.follow(step, event) matches Some((m2, StepView::Run(_, AfterView::Server { .. })))
            ==> event matches EventView::Status(Ok(status)) && !crate::bitwarden::logged_in(status),
{
}

/// Unlocking by hand reports a wrong password where `bw unlock` ran and rejected
/// it, and nowhere else: whatever else goes wrong is reported as something else.
pub proof fn a_wrong_password_is_told_apart(m: ManagerView, step: StepView, event: EventView)
    ensures
        m.follow(step, event) matches Some(
            (m2, StepView::Done(OutcomeView::Manual(Err(UnlockErrorView::WrongPassword(e))))),
        ) ==> step matches StepView::Run(
            _,
            AfterView::Unlock { purpose: PurposeView::Manual },
        ) && event matches EventView::Ran(r) && password_rejected(r) && unlock_failure(r) == Some(
            e,
        ),
        forall|call: InvocationView, r: Result<OutputView, Seq<char>>|
            unlock_failure(r) matches Some(e) ==> #[trigger] m.follow(
                StepView::Run(call, AfterView::Unlock { purpose: PurposeView::Manual }),
                EventView::Ran(r),
            ) == Some(
                (
                    m,
                    StepView::Done(
                        OutcomeView::Manual(
                            Err(
                                if password_rejected(r) {
                                    UnlockErrorView::WrongPassword(e)
                                } else {
                                    UnlockErrorView::Other(e)
                                },
                            ),
                        ),
                    ),
                ),
            ),
        forall|r: Result<OutputView, Seq<char>>|
            password_rejected(r) ==> #[trigger] unlock_failure(r) is Some,
{
}

/// An item that cannot be served changes nothing about the keys of the others.
pub proof fn odd_items_change_nothing(items: Seq<ItemView>, i: int)
    requires
        0 <= i < items.len(),
        !servable(items[i].private_key),
    ensures
        servable_keys(items.remove(i)) == servable_keys(items),
    decreases items.len(),
{
    let rest = items.remove(i);
    if i == items.len() - 1 {
        assert(rest =~= items.drop_last());
    } else {
        odd_items_change_nothing(items.drop_last(), i);
        assert(rest.drop_last() =~= items.drop_last().remove(i));
        assert(rest.last() == items.last());
    }
}

impl ManagerView {
    /// How many of the steps that are taken up while an operation at `step` gets
    /// `events` are of a kind.
    pub open spec fn count(
        self,
        step: StepView,
        events: Seq<EventView>,
        kind: spec_fn(StepView) -> bool,
    ) -> nat
        decreases events.len(),
    {
        if events.len() == 0 {
            0
        } else {
            match self.follow(step, events[0]) {
                Some((m, s)) => (if kind(step) {
                    1nat
                } else {
                    0nat
                }) + m.count(s, events.drop_first(), kind),
                None => 0,
            }
        }
    }

    /// Where the manager stands after requests for the keys that came at the same
    /// time. Whoever holds the lock brings its request to an end, so they are
    /// dealt with in some order; `calls` are the events that each of them gets.
    pub open spec fn after_requests(self, calls: Seq<Seq<EventView>>) -> ManagerView
        decreases calls.len(),
    {
        if calls.len() == 0 {
            self
        } else {
            self.run(self.keys_step(), calls[0]).0.after_requests(calls.drop_first())
        }
    }

    /// How many of the steps that are taken up for such requests are of a kind.
    pub open spec fn count_requests(
        self,
        calls: Seq<Seq<EventView>>,
        kind: spec_fn(StepView) -> bool,
    ) -> nat
        decreases calls.len(),
    {
        if calls.len() == 0 {
            0
        } else {
            self.count(self.keys_step(), calls[0], kind) + self.run(
                self.keys_step(),
                calls[0],
            ).0.count_requests(calls.drop_first(), kind)
        }
    }

    /// What request `i` among `calls` comes to.
    pub open spec fn answer(self, calls: Seq<Seq<EventView>>, i: int) -> StepView {
        let m = self.after_requests(calls.take(i));
        m.run(m.keys_step(), calls[i]).1
    }
}

/// Whether a step asks the user for the master password.
pub open spec fn is_prompt(step: StepView) -> bool {
    step is AskPassword
}

/// Whether a step runs `bw unlock`.
pub open spec fn is_unlock(step: StepView) -> bool {
    step matches StepView::Run(_, AfterView::Unlock { .. })
}

/// Whether a step belongs to a request for the keys.
pub open spec fn is_for_keys(step: StepView) -> bool {
    match step {
        StepView::AskPassword(_) => true,
        StepView::AskStatus { call: _, purpose, password: _ } => purpose is Keys,
        StepView::Run(_, AfterView::Server { purpose, .. }) => purpose is Keys,
        StepView::Run(_, AfterView::Login { purpose, .. }) => purpose is Keys,
        StepView::Run(_, AfterView::Unlock { purpose }) => purpose is Keys,
        StepView::Run(_, AfterView::Sync { loading, .. }) => loading == LoadingView::Fresh(
            PurposeView::Keys,
        ),
        StepView::ListItems { call: _, loading, session: _ } => loading == LoadingView::Fresh(
            PurposeView::Keys,
        ),
        StepView::Done(outcome) => outcome is Keys,
        StepView::ReadCredential(_) => false,
    }
}

/// A request for the keys that ends well leaves the vault unlocked with the keys
/// it hands out, and from `step` on it has asked for the password only there, and
/// run `bw unlock` once unless that lay behind it.
proof fn a_request_that_ends_well(
    m: ManagerView,
    step: StepView,
    events: Seq<EventView>,
    keys: Seq<VaultKeyView>,
)
    requires
        is_for_keys(step),
        !(step is Done),
        m.run(step, events).1 == StepView::Done(OutcomeView::Keys(Ok(keys))),
    ensures
        m.run(step, events).0.state matches StateView::Unlocked { session: _, keys: served }
            && served == keys,
        m.count(step, events, |s: StepView| is_prompt(s)) == if is_prompt(step) {
            1nat
        } else {
            0nat
        },
        m.count(step, events, |s: StepView| is_unlock(s)) == match step {
            StepView::ListItems { .. } => 0nat,
            StepView::Run(_, AfterView::Sync { .. }) => 0nat,
            _ => 1nat,
        },
    decreases events.len(),
{
    let (m2, next) = m.follow(step, events[0])->0;
    let rest = events.drop_first();
    assert(is_for_keys(next));
    if next is Done {
        if rest.len() > 0 {
            assert(m2.follow(next, rest[0]) is None);
        }
        assert(m2.run(next, rest) == (m2, next));
        assert(m2.count(next, rest, |s: StepView| is_prompt(s)) == 0);
        assert(m2.count(next, rest, |s: StepView| is_unlock(s)) == 0);
        assert(step is ListItems);
    } else {
        a_request_that_ends_well(m2, next, rest, keys);
    }
}

/// Requests for the keys of an unlocked vault take no step outside.
proof fn requests_to_an_unlocked_vault(
    m: ManagerView,
    calls: Seq<Seq<EventView>>,
    kind: spec_fn(StepView) -> bool,
)
    requires
        m.state is Unlocked,
    ensures
        m.after_requests(calls) == m,
        m.count_requests(calls, kind) == 0,
    decreases calls.len(),
{
    if calls.len() > 0 {
        let first = m.keys_step();
        if calls[0].len() > 0 {
            assert(m.follow(first, calls[0][0]) is None);
        }
        assert(m.run(first, calls[0]) == (m, first));
        requests_to_an_unlocked_vault(m, calls.drop_first(), kind);
    }
}

/// However many requests for the keys come in while the vault is locked, the user
/// is asked once and `bw unlock` is run once, where the first that is dealt with
/// ends well: all of them get the keys that it got, and so does every later one,
/// with no step outside.
pub proof fn requests_at_the_same_time_prompt_once(
    m: ManagerView,
    calls: Seq<Seq<EventView>>,
    keys: Seq<VaultKeyView>,
)
    requires
        m.state is Locked,
        calls.len() > 0,
        m.run(m.keys_step(), calls[0]).1 == StepView::Done(OutcomeView::Keys(Ok(keys))),
    ensures
        m.count_requests(calls, |s: StepView| is_prompt(s)) == 1,
        m.count_requests(calls, |s: StepView| is_unlock(s)) == 1,
        forall|i: int|
            0 <= i < calls.len() ==> #[trigger] m.answer(calls, i) == StepView::Done(
                OutcomeView::Keys(Ok(keys)),
            ),
        m.after_requests(calls).keys_step() == StepView::Done(OutcomeView::Keys(Ok(keys))),
{
    a_request_that_ends_well(m, m.keys_step(), calls[0], keys);
    let m2 = m.run(m.keys_step(), calls[0]).0;
    let rest = calls.drop_first();
    requests_to_an_unlocked_vault(m2, rest, |s: StepView| is_prompt(s));
    requests_to_an_unlocked_vault(m2, rest, |s: StepView| is_unlock(s));
    assert forall|i: int| 0 <= i < calls.len() implies #[trigger] m.answer(calls, i)
        == StepView::Done(OutcomeView::Keys(Ok(keys))) by {
        if i == 0 {
            assert(m.after_requests(calls.take(0)) == m);
        } else {
            let before = calls.take(i);
            assert(before[0] == calls[0]);
            requests_to_an_unlocked_vault(
                m2,
                before.drop_first(),
                |s: StepView| is_prompt(s),
            );
            assert(m.after_requests(before) == m2);
            if calls[i].len() > 0 {
                assert(m2.follow(m2.keys_step(), calls[i][0]) is None);
            }
            assert(m2.run(m2.keys_step(), calls[i]) == (m2, m2.keys_step()));
        }
    }
}

/// Every item of the vault whose private key can be read, and is not protected by a
/// passphrase, is served as its own key under its own name, and nothing else is:
/// the keys stand in the order of the items, each from its own item.
pub proof fn every_good_item_is_served_as_itself(items: Seq<ItemView>)
    ensures
        servable_keys(items) == items.filter(
            |x: ItemView|
                private_key_in(x.private_key) is Ok && !private_key_in(
                    x.private_key,
                )->Ok_0.encrypted,
        ).map_values(|x: ItemView| VaultKeyView { pem: x.private_key, comment: x.name }),
        forall|i: int|
            0 <= i < items.len() && private_key_in((#[trigger] items[i]).private_key) is Ok
                && !private_key_in(items[i].private_key)->Ok_0.encrypted ==> servable_keys(
                items,
            ).contains(VaultKeyView { pem: items[i].private_key, comment: items[i].name }),
    decreases items.len(),
{
    reveal(Seq::filter);
    let good = |x: ItemView|
        private_key_in(x.private_key) is Ok && !private_key_in(x.private_key)->Ok_0.encrypted;
    let key = |x: ItemView| VaultKeyView { pem: x.private_key, comment: x.name };
    if items.len() > 0 {
        let rest = items.drop_last();
        every_good_item_is_served_as_itself(rest);
        let kept = rest.filter(good);
        if good(items.last()) {
            assert(items.filter(good) =~= kept.push(items.last()));
            assert(items.filter(good).map_values(key) =~= kept.map_values(key).push(
                key(items.last()),
            ));
        } else {
            assert(items.filter(good) =~= kept);
        }
        assert forall|i: int|
            0 <= i < items.len() && private_key_in((#[trigger] items[i]).private_key) is Ok
                && !private_key_in(items[i].private_key)->Ok_0.encrypted implies servable_keys(
            items,
        ).contains(VaultKeyView { pem: items[i].private_key, comment: items[i].name }) by {
            let all = servable_keys(items);
            if i == items.len() - 1 {
                assert(all[all.len() - 1] == key(items[i]));
            } else {
                assert(rest[i] == items[i]);
                let before = servable_keys(rest);
                let k = choose|k: int| 0 <= k < before.len() && before[k] == key(items[i]);
                assert(all[k] == key(items[i]));
            }
        }
    } else {
        assert(items.filter(good).map_values(key) =~= Seq::empty());
    }
}

/// The keys of two lists of items in a row are the keys of the one and then those
/// of the other: no item has a part in what becomes of another.
pub proof fn items_are_served_one_by_one(a: Seq<ItemView>, b: Seq<ItemView>)
    ensures
        servable_keys(a + b) == servable_keys(a) + servable_keys(b),
        refusals(a + b) == refusals(a) + refusals(b),
    decreases b.len(),
{
    if b.len() == 0 {
        assert(a + b =~= a);
        assert(servable_keys(a) + servable_keys(b) =~= servable_keys(a));
        assert(refusals(a) + refusals(b) =~= refusals(a));
    } else {
        let rest = b.drop_last();
        items_are_served_one_by_one(a, rest);
        assert((a + b).drop_last() =~= a + rest);
        assert((a + b).last() == b.last());
        assert(servable_keys(a + b) =~= servable_keys(a) + servable_keys(b));
        assert(refusals(a + b) =~= refusals(a) + refusals(b));
    }
}

/// One item is served or refused, and a refusal is the item's own.
pub proof fn one_item_is_served_or_refused(item: ItemView)
    ensures
        servable_keys(Seq::empty()) == Seq::<VaultKeyView>::empty(),
        refusals(Seq::empty()) == Seq::<RefusalView>::empty(),
        match private_key_in(item.private_key) {
            Err(cause) => servable_keys(seq![item]).len() == 0 && refusals(seq![item]) == seq![
                RefusalView::Unreadable(item.name, cause),
            ],
            Ok(facts) => if facts.encrypted {
                servable_keys(seq![item]).len() == 0 && refusals(seq![item]) == seq![
                    RefusalView::Encrypted(item.name),
                ]
            } else {
                servable_keys(seq![item]) == seq![
                    VaultKeyView { pem: item.private_key, comment: item.name },
                ] && refusals(seq![item]).len() == 0
            },
        },
{
    let one = seq![item];
    assert(one.drop_last() =~= Seq::empty());
    assert(one.last() == item);
    assert(servable_keys(one.drop_last()) =~= Seq::empty());
    assert(refusals(one.drop_last()) =~= Seq::empty());
    assert(Seq::<VaultKeyView>::empty().push(
        VaultKeyView { pem: item.private_key, comment: item.name },
    ) =~= seq![VaultKeyView { pem: item.private_key, comment: item.name }]);
    assert(forall|e: RefusalView| Seq::<RefusalView>::empty().push(e) =~= #[trigger] seq![e]);
}

/// Whatever the list of usable keys is made of, it has each good item's key and no
/// other.
pub proof fn usable_keys_are_those_of_the_items(items: &Vec<SshKeyItem>, r: Vec<VaultKey>)
    requires
        call_ensures(usable_keys, (items,), r),
    ensures
        forall|k: int|
            0 <= k < r@.len() ==> exists|i: int|
                0 <= i < items@.len() && (#[trigger] items@[i]).ssh_key.private_key@ == (
                #[trigger] r@[k])@.pem && items@[i].name@ == r@[k]@.comment,
        forall|i: int|
            0 <= i < items@.len() && private_key_in(
                (#[trigger] items@[i]).ssh_key.private_key@,
            ) is Ok && !private_key_in(items@[i].ssh_key.private_key@)->Ok_0.encrypted
                ==> key_views(r@).contains(
                VaultKeyView { pem: items@[i].ssh_key.private_key@, comment: items@[i].name@ },
            ),
{
    let all = item_views(items@);
    every_good_item_is_served_as_itself(all);
    assert forall|k: int| 0 <= k < r@.len() implies exists|i: int|
        0 <= i < items@.len() && (#[trigger] items@[i]).ssh_key.private_key@ == (#[trigger] r@[k])@.pem
            && items@[i].name@ == r@[k]@.comment by {
        assert(key_views(r@)[k] == r@[k]@);
        let i = the_item_of_a_key(all, k);
        assert(all[i] == items@[i]@);
    }
    assert forall|i: int|
        0 <= i < items@.len() && private_key_in((#[trigger] items@[i]).ssh_key.private_key@) is Ok
            && !private_key_in(items@[i].ssh_key.private_key@)->Ok_0.encrypted implies key_views(
        r@,
    ).contains(
        VaultKeyView { pem: items@[i].ssh_key.private_key@, comment: items@[i].name@ },
    ) by {
        assert(all[i] == items@[i]@);
    }
}

/// The item that a key which is served comes from.
proof fn the_item_of_a_key(items: Seq<ItemView>, k: int) -> (i: int)
    requires
        0 <= k < servable_keys(items).len(),
    ensures
        0 <= i < items.len(),
        items[i].private_key == servable_keys(items)[k].pem,
        items[i].name == servable_keys(items)[k].comment,
        servable(items[i].private_key),
    decreases items.len(),
{
    let rest = items.drop_last();
    if k < servable_keys(rest).len() {
        the_item_of_a_key(rest, k)
    } else {
        items.len() - 1
    }
}

/// What is listed is what is served from then on, with the session that it was
/// listed with: nothing of what was served before, and nothing else of the earlier
/// state, has a part in it. A listing that fails leaves all as it was.
pub proof fn a_listing_alone_decides_what_is_served(
    one: ManagerView,
    two: ManagerView,
    session: Seq<char>,
    items: Seq<ItemView>,
    e: Seq<char>,
)
    ensures
        one.state_after_list(session, Ok(items)) == two.state_after_list(session, Ok(items)),
        one.state_after_list(session, Ok(items)) matches StateView::Unlocked { session: s, keys }
            && s == session && keys == items.filter(
            |x: ItemView|
                private_key_in(x.private_key) is Ok && !private_key_in(
                    x.private_key,
                )->Ok_0.encrypted,
        ).map_values(|x: ItemView| VaultKeyView { pem: x.private_key, comment: x.name }),
        one.state_after_list(session, Err(e)) == one.state,
{
    every_good_item_is_served_as_itself(items);
}

/// What is reported of a listing is what is now served, whatever was served before:
/// the keys themselves to whoever asked for them, and their number to whoever
/// unlocked or refreshed.
pub proof fn a_listing_is_reported_as_it_is(
    one: ManagerView,
    two: ManagerView,
    loading: LoadingView,
    session: Seq<char>,
    items: Seq<ItemView>,
    first: Seq<char>,
)
    ensures
        one.after_list(loading, Ok(items)) == two.after_list(loading, Ok(items)),
        ({
            let keys = items.filter(
                |x: ItemView|
                    private_key_in(x.private_key) is Ok && !private_key_in(
                        x.private_key,
                    )->Ok_0.encrypted,
            ).map_values(|x: ItemView| VaultKeyView { pem: x.private_key, comment: x.name });
            let n = keys.len() as usize;
            &&& one.after_list(LoadingView::Fresh(PurposeView::Keys), Ok(items)) == StepView::Done(
                OutcomeView::Keys(Ok(keys)),
            )
            &&& one.after_list(LoadingView::Fresh(PurposeView::Startup), Ok(items))
                == StepView::Done(OutcomeView::Startup(Ok(true)))
            &&& one.after_list(LoadingView::Fresh(PurposeView::Manual), Ok(items))
                == StepView::Done(OutcomeView::Manual(Ok(UnlockOutcome::Unlocked(n))))
            &&& one.after_list(LoadingView::Fresh(PurposeView::Retry(first)), Ok(items))
                == StepView::Done(OutcomeView::Refresh(Ok(RefreshOutcome::Refreshed(n))))
            &&& one.after_list(LoadingView::Refresh, Ok(items)) == StepView::Done(
                OutcomeView::Refresh(Ok(RefreshOutcome::Refreshed(n))),
            )
        }),
{
    every_good_item_is_served_as_itself(items);
}

/// A vault that is locked is unlocked with the very password that was given, and
/// each step on the way makes the call that it is for: first the status, then the
/// server and the login where the device is logged out, then `bw unlock` with the
/// password, then the keys with the session that came of it.
pub proof fn each_step_leads_to_the_next(
    m: ManagerView,
    purpose: PurposeView,
    password: Seq<char>,
    status: Seq<char>,
    key: ApiKeyView,
    server: Seq<char>,
    login: InvocationView,
    loading: LoadingView,
    session: Seq<char>,
    out: OutputView,
    any: Result<OutputView, Seq<char>>,
)
    ensures
        m.unlock_with(purpose, password) == (StepView::AskStatus {
            call: m.cli.status_call(),
            purpose,
            password,
        }),
        status != "unauthenticated"@ ==> m.after_status(purpose, password, Ok(status))
            == StepView::Run(m.cli.unlock_call(password), AfterView::Unlock { purpose }),
        m.api_key == Some(key) && m.cli.server is None ==> m.after_status(
            purpose,
            password,
            Ok("unauthenticated"@),
        ) == StepView::Run(m.cli.login_call(key), AfterView::Login { purpose, password }),
        m.api_key == Some(key) && m.cli.server == Some(server) ==> m.after_status(
            purpose,
            password,
            Ok("unauthenticated"@),
        ) == StepView::Run(
            m.cli.server_call(server),
            AfterView::Server { purpose, password, server, login: m.cli.login_call(key) },
        ),
        out.success ==> m.after_run(AfterView::Server { purpose, password, server, login }, Ok(out))
            == StepView::Run(login, AfterView::Login { purpose, password }),
        out.success ==> m.after_run(AfterView::Login { purpose, password }, Ok(out))
            == StepView::Run(m.cli.unlock_call(password), AfterView::Unlock { purpose }),
        m.after_run(AfterView::Sync { loading, session }, any) == (StepView::ListItems {
            call: m.cli.list_call(session),
            loading,
            session,
        }),
{
}

/// What `bw unlock` wrote, but for whitespace around it, is the session that the
/// keys are then read with.
pub proof fn the_session_is_what_unlock_wrote(
    m: ManagerView,
    purpose: PurposeView,
    head: Seq<char>,
    session: Seq<char>,
    tail: Seq<char>,
    stderr: Seq<u8>,
)
    requires
        forall|i: int| 0 <= i < head.len() ==> text::is_whitespace(#[trigger] head[i]),
        forall|i: int| 0 <= i < tail.len() ==> text::is_whitespace(#[trigger] tail[i]),
        session.len() > 0,
        !text::is_whitespace(session[0]),
        !text::is_whitespace(session.last()),
    ensures
        ({
            let out = OutputView {
                success: true,
                stdout: encode_utf8(head + session + tail),
                stderr,
            };
            m.after_run(AfterView::Unlock { purpose }, Ok(out)) == StepView::Run(
                m.cli.sync_call(session),
                AfterView::Sync { loading: LoadingView::Fresh(purpose), session },
            )
        }),
{
    text::trimming_takes_whitespace_alone(head, session, tail);
    encode_utf8_valid_utf8(head + session + tail);
    encode_utf8_decode_utf8(head + session + tail);
}

/// Unlocking a vault by hand, with a password that `bw` takes, ends with its keys
/// being served and counted, whether or not the local copy could be brought up to
/// date; asking for the keys of a locked vault ends with the keys themselves.
pub proof fn unlocking_serves_the_keys_of_the_vault(
    m: ManagerView,
    password: Seq<char>,
    status: Seq<char>,
    session: Seq<char>,
    stderr: Seq<u8>,
    synced: Result<OutputView, Seq<char>>,
    items: Seq<ItemView>,
)
    requires
        m.state is Locked,
        status != "unauthenticated"@,
        session.len() > 0,
        !text::is_whitespace(session[0]),
        !text::is_whitespace(session.last()),
    ensures
        ({
            let out = OutputView { success: true, stdout: encode_utf8(session), stderr };
            let events = seq![
                EventView::Status(Ok(status)),
                EventView::Ran(Ok(out)),
                EventView::Ran(synced),
                EventView::Items(Ok(items)),
            ];
            let keys = items.filter(
                |x: ItemView|
                    private_key_in(x.private_key) is Ok && !private_key_in(
                        x.private_key,
                    )->Ok_0.encrypted,
            ).map_values(|x: ItemView| VaultKeyView { pem: x.private_key, comment: x.name });
            let open = ManagerView { state: StateView::Unlocked { session, keys }, ..m };
            &&& m.run(m.manual_step(password), events) == (
                open,
                StepView::Done(
                    OutcomeView::Manual(Ok(UnlockOutcome::Unlocked(keys.len() as usize))),
                ),
            )
            &&& m.run(
                m.keys_step(),
                seq![EventView::Password(Ok(password))] + events,
            ) == (open, StepView::Done(OutcomeView::Keys(Ok(keys))))
            &&& m.run(
                StepView::ReadCredential(CredentialView::Startup),
                seq![EventView::Credential(Ok(Some(password)))] + events,
            ) == (open, StepView::Done(OutcomeView::Startup(Ok(true))))
        }),
{
    every_good_item_is_served_as_itself(items);
    let out = OutputView { success: true, stdout: encode_utf8(session), stderr };
    let none = Seq::<char>::empty();
    assert(none + session + none =~= session);
    the_session_is_what_unlock_wrote(m, PurposeView::Manual, none, session, none, stderr);
    the_session_is_what_unlock_wrote(m, PurposeView::Keys, none, session, none, stderr);
    the_session_is_what_unlock_wrote(m, PurposeView::Startup, none, session, none, stderr);
    let e3 = seq![EventView::Items(Ok(items))];
    let e2 = seq![EventView::Ran(synced), EventView::Items(Ok(items))];
    let e1 = seq![EventView::Ran(Ok(out)), EventView::Ran(synced), EventView::Items(Ok(items))];
    let events = seq![
        EventView::Status(Ok(status)),
        EventView::Ran(Ok(out)),
        EventView::Ran(synced),
        EventView::Items(Ok(items)),
    ];
    assert(events.drop_first() =~= e1);
    assert(e1.drop_first() =~= e2);
    assert(e2.drop_first() =~= e3);
    assert(e3.drop_first() =~= Seq::empty());
    assert((seq![EventView::Password(Ok(password))] + events).drop_first() =~= events);
    assert((seq![EventView::Credential(Ok(Some(password)))] + events).drop_first() =~= events);
    reveal_with_fuel(ManagerView::run, 7);
}

/// A refresh reads the keys with the session at hand and serves what it finds: what
/// was served before, and is not in the vault any more, is not served any longer.
pub proof fn a_refresh_serves_what_the_vault_has_now(
    m: ManagerView,
    session: Seq<char>,
    before: Seq<VaultKeyView>,
    synced: Result<OutputView, Seq<char>>,
    items: Seq<ItemView>,
)
    requires
        m.state == (StateView::Unlocked { session, keys: before }),
    ensures
        m.refresh_step() == StepView::Run(
            m.cli.sync_call(session),
            AfterView::Sync { loading: LoadingView::Refresh, session },
        ),
        ({
            let keys = items.filter(
                |x: ItemView|
                    private_key_in(x.private_key) is Ok && !private_key_in(
                        x.private_key,
                    )->Ok_0.encrypted,
            ).map_values(|x: ItemView| VaultKeyView { pem: x.private_key, comment: x.name });
            m.run(m.refresh_step(), seq![EventView::Ran(synced), EventView::Items(Ok(items))]) == (
                ManagerView { state: StateView::Unlocked { session, keys }, ..m },
                StepView::Done(
                    OutcomeView::Refresh(Ok(RefreshOutcome::Refreshed(keys.len() as usize))),
                ),
            )
        }),
{
    every_good_item_is_served_as_itself(items);
    let events = seq![EventView::Ran(synced), EventView::Items(Ok(items))];
    assert(events.drop_first() =~= seq![EventView::Items(Ok(items))]);
    assert(events.drop_first().drop_first() =~= Seq::empty());
    reveal_with_fuel(ManagerView::run, 4);
}

/// A refresh of a locked vault does nothing and says so, and one whose listing
/// fails looks for a credential to unlock the vault with anew. Without one, or
/// where that fails too, the first failure is what is told, and what was served is
/// still served.
pub proof fn a_failed_refresh_keeps_the_keys(
    m: ManagerView,
    session: Seq<char>,
    cause: Seq<char>,
    e: Seq<char>,
    password: Seq<char>,
    credential: Result<Option<Seq<char>>, Seq<char>>,
)
    ensures
        m.state is Locked ==> m.refresh_step() == StepView::Done(
            OutcomeView::Refresh(Ok(RefreshOutcome::StillLocked)),
        ),
        ({
            let first = "listing SSH keys from vault: "@ + cause;
            &&& m.after_list(LoadingView::Refresh, Err(cause)) == StepView::ReadCredential(
                CredentialView::Retry(first),
            )
            &&& m.state_after_list(session, Err(cause)) == m.state
            &&& m.after_credential(CredentialView::Retry(first), Ok(Some(password)))
                == m.unlock_with(PurposeView::Retry(first), password)
            &&& !(credential matches Ok(Some(_))) ==> m.after_credential(
                CredentialView::Retry(first),
                credential,
            ) == StepView::Done(
                OutcomeView::Refresh(
                    Err(
                        "listing SSH keys from vault (no systemd credential to silently retry with; run `bitwarden-ssh-agent unlock` to refresh): "@
                            + first,
                    ),
                ),
            )
            &&& gave_up(PurposeView::Retry(first), e) == StepView::Done(
                OutcomeView::Refresh(
                    Err(
                        "listing SSH keys from vault (re-unlock via systemd credential also failed; existing cached keys are still served, but run `bitwarden-ssh-agent unlock` to refresh): "@
                            + first,
                    ),
                ),
            )
        }),
{
    reveal_strlit("listing SSH keys from vault");
    reveal_strlit("listing SSH keys from vault: ");
    reveal_strlit(": ");
    assert("listing SSH keys from vault"@ + ": "@ =~= "listing SSH keys from vault: "@);
    reveal_strlit("listing SSH keys from vault (no systemd credential to silently retry with; run `bitwarden-ssh-agent unlock` to refresh)");
    reveal_strlit("listing SSH keys from vault (no systemd credential to silently retry with; run `bitwarden-ssh-agent unlock` to refresh): ");
    assert(no_credential_text() + ": "@
        =~= "listing SSH keys from vault (no systemd credential to silently retry with; run `bitwarden-ssh-agent unlock` to refresh): "@);
    reveal_strlit("listing SSH keys from vault (re-unlock via systemd credential also failed; existing cached keys are still served, but run `bitwarden-ssh-agent unlock` to refresh)");
    reveal_strlit("listing SSH keys from vault (re-unlock via systemd credential also failed; existing cached keys are still served, but run `bitwarden-ssh-agent unlock` to refresh): ");
    assert(reunlock_failed_text() + ": "@
        =~= "listing SSH keys from vault (re-unlock via systemd credential also failed; existing cached keys are still served, but run `bitwarden-ssh-agent unlock` to refresh): "@);
}

/// Whatever goes wrong is told to whoever asked, in its own words: the reason why
/// there is no password or no status, why the login failed, why the vault could not
/// be unlocked and why its keys could not be listed. A device that is logged out
/// without an API key cannot be logged in.
pub proof fn failures_reach_whoever_asked(
    m: ManagerView,
    purpose: PurposeView,
    password: Seq<char>,
    server: Seq<char>,
    login: InvocationView,
    e: Seq<char>,
)
    ensures
        gave_up(PurposeView::Keys, e) == StepView::Done(OutcomeView::Keys(Err(e))),
        gave_up(PurposeView::Startup, e) == StepView::Done(OutcomeView::Startup(Err(e))),
        gave_up(PurposeView::Manual, e) == StepView::Done(
            OutcomeView::Manual(Err(UnlockErrorView::Other(e))),
        ),
        m.after_password(Err(e)) == gave_up(PurposeView::Keys, e),
        m.after_password(Ok(password)) == m.unlock_with(PurposeView::Keys, password),
        m.after_status(purpose, password, Err(e)) == gave_up(purpose, e),
        m.api_key is None ==> m.after_status(purpose, password, Ok("unauthenticated"@)) == gave_up(
            purpose,
            "no Bitwarden API key configured and the CLI is not logged in; set BW_CLIENTID/BW_CLIENTSECRET or run `bw login` once"@,
        ),
        m.after_run(AfterView::Server { purpose, password, server, login }, Err(e)) == gave_up(
            purpose,
            "running `bw config server`: "@ + e,
        ),
        m.after_run(AfterView::Login { purpose, password }, Err(e)) == gave_up(
            purpose,
            "running `bw login --apikey`: "@ + e,
        ),
        m.after_run(AfterView::Unlock { purpose }, Err(e)) == gave_up(
            purpose,
            "running `bw unlock`: "@ + e,
        ),
        m.after_list(LoadingView::Fresh(purpose), Err(e)) == gave_up(
            purpose,
            "listing SSH keys from vault: "@ + e,
        ),
        m.after_credential(CredentialView::Startup, Ok(Some(password))) == m.unlock_with(
            PurposeView::Startup,
            password,
        ),
        m.after_credential(CredentialView::Startup, Ok(None)) == StepView::Done(
            OutcomeView::Startup(Ok(false)),
        ),
        m.after_credential(CredentialView::Startup, Err(e)) == StepView::Done(
            OutcomeView::Startup(Err(e)),
        ),
{
    reveal_strlit(": ");
    reveal_strlit("running `bw config server`");
    reveal_strlit("running `bw config server`: ");
    assert("running `bw config server`"@ + ": "@ =~= "running `bw config server`: "@);
    reveal_strlit("running `bw login --apikey`");
    reveal_strlit("running `bw login --apikey`: ");
    assert("running `bw login --apikey`"@ + ": "@ =~= "running `bw login --apikey`: "@);
    reveal_strlit("running `bw unlock`");
    reveal_strlit("running `bw unlock`: ");
    assert("running `bw unlock`"@ + ": "@ =~= "running `bw unlock`: "@);
    reveal_strlit("listing SSH keys from vault");
    reveal_strlit("listing SSH keys from vault: ");
    assert("listing SSH keys from vault"@ + ": "@ =~= "listing SSH keys from vault: "@);
}

/// The user is asked through systemd, for ten seconds and no secret in sight.
pub proof fn the_question_is_asked_through_systemd()
    ensures
        ask_call().visible.program == "systemd-ask-password"@,
        ask_call().visible.args == seq![
            "--icon=dialog-password"@,
            "--id=bitwarden-ssh-agent"@,
            "--timeout=10"@,
            "Bitwarden master password (to unlock SSH agent):"@,
        ],
        ask_call().visible.path is None,
        ask_call().env.len() == 0,
        ask_call().removed.len() == 0,
        ask_call().input is None,
{
    reveal_strlit("--timeout=");
    reveal_strlit("--timeout=10");
    reveal_with_fuel(text::numeral, 3);
    assert(text::decimal(10) =~= seq!['1', '0']);
    assert("--timeout="@ + text::decimal(10) =~= "--timeout=10"@);
    assert(ask_call().visible.args =~= seq![
        "--icon=dialog-password"@,
        "--id=bitwarden-ssh-agent"@,
        "--timeout=10"@,
        "Bitwarden master password (to unlock SSH agent):"@,
    ]);
}

/// The password that the user typed is taken as it was typed, but for the line ends
/// behind it; an empty one is none, and neither is what a question that failed
/// wrote.
pub proof fn the_password_is_what_was_typed(
    password: Seq<char>,
    tail: Seq<char>,
    r: Ran,
    answer: Result<Secret, String>,
)
    requires
        forall|i: int| 0 <= i < tail.len() ==> (#[trigger] tail[i]) == '\n' || tail[i] == '\r',
        password.len() > 0 ==> password.last() != '\n' && password.last() != '\r',
        call_ensures(ask_answer, (r,), answer),
    ensures
        r matches Ok(out) ==> (out.success && out.stdout@ == encode_utf8(password + tail)
            ==> password_text(answer) == if password.len() > 0 {
            Ok::<Seq<char>, Seq<char>>(password)
        } else {
            Err::<Seq<char>, Seq<char>>("no master password was entered"@)
        }),
        r matches Ok(out) ==> (!out.success ==> answer is Err),
        r matches Err(cause) ==> answer matches Err(why) && why@
            == "spawning systemd-ask-password (is systemd installed?): "@ + cause@,
{
    text::only_line_ends_are_taken_off(password, tail);
    encode_utf8_valid_utf8(password + tail);
    encode_utf8_decode_utf8(password + tail);
    reveal_strlit("spawning systemd-ask-password (is systemd installed?)");
    reveal_strlit("spawning systemd-ask-password (is systemd installed?): ");
    reveal_strlit(": ");
    assert("spawning systemd-ask-password (is systemd installed?)"@ + ": "@
        =~= "spawning systemd-ask-password (is systemd installed?): "@);
}

/// The password in a credential is the credential without the line ends behind it,
/// and an empty one is refused.
pub proof fn the_credential_holds_the_password(
    path: &str,
    contents: String,
    password: Seq<char>,
    tail: Seq<char>,
    r: Result<Secret, String>,
)
    requires
        call_ensures(credential_password, (path, contents), r),
        contents@ == password + tail,
        forall|i: int| 0 <= i < tail.len() ==> (#[trigger] tail[i]) == '\n' || tail[i] == '\r',
        password.len() > 0 ==> password.last() != '\n' && password.last() != '\r',
    ensures
        password.len() > 0 ==> (r matches Ok(p) && p@ == password),
        password.len() == 0 ==> r is Err,
{
    text::only_line_ends_are_taken_off(password, tail);
}

/// The requests of the outside world begin where they should, given whether the
/// vault is locked: what an unlocked vault holds is handed out, counted or read
/// anew, and a locked one is asked for its password, told it, or left alone.
pub proof fn requests_begin_with_the_state_of_the_vault(
    m: &UnlockManager,
    password: Secret,
    keys: Step,
    refreshed: Step,
    unlocked: Step,
)
    requires
        call_ensures(UnlockManager::keys, (m,), keys),
        call_ensures(UnlockManager::refresh, (m,), refreshed),
        call_ensures(UnlockManager::unlock_with_password, (m, password), unlocked),
    ensures
        match m@.state {
            StateView::Unlocked { session, keys: served } => {
                &&& keys@ == StepView::Done(OutcomeView::Keys(Ok(served)))
                &&& refreshed@ == StepView::Run(
                    m@.cli.sync_call(session),
                    AfterView::Sync { loading: LoadingView::Refresh, session },
                )
                &&& unlocked@ == StepView::Done(
                    OutcomeView::Manual(Ok(UnlockOutcome::AlreadyUnlocked(served.len() as usize))),
                )
            },
            StateView::Locked => {
                &&& keys@ == StepView::AskPassword(ask_call())
                &&& refreshed@ == StepView::Done(
                    OutcomeView::Refresh(Ok(RefreshOutcome::StillLocked)),
                )
                &&& unlocked@ == (StepView::AskStatus {
                    call: m@.cli.status_call(),
                    purpose: PurposeView::Manual,
                    password: password@,
                })
            },
        },
{
}

/// Lists and states are what stands in them.
pub proof fn lists_are_what_stands_in_them(
    keys: Seq<VaultKey>,
    errors: Seq<VaultKeyError>,
    i: int,
    password: Secret,
    e: String,
    items: Vec<SshKeyItem>,
)
    ensures
        key_views(keys).len() == keys.len(),
        0 <= i < keys.len() ==> key_views(keys)[i] == keys[i]@,
        refusal_views(errors).len() == errors.len(),
        0 <= i < errors.len() ==> refusal_views(errors)[i] == errors[i]@,
        password_text(Ok(password)) == Ok::<Seq<char>, Seq<char>>(password@),
        password_text(Err(e)) == Err::<Seq<char>, Seq<char>>(e@),
        credential_text(Ok(Some(password))) == Ok::<Option<Seq<char>>, Seq<char>>(Some(password@)),
        credential_text(Ok(None)) == Ok::<Option<Seq<char>>, Seq<char>>(None),
        credential_text(Err(e)) == Err::<Option<Seq<char>>, Seq<char>>(e@),
        items_text(Ok(items)) == Ok::<Seq<ItemView>, Seq<char>>(item_views(items@)),
        items_text(Err(e)) == Err::<Seq<ItemView>, Seq<char>>(e@),
{
}

/// A vault is locked, or unlocked with the session and the keys that are held.
pub proof fn a_state_is_what_is_held(session: Arc<Session>, keys: Arc<Vec<VaultKey>>)
    ensures
        State::Locked@ == StateView::Locked,
        (State::Unlocked { session, keys })@ == (StateView::Unlocked {
            session: session@,
            keys: key_views(keys@),
        }),
{
}

/// A manager is the CLI, the API key and the state that it holds.
proof fn a_manager_is_what_it_holds(m: UnlockManager)
    ensures
        m@.cli == m.cli@,
        m@.api_key == key_of(m.api_key),
        m@.state == m.state@,
{
}

/// The manager takes up whatever comes back from outside as the operation at hand
/// asks for, and the listing of the keys is the one event that changes it.
pub proof fn the_manager_follows_the_operation(
    m: &UnlockManager,
    call: InvocationView,
    password: Result<Secret, String>,
    after_password: Step,
    credential: Result<Option<Secret>, String>,
    waiting: AfterCredential,
    after_credential: Step,
    status: Result<Status, String>,
    asked: AfterStatus,
    after_status: Step,
    out: Ran,
    running: AfterRun,
    after_run: Step,
    startup: Step,
)
    requires
        call_ensures(UnlockManager::password_entered, (m, AfterPassword, password), after_password),
        call_ensures(UnlockManager::credential_read, (m, waiting, credential), after_credential),
        call_ensures(UnlockManager::status_known, (m, asked, status), after_status),
        call_ensures(UnlockManager::command_ran, (m, running, out), after_run),
        call_ensures(UnlockManager::try_startup_unlock, (m,), startup),
    ensures
        m@.follow(StepView::AskPassword(call), EventView::Password(password_text(password)))
            == Some((m@, after_password@)),
        m@.follow(
            StepView::ReadCredential(waiting@),
            EventView::Credential(credential_text(credential)),
        ) == Some((m@, after_credential@)),
        m@.follow(
            StepView::AskStatus { call, purpose: asked.purpose@, password: asked.password@ },
            EventView::Status(status_text(status)),
        ) == Some((m@, after_status@)),
        m@.follow(StepView::Run(call, running@), EventView::Ran(ran(out))) == Some(
            (m@, after_run@),
        ),
        startup@ == StepView::ReadCredential(CredentialView::Startup),
{
}

/// What is listed is served from then on, with the session that it was listed with,
/// whatever was served before; and what is reported is what is served.
pub proof fn a_listing_replaces_what_is_served(
    m: &mut UnlockManager,
    after: AfterList,
    items: Vec<SshKeyItem>,
    r: Step,
)
    requires
        call_ensures(
            UnlockManager::items_listed,
            (m, after, Ok::<Vec<SshKeyItem>, String>(items)),
            r,
        ),
    ensures
        final(m)@.cli == old(m)@.cli,
        final(m)@.api_key == old(m)@.api_key,
        final(m)@.state matches StateView::Unlocked { session, keys } && session == after.session@
            && keys == item_views(items@).filter(
            |x: ItemView|
                private_key_in(x.private_key) is Ok && !private_key_in(
                    x.private_key,
                )->Ok_0.encrypted,
        ).map_values(|x: ItemView| VaultKeyView { pem: x.private_key, comment: x.name })
            && serves(r@, keys),
{
    every_good_item_is_served_as_itself(item_views(items@));
}

/// A listing that failed leaves the vault as it was, with what it serves.
pub proof fn a_failed_listing_replaces_nothing(
    m: &mut UnlockManager,
    after: AfterList,
    e: String,
    r: Step,
)
    requires
        call_ensures(UnlockManager::items_listed, (m, after, Err::<Vec<SshKeyItem>, String>(e)), r),
    ensures
        final(m)@ == old(m)@,
        after.loading@ is Refresh ==> r@ == StepView::ReadCredential(
            CredentialView::Retry("listing SSH keys from vault: "@ + e@),
        ),
        after.loading@ matches LoadingView::Fresh(purpose) ==> r@ == gave_up(
            purpose,
            "listing SSH keys from vault: "@ + e@,
        ),
{
    reveal_strlit(": ");
    reveal_strlit("listing SSH keys from vault");
    reveal_strlit("listing SSH keys from vault: ");
    assert("listing SSH keys from vault"@ + ": "@ =~= "listing SSH keys from vault: "@);
}

/// The items that cannot be served are told one by one, in their order, each with its
/// own reason, and with those that are served they are all there are.
pub proof fn every_odd_item_is_told(items: &Vec<SshKeyItem>, r: Vec<VaultKeyError>)
    requires
        call_ensures(unusable_items, (items,), r),
    ensures
        refusal_views(r@) == refusals(item_views(items@)),
        r@.len() + servable_keys(item_views(items@)).len() == items@.len(),
{
}

/// A vault starts out locked, with the CLI and the key that it was given.
pub proof fn a_vault_starts_out_locked(
    cli: BitwardenCli,
    api_key: Option<ApiKey>,
    m: UnlockManager,
)
    requires
        call_ensures(UnlockManager::new, (cli, api_key), m),
    ensures
        m@.state is Locked,
        m@.cli == cli@,
        m@.api_key == key_of(api_key),
{
}

/// Where `bw` rejects the password, only the user who typed it for an unlocking by hand
/// is told that it is wrong; all others are told that the vault could not be unlocked,
/// with what `bw` said.
pub proof fn a_rejected_password_reaches_whoever_asked(m: ManagerView, out: OutputView)
    requires
        !out.success,
    ensures
        ({
            let e = "`bw unlock` failed (wrong master password?): "@ + crate::process::complaint(
                out.stderr,
            );
            &&& m.after_run(AfterView::Unlock { purpose: PurposeView::Manual }, Ok(out))
                == StepView::Done(OutcomeView::Manual(Err(UnlockErrorView::WrongPassword(e))))
            &&& m.after_run(AfterView::Unlock { purpose: PurposeView::Keys }, Ok(out))
                == StepView::Done(OutcomeView::Keys(Err(e)))
            &&& m.after_run(AfterView::Unlock { purpose: PurposeView::Startup }, Ok(out))
                == StepView::Done(OutcomeView::Startup(Err(e)))
        }),
{
}

/// A question that failed, or was answered with what is no text, is told with what
/// systemd said.
pub proof fn a_question_that_failed_is_told(out: OutputView)
    ensures
        !out.success ==> ask_failure(Ok(out)) == Some(
            "systemd-ask-password failed ("@ + text::trimmed(text::utf8_lossy(out.stderr))
                + "); no ask-password agent answered. Unlock the daemon directly with `bitwarden-ssh-agent unlock`"@,
        ),
        out.success && !valid_utf8(out.stdout) ==> ask_failure(Ok(out)) == Some(
            "systemd-ask-password returned non-UTF8 output: "@ + text::utf8_error(out.stdout),
        ),
{
    reveal_strlit(": ");
    reveal_strlit("systemd-ask-password returned non-UTF8 output");
    reveal_strlit("systemd-ask-password returned non-UTF8 output: ");
    assert("systemd-ask-password returned non-UTF8 output"@ + ": "@
        =~= "systemd-ask-password returned non-UTF8 output: "@);
}

} // verus!
