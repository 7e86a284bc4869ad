//! Running the daemon: how it starts, and the sockets it listens on.

use vstd::prelude::*;

use crate::config::is_lax;
use crate::process::{because, said, with_context};
use crate::text;

verus! {

// --- starting ---------------------------------------------------------------

/// Something for the log.
pub enum Note {
    Info(String),
    Warning(String),
    Error(String),
}

/// The contents of a [`Note`].
pub enum NoteView {
    Info(Seq<char>),
    Warning(Seq<char>),
    Error(Seq<char>),
}

impl View for Note {
    type V = NoteView;

    open spec fn view(&self) -> NoteView {
        match self {
            Note::Info(s) => NoteView::Info(s@),
            Note::Warning(s) => NoteView::Warning(s@),
            Note::Error(s) => NoteView::Error(s@),
        }
    }
}

/// The contents of a note, if there is one.
pub open spec fn note_of(note: Option<Note>) -> Option<NoteView> {
    match note {
        Some(n) => Some(n@),
        None => None,
    }
}

/// What is noted where the daemon has no API key.
pub const NO_API_KEY: &'static str = "no Bitwarden API key found (BW_CLIENTID/BW_CLIENTSECRET or config.toml); the `bw` CLI must already be logged in for unlocking to work";

/// What is noted where the daemon starts with the vault locked.
pub const STARTS_LOCKED: &'static str = "no master password credential provisioned; will prompt via systemd-ask-password on first use";

/// What the daemon does next on its way up.
pub enum ServeStep {
    /// Ask the Bitwarden CLI for its version.
    CheckVersion,
    /// Try to unlock the vault with a credential.
    StartupUnlock,
    /// Make the sockets.
    Bind,
    /// Serve the requests that come in.
    Listen,
    /// Give up, for this reason.
    Stop(String),
}

/// The contents of a [`ServeStep`].
pub enum ServeStepView {
    CheckVersion,
    StartupUnlock,
    Bind,
    Listen,
    Stop(Seq<char>),
}

impl View for ServeStep {
    type V = ServeStepView;

    open spec fn view(&self) -> ServeStepView {
        match self {
            ServeStep::CheckVersion => ServeStepView::CheckVersion,
            ServeStep::StartupUnlock => ServeStepView::StartupUnlock,
            ServeStep::Bind => ServeStepView::Bind,
            ServeStep::Listen => ServeStepView::Listen,
            ServeStep::Stop(why) => ServeStepView::Stop(why@),
        }
    }
}

/// What follows the loading of the configuration, which says whether there is an
/// API key. The device may be logged in without one.
pub open spec fn after_config(has_key: Result<bool, Seq<char>>) -> (
    Option<NoteView>,
    ServeStepView,
) {
    match has_key {
        Err(e) => (None, ServeStepView::Stop(e)),
        Ok(true) => (None, ServeStepView::CheckVersion),
        Ok(false) => (Some(NoteView::Warning(NO_API_KEY@)), ServeStepView::CheckVersion),
    }
}

/// What follows the look for the Bitwarden CLI. Without it the daemon goes on,
/// so that its socket is there.
pub open spec fn after_version(version: Result<Seq<char>, Seq<char>>) -> (
    Option<NoteView>,
    ServeStepView,
) {
    match version {
        Ok(v) => (
            Some(NoteView::Info("using Bitwarden CLI version "@ + v)),
            ServeStepView::StartupUnlock,
        ),
        Err(e) => (
            Some(NoteView::Error(because("Bitwarden CLI check failed"@, e))),
            ServeStepView::StartupUnlock,
        ),
    }
}

/// What follows the attempt to unlock the vault at startup, which says whether
/// there was a credential. Whatever came of it, the daemon goes on.
pub open spec fn after_startup(unlocked: Result<bool, Seq<char>>) -> (
    Option<NoteView>,
    ServeStepView,
) {
    match unlocked {
        Ok(true) => (None, ServeStepView::Bind),
        Ok(false) => (Some(NoteView::Info(STARTS_LOCKED@)), ServeStepView::Bind),
        Err(e) => (
            Some(NoteView::Error(because("startup unlock failed"@, e))),
            ServeStepView::Bind,
        ),
    }
}

/// What follows the making of the sockets.
pub open spec fn after_bind(bound: Result<(), Seq<char>>) -> (Option<NoteView>, ServeStepView) {
    match bound {
        Ok(_) => (None, ServeStepView::Listen),
        Err(e) => (None, ServeStepView::Stop(e)),
    }
}

/// Takes up whether the configuration has an API key, or why it was refused.
pub fn config_loaded(has_key: Result<bool, String>) -> (r: (Option<Note>, ServeStep))
    ensures
        (note_of(r.0), r.1@) == after_config(said(has_key)),
{
    match has_key {
        Err(e) => (None, ServeStep::Stop(e)),
        Ok(true) => (None, ServeStep::CheckVersion),
        Ok(false) => (Some(Note::Warning(NO_API_KEY.to_owned())), ServeStep::CheckVersion),
    }
}

/// A text, or the text of an error.
pub open spec fn texts_of(r: Result<String, String>) -> Result<Seq<char>, Seq<char>> {
    match r {
        Ok(s) => Ok(s@),
        Err(e) => Err(e@),
    }
}

/// Takes up the version of the Bitwarden CLI, or why it could not be had.
pub fn version_known(version: Result<String, String>) -> (r: (Option<Note>, ServeStep))
    ensures
        (note_of(r.0), r.1@) == after_version(texts_of(version)),
{
    let note = match version {
        Ok(v) => Note::Info(text::cat2("using Bitwarden CLI version ", v.as_str())),
        Err(e) => Note::Error(with_context("Bitwarden CLI check failed", e.as_str())),
    };
    (Some(note), ServeStep::StartupUnlock)
}

/// Takes up what came of the attempt to unlock the vault at startup.
pub fn startup_tried(unlocked: Result<bool, String>) -> (r: (Option<Note>, ServeStep))
    ensures
        (note_of(r.0), r.1@) == after_startup(said(unlocked)),
{
    let note = match unlocked {
        Ok(true) => None,
        Ok(false) => Some(Note::Info(STARTS_LOCKED.to_owned())),
        Err(e) => Some(Note::Error(with_context("startup unlock failed", e.as_str()))),
    };
    (note, ServeStep::Bind)
}

/// Takes up what came of making the sockets.
pub fn sockets_bound(bound: Result<(), String>) -> (r: (Option<Note>, ServeStep))
    ensures
        (note_of(r.0), r.1@) == after_bind(said(bound)),
{
    match bound {
        Ok(_) => (None, ServeStep::Listen),
        Err(e) => (None, ServeStep::Stop(e)),
    }
}

/// What is noted once the daemon listens on the socket at `path`.
pub fn note_listening(path: &str) -> (r: (Note, Note))
    ensures
        r.0@ == NoteView::Info("listening on "@ + path@),
        r.1@ == NoteView::Info("point SSH at it with: export SSH_AUTH_SOCK="@ + path@),
{
    (
        Note::Info(text::cat2("listening on ", path)),
        Note::Info(text::cat2("point SSH at it with: export SSH_AUTH_SOCK=", path)),
    )
}

/// What is noted where the vault has no key that can be served.
pub const NO_USABLE_KEYS: &'static str = "vault unlocked but contains no usable SSH Key items (create one in Bitwarden of type 'SSH Key')";

/// What is noted once `count` keys of the vault are served.
pub fn note_loaded(count: usize) -> (r: Note)
    ensures
        r@ == (if count == 0 {
            NoteView::Warning(NO_USABLE_KEYS@)
        } else {
            NoteView::Info(
                "loaded "@ + text::decimal(count as nat) + " SSH key(s) into the agent"@,
            )
        }),
{
    if count == 0 {
        Note::Warning(NO_USABLE_KEYS.to_owned())
    } else {
        let shown = text::decimal_text(count as u64);
        Note::Info(text::cat3("loaded ", shown.as_str(), " SSH key(s) into the agent"))
    }
}

// --- sockets ----------------------------------------------------------------

/// What is found where a socket is to be.
pub enum Occupant {
    /// Nothing.
    Nothing,
    /// A socket, left behind by an earlier run.
    Socket,
    /// Something else.
    Other,
    /// It could not be told, for this reason.
    Unknown(String),
}

/// Why no socket is made at `path`, if none is.
pub open spec fn bind_refusal(path: Seq<char>, occupant: Occupant) -> Option<Seq<char>> {
    match occupant {
        Occupant::Other => Some(
            "refusing to remove "@ + path + ": exists and is not a socket"@,
        ),
        Occupant::Unknown(e) => Some(because("stat "@ + path, e@)),
        _ => None,
    }
}

/// The mask under which a socket is made.
pub const SOCKET_UMASK: u32 = 0o177;

/// The mode that a socket is given.
pub const SOCKET_MODE: u32 = 0o600;

/// What is done to have a socket.
pub enum BindStep {
    /// Remove the socket that was left behind.
    Remove,
    /// Make the directory of the socket.
    MakeDirectory,
    /// Put this mask into force, and take note of the one that was.
    SetMask(u32),
    /// Make the socket; the mask `old` is put back afterwards.
    Bind { old: u32 },
    /// Put the mask `old` back. The socket was made, or it was not for the reason
    /// given.
    RestoreMask { old: u32, made: Result<(), String> },
    /// Give the socket this mode.
    SetMode(u32),
    /// The socket is there.
    Ready,
    /// Give up, for this reason.
    Fail(String),
}

/// The contents of a [`BindStep`].
pub enum BindStepView {
    Remove,
    MakeDirectory,
    SetMask(u32),
    Bind { old: u32 },
    RestoreMask { old: u32, made: Result<(), Seq<char>> },
    SetMode(u32),
    Ready,
    Fail(Seq<char>),
}

impl View for BindStep {
    type V = BindStepView;

    open spec fn view(&self) -> BindStepView {
        match self {
            BindStep::Remove => BindStepView::Remove,
            BindStep::MakeDirectory => BindStepView::MakeDirectory,
            BindStep::SetMask(mask) => BindStepView::SetMask(*mask),
            BindStep::Bind { old } => BindStepView::Bind { old: *old },
            BindStep::RestoreMask { old, made } => BindStepView::RestoreMask {
                old: *old,
                made: said(*made),
            },
            BindStep::SetMode(mode) => BindStepView::SetMode(*mode),
            BindStep::Ready => BindStepView::Ready,
            BindStep::Fail(why) => BindStepView::Fail(why@),
        }
    }
}

/// What is done first to have a socket at `path`. Only a socket is ever removed;
/// anything else is left alone, and no socket is made.
pub open spec fn first_bind_step(path: Seq<char>, occupant: Occupant) -> BindStepView {
    match bind_refusal(path, occupant) {
        Some(e) => BindStepView::Fail(e),
        None => if occupant is Socket {
            BindStepView::Remove
        } else {
            BindStepView::MakeDirectory
        },
    }
}

/// What follows the removal of the socket that was left behind.
pub open spec fn after_removal(path: Seq<char>, r: Result<(), Seq<char>>) -> BindStepView {
    match r {
        Ok(_) => BindStepView::MakeDirectory,
        Err(e) => BindStepView::Fail(because("removing stale socket "@ + path, e)),
    }
}

/// What follows the making of `directory`.
pub open spec fn after_directory(directory: Seq<char>, r: Result<(), Seq<char>>) -> BindStepView {
    match r {
        Ok(_) => BindStepView::SetMask(SOCKET_UMASK),
        Err(e) => BindStepView::Fail(because("creating socket directory "@ + directory, e)),
    }
}

/// What follows once the mask is in force; `old` is the one that was.
pub open spec fn after_mask(old: u32) -> BindStepView {
    BindStepView::Bind { old }
}

/// What follows the attempt to make the socket, whatever came of it.
pub open spec fn after_binding(old: u32, made: Result<(), Seq<char>>) -> BindStepView {
    BindStepView::RestoreMask { old, made }
}

/// What follows the return of the old mask, where the socket was made or not.
pub open spec fn after_restoring(path: Seq<char>, made: Result<(), Seq<char>>) -> BindStepView {
    match made {
        Ok(_) => BindStepView::SetMode(SOCKET_MODE),
        Err(e) => BindStepView::Fail(because("binding socket "@ + path, e)),
    }
}

/// What follows the change of the socket's mode.
pub open spec fn after_mode(path: Seq<char>, r: Result<(), Seq<char>>) -> BindStepView {
    match r {
        Ok(_) => BindStepView::Ready,
        Err(e) => BindStepView::Fail(because("setting permissions on "@ + path, e)),
    }
}

/// What is done first to have a socket at `path`, given what is there.
pub fn bind_socket(path: &str, occupant: Occupant) -> (r: BindStep)
    ensures
        r@ == first_bind_step(path@, occupant),
{
    match occupant {
        Occupant::Nothing => BindStep::MakeDirectory,
        Occupant::Socket => BindStep::Remove,
        Occupant::Other => BindStep::Fail(
            text::cat3("refusing to remove ", path, ": exists and is not a socket"),
        ),
        Occupant::Unknown(e) => BindStep::Fail(
            with_context(text::cat2("stat ", path).as_str(), e.as_str()),
        ),
    }
}

/// Takes up what came of removing the socket that was left behind.
pub fn stale_socket_removed(path: &str, r: Result<(), String>) -> (res: BindStep)
    ensures
        res@ == after_removal(path@, said(r)),
{
    match r {
        Ok(_) => BindStep::MakeDirectory,
        Err(e) => BindStep::Fail(
            with_context(text::cat2("removing stale socket ", path).as_str(), e.as_str()),
        ),
    }
}

/// Takes up what came of making `directory`.
pub fn socket_directory_made(directory: &str, r: Result<(), String>) -> (res: BindStep)
    ensures
        res@ == after_directory(directory@, said(r)),
{
    match r {
        Ok(_) => BindStep::SetMask(SOCKET_UMASK),
        Err(e) => BindStep::Fail(
            with_context(text::cat2("creating socket directory ", directory).as_str(), e.as_str()),
        ),
    }
}

/// Takes up that the mask is in force; `old` is the one that was.
pub fn mask_set(old: u32) -> (r: BindStep)
    ensures
        r@ == after_mask(old),
{
    BindStep::Bind { old }
}

/// Takes up what came of making the socket: whatever it is, the mask `old` is put
/// back.
pub fn socket_bound(old: u32, r: Result<(), String>) -> (res: BindStep)
    ensures
        res@ == after_binding(old, said(r)),
{
    BindStep::RestoreMask { old, made: r }
}

/// Takes up that the old mask is back, where the socket was made or not.
pub fn mask_restored(path: &str, made: Result<(), String>) -> (r: BindStep)
    ensures
        r@ == after_restoring(path@, said(made)),
{
    match made {
        Ok(_) => BindStep::SetMode(SOCKET_MODE),
        Err(e) => BindStep::Fail(
            with_context(text::cat2("binding socket ", path).as_str(), e.as_str()),
        ),
    }
}

/// Takes up what came of giving the socket its mode.
pub fn socket_mode_set(path: &str, r: Result<(), String>) -> (res: BindStep)
    ensures
        res@ == after_mode(path@, said(r)),
{
    match r {
        Ok(_) => BindStep::Ready,
        Err(e) => BindStep::Fail(
            with_context(text::cat2("setting permissions on ", path).as_str(), e.as_str()),
        ),
    }
}

/// The permissions that a file which is made with `mode` has under `mask`.
pub open spec fn masked(mode: u32, mask: u32) -> u32 {
    mode & 0o777 & !mask
}

// --- laws -------------------------------------------------------------------

/// Only a refused configuration or a socket that cannot be made keeps the daemon
/// from coming up: it does so without an API key, without the Bitwarden CLI and
/// with the vault locked.
pub proof fn only_the_configuration_or_a_socket_stops_the_daemon(
    has_key: Result<bool, Seq<char>>,
    version: Result<Seq<char>, Seq<char>>,
    unlocked: Result<bool, Seq<char>>,
    bound: Result<(), Seq<char>>,
)
    ensures
        after_config(has_key).1 is Stop <==> has_key is Err,
        has_key is Ok ==> after_config(has_key).1 is CheckVersion,
        after_version(version).1 is StartupUnlock,
        after_startup(unlocked).1 is Bind,
        after_bind(bound).1 is Stop <==> bound is Err,
        bound is Ok ==> after_bind(bound).1 is Listen,
{
}

/// A socket is nobody else's business from the moment it is there: under its
/// mask no mode opens it to the group or to others, or grants more than the mode
/// that it is given.
pub proof fn sockets_are_private_from_the_start(mode: u32)
    ensures
        !is_lax(masked(mode, SOCKET_UMASK)),
        masked(mode, SOCKET_UMASK) & SOCKET_MODE == masked(mode, SOCKET_UMASK),
        !is_lax(SOCKET_MODE),
{
    assert((mode & 0o777u32 & !0o177u32) & 0o777u32 & 0o177u32 == 0) by (bit_vector);
    assert((mode & 0o777u32 & !0o177u32) & 0o600u32 == (mode & 0o777u32 & !0o177u32))
        by (bit_vector);
    assert(0o600u32 & 0o777u32 & 0o177u32 == 0) by (bit_vector);
}

/// Nothing but a socket is ever removed to make room for one. A socket is made
/// under its mask only, the mask that was in force before is put back whatever
/// came of it, and a socket is ready only once it has its mode.
pub proof fn sockets_are_made_under_their_mask(
    path: Seq<char>,
    directory: Seq<char>,
    occupant: Occupant,
    old: u32,
    made: Result<(), Seq<char>>,
)
    ensures
        first_bind_step(path, occupant) is Remove <==> occupant is Socket,
        first_bind_step(path, occupant) is MakeDirectory <==> occupant is Nothing,
        after_removal(path, made) is MakeDirectory <==> made is Ok,
        made is Ok ==> after_directory(directory, made) == BindStepView::SetMask(SOCKET_UMASK),
        made is Err ==> after_directory(directory, made) is Fail,
        after_mask(old) == (BindStepView::Bind { old }),
        after_binding(old, made) == (BindStepView::RestoreMask { old, made }),
        made is Ok ==> after_restoring(path, made) == BindStepView::SetMode(SOCKET_MODE),
        made is Err ==> after_restoring(path, made) is Fail,
        after_mode(path, made) is Ready <==> made is Ok,
{
}

/// The daemon comes up step by step, whatever each step brings, and notes what the
/// user should know: that there is no API key, which CLI it uses or why none, and
/// that the vault is locked or why it could not be unlocked. What stops it is told as
/// it is.
pub proof fn the_daemon_notes_what_it_finds(v: Seq<char>, e: Seq<char>)
    ensures
        after_config(Ok(true)) == (None::<NoteView>, ServeStepView::CheckVersion),
        after_config(Ok(false)) == (
            Some(
                NoteView::Warning(
                    "no Bitwarden API key found (BW_CLIENTID/BW_CLIENTSECRET or config.toml); the `bw` CLI must already be logged in for unlocking to work"@,
                ),
            ),
            ServeStepView::CheckVersion,
        ),
        after_config(Err(e)) == (None::<NoteView>, ServeStepView::Stop(e)),
        after_version(Ok(v)) == (
            Some(NoteView::Info("using Bitwarden CLI version "@ + v)),
            ServeStepView::StartupUnlock,
        ),
        after_version(Err(e)) == (
            Some(NoteView::Error("Bitwarden CLI check failed: "@ + e)),
            ServeStepView::StartupUnlock,
        ),
        after_startup(Ok(true)) == (None::<NoteView>, ServeStepView::Bind),
        after_startup(Ok(false)) == (
            Some(
                NoteView::Info(
                    "no master password credential provisioned; will prompt via systemd-ask-password on first use"@,
                ),
            ),
            ServeStepView::Bind,
        ),
        after_startup(Err(e)) == (
            Some(NoteView::Error("startup unlock failed: "@ + e)),
            ServeStepView::Bind,
        ),
        after_bind(Ok(())) == (None::<NoteView>, ServeStepView::Listen),
        after_bind(Err(e)) == (None::<NoteView>, ServeStepView::Stop(e)),
{
    reveal_strlit(": ");
    reveal_strlit("Bitwarden CLI check failed");
    reveal_strlit("Bitwarden CLI check failed: ");
    assert("Bitwarden CLI check failed"@ + ": "@ =~= "Bitwarden CLI check failed: "@);
    reveal_strlit("startup unlock failed");
    reveal_strlit("startup unlock failed: ");
    assert("startup unlock failed"@ + ": "@ =~= "startup unlock failed: "@);
}

/// A socket is refused where something that is no socket is in its place, or where
/// that cannot be told, and nowhere else; whatever keeps it from being made is told
/// with its path, and leaves no socket that is ready.
pub proof fn what_keeps_a_socket_away_is_told(
    path: Seq<char>,
    directory: Seq<char>,
    e: Seq<char>,
    cause: String,
)
    ensures
        bind_refusal(path, Occupant::Nothing) is None,
        bind_refusal(path, Occupant::Socket) is None,
        bind_refusal(path, Occupant::Other) == Some(
            "refusing to remove "@ + path + ": exists and is not a socket"@,
        ),
        bind_refusal(path, Occupant::Unknown(cause)) == Some("stat "@ + path + ": "@ + cause@),
        first_bind_step(path, Occupant::Nothing) == BindStepView::MakeDirectory,
        first_bind_step(path, Occupant::Socket) == BindStepView::Remove,
        first_bind_step(path, Occupant::Other) is Fail,
        first_bind_step(path, Occupant::Unknown(cause)) is Fail,
        after_removal(path, Err(e)) == BindStepView::Fail(
            "removing stale socket "@ + path + ": "@ + e,
        ),
        after_directory(directory, Err(e)) == BindStepView::Fail(
            "creating socket directory "@ + directory + ": "@ + e,
        ),
        after_restoring(path, Err(e)) == BindStepView::Fail("binding socket "@ + path + ": "@ + e),
        after_mode(path, Err(e)) == BindStepView::Fail(
            "setting permissions on "@ + path + ": "@ + e,
        ),
        after_directory(directory, Ok(())) == BindStepView::SetMask(0o177),
        after_restoring(path, Ok(())) == BindStepView::SetMode(0o600),
        after_mode(path, Ok(())) == BindStepView::Ready,
{
}

/// Notes and steps are what stands in them.
pub proof fn steps_are_what_stands_in_them(s: String, old: u32, made: Result<(), String>)
    ensures
        Note::Info(s)@ == NoteView::Info(s@),
        Note::Warning(s)@ == NoteView::Warning(s@),
        Note::Error(s)@ == NoteView::Error(s@),
        note_of(Some(Note::Info(s))) == Some(NoteView::Info(s@)),
        note_of(None) is None,
        ServeStep::CheckVersion@ == ServeStepView::CheckVersion,
        ServeStep::StartupUnlock@ == ServeStepView::StartupUnlock,
        ServeStep::Bind@ == ServeStepView::Bind,
        ServeStep::Listen@ == ServeStepView::Listen,
        ServeStep::Stop(s)@ == ServeStepView::Stop(s@),
        texts_of(Ok(s)) == Ok::<Seq<char>, Seq<char>>(s@),
        texts_of(Err(s)) == Err::<Seq<char>, Seq<char>>(s@),
        BindStep::Remove@ == BindStepView::Remove,
        BindStep::MakeDirectory@ == BindStepView::MakeDirectory,
        BindStep::SetMask(old)@ == BindStepView::SetMask(old),
        (BindStep::Bind { old })@ == (BindStepView::Bind { old }),
        (BindStep::RestoreMask { old, made })@ == (BindStepView::RestoreMask {
            old,
            made: said(made),
        }),
        BindStep::SetMode(old)@ == BindStepView::SetMode(old),
        BindStep::Ready@ == BindStepView::Ready,
        BindStep::Fail(s)@ == BindStepView::Fail(s@),
{
}

/// A socket is made by the steps that its place asks for, one after the other, and the
/// mask that was in force is the one that is put back.
pub proof fn a_socket_is_followed_through(
    path: &str,
    occupant: Occupant,
    first: BindStep,
    removed: BindStep,
    directory: &str,
    made: BindStep,
    old: u32,
    masked_step: BindStep,
    bound: Result<(), String>,
    after_bound: BindStep,
    restored: BindStep,
    moded: BindStep,
)
    requires
        call_ensures(bind_socket, (path, occupant), first),
        call_ensures(stale_socket_removed, (path, Ok::<(), String>(())), removed),
        call_ensures(socket_directory_made, (directory, Ok::<(), String>(())), made),
        call_ensures(mask_set, (old,), masked_step),
        call_ensures(socket_bound, (old, bound), after_bound),
        call_ensures(mask_restored, (path, bound), restored),
        call_ensures(socket_mode_set, (path, Ok::<(), String>(())), moded),
    ensures
        occupant is Nothing ==> first@ is MakeDirectory,
        occupant is Socket ==> first@ is Remove,
        occupant is Other || occupant is Unknown ==> first@ is Fail,
        removed@ is MakeDirectory,
        made@ == BindStepView::SetMask(0o177),
        masked_step@ == (BindStepView::Bind { old }),
        after_bound@ == (BindStepView::RestoreMask { old, made: said(bound) }),
        bound is Ok ==> restored@ == BindStepView::SetMode(0o600),
        bound is Err ==> restored@ is Fail,
        moded@ is Ready,
{
}

/// What is noted of the socket names it, and what is noted of the keys counts them; no
/// keys at all are worth a warning.
pub proof fn notes_name_and_count(path: &str, said: (Note, Note), n: usize, note: Note)
    requires
        call_ensures(note_listening, (path,), said),
        call_ensures(note_loaded, (n,), note),
    ensures
        said.0@ == NoteView::Info("listening on "@ + path@),
        said.1@ == NoteView::Info("point SSH at it with: export SSH_AUTH_SOCK="@ + path@),
        n > 0 ==> note@ == NoteView::Info(
            "loaded "@ + text::decimal(n as nat) + " SSH key(s) into the agent"@,
        ),
        n == 0 ==> note@ is Warning,
{
}

/// The daemon comes up whatever the version check and the unlocking bring.
pub proof fn the_daemon_is_followed_through(
    has_key: Result<bool, String>,
    loaded: (Option<Note>, ServeStep),
    version: Result<String, String>,
    known: (Option<Note>, ServeStep),
    unlocked: Result<bool, String>,
    tried: (Option<Note>, ServeStep),
    bound: Result<(), String>,
    ready: (Option<Note>, ServeStep),
)
    requires
        call_ensures(config_loaded, (has_key,), loaded),
        call_ensures(version_known, (version,), known),
        call_ensures(startup_tried, (unlocked,), tried),
        call_ensures(sockets_bound, (bound,), ready),
    ensures
        has_key is Ok ==> loaded.1@ is CheckVersion,
        has_key matches Err(e) ==> loaded.1@ == ServeStepView::Stop(e@),
        known.1@ is StartupUnlock,
        tried.1@ is Bind,
        bound is Ok ==> ready.1@ is Listen,
        bound matches Err(e) ==> ready.1@ == ServeStepView::Stop(e@),
{
}

} // verus!
