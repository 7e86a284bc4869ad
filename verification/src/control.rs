//! The control channel: a small socket next to the agent's own, over which the
//! command line talks to the daemon.
//!
//! A request is a command byte and, for unlocking, the master password with its
//! length in front, as four bytes, the most significant one first. A response
//! is a status byte and a message, up to the end of the stream.

use vstd::prelude::*;
use vstd::slice::{slice_subrange, slice_to_vec};
use vstd::string::*;
use vstd::utf8::{
    decode_utf8, encode_utf8, encode_utf8_decode_utf8, encode_utf8_valid_utf8, valid_utf8,
};

use crate::agent::{KeySummary, SummaryView, VaultKey, VaultKeyView};
pub use crate::paths::{resolve_control_path, CONTROL_SOCKET_NAME};
use crate::process::{because, failure, said, with_context};
use crate::secret::Secret;
use crate::text;
use crate::unlock::{key_views, RefreshOutcome, UnlockError, UnlockOutcome};

verus! {

/// The command byte of a request to unlock the vault.
pub const CMD_UNLOCK: u8 = 0;

/// The command byte of a request to refresh the keys.
pub const CMD_REFRESH: u8 = 1;

/// The command byte of a request to list the keys.
pub const CMD_LIST: u8 = 2;

/// The length, in bytes, beyond which a password is taken for a mistake.
pub const MAX_PASSWORD_LEN: u32 = 8192;

/// All went well.
pub const STATUS_OK: u8 = 0;

/// The master password was rejected.
pub const STATUS_WRONG_PASSWORD: u8 = 1;

/// Something else went wrong.
pub const STATUS_ERROR: u8 = 2;

/// How long a connection may take altogether, in seconds.
pub const CONNECTION_TIMEOUT_SECS: u64 = 30;

/// How long to wait after a connection could not be accepted, in milliseconds.
pub const ACCEPT_BACKOFF_MILLIS: u64 = 200;

// --- numbers on the wire ----------------------------------------------------

/// The four bytes of `n`, the most significant one first.
pub open spec fn big_endian(n: u32) -> Seq<u8> {
    seq![
        (n / 0x100_0000) as u8,
        (n / 0x1_0000 % 0x100) as u8,
        (n / 0x100 % 0x100) as u8,
        (n % 0x100) as u8,
    ]
}

/// The number that four bytes stand for, the most significant one first.
pub open spec fn from_big_endian(b: Seq<u8>) -> int {
    b[0] * 0x100_0000 + b[1] * 0x1_0000 + b[2] * 0x100 + b[3]
}

/// Writing a number and reading it gives it back.
pub proof fn numbers_survive_the_wire(n: u32)
    ensures
        from_big_endian(big_endian(n)) == n,
        big_endian(n).len() == 4,
{
}

/// The number that four bytes stand for.
fn read_length(b: &[u8; 4]) -> (n: u32)
    ensures
        n == from_big_endian(b@),
{
    (b[0] as u32) * 0x100_0000 + (b[1] as u32) * 0x1_0000 + (b[2] as u32) * 0x100 + (b[3] as u32)
}

// --- requests ---------------------------------------------------------------

/// The request to unlock the vault with `password`, if it can be sent.
pub open spec fn unlock_request(password: Seq<char>) -> Option<Seq<u8>> {
    let body = encode_utf8(password);
    if 0 < body.len() <= MAX_PASSWORD_LEN {
        Some(seq![CMD_UNLOCK] + big_endian(body.len() as u32) + body)
    } else {
        None
    }
}

/// Why a password is not sent, if it is not.
pub open spec fn request_refusal(password: Seq<char>) -> Option<Seq<char>> {
    let len = encode_utf8(password).len();
    if len == 0 {
        Some("refusing to send an empty password"@)
    } else if len > MAX_PASSWORD_LEN {
        Some(
            "password is implausibly long ("@ + text::decimal(len) + " bytes); refusing to send"@,
        )
    } else {
        None
    }
}

/// The request to unlock the vault with `password`.
pub fn encode_unlock_request(password: &Secret) -> (r: Result<Vec<u8>, String>)
    ensures
        failure(r) == request_refusal(password@),
        r matches Ok(bytes) ==> unlock_request(password@) == Some(bytes@),
{
    let body = password.expose().as_bytes();
    let len: usize = body.len();
    if len == 0 {
        return Err("refusing to send an empty password".to_owned());
    }
    if len > MAX_PASSWORD_LEN as usize {
        return Err(
            text::cat3(
                "password is implausibly long (",
                text::decimal_text(len as u64).as_str(),
                " bytes); refusing to send",
            ),
        );
    }
    let n: u32 = len as u32;
    let mut r: Vec<u8> = vec![
        CMD_UNLOCK,
        (n / 0x100_0000) as u8,
        (n / 0x1_0000 % 0x100) as u8,
        (n / 0x100 % 0x100) as u8,
        (n % 0x100) as u8,
    ];
    assert(r@ =~= seq![CMD_UNLOCK] + big_endian(n));
    let mut tail: Vec<u8> = slice_to_vec(body);
    r.append(&mut tail);
    Ok(r)
}

// --- the daemon's side of a connection --------------------------------------

/// What the daemon waits for on a connection.
pub enum AfterRead {
    /// The command byte.
    Command,
    /// The length of a password.
    Length,
    /// A password.
    Body,
}

/// A response.
pub struct Response {
    pub status: u8,
    pub message: String,
}

/// What the daemon does next on a connection.
pub enum Serving {
    /// Read this many bytes.
    Read(usize, AfterRead),
    /// Unlock the vault, and respond.
    Unlock(Secret),
    /// Refresh the keys, and respond.
    Refresh,
    /// List the keys, and respond.
    List,
    /// Respond that the request is bad, and give up for this reason.
    Refuse(Response, String),
}

/// The contents of a [`Response`].
pub struct ResponseView {
    pub status: u8,
    pub message: Seq<char>,
}

impl View for Response {
    type V = ResponseView;

    open spec fn view(&self) -> ResponseView {
        ResponseView { status: self.status, message: self.message@ }
    }
}

/// The contents of a [`Serving`].
pub enum ServingView {
    Read(nat, AfterRead),
    Unlock(Seq<char>),
    Refresh,
    List,
    Refuse(ResponseView, Seq<char>),
}

impl View for Serving {
    type V = ServingView;

    open spec fn view(&self) -> ServingView {
        match self {
            Serving::Read(n, after) => ServingView::Read(*n as nat, *after),
            Serving::Unlock(p) => ServingView::Unlock(p@),
            Serving::Refresh => ServingView::Refresh,
            Serving::List => ServingView::List,
            Serving::Refuse(response, e) => ServingView::Refuse(response@, e@),
        }
    }
}

/// What the daemon does with a request that is bad for the reason `e`.
pub open spec fn bad_request(e: Seq<char>) -> ServingView {
    ServingView::Refuse(
        ResponseView { status: STATUS_ERROR, message: "bad request: "@ + e },
        e,
    )
}

/// What the daemon does once it has read the command byte.
pub open spec fn after_command(command: u8) -> ServingView {
    if command == CMD_UNLOCK {
        ServingView::Read(4, AfterRead::Length)
    } else if command == CMD_REFRESH {
        ServingView::Refresh
    } else if command == CMD_LIST {
        ServingView::List
    } else {
        let e = "unknown command byte "@ + text::decimal(command as nat);
        ServingView::Refuse(ResponseView { status: STATUS_ERROR, message: e }, e)
    }
}

/// What the daemon does once it has read the length of a password.
pub open spec fn after_length(len: int) -> ServingView {
    if len == 0 {
        bad_request("empty password"@)
    } else if len > MAX_PASSWORD_LEN {
        bad_request("password frame too large ("@ + text::decimal(len as nat) + " bytes)"@)
    } else {
        ServingView::Read(len as nat, AfterRead::Body)
    }
}

/// What the daemon does once it has read a password.
pub open spec fn after_body(body: Seq<u8>) -> ServingView {
    if valid_utf8(body) {
        ServingView::Unlock(decode_utf8(body))
    } else {
        bad_request("password was not valid UTF-8"@)
    }
}

/// What the daemon does with the command byte, or without it.
pub open spec fn on_command(command: Result<u8, Seq<char>>) -> ServingView {
    match command {
        Ok(c) => after_command(c),
        Err(e) => ServingView::Refuse(
            ResponseView { status: STATUS_ERROR, message: "bad request: "@ + e },
            because("reading command byte"@, e),
        ),
    }
}

/// What the daemon does with the length of a password, or without it.
pub open spec fn on_length(length: Result<Seq<u8>, Seq<char>>) -> ServingView {
    match length {
        Ok(b) => after_length(from_big_endian(b)),
        Err(e) => bad_request(because("reading password length prefix"@, e)),
    }
}

/// What the daemon does with a password, or without it.
pub open spec fn on_body(body: Result<Seq<u8>, Seq<char>>) -> ServingView {
    match body {
        Ok(b) => after_body(b),
        Err(e) => bad_request(because("reading password body"@, e)),
    }
}

/// What the daemon does first on a connection: it reads the command byte.
pub fn serve_connection() -> (r: Serving)
    ensures
        r@ == ServingView::Read(1, AfterRead::Command),
{
    Serving::Read(1, AfterRead::Command)
}

/// What the daemon does with a request that is bad for the reason `e`.
fn refuse(e: String) -> (r: Serving)
    ensures
        r@ == bad_request(e@),
{
    Serving::Refuse(
        Response { status: STATUS_ERROR, message: text::cat2("bad request: ", e.as_str()) },
        e,
    )
}

/// What the daemon does once it has read the command byte.
pub fn dispatch_command(command: u8) -> (r: Serving)
    ensures
        r@ == after_command(command),
{
    if command == CMD_UNLOCK {
        Serving::Read(4, AfterRead::Length)
    } else if command == CMD_REFRESH {
        Serving::Refresh
    } else if command == CMD_LIST {
        Serving::List
    } else {
        let e = text::cat2("unknown command byte ", text::decimal_text(command as u64).as_str());
        Serving::Refuse(Response { status: STATUS_ERROR, message: e.clone() }, e)
    }
}

/// Takes up the command byte, or the reason why it did not come.
pub fn command_read(command: Result<u8, String>) -> (r: Serving)
    ensures
        r@ == on_command(said(command)),
{
    match command {
        Ok(c) => dispatch_command(c),
        Err(e) => {
            let message = text::cat2("bad request: ", e.as_str());
            Serving::Refuse(
                Response { status: STATUS_ERROR, message },
                with_context("reading command byte", e.as_str()),
            )
        },
    }
}

/// The bytes of a length, or why they did not come.
pub open spec fn length_bytes(r: Result<[u8; 4], String>) -> Result<Seq<u8>, Seq<char>> {
    match r {
        Ok(b) => Ok(b@),
        Err(e) => Err(e@),
    }
}

/// Takes up the length of a password, or the reason why it did not come.
pub fn length_read(length: Result<[u8; 4], String>) -> (r: Serving)
    ensures
        r@ == on_length(length_bytes(length)),
{
    match length {
        Ok(b) => {
            let len: u32 = read_length(&b);
            if len == 0 {
                refuse("empty password".to_owned())
            } else if len > MAX_PASSWORD_LEN {
                refuse(
                    text::cat3(
                        "password frame too large (",
                        text::decimal_text(len as u64).as_str(),
                        " bytes)",
                    ),
                )
            } else {
                Serving::Read(len as usize, AfterRead::Body)
            }
        },
        Err(e) => refuse(with_context("reading password length prefix", e.as_str())),
    }
}

/// The bytes that came, or why they did not.
pub open spec fn read_bytes(r: Result<Vec<u8>, String>) -> Result<Seq<u8>, Seq<char>> {
    match r {
        Ok(b) => Ok(b@),
        Err(e) => Err(e@),
    }
}

/// Takes up a password, or the reason why it did not come.
pub fn body_read(body: Result<Vec<u8>, String>) -> (r: Serving)
    ensures
        r@ == on_body(read_bytes(body)),
{
    match body {
        Ok(b) => {
            let mut b: Vec<u8> = b;
            let password = text::from_utf8(slice_to_vec(b.as_slice()));
            text::wipe_bytes(&mut b);
            match password {
                Ok(p) => Serving::Unlock(Secret::new(p)),
                Err(_) => refuse("password was not valid UTF-8".to_owned()),
            }
        },
        Err(e) => refuse(with_context("reading password body", e.as_str())),
    }
}

// --- responses --------------------------------------------------------------

/// The bytes of a response.
pub open spec fn response_bytes(r: ResponseView) -> Seq<u8> {
    seq![r.status] + encode_utf8(r.message)
}

/// The bytes of a response.
pub fn write_response(response: &Response) -> (r: Vec<u8>)
    ensures
        r@ == response_bytes(response@),
{
    let mut r: Vec<u8> = vec![response.status];
    let mut tail: Vec<u8> = slice_to_vec(response.message.as_str().as_bytes());
    r.append(&mut tail);
    assert(r@ =~= seq![response.status] + encode_utf8(response.message@));
    r
}

/// What the command line makes of a response.
pub struct Reply {
    pub message: String,
    /// Whether the message goes to standard error.
    pub is_error: bool,
    /// The exit code of the command.
    pub exit_code: i32,
}

/// The exit code that goes with a status.
pub open spec fn exit_code(status: u8) -> i32 {
    if status == STATUS_OK {
        0
    } else if status == STATUS_WRONG_PASSWORD {
        2
    } else {
        1
    }
}

/// What the command line makes of a response.
pub fn read_response(response: &[u8]) -> (r: Result<Reply, String>)
    ensures
        r is Err <==> response@.len() == 0,
        r matches Err(e) ==> e@ == "the daemon closed the connection without responding"@,
        r matches Ok(reply) ==> {
            &&& reply.message@ == text::utf8_lossy(response@.skip(1))
            &&& reply.exit_code == exit_code(response@[0])
            &&& reply.is_error == (response@[0] != STATUS_OK)
            &&& valid_utf8(response@.skip(1)) ==> reply.message@ == decode_utf8(
                response@.skip(1),
            )
        },
{
    if response.len() == 0 {
        return Err("the daemon closed the connection without responding".to_owned());
    }
    let rest = slice_subrange(response, 1, response.len());
    assert(rest@ == response@.skip(1));
    let message = text::from_utf8_lossy(rest);
    let status: u8 = response[0];
    let code: i32 = if status == STATUS_OK {
        0
    } else if status == STATUS_WRONG_PASSWORD {
        2
    } else {
        1
    };
    Ok(Reply { message, is_error: status != STATUS_OK, exit_code: code })
}

/// `n` SSH keys, for a message.
pub open spec fn key_count(n: nat) -> Seq<char> {
    text::decimal(n) + " SSH key(s)"@
}

/// The response to a request to unlock the vault.
pub open spec fn unlock_response(outcome: Result<UnlockOutcome, UnlockError>) -> ResponseView {
    match outcome {
        Ok(UnlockOutcome::Unlocked(n)) => ResponseView {
            status: STATUS_OK,
            message: "vault unlocked; "@ + key_count(n as nat) + " now served by the agent"@,
        },
        Ok(UnlockOutcome::AlreadyUnlocked(n)) => ResponseView {
            status: STATUS_OK,
            message: "vault was already unlocked; "@ + key_count(n as nat) + " served"@,
        },
        Err(UnlockError::WrongPassword(detail)) => ResponseView {
            status: STATUS_WRONG_PASSWORD,
            message: "wrong master password: "@ + detail@,
        },
        Err(UnlockError::Other(e)) => ResponseView {
            status: STATUS_ERROR,
            message: "unlock failed: "@ + e@,
        },
    }
}

/// `n` SSH keys, for a message.
fn count_keys(n: usize) -> (r: String)
    ensures
        r@ == key_count(n as nat),
{
    text::cat2(text::decimal_text(n as u64).as_str(), " SSH key(s)")
}

/// The response to a request to unlock the vault.
pub fn handle_unlock(outcome: Result<UnlockOutcome, UnlockError>) -> (r: Response)
    ensures
        r@ == unlock_response(outcome),
{
    match outcome {
        Ok(UnlockOutcome::Unlocked(n)) => Response {
            status: STATUS_OK,
            message: text::cat3(
                "vault unlocked; ",
                count_keys(n).as_str(),
                " now served by the agent",
            ),
        },
        Ok(UnlockOutcome::AlreadyUnlocked(n)) => Response {
            status: STATUS_OK,
            message: text::cat3(
                "vault was already unlocked; ",
                count_keys(n).as_str(),
                " served",
            ),
        },
        Err(UnlockError::WrongPassword(detail)) => Response {
            status: STATUS_WRONG_PASSWORD,
            message: text::cat2("wrong master password: ", detail.as_str()),
        },
        Err(UnlockError::Other(e)) => Response {
            status: STATUS_ERROR,
            message: text::cat2("unlock failed: ", e.as_str()),
        },
    }
}

/// The response to a request to refresh the keys.
pub open spec fn refresh_response(outcome: Result<RefreshOutcome, String>) -> ResponseView {
    match outcome {
        Ok(RefreshOutcome::Refreshed(n)) => ResponseView {
            status: STATUS_OK,
            message: "vault refreshed; "@ + key_count(n as nat) + " now served by the agent"@,
        },
        Ok(RefreshOutcome::StillLocked) => ResponseView {
            status: STATUS_OK,
            message: "vault is still locked; nothing to refresh yet (run `unlock` first)"@,
        },
        Err(e) => ResponseView { status: STATUS_ERROR, message: "refresh failed: "@ + e@ },
    }
}

/// The response to a request to refresh the keys.
pub fn handle_refresh(outcome: Result<RefreshOutcome, String>) -> (r: Response)
    ensures
        r@ == refresh_response(outcome),
{
    match outcome {
        Ok(RefreshOutcome::Refreshed(n)) => Response {
            status: STATUS_OK,
            message: text::cat3(
                "vault refreshed; ",
                count_keys(n).as_str(),
                " now served by the agent",
            ),
        },
        Ok(RefreshOutcome::StillLocked) => Response {
            status: STATUS_OK,
            message: "vault is still locked; nothing to refresh yet (run `unlock` first)".to_owned(),
        },
        Err(e) => Response {
            status: STATUS_ERROR,
            message: text::cat2("refresh failed: ", e.as_str()),
        },
    }
}

/// The line that lists a key: its algorithm, its fingerprint and its name.
pub open spec fn key_line(s: SummaryView) -> Seq<char> {
    s.algorithm + "  "@ + s.fingerprint + "  "@ + s.comment
}

/// The lines that list the keys.
pub open spec fn key_lines(keys: Seq<VaultKeyView>) -> Seq<Seq<char>> {
    keys.map_values(|k: VaultKeyView| key_line(k.summary()))
}

/// The message that lists the keys.
pub open spec fn listing(keys: Seq<VaultKeyView>) -> Seq<char> {
    if keys.len() == 0 {
        "The agent has no identities."@
    } else {
        text::joined(key_lines(keys), "\n"@)
    }
}

/// The line that lists a key.
pub fn summary_line(s: &KeySummary) -> (r: String)
    ensures
        r@ == key_line(s@),
{
    text::cat5(s.algorithm.as_str(), "  ", s.fingerprint.as_str(), "  ", s.comment.as_str())
}

/// The response to a request to list the keys: one line for each, or why there
/// is no list.
pub fn handle_list(keys: Result<&Vec<VaultKey>, String>) -> (r: Response)
    ensures
        r@ == (match keys {
            Ok(keys) => ResponseView { status: STATUS_OK, message: listing(key_views(keys@)) },
            Err(e) => ResponseView {
                status: STATUS_ERROR,
                message: "could not list keys: "@ + e@,
            },
        }),
{
    let keys: &Vec<VaultKey> = match keys {
        Ok(keys) => keys,
        Err(e) => {
            return Response {
                status: STATUS_ERROR,
                message: text::cat2("could not list keys: ", e.as_str()),
            };
        },
    };
    if keys.len() == 0 {
        return Response {
            status: STATUS_OK,
            message: "The agent has no identities.".to_owned(),
        };
    }
    let mut lines: Vec<String> = Vec::new();
    let mut i: usize = 0;
    while i < keys.len()
        invariant
            i <= keys.len(),
            lines.len() == i,
            forall|j: int| 0 <= j < i ==> (#[trigger] lines@[j])@ == key_line(keys@[j]@.summary()),
        decreases keys.len() - i,
    {
        lines.push(summary_line(&keys[i].summary()));
        i = i + 1;
    }
    assert(text::texts(lines@) =~= key_lines(key_views(keys@)));
    Response { status: STATUS_OK, message: text::join(&lines, "\n") }
}

// --- accepting connections --------------------------------------------------

/// What the daemon does when somebody connects.
pub enum Accepted {
    /// Nothing for a short while: the connection could not be accepted.
    Backoff,
    /// Drops the connection, for this reason.
    Reject(String),
    /// Serves the connection.
    Serve,
}

/// Why a connection is refused, if it is: only the user who runs the daemon may
/// talk to it. `peer` is the user at the other end, or why that is not known.
pub open spec fn peer_refusal(peer: Result<u32, Seq<char>>, own: u32) -> Option<Seq<char>> {
    match peer {
        Err(e) => Some(because("reading control socket peer credentials"@, e)),
        Ok(uid) => if uid == own {
            None
        } else {
            Some(
                "peer uid "@ + text::decimal(uid as nat) + " does not match our own uid "@
                    + text::decimal(own as nat),
            )
        },
    }
}

/// Refuses a connection from any user but the one who runs the daemon.
pub fn check_peer_is_self(peer: Result<u32, String>, own: u32) -> (r: Result<(), String>)
    ensures
        failure(r) == peer_refusal(said(peer), own),
{
    match peer {
        Err(e) => Err(with_context("reading control socket peer credentials", e.as_str())),
        Ok(uid) => if uid == own {
            Ok(())
        } else {
            Err(
                text::cat4(
                    "peer uid ",
                    text::decimal_text(uid as u64).as_str(),
                    " does not match our own uid ",
                    text::decimal_text(own as u64).as_str(),
                ),
            )
        },
    }
}

/// What the daemon does when somebody connects: `peer` says who, or is missing
/// where the connection could not be accepted.
pub fn accept_connection(peer: Option<Result<u32, String>>, own: u32) -> (r: Accepted)
    ensures
        match peer {
            None => r is Backoff,
            Some(p) => match peer_refusal(said(p), own) {
                Some(e) => r matches Accepted::Reject(why) && why@ == e,
                None => r is Serve,
            },
        },
{
    match peer {
        None => Accepted::Backoff,
        Some(p) => match check_peer_is_self(p, own) {
            Ok(()) => Accepted::Serve,
            Err(e) => Accepted::Reject(e),
        },
    }
}

// --- the command line's side of a connection --------------------------------

/// What the command line wants of the daemon.
#[derive(Clone, Copy, PartialEq, Eq, Structural, Debug)]
pub enum Request {
    Unlock,
    Refresh,
    List,
}

/// Where sending a request broke off.
pub enum SendError {
    /// It could not be written.
    Write(String),
    /// It could not be flushed.
    Flush(String),
    /// The stream could not be closed behind it.
    Close(String),
}

/// What the command line does next.
pub enum ClientStep {
    /// Ask the user for the master password.
    Prompt,
    /// Send these bytes.
    Send(Vec<u8>),
    /// Read the response.
    Receive,
    /// Nothing: there is no daemon to ask, and this can be said about it. That is
    /// no failure; what it means is for the caller to decide.
    NoDaemon(String),
    /// Show this and exit.
    Finish(Reply),
    /// Give up, for this reason.
    Fail(String),
}

/// Why the daemon could not be reached at `path`.
pub open spec fn unreachable_text(request: Request, path: Seq<char>, e: Seq<char>) -> Seq<char> {
    "could not connect to the daemon control socket at "@ + path + " ("@ + e + (match request {
        Request::Unlock => ").\nIs the service running?  Start it with:\n    systemctl --user start bitwarden-ssh-agent.service"@,
        _ => "). Is the service running?"@,
    })
}

/// What follows the attempt to reach the daemon at `path`. Only once it is
/// reached is the user asked for the master password. A refresh without a daemon
/// is no failure: there is nothing to refresh.
pub fn client_connected(request: Request, path: &str, connected: Result<(), String>) -> (r:
    ClientStep)
    ensures
        match connected {
            Err(e) => match request {
                Request::Refresh => r matches ClientStep::NoDaemon(said) && said@
                    == unreachable_text(request, path@, e@),
                _ => r matches ClientStep::Fail(why) && why@ == unreachable_text(
                    request,
                    path@,
                    e@,
                ),
            },
            Ok(_) => match request {
                Request::Unlock => r is Prompt,
                Request::Refresh => r matches ClientStep::Send(b) && b@ == seq![CMD_REFRESH],
                Request::List => r matches ClientStep::Send(b) && b@ == seq![CMD_LIST],
            },
        },
{
    match connected {
        Err(e) => {
            let advice = match request {
                Request::Unlock => ").\nIs the service running?  Start it with:\n    systemctl --user start bitwarden-ssh-agent.service",
                _ => "). Is the service running?",
            };
            let said = text::cat5(
                "could not connect to the daemon control socket at ",
                path,
                " (",
                e.as_str(),
                advice,
            );
            match request {
                Request::Refresh => ClientStep::NoDaemon(said),
                _ => ClientStep::Fail(said),
            }
        },
        Ok(_) => match request {
            Request::Unlock => ClientStep::Prompt,
            Request::Refresh => ClientStep::Send(vec![CMD_REFRESH]),
            Request::List => ClientStep::Send(vec![CMD_LIST]),
        },
    }
}

/// What follows the user's being asked for the master password.
pub fn client_prompted(password: Result<Secret, String>) -> (r: ClientStep)
    ensures
        match password {
            Err(e) => r matches ClientStep::Fail(why) && why@ == e@,
            Ok(p) => match request_refusal(p@) {
                Some(e) => r matches ClientStep::Fail(why) && why@ == e,
                None => r matches ClientStep::Send(b) && unlock_request(p@) == Some(b@),
            },
        },
{
    match password {
        Err(e) => ClientStep::Fail(e),
        Ok(p) => match encode_unlock_request(&p) {
            Ok(bytes) => ClientStep::Send(bytes),
            Err(e) => ClientStep::Fail(e),
        },
    }
}

/// Why a request could not be sent.
pub open spec fn send_failure(request: Request, e: SendError) -> Seq<char> {
    match (request, e) {
        (Request::Unlock, SendError::Write(e)) => because("sending password to the daemon"@, e@),
        (Request::Unlock, SendError::Flush(e)) => because("sending password to the daemon"@, e@),
        (Request::Unlock, SendError::Close(e)) => because("sending password to the daemon"@, e@),
        (Request::Refresh, SendError::Write(e)) => because(
            "sending refresh request to the daemon"@,
            e@,
        ),
        (Request::Refresh, SendError::Flush(e)) => because("flushing refresh request"@, e@),
        (Request::List, SendError::Write(e)) => because(
            "sending list request to the daemon"@,
            e@,
        ),
        (Request::List, SendError::Flush(e)) => because("flushing list request"@, e@),
        (_, SendError::Close(e)) => because("closing write side"@, e@),
    }
}

/// What follows the sending of a request.
pub fn client_sent(request: Request, sent: Result<(), SendError>) -> (r: ClientStep)
    ensures
        match sent {
            Err(e) => r matches ClientStep::Fail(why) && why@ == send_failure(request, e),
            Ok(_) => r is Receive,
        },
{
    let e: SendError = match sent {
        Ok(_) => {
            return ClientStep::Receive;
        },
        Err(e) => e,
    };
    let (context, cause) = match (request, e) {
        (Request::Unlock, SendError::Write(e)) => ("sending password to the daemon", e),
        (Request::Unlock, SendError::Flush(e)) => ("sending password to the daemon", e),
        (Request::Unlock, SendError::Close(e)) => ("sending password to the daemon", e),
        (Request::Refresh, SendError::Write(e)) => ("sending refresh request to the daemon", e),
        (Request::Refresh, SendError::Flush(e)) => ("flushing refresh request", e),
        (Request::List, SendError::Write(e)) => ("sending list request to the daemon", e),
        (Request::List, SendError::Flush(e)) => ("flushing list request", e),
        (_, SendError::Close(e)) => ("closing write side", e),
    };
    ClientStep::Fail(with_context(context, cause.as_str()))
}

/// What follows the reading of the response.
pub fn client_received(response: Result<Vec<u8>, String>) -> (r: ClientStep)
    ensures
        match response {
            Err(e) => r matches ClientStep::Fail(why) && why@ == because(
                "reading response from the daemon"@,
                e@,
            ),
            Ok(b) => if b@.len() == 0 {
                r matches ClientStep::Fail(why) && why@
                    == "the daemon closed the connection without responding"@
            } else {
                r matches ClientStep::Finish(reply) && reply.message@ == text::utf8_lossy(
                    b@.skip(1),
                ) && reply.exit_code == exit_code(b@[0]) && reply.is_error == (b@[0] != STATUS_OK)
                    && (valid_utf8(b@.skip(1)) ==> reply.message@ == decode_utf8(b@.skip(1)))
            },
        },
{
    match response {
        Err(e) => ClientStep::Fail(with_context("reading response from the daemon", e.as_str())),
        Ok(b) => match read_response(b.as_slice()) {
            Ok(reply) => ClientStep::Finish(reply),
            Err(e) => ClientStep::Fail(e),
        },
    }
}

// --- laws -------------------------------------------------------------------

/// What the daemon comes to do for a client that sends `stream` and nothing
/// more; `short` is what reading beyond the end of the stream fails with.
pub open spec fn conversation(stream: Seq<u8>, short: Seq<char>) -> ServingView {
    if stream.len() < 1 {
        on_command(Err(short))
    } else {
        match after_command(stream[0]) {
            ServingView::Read(_, _) => if stream.len() < 5 {
                on_length(Err(short))
            } else {
                match on_length(Ok(stream.subrange(1, 5))) {
                    ServingView::Read(n, _) => if stream.len() < 5 + n {
                        on_body(Err(short))
                    } else {
                        on_body(Ok(stream.subrange(5, 5 + n as int)))
                    },
                    other => other,
                }
            },
            other => other,
        }
    }
}

/// The daemon gets every password that the client sends, and gets it unchanged.
pub proof fn the_daemon_gets_the_password_that_was_sent(password: Seq<char>, short: Seq<char>)
    requires
        unlock_request(password) is Some,
    ensures
        conversation(unlock_request(password)->0, short) == ServingView::Unlock(password),
{
    let body = encode_utf8(password);
    let n = body.len() as u32;
    let stream = unlock_request(password)->0;
    numbers_survive_the_wire(n);
    assert(stream[0] == CMD_UNLOCK);
    assert(stream.subrange(1, 5) =~= big_endian(n));
    assert(stream.subrange(5, 5 + n as int) =~= body);
    encode_utf8_valid_utf8(password);
    encode_utf8_decode_utf8(password);
}

/// The daemon does what the other commands say.
pub proof fn the_daemon_gets_the_other_commands(short: Seq<char>)
    ensures
        conversation(seq![CMD_REFRESH], short) == ServingView::Refresh,
        conversation(seq![CMD_LIST], short) == ServingView::List,
{
}

/// A request that makes no sense is refused with an error status, and whatever
/// the client sends, the daemon never sets out to read an absurdly long
/// password.
pub proof fn bad_requests_are_refused(stream: Seq<u8>, short: Seq<char>, length: Seq<u8>)
    ensures
        !(conversation(stream, short) is Read),
        conversation(stream, short) matches ServingView::Refuse(response, e) ==> response.status
            == STATUS_ERROR,
        on_length(Ok(length)) matches ServingView::Read(n, _) ==> 0 < n <= MAX_PASSWORD_LEN,
{
}

/// The client refuses to send exactly those passwords that the daemon would
/// refuse to read.
pub proof fn both_sides_agree_on_passwords(password: Seq<char>)
    ensures
        request_refusal(password) is None <==> unlock_request(password) is Some,
        request_refusal(password) is None <==> after_length(
            encode_utf8(password).len() as int,
        ) is Read,
{
}

/// The client gets every response as the daemon sent it: the bytes after the
/// status are the message.
pub proof fn the_client_gets_the_response_that_was_sent(response: ResponseView)
    ensures
        response_bytes(response).len() > 0,
        response_bytes(response)[0] == response.status,
        valid_utf8(response_bytes(response).skip(1)),
        decode_utf8(response_bytes(response).skip(1)) == response.message,
{
    encode_utf8_valid_utf8(response.message);
    encode_utf8_decode_utf8(response.message);
    assert(response_bytes(response).skip(1) =~= encode_utf8(response.message));
}

/// The exit code tells what came of unlocking the vault: 0 where it is unlocked,
/// 2 where the password was wrong, 1 where anything else went wrong.
pub proof fn the_exit_code_tells_the_outcome(outcome: Result<UnlockOutcome, UnlockError>)
    ensures
        exit_code(unlock_response(outcome).status) == 0 <==> outcome is Ok,
        exit_code(unlock_response(outcome).status) == 2 <==> outcome matches Err(
            UnlockError::WrongPassword(_),
        ),
        exit_code(unlock_response(outcome).status) == 1 <==> outcome matches Err(
            UnlockError::Other(_),
        ),
{
}

/// The listing has a line for every key that is served, and says that there are no
/// keys only where there are none: one key alone is one line, and a longer listing
/// is the listings of its parts, each on lines of its own.
pub proof fn every_key_has_its_line(
    key: VaultKeyView,
    a: Seq<VaultKeyView>,
    b: Seq<VaultKeyView>,
)
    requires
        a.len() > 0,
        b.len() > 0,
    ensures
        listing(Seq::empty()) == "The agent has no identities."@,
        listing(seq![key]) == key.summary().algorithm + "  "@ + key.summary().fingerprint + "  "@
            + key.summary().comment,
        listing(a + b) == listing(a) + "\n"@ + listing(b),
{
    assert(key_lines(seq![key]) =~= seq![key_line(key.summary())]);
    assert(key_lines(a + b) =~= key_lines(a) + key_lines(b));
    text::joining_puts_all_parts_in_a_row(key_lines(a), key_lines(b), Seq::empty(), "\n"@);
    text::joining_puts_all_parts_in_a_row(
        key_lines(a),
        key_lines(b),
        key_line(key.summary()),
        "\n"@,
    );
}

/// A request to list the keys is answered with the line of each key in turn, and
/// with the reason where there is no list.
pub proof fn a_list_is_answered_with_the_keys_in_turn(
    keys: &Vec<VaultKey>,
    e: String,
    listed: Response,
    refused: Response,
)
    requires
        call_ensures(handle_list, (Ok::<&Vec<VaultKey>, String>(keys),), listed),
        call_ensures(handle_list, (Err::<&Vec<VaultKey>, String>(e),), refused),
    ensures
        listed.status == 0,
        keys@.len() == 0 ==> listed.message@ == "The agent has no identities."@,
        keys@.len() > 0 ==> listed.message@ == text::joined(
            Seq::new(
                keys@.len(),
                |i: int|
                    keys@[i]@.summary().algorithm + "  "@ + keys@[i]@.summary().fingerprint + "  "@
                        + keys@[i]@.summary().comment,
            ),
            "\n"@,
        ),
        refused.status == 2,
        refused.message@ == "could not list keys: "@ + e@,
{
    assert(key_lines(key_views(keys@)) =~= Seq::new(
        keys@.len(),
        |i: int|
            keys@[i]@.summary().algorithm + "  "@ + keys@[i]@.summary().fingerprint + "  "@
                + keys@[i]@.summary().comment,
    ));
}

/// A number on the wire is four bytes, of which each counts as much as 256 of the
/// next.
pub proof fn the_most_significant_byte_comes_first(n: u32, b: Seq<u8>)
    ensures
        big_endian(n).len() == 4,
        n == ((big_endian(n)[0] * 256 + big_endian(n)[1]) * 256 + big_endian(n)[2]) * 256
            + big_endian(n)[3],
        from_big_endian(b) == ((b[0] * 256 + b[1]) * 256 + b[2]) * 256 + b[3],
{
}

/// A request to unlock is the command byte, the length of the password in bytes and
/// the password, in this order and nothing more. Every password is sent but an
/// empty one and one of more than 8192 bytes.
pub proof fn a_password_is_sent_behind_its_length(password: Seq<char>)
    ensures
        ({
            let body = encode_utf8(password);
            &&& unlock_request(password) is Some <==> 0 < body.len() <= 8192
            &&& request_refusal(password) is Some <==> !(0 < body.len() <= 8192)
            &&& body.len() == 0 ==> request_refusal(password) == Some(
                "refusing to send an empty password"@,
            )
            &&& body.len() > 8192 ==> request_refusal(password) == Some(
                "password is implausibly long ("@ + text::decimal(body.len())
                    + " bytes); refusing to send"@,
            )
            &&& unlock_request(password) matches Some(request) ==> {
                &&& request.len() == 5 + body.len()
                &&& request[0] == 0
                &&& from_big_endian(request.subrange(1, 5)) == body.len()
                &&& request.skip(5) == body
            }
        }),
{
    let body = encode_utf8(password);
    if 0 < body.len() <= 8192 {
        let request = unlock_request(password)->0;
        numbers_survive_the_wire(body.len() as u32);
        assert(request.subrange(1, 5) =~= big_endian(body.len() as u32));
        assert(request.skip(5) =~= body);
    }
}

/// A command byte means one thing: 0 is followed by a password, 1 refreshes, 2
/// lists, and any other is refused by its number. A password comes behind its
/// length and is read whole; one of no bytes or of more than 8192 is refused, and
/// so is one that is no text.
pub proof fn commands_mean_one_thing(command: u8, length: Seq<u8>, body: Seq<u8>, e: Seq<char>)
    ensures
        after_command(0) == ServingView::Read(4, AfterRead::Length),
        after_command(1) == ServingView::Refresh,
        after_command(2) == ServingView::List,
        command > 2 ==> after_command(command) == ServingView::Refuse(
            ResponseView {
                status: 2,
                message: "unknown command byte "@ + text::decimal(command as nat),
            },
            "unknown command byte "@ + text::decimal(command as nat),
        ),
        on_command(Ok(command)) == after_command(command),
        on_command(Err(e)) == ServingView::Refuse(
            ResponseView { status: 2, message: "bad request: "@ + e },
            "reading command byte: "@ + e,
        ),
        ({
            let n = ((length[0] * 256 + length[1]) * 256 + length[2]) * 256 + length[3];
            &&& 0 < n <= 8192 ==> on_length(Ok(length)) == ServingView::Read(
                n as nat,
                AfterRead::Body,
            )
            &&& n == 0 ==> on_length(Ok(length)) == ServingView::Refuse(
                ResponseView { status: 2, message: "bad request: "@ + "empty password"@ },
                "empty password"@,
            )
            &&& n > 8192 ==> on_length(Ok(length)) is Refuse
        }),
        on_length(Err(e)) is Refuse,
        valid_utf8(body) ==> on_body(Ok(body)) == ServingView::Unlock(decode_utf8(body)),
        !valid_utf8(body) ==> on_body(Ok(body)) is Refuse,
        on_body(Err(e)) is Refuse,
{
    reveal_strlit("reading command byte");
    reveal_strlit("reading command byte: ");
    reveal_strlit(": ");
    assert("reading command byte"@ + ": "@ =~= "reading command byte: "@);
}

/// A response is the status byte and the message behind it, and nothing more.
pub proof fn a_response_is_its_status_and_its_message(r: ResponseView)
    ensures
        response_bytes(r) == seq![r.status] + encode_utf8(r.message),
        response_bytes(r).len() == 1 + encode_utf8(r.message).len(),
{
}

/// What came of unlocking is told with the number of keys that are served, or with
/// the reason, and with a status of its own: 0 for success, 1 for a wrong password,
/// 2 for anything else.
pub proof fn unlocking_is_answered_with_what_came_of_it(n: usize, e: String)
    ensures
        unlock_response(Ok(UnlockOutcome::Unlocked(n))) == (ResponseView {
            status: 0,
            message: "vault unlocked; "@ + text::decimal(n as nat)
                + " SSH key(s) now served by the agent"@,
        }),
        unlock_response(Ok(UnlockOutcome::AlreadyUnlocked(n))) == (ResponseView {
            status: 0,
            message: "vault was already unlocked; "@ + text::decimal(n as nat)
                + " SSH key(s) served"@,
        }),
        unlock_response(Err(UnlockError::WrongPassword(e))) == (ResponseView {
            status: 1,
            message: "wrong master password: "@ + e@,
        }),
        unlock_response(Err(UnlockError::Other(e))) == (ResponseView {
            status: 2,
            message: "unlock failed: "@ + e@,
        }),
{
    reveal_strlit(" SSH key(s)");
    reveal_strlit(" now served by the agent");
    reveal_strlit(" SSH key(s) now served by the agent");
    reveal_strlit(" served");
    reveal_strlit(" SSH key(s) served");
    assert(" SSH key(s)"@ + " now served by the agent"@ =~= " SSH key(s) now served by the agent"@);
    assert(" SSH key(s)"@ + " served"@ =~= " SSH key(s) served"@);
    assert("vault unlocked; "@ + key_count(n as nat) + " now served by the agent"@
        =~= "vault unlocked; "@ + text::decimal(n as nat)
        + " SSH key(s) now served by the agent"@);
    assert("vault was already unlocked; "@ + key_count(n as nat) + " served"@
        =~= "vault was already unlocked; "@ + text::decimal(n as nat) + " SSH key(s) served"@);
}

/// What came of a refresh is told with the number of keys that are served, or with
/// the reason; that there was nothing to refresh is no error.
pub proof fn a_refresh_is_answered_with_what_came_of_it(n: usize, e: String)
    ensures
        refresh_response(Ok(RefreshOutcome::Refreshed(n))) == (ResponseView {
            status: 0,
            message: "vault refreshed; "@ + text::decimal(n as nat)
                + " SSH key(s) now served by the agent"@,
        }),
        refresh_response(Ok(RefreshOutcome::StillLocked)) == (ResponseView {
            status: 0,
            message: "vault is still locked; nothing to refresh yet (run `unlock` first)"@,
        }),
        refresh_response(Err(e)) == (ResponseView {
            status: 2,
            message: "refresh failed: "@ + e@,
        }),
{
    reveal_strlit(" SSH key(s)");
    reveal_strlit(" now served by the agent");
    reveal_strlit(" SSH key(s) now served by the agent");
    assert(" SSH key(s)"@ + " now served by the agent"@ =~= " SSH key(s) now served by the agent"@);
    assert("vault refreshed; "@ + key_count(n as nat) + " now served by the agent"@
        =~= "vault refreshed; "@ + text::decimal(n as nat)
        + " SSH key(s) now served by the agent"@);
}

/// The exit code of a command depends on the status alone: 0 for 0, 2 for a wrong
/// password, and 1 for any other.
pub proof fn the_exit_code_follows_the_status(status: u8)
    ensures
        exit_code(0) == 0,
        exit_code(1) == 2,
        status > 1 ==> exit_code(status) == 1,
{
}

/// Only the user who runs the daemon is let in: every other user is refused by
/// number, and so is one whose number is not known.
pub proof fn only_the_own_user_is_let_in(uid: u32, own: u32, e: Seq<char>)
    ensures
        peer_refusal(Ok(own), own) is None,
        uid != own ==> peer_refusal(Ok(uid), own) == Some(
            "peer uid "@ + text::decimal(uid as nat) + " does not match our own uid "@
                + text::decimal(own as nat),
        ),
        peer_refusal(Err(e), own) == Some("reading control socket peer credentials: "@ + e),
{
    reveal_strlit("reading control socket peer credentials");
    reveal_strlit("reading control socket peer credentials: ");
    reveal_strlit(": ");
    assert("reading control socket peer credentials"@ + ": "@
        =~= "reading control socket peer credentials: "@);
}

/// A connection is served exactly where it comes from the user who runs the daemon.
pub proof fn a_connection_is_served_for_the_own_user_alone(
    peer: Option<Result<u32, String>>,
    own: u32,
    r: Accepted,
)
    requires
        call_ensures(accept_connection, (peer, own), r),
    ensures
        r is Serve <==> peer == Some(Ok::<u32, String>(own)),
        r is Backoff <==> peer is None,
{
}

/// Where the daemon cannot be reached, the message names its socket and the reason.
pub proof fn an_unreachable_daemon_is_named(path: Seq<char>, e: Seq<char>)
    ensures
        ({
            let what = "could not connect to the daemon control socket at "@ + path + " ("@ + e;
            &&& unreachable_text(Request::Unlock, path, e) == what
                + ").\nIs the service running?  Start it with:\n    systemctl --user start bitwarden-ssh-agent.service"@
            &&& unreachable_text(Request::Refresh, path, e) == what
                + "). Is the service running?"@
            &&& unreachable_text(Request::List, path, e) == what + "). Is the service running?"@
        }),
{
}

/// A request that cannot be sent is told with what was being sent and the reason.
pub proof fn a_request_that_cannot_be_sent_is_named(e: String)
    ensures
        send_failure(Request::Unlock, SendError::Write(e)) == "sending password to the daemon: "@
            + e@,
        send_failure(Request::Unlock, SendError::Flush(e)) == "sending password to the daemon: "@
            + e@,
        send_failure(Request::Unlock, SendError::Close(e)) == "sending password to the daemon: "@
            + e@,
        send_failure(Request::Refresh, SendError::Write(e))
            == "sending refresh request to the daemon: "@ + e@,
        send_failure(Request::Refresh, SendError::Flush(e)) == "flushing refresh request: "@ + e@,
        send_failure(Request::Refresh, SendError::Close(e)) == "closing write side: "@ + e@,
        send_failure(Request::List, SendError::Write(e)) == "sending list request to the daemon: "@
            + e@,
        send_failure(Request::List, SendError::Flush(e)) == "flushing list request: "@ + e@,
        send_failure(Request::List, SendError::Close(e)) == "closing write side: "@ + e@,
{
    reveal_strlit(": ");
    reveal_strlit("sending password to the daemon");
    reveal_strlit("sending password to the daemon: ");
    assert("sending password to the daemon"@ + ": "@ =~= "sending password to the daemon: "@);
    reveal_strlit("sending refresh request to the daemon");
    reveal_strlit("sending refresh request to the daemon: ");
    assert("sending refresh request to the daemon"@ + ": "@
        =~= "sending refresh request to the daemon: "@);
    reveal_strlit("flushing refresh request");
    reveal_strlit("flushing refresh request: ");
    assert("flushing refresh request"@ + ": "@ =~= "flushing refresh request: "@);
    reveal_strlit("closing write side");
    reveal_strlit("closing write side: ");
    assert("closing write side"@ + ": "@ =~= "closing write side: "@);
    reveal_strlit("sending list request to the daemon");
    reveal_strlit("sending list request to the daemon: ");
    assert("sending list request to the daemon"@ + ": "@
        =~= "sending list request to the daemon: "@);
    reveal_strlit("flushing list request");
    reveal_strlit("flushing list request: ");
    assert("flushing list request"@ + ": "@ =~= "flushing list request: "@);
}

/// What the daemon answers reaches the user whole: the message that is shown is the
/// one that was sent, on standard error exactly where all did not go well, with the
/// exit code that goes with the status.
pub proof fn the_user_sees_what_the_daemon_answered(
    response: Response,
    bytes: Vec<u8>,
    r: ClientStep,
)
    requires
        call_ensures(write_response, (&response,), bytes),
        call_ensures(client_received, (Ok::<Vec<u8>, String>(bytes),), r),
    ensures
        r matches ClientStep::Finish(reply) && reply.message@ == response.message@
            && reply.is_error == (response.status != 0) && reply.exit_code == (
        if response.status == 0 {
            0i32
        } else if response.status == 1 {
            2i32
        } else {
            1i32
        }),
{
    the_client_gets_the_response_that_was_sent(response@);
}

/// What the daemon does next, and what it answers, is what stands there.
pub proof fn answers_are_what_stands_in_them(
    n: usize,
    after: AfterRead,
    p: Secret,
    r: Response,
    e: String,
    b: [u8; 4],
    v: Vec<u8>,
)
    ensures
        r@ == (ResponseView { status: r.status, message: r.message@ }),
        Serving::Read(n, after)@ == ServingView::Read(n as nat, after),
        Serving::Unlock(p)@ == ServingView::Unlock(p@),
        Serving::Refresh@ == ServingView::Refresh,
        Serving::List@ == ServingView::List,
        Serving::Refuse(r, e)@ == ServingView::Refuse(r@, e@),
        length_bytes(Ok(b)) == Ok::<Seq<u8>, Seq<char>>(b@),
        length_bytes(Err(e)) == Err::<Seq<u8>, Seq<char>>(e@),
        read_bytes(Ok(v)) == Ok::<Seq<u8>, Seq<char>>(v@),
        read_bytes(Err(e)) == Err::<Seq<u8>, Seq<char>>(e@),
{
}

/// The command line asks for what the user wants: the password first where the vault
/// is to be unlocked, and the one byte of the request otherwise. Without a daemon only
/// a refresh is no failure.
pub proof fn the_command_line_asks_for_what_is_wanted(
    path: &str,
    e: String,
    unlock: ClientStep,
    refresh: ClientStep,
    list: ClientStep,
    lost_unlock: ClientStep,
    lost_refresh: ClientStep,
    lost_list: ClientStep,
)
    requires
        call_ensures(client_connected, (Request::Unlock, path, Ok::<(), String>(())), unlock),
        call_ensures(client_connected, (Request::Refresh, path, Ok::<(), String>(())), refresh),
        call_ensures(client_connected, (Request::List, path, Ok::<(), String>(())), list),
        call_ensures(client_connected, (Request::Unlock, path, Err::<(), String>(e)), lost_unlock),
        call_ensures(client_connected, (Request::Refresh, path, Err::<(), String>(e)), lost_refresh),
        call_ensures(client_connected, (Request::List, path, Err::<(), String>(e)), lost_list),
    ensures
        unlock is Prompt,
        refresh matches ClientStep::Send(b) && b@ == seq![1u8],
        list matches ClientStep::Send(b) && b@ == seq![2u8],
        lost_unlock is Fail,
        lost_refresh is NoDaemon,
        lost_list is Fail,
{
}

/// The password that the user typed is the one that the daemon gets, over the wire and
/// back again.
pub proof fn the_typed_password_reaches_the_daemon(
    password: Secret,
    short: Seq<char>,
    r: ClientStep,
)
    requires
        call_ensures(client_prompted, (Ok::<Secret, String>(password),), r),
    ensures
        0 < encode_utf8(password@).len() <= 8192 ==> (r matches ClientStep::Send(b)
            && conversation(b@, short) == ServingView::Unlock(password@)),
        !(0 < encode_utf8(password@).len() <= 8192) ==> r is Fail,
{
    a_password_is_sent_behind_its_length(password@);
    if 0 < encode_utf8(password@).len() <= 8192 {
        the_daemon_gets_the_password_that_was_sent(password@, short);
    }
}

/// The daemon reads a request in the order in which it is sent, and answers each with
/// what came of it.
pub proof fn the_daemon_reads_a_request_in_order(
    first: Serving,
    command: u8,
    next: Serving,
    length: [u8; 4],
    then_read: Serving,
    body: Vec<u8>,
    last: Serving,
    unlocked: Result<UnlockOutcome, UnlockError>,
    unlock_answer: Response,
    refreshed: Result<RefreshOutcome, String>,
    refresh_answer: Response,
)
    requires
        call_ensures(serve_connection, (), first),
        call_ensures(command_read, (Ok::<u8, String>(command),), next),
        call_ensures(length_read, (Ok::<[u8; 4], String>(length),), then_read),
        call_ensures(body_read, (Ok::<Vec<u8>, String>(body),), last),
        call_ensures(handle_unlock, (unlocked,), unlock_answer),
        call_ensures(handle_refresh, (refreshed,), refresh_answer),
    ensures
        first@ == ServingView::Read(1, AfterRead::Command),
        command == 0 ==> next@ == ServingView::Read(4, AfterRead::Length),
        command == 1 ==> next@ == ServingView::Refresh,
        command == 2 ==> next@ == ServingView::List,
        command > 2 ==> next@ is Refuse,
        then_read@ == on_length(Ok(length@)),
        valid_utf8(body@) ==> last@ == ServingView::Unlock(decode_utf8(body@)),
        unlock_answer.status == 0 <==> unlocked is Ok,
        unlock_answer.status == 1 <==> unlocked matches Err(UnlockError::WrongPassword(_)),
        refresh_answer.status == 0 <==> refreshed is Ok,
{
}

} // verus!
