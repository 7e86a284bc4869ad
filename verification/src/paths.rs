//! Paths of files and sockets, as bytes.
//!
//! A path is whatever bytes the operating system uses for it; no encoding is
//! implied.

use vstd::prelude::*;
use vstd::string::*;
use vstd::slice::slice_to_vec;
use vstd::utf8::encode_utf8;

use crate::process::{because, bytes_of, with_context};

verus! {

/// The relative path `rest` below `base`.
pub open spec fn below(base: Seq<u8>, rest: Seq<u8>) -> Seq<u8> {
    if base.len() == 0 || base.last() == 0x2f {
        base + rest
    } else {
        base.push(0x2f) + rest
    }
}

/// The path of the relative `name` under `base`.
pub open spec fn under(base: Seq<u8>, name: Seq<char>) -> Seq<u8> {
    below(base, encode_utf8(name))
}

/// Whether a path begins at the root.
pub open spec fn is_absolute(path: Seq<u8>) -> bool {
    path.len() > 0 && path[0] == 0x2f
}

/// Whether a path begins at the root.
pub fn begins_at_root(path: &Vec<u8>) -> (r: bool)
    ensures
        r == is_absolute(path@),
{
    path.len() > 0 && path[0] == 0x2f
}

/// `bytes` with the encoding of `s` behind it.
fn append_text(bytes: &mut Vec<u8>, s: &str)
    ensures
        final(bytes)@ == old(bytes)@ + encode_utf8(s@),
{
    let mut tail: Vec<u8> = slice_to_vec(s.as_bytes());
    bytes.append(&mut tail);
}

/// The path of the relative `name` under `base`.
pub fn join(base: Vec<u8>, name: &str) -> (r: Vec<u8>)
    ensures
        r@ == under(base@, name@),
{
    let mut r: Vec<u8> = base;
    if r.len() > 0 && r[r.len() - 1] != 0x2f {
        r.push(0x2f);
    }
    append_text(&mut r, name);
    r
}

/// A directory named by the environment counts only if the name is not empty.
pub open spec fn usable(dir: Option<Seq<u8>>) -> Option<Seq<u8>> {
    match dir {
        Some(d) => if d.len() == 0 {
            None
        } else {
            Some(d)
        },
        None => None,
    }
}

/// `dir`, unless its name is empty.
fn usable_dir(dir: Option<Vec<u8>>) -> (r: Option<Vec<u8>>)
    ensures
        bytes_of(r) == usable(bytes_of(dir)),
{
    match dir {
        Some(d) => if d.len() == 0 {
            None
        } else {
            Some(d)
        },
        None => None,
    }
}

/// `name` in the directory `dir`, unless a path is given outright.
pub open spec fn chosen(
    explicit: Option<Seq<u8>>,
    dir: Option<Seq<u8>>,
    name: Seq<char>,
) -> Option<Seq<u8>> {
    match explicit {
        Some(p) => Some(p),
        None => match usable(dir) {
            Some(d) => Some(under(d, name)),
            None => None,
        },
    }
}

/// The path given outright, or else `name` in the directory `dir`; an error
/// with the text `missing` where there is no such directory.
fn choose_path(
    explicit: Option<Vec<u8>>,
    dir: Option<Vec<u8>>,
    name: &str,
    missing: &str,
) -> (r: Result<Vec<u8>, String>)
    ensures
        r is Ok <==> chosen(bytes_of(explicit), bytes_of(dir), name@) is Some,
        r matches Ok(p) ==> chosen(bytes_of(explicit), bytes_of(dir), name@) == Some(p@),
        r matches Err(e) ==> e@ == missing@,
{
    match explicit {
        Some(p) => Ok(p),
        None => match usable_dir(dir) {
            Some(d) => Ok(join(d, name)),
            None => Err(missing.to_owned()),
        },
    }
}

/// The file name of the agent socket in the runtime directory.
pub const SOCKET_NAME: &'static str = "bitwarden-ssh-agent.sock";

/// The file name of the control socket in the runtime directory.
pub const CONTROL_SOCKET_NAME: &'static str = "bitwarden-ssh-agent.ctl";

/// The file name of the encrypted master password.
pub const CREDENTIAL_FILENAME: &'static str = "bw_master_password.cred";

/// The file name of the systemd user unit.
pub const UNIT_FILENAME: &'static str = "bitwarden-ssh-agent.service";

/// The name of the systemd credential that holds the master password.
pub const MASTER_PW_CREDENTIAL: &'static str = "bw_master_password";

/// The agent socket: the one asked for, else the one in `$XDG_RUNTIME_DIR`.
pub fn resolve_socket_path(explicit: Option<Vec<u8>>, runtime_dir: Option<Vec<u8>>) -> (r: Result<
    Vec<u8>,
    String,
>)
    ensures
        r is Ok <==> chosen(bytes_of(explicit), bytes_of(runtime_dir), SOCKET_NAME@) is Some,
        r matches Ok(p) ==> chosen(bytes_of(explicit), bytes_of(runtime_dir), SOCKET_NAME@) == Some(
            p@,
        ),
        r matches Err(e) ==> e@
            == "XDG_RUNTIME_DIR is not set; pass --socket to choose a socket path explicitly"@,
{
    choose_path(
        explicit,
        runtime_dir,
        SOCKET_NAME,
        "XDG_RUNTIME_DIR is not set; pass --socket to choose a socket path explicitly",
    )
}

/// The control socket: the one asked for, else the one in `$XDG_RUNTIME_DIR`.
pub fn resolve_control_path(explicit: Option<Vec<u8>>, runtime_dir: Option<Vec<u8>>) -> (r: Result<
    Vec<u8>,
    String,
>)
    ensures
        r is Ok <==> chosen(
            bytes_of(explicit),
            bytes_of(runtime_dir),
            CONTROL_SOCKET_NAME@,
        ) is Some,
        r matches Ok(p) ==> chosen(
            bytes_of(explicit),
            bytes_of(runtime_dir),
            CONTROL_SOCKET_NAME@,
        ) == Some(p@),
        r matches Err(e) ==> e@
            == "XDG_RUNTIME_DIR is not set; pass --control-socket to choose a path explicitly"@,
{
    choose_path(
        explicit,
        runtime_dir,
        CONTROL_SOCKET_NAME,
        "XDG_RUNTIME_DIR is not set; pass --control-socket to choose a path explicitly",
    )
}

/// The SSH directory to scan, or why there is none: the one asked for, else
/// `~/.ssh`. It begins at the root; one that does not is taken from the current
/// directory.
pub open spec fn ssh_dir(
    explicit: Option<Seq<u8>>,
    home: Option<Seq<u8>>,
    current: Result<Seq<u8>, Seq<char>>,
) -> Result<Seq<u8>, Seq<char>> {
    match chosen(explicit, home, ".ssh"@) {
        None => Err("HOME is not set; pass --ssh-dir to choose a directory to scan"@),
        Some(dir) => if is_absolute(dir) {
            Ok(dir)
        } else if dir.len() == 0 {
            Err("--ssh-dir is empty; pass a directory to scan"@)
        } else {
            match current {
                Err(e) => Err(because("resolving the current directory"@, e)),
                Ok(c) => if is_absolute(c) {
                    Ok(below(c, dir))
                } else {
                    Err("the current directory is not an absolute path"@)
                },
            }
        },
    }
}

/// The bytes of a path, or why it is not known.
pub open spec fn path_of(path: Result<Vec<u8>, String>) -> Result<Seq<u8>, Seq<char>> {
    match path {
        Ok(p) => Ok(p@),
        Err(e) => Err(e@),
    }
}

/// The SSH directory to scan: the one asked for, else `~/.ssh`. It begins at the
/// root.
pub fn resolve_ssh_dir(
    explicit: Option<Vec<u8>>,
    home: Option<Vec<u8>>,
    current: Result<Vec<u8>, String>,
) -> (r: Result<Vec<u8>, String>)
    ensures
        path_of(r) == ssh_dir(bytes_of(explicit), bytes_of(home), path_of(current)),
        r matches Ok(dir) ==> is_absolute(dir@),
{
    let mut dir: Vec<u8> = match choose_path(
        explicit,
        home,
        ".ssh",
        "HOME is not set; pass --ssh-dir to choose a directory to scan",
    ) {
        Ok(dir) => dir,
        Err(e) => {
            return Err(e);
        },
    };
    if begins_at_root(&dir) {
        return Ok(dir);
    }
    if dir.len() == 0 {
        return Err("--ssh-dir is empty; pass a directory to scan".to_owned());
    }
    match current {
        Err(e) => Err(with_context("resolving the current directory", e.as_str())),
        Ok(c) => if begins_at_root(&c) {
            let mut r: Vec<u8> = c;
            if r[r.len() - 1] != 0x2f {
                r.push(0x2f);
            }
            r.append(&mut dir);
            Ok(r)
        } else {
            Err("the current directory is not an absolute path".to_owned())
        },
    }
}

/// The directory of the user's configuration files: `$XDG_CONFIG_HOME`, or
/// `.config` in the home directory (in the current one where there is no home).
pub open spec fn config_home(xdg: Option<Seq<u8>>, home: Option<Seq<u8>>) -> Seq<u8> {
    match usable(xdg) {
        Some(dir) => dir,
        None => under(
            match home {
                Some(h) => h,
                None => Seq::empty(),
            },
            ".config"@,
        ),
    }
}

/// The directory of the user's configuration files.
fn config_base(xdg: Option<Vec<u8>>, home: Option<Vec<u8>>) -> (r: Vec<u8>)
    ensures
        r@ == config_home(bytes_of(xdg), bytes_of(home)),
{
    match usable_dir(xdg) {
        Some(dir) => dir,
        None => {
            let base: Vec<u8> = match home {
                Some(h) => h,
                None => Vec::new(),
            };
            join(base, ".config")
        },
    }
}

/// `bitwarden-ssh-agent/config.toml` among the user's configuration files.
pub fn default_config_path(xdg: Option<Vec<u8>>, home: Option<Vec<u8>>) -> (r: Vec<u8>)
    ensures
        r@ == under(
            under(config_home(bytes_of(xdg), bytes_of(home)), "bitwarden-ssh-agent"@),
            "config.toml"@,
        ),
{
    join(join(config_base(xdg, home), "bitwarden-ssh-agent"), "config.toml")
}

/// `systemd/user` among the user's configuration files.
pub fn systemd_user_dir(xdg: Option<Vec<u8>>, home: Option<Vec<u8>>) -> (r: Vec<u8>)
    ensures
        r@ == under(under(config_home(bytes_of(xdg), bytes_of(home)), "systemd"@), "user"@),
{
    join(join(config_base(xdg, home), "systemd"), "user")
}

/// Where systemd puts the credential `name`, if it provides credentials.
pub fn credential_path(directory: Option<Vec<u8>>, name: &str) -> (r: Option<Vec<u8>>)
    ensures
        bytes_of(r) == (match usable(bytes_of(directory)) {
            Some(d) => Some(under(d, name@)),
            None => None,
        }),
{
    match usable_dir(directory) {
        Some(d) => Some(join(d, name)),
        None => None,
    }
}

/// The encrypted master password, next to the configuration file: `parent` is
/// the directory that the configuration file's path names, if it names one.
pub fn credential_file(parent: Option<Vec<u8>>) -> (r: Vec<u8>)
    ensures
        r@ == under(
            match bytes_of(parent) {
                Some(p) => p,
                None => encode_utf8("."@),
            },
            CREDENTIAL_FILENAME@,
        ),
{
    let base: Vec<u8> = match parent {
        Some(p) => p,
        None => slice_to_vec(".".as_bytes()),
    };
    join(base, CREDENTIAL_FILENAME)
}

/// The public half that belongs to a private key file: the same path with
/// `.pub` behind it.
pub fn pub_path_for(private_path: &Vec<u8>) -> (r: Vec<u8>)
    ensures
        r@ == private_path@ + encode_utf8(".pub"@),
{
    let mut r: Vec<u8> = slice_to_vec(private_path.as_slice());
    append_text(&mut r, ".pub");
    r
}

// --- laws -------------------------------------------------------------------

/// A path below a directory is the directory and what comes below it, with
/// exactly one `/` between them, whether or not the directory's name ends in one.
/// Below the empty name there is nothing but the rest.
pub proof fn one_slash_stands_between(base: Seq<u8>, rest: Seq<u8>, name: Seq<char>)
    ensures
        below(Seq::empty(), rest) == rest,
        base.len() > 0 && base.last() != 0x2f ==> below(base, rest) == base + seq![0x2fu8] + rest,
        base.len() > 0 && base.last() != 0x2f ==> below(base, rest) == below(base.push(0x2f), rest),
        under(base, name) == below(base, encode_utf8(name)),
        is_absolute(base) ==> is_absolute(below(base, rest)),
{
    assert(Seq::<u8>::empty() + rest =~= rest);
    assert(base.push(0x2f) =~= base + seq![0x2fu8]);
}

/// A path that is given outright is the one that is taken, whatever the
/// environment says. Where none is given, a directory whose name is not empty is
/// what counts, and without one there is no path.
pub proof fn an_explicit_path_wins(
    path: Seq<u8>,
    dir: Seq<u8>,
    other: Option<Seq<u8>>,
    name: Seq<char>,
)
    ensures
        chosen(Some(path), other, name) == Some(path),
        dir.len() > 0 ==> chosen(None, Some(dir), name) == Some(under(dir, name)),
        chosen(None, Some(Seq::empty()), name) is None,
        chosen(None, None, name) is None,
{
}

/// The SSH directory is found from the root on: one that is given so is taken as
/// it is, one that is not is found below the current directory, and where none is
/// given it is `.ssh` below the home directory.
pub proof fn the_ssh_directory_begins_at_the_root(
    dir: Seq<u8>,
    home: Seq<u8>,
    other: Option<Seq<u8>>,
    current: Seq<u8>,
    e: Seq<char>,
    any: Result<Seq<u8>, Seq<char>>,
)
    ensures
        is_absolute(dir) <==> dir.len() > 0 && dir[0] == 0x2f,
        is_absolute(dir) ==> ssh_dir(Some(dir), other, any) == Ok::<Seq<u8>, Seq<char>>(dir),
        is_absolute(home) ==> ssh_dir(None, Some(home), any) == Ok::<Seq<u8>, Seq<char>>(
            under(home, ".ssh"@),
        ),
        dir.len() > 0 && !is_absolute(dir) && is_absolute(current) ==> ssh_dir(
            Some(dir),
            other,
            Ok(current),
        ) == Ok::<Seq<u8>, Seq<char>>(below(current, dir)),
        dir.len() > 0 && !is_absolute(dir) ==> ssh_dir(Some(dir), other, Err(e)) == Err::<
            Seq<u8>,
            Seq<char>,
        >("resolving the current directory: "@ + e),
        ssh_dir(None, None, any) is Err,
        ssh_dir(None, Some(Seq::empty()), any) is Err,
        ssh_dir(Some(dir), other, any) matches Ok(d) ==> is_absolute(d),
        ssh_dir(None, other, any) matches Ok(d) ==> is_absolute(d),
{
    reveal_strlit("resolving the current directory");
    reveal_strlit("resolving the current directory: ");
    reveal_strlit(": ");
    assert("resolving the current directory"@ + ": "@ =~= "resolving the current directory: "@);
}

/// The user's configuration files are where `$XDG_CONFIG_HOME` says, unless that
/// is empty or not set: then they are in `.config` in the home directory.
pub proof fn configuration_files_have_their_place(
    xdg: Seq<u8>,
    home: Seq<u8>,
    other: Option<Seq<u8>>,
)
    ensures
        xdg.len() > 0 ==> config_home(Some(xdg), other) == xdg,
        config_home(Some(Seq::empty()), other) == config_home(None, other),
        config_home(None, Some(home)) == under(home, ".config"@),
        config_home(None, None) == encode_utf8(".config"@),
{
    assert(Seq::<u8>::empty() + encode_utf8(".config"@) =~= encode_utf8(".config"@));
}

/// The sockets are where they were asked to be, and else in the runtime directory,
/// each under its own name; without that directory there is none.
pub proof fn the_sockets_have_their_place(
    explicit: Option<Vec<u8>>,
    runtime: Option<Vec<u8>>,
    agent: Result<Vec<u8>, String>,
    control: Result<Vec<u8>, String>,
)
    requires
        call_ensures(resolve_socket_path, (explicit, runtime), agent),
        call_ensures(resolve_control_path, (explicit, runtime), control),
    ensures
        explicit matches Some(p) ==> (agent matches Ok(a) && a@ == p@) && (control matches Ok(c)
            && c@ == p@),
        explicit is None ==> (runtime matches Some(d) ==> (d@.len() > 0 ==> (agent matches Ok(a)
            && a@ == under(d@, "bitwarden-ssh-agent.sock"@)) && (control matches Ok(c) && c@
            == under(d@, "bitwarden-ssh-agent.ctl"@)))),
        explicit is None && (runtime is None || runtime->0@.len() == 0) ==> agent is Err
            && control is Err,
{
}

/// The files of the agent are where the user's configuration files are, each under its
/// own name.
pub proof fn the_files_have_their_place(
    xdg: Option<Vec<u8>>,
    home: Option<Vec<u8>>,
    config: Vec<u8>,
    units: Vec<u8>,
    parent: Vec<u8>,
    credential: Vec<u8>,
    private: &Vec<u8>,
    public: Vec<u8>,
)
    requires
        call_ensures(default_config_path, (xdg, home), config),
        call_ensures(systemd_user_dir, (xdg, home), units),
        call_ensures(credential_file, (Some(parent),), credential),
        call_ensures(pub_path_for, (private,), public),
    ensures
        config@ == under(
            under(config_home(bytes_of(xdg), bytes_of(home)), "bitwarden-ssh-agent"@),
            "config.toml"@,
        ),
        units@ == under(
            under(config_home(bytes_of(xdg), bytes_of(home)), "systemd"@),
            "user"@,
        ),
        credential@ == under(parent@, "bw_master_password.cred"@),
        public@ == private@ + encode_utf8(".pub"@),
{
}

/// The credential of the service is in the directory that systemd names, if it names
/// one.
pub proof fn the_credential_is_where_systemd_says(
    directory: Option<Vec<u8>>,
    name: &str,
    r: Option<Vec<u8>>,
)
    requires
        call_ensures(credential_path, (directory, name), r),
    ensures
        directory matches Some(d) ==> (d@.len() > 0 ==> (r matches Some(p) && p@ == under(
            d@,
            name@,
        ))),
        directory is None || directory->0@.len() == 0 ==> r is None,
{
}

/// A name is put below its directory with one `/` between them, and a path is known to
/// begin at the root by its first byte.
pub proof fn names_are_put_below_directories(
    base: Vec<u8>,
    name: &str,
    joined: Vec<u8>,
    path: &Vec<u8>,
    rooted: bool,
)
    requires
        call_ensures(join, (base, name), joined),
        call_ensures(begins_at_root, (path,), rooted),
    ensures
        base@.len() > 0 && base@.last() != 0x2f ==> joined@ == base@ + seq![0x2fu8] + encode_utf8(
            name@,
        ),
        base@.len() > 0 && base@.last() == 0x2f ==> joined@ == base@ + encode_utf8(name@),
        base@.len() == 0 ==> joined@ == encode_utf8(name@),
        rooted <==> path@.len() > 0 && path@[0] == 0x2f,
{
    assert(base@.push(0x2f) =~= base@ + seq![0x2fu8]);
    if base@.len() == 0 {
        assert(base@ + encode_utf8(name@) =~= encode_utf8(name@));
    }
}

/// The directory that is scanned is the one that was asked for, from the root on.
pub proof fn the_directory_asked_for_is_scanned(
    dir: Vec<u8>,
    home: Option<Vec<u8>>,
    current: Vec<u8>,
    r: Result<Vec<u8>, String>,
    own: Vec<u8>,
    fallback: Result<Vec<u8>, String>,
)
    requires
        call_ensures(resolve_ssh_dir, (Some(dir), home, Ok::<Vec<u8>, String>(current)), r),
        call_ensures(
            resolve_ssh_dir,
            (None::<Vec<u8>>, Some(own), Ok::<Vec<u8>, String>(current)),
            fallback,
        ),
    ensures
        is_absolute(dir@) ==> (r matches Ok(p) && p@ == dir@),
        dir@.len() > 0 && !is_absolute(dir@) && is_absolute(current@) ==> (r matches Ok(p) && p@
            == below(current@, dir@)),
        is_absolute(own@) ==> (fallback matches Ok(p) && p@ == under(own@, ".ssh"@)),
{
}

} // verus!
