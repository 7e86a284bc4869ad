use bitwarden_ssh_agent::paths::{
    begins_at_root, credential_file, credential_path, join, pub_path_for, resolve_socket_path, resolve_ssh_dir,
    systemd_user_dir,
};

fn bytes(s: &str) -> Vec<u8> {
    s.as_bytes().to_vec()
}

#[test]
fn joining_puts_one_separator_between() {
    assert_eq!(join(bytes("/a"), "b"), bytes("/a/b"));
    assert_eq!(join(bytes("/a/"), "b"), bytes("/a/b"));
    assert_eq!(join(bytes(""), "b"), bytes("b"));
    assert_eq!(join(bytes("/"), "b"), bytes("/b"));
}

#[test]
fn the_agent_socket_is_in_the_runtime_directory() {
    assert_eq!(
        resolve_socket_path(None, Some(bytes("/run/user/1"))),
        Ok(bytes("/run/user/1/bitwarden-ssh-agent.sock"))
    );
    assert_eq!(
        resolve_socket_path(Some(bytes("/s")), Some(bytes("/run/user/1"))),
        Ok(bytes("/s"))
    );
    let missing = "XDG_RUNTIME_DIR is not set; pass --socket to choose a socket path explicitly";
    assert_eq!(resolve_socket_path(None, None), Err(missing.to_string()));
    assert_eq!(resolve_socket_path(None, Some(Vec::new())), Err(missing.to_string()));
}

#[test]
fn the_ssh_directory_is_in_the_home_directory() {
    let here = || Ok(bytes("/work"));
    assert_eq!(
        resolve_ssh_dir(None, Some(bytes("/home/me")), here()),
        Ok(bytes("/home/me/.ssh"))
    );
    assert_eq!(resolve_ssh_dir(Some(bytes("/k")), None, here()), Ok(bytes("/k")));
    assert_eq!(
        resolve_ssh_dir(None, None, here()),
        Err("HOME is not set; pass --ssh-dir to choose a directory to scan".to_string())
    );
}

#[test]
fn a_relative_ssh_directory_is_taken_from_the_current_one() {
    let keys = || Some(bytes("keys"));
    assert_eq!(
        resolve_ssh_dir(keys(), None, Ok(bytes("/work"))),
        Ok(bytes("/work/keys"))
    );
    assert_eq!(resolve_ssh_dir(keys(), None, Ok(bytes("/"))), Ok(bytes("/keys")));
    assert_eq!(
        resolve_ssh_dir(None, Some(bytes("me")), Ok(bytes("/work/"))),
        Ok(bytes("/work/me/.ssh"))
    );
    assert_eq!(
        resolve_ssh_dir(keys(), None, Err("gone".to_string())),
        Err("resolving the current directory: gone".to_string())
    );
    assert_eq!(
        resolve_ssh_dir(keys(), None, Ok(bytes("work"))),
        Err("the current directory is not an absolute path".to_string())
    );
    assert_eq!(
        resolve_ssh_dir(Some(Vec::new()), None, Ok(bytes("/work"))),
        Err("--ssh-dir is empty; pass a directory to scan".to_string())
    );
    assert!(begins_at_root(&bytes("/x")));
    assert!(!begins_at_root(&bytes("x/")));
}

#[test]
fn the_unit_goes_to_the_users_own_units() {
    assert_eq!(
        systemd_user_dir(None, Some(bytes("/home/me"))),
        bytes("/home/me/.config/systemd/user")
    );
    assert_eq!(
        systemd_user_dir(Some(bytes("/xdg")), None),
        bytes("/xdg/systemd/user")
    );
}

#[test]
fn credentials_have_their_places() {
    assert_eq!(
        credential_path(Some(bytes("/creds")), "bw_master_password"),
        Some(bytes("/creds/bw_master_password"))
    );
    assert_eq!(credential_path(Some(Vec::new()), "x"), None);
    assert_eq!(credential_path(None, "x"), None);
    assert_eq!(
        credential_file(Some(bytes("/etc/agent"))),
        bytes("/etc/agent/bw_master_password.cred")
    );
    assert_eq!(credential_file(None), bytes("./bw_master_password.cred"));
}

#[test]
fn public_halves_lie_next_to_the_private_ones() {
    assert_eq!(pub_path_for(&bytes("/h/.ssh/id_rsa")), bytes("/h/.ssh/id_rsa.pub"));
}
