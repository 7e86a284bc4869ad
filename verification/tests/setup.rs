use bitwarden_ssh_agent::bitwarden::{BitwardenCli, Broken, Status};
use bitwarden_ssh_agent::config::{Config, ConfigEnv};
use bitwarden_ssh_agent::process::{Input, Output};
use bitwarden_ssh_agent::secret::Secret;
use bitwarden_ssh_agent::setup::{
    api_key_entered, cli_installed, collect_and_validate_api_key, config_answered,
    config_settings, config_text, credential_answered, credential_directory_made,
    credential_made_private, enable_and_start, ensure_bw_cli, install_answered,
    install_systemd_unit, key_retry_answered, logged_out, login_tried,
    master_password_encrypted, master_password_entered, master_password_tried, npm_checked,
    password_retry_answered, program_runs, provision_master_password, render_unit,
    run_systemctl, server_set, service_called, shell_rc_hint, ssh_auth_sock_hint, status_known,
    step, systemctl, under_header, validate_api_key, version_checked_again, write_config,
    ApiKeyInput, CliStep, ConfigStep, Existing, KeyCheck, KeyTrial, PasswordStep, PasswordTrial,
    ServiceCall, ServiceStep, ShellHint, UnlockStrategy, NOT_STARTED, TOTAL_STEPS,
};

fn x() -> String {
    "x".to_string()
}

fn well(stdout: &str) -> Output {
    Output { success: true, stdout: stdout.as_bytes().to_vec(), stderr: Vec::new() }
}

fn badly(stdout: &str, stderr: &str) -> Output {
    Output {
        success: false,
        stdout: stdout.as_bytes().to_vec(),
        stderr: stderr.as_bytes().to_vec(),
    }
}

fn cli(server: Option<&str>) -> BitwardenCli {
    BitwardenCli::new(server.map(|s| s.to_string()), None)
}

/// An API key of this server.
fn entered(server: &str) -> ApiKeyInput {
    api_key_entered("user.x", Secret::new("s".to_string()), server)
}

fn status(s: &str) -> Result<Status, String> {
    Ok(Status { status: s.to_string() })
}

#[test]
fn steps_are_counted() {
    assert_eq!(TOTAL_STEPS, 6);
    assert_eq!(step(1, "Bitwarden CLI (`bw`)", false), "Step 1/6: Bitwarden CLI (`bw`)");
}

#[test]
fn a_cli_that_is_there_is_used() {
    match ensure_bw_cli(Ok("2024.1".to_string())) {
        CliStep::Ready(line) => assert_eq!(line, "Found Bitwarden CLI (version 2024.1)."),
        _ => panic!("not ready"),
    }
}

#[test]
fn a_cli_that_is_not_there_is_installed_on_request() {
    match ensure_bw_cli(Err(x())) {
        CliStep::CheckNpm(call) => {
            assert_eq!(call.program, "npm");
            assert_eq!(call.args, vec!["--version"]);
        }
        _ => panic!("no look for npm"),
    }
    assert!(matches!(npm_checked(Ok(true)), CliStep::AskInstall));
    match install_answered(true) {
        CliStep::Install(call) => {
            assert_eq!(call.program, "npm");
            assert_eq!(call.args, vec!["install", "-g", "@bitwarden/cli"]);
        }
        _ => panic!("no installation"),
    }
    assert!(matches!(cli_installed(Ok(true)), CliStep::CheckAgain));
    match version_checked_again(Ok("2024.1".to_string())) {
        CliStep::Ready(line) => assert_eq!(line, "Installed Bitwarden CLI (version 2024.1)."),
        _ => panic!("not ready"),
    }
}

#[test]
fn what_keeps_the_cli_from_being_there_is_told() {
    let why = |s| match s {
        CliStep::Fail(e) => e,
        _ => panic!("no failure"),
    };
    assert_eq!(
        why(npm_checked(Ok(false))),
        "`bw` is not installed and `npm` is not available to install it.\nInstall Node.js (which provides npm) from https://nodejs.org, then\nrun `npm install -g @bitwarden/cli`, and re-run `setup`."
    );
    assert_eq!(
        why(install_answered(false)),
        "Bitwarden CLI is required. Install it with\n`npm install -g @bitwarden/cli` and re-run `setup`."
    );
    assert_eq!(
        why(cli_installed(Ok(false))),
        "`npm install -g @bitwarden/cli` failed. Install `bw` manually and re-run `setup`."
    );
    assert_eq!(
        why(cli_installed(Err(x()))),
        "spawning `npm install -g @bitwarden/cli`: x"
    );
    assert_eq!(
        why(version_checked_again(Err(x()))),
        "`bw` was installed but is still not on your PATH. The npm global bin directory (`npm config get prefix`/bin) may not be on PATH. Add it, or set BW_CLI_PATH, then re-run `setup`."
    );
    assert!(program_runs(Ok(true)));
    assert!(!program_runs(Ok(false)));
    assert!(!program_runs(Err(x())));
}

#[test]
fn an_api_key_is_entered_with_or_without_a_server() {
    let entered = api_key_entered(" user.x ", Secret::new(" s ".to_string()), "  ");
    assert_eq!(entered.client_id, "user.x");
    assert_eq!(entered.client_secret.expose(), " s ");
    assert_eq!(entered.server, None);
    let entered = api_key_entered("user.x", Secret::new(x()), " https://v.example\n");
    assert_eq!(entered.server, Some("https://v.example".to_string()));
}

/// A key on trial, at this server.
fn trial(server: &str) -> KeyTrial {
    match validate_api_key(entered(server), None) {
        KeyCheck::Logout(_, trial) => trial,
        _ => panic!("no logout"),
    }
}

#[test]
fn an_api_key_is_tried_with_a_login() {
    assert!(matches!(collect_and_validate_api_key(), KeyCheck::AskKey));
    let trial = match validate_api_key(entered(""), Some("/opt/bw".to_string())) {
        KeyCheck::Logout(call, trial) => {
            assert_eq!(call.program, "/opt/bw");
            assert_eq!(call.args, vec!["logout"]);
            trial
        }
        _ => panic!("no logout"),
    };
    let trial = match logged_out(trial, Ok(badly("", "You are not logged in."))) {
        KeyCheck::AskStatus(call, trial) => {
            assert_eq!(call.args, vec!["status"]);
            trial
        }
        _ => panic!("no status"),
    };
    let trial = match status_known(trial, status("unauthenticated")) {
        KeyCheck::Login(call, trial) => {
            assert_eq!(call.program, "/opt/bw");
            assert_eq!(call.args, vec!["login", "--apikey"]);
            trial
        }
        _ => panic!("no login"),
    };
    match login_tried(trial, Ok(well(""))) {
        KeyCheck::Accepted(input) => {
            assert_eq!(input.client_id, "user.x");
            assert_eq!(input.client_secret.expose(), "s");
            assert_eq!(input.server, None);
        }
        _ => panic!("not accepted"),
    }
    match status_known(self::trial(""), status("locked")) {
        KeyCheck::Accepted(input) => assert_eq!(input.client_id, "user.x"),
        _ => panic!("not accepted"),
    }
}

#[test]
fn an_api_key_of_another_server_is_tried_there() {
    match status_known(trial("https://v"), status("unauthenticated")) {
        KeyCheck::SetServer { server, call, login, trial } => {
            assert_eq!(server, "https://v");
            assert_eq!(call.args, vec!["config", "server", "https://v"]);
            assert_eq!(login.args, vec!["login", "--apikey"]);
            match server_set(trial, &server, login, Ok(well(""))) {
                KeyCheck::Login(call, trial) => {
                    assert_eq!(call.args, vec!["login", "--apikey"]);
                    match login_tried(trial, Ok(well(""))) {
                        KeyCheck::Accepted(input) => {
                            assert_eq!(input.server, Some("https://v".to_string()))
                        }
                        _ => panic!("not accepted"),
                    }
                }
                _ => panic!("no login"),
            }
        }
        _ => panic!("no server"),
    }
}

#[test]
fn why_an_api_key_is_rejected_is_told() {
    let why = |c| match c {
        KeyCheck::AskRetry(e) => e,
        _ => panic!("not rejected"),
    };
    assert_eq!(why(logged_out(trial(""), Err(x()))), "running `bw logout`: x");
    assert_eq!(why(status_known(trial(""), Err(x()))), "x");
    assert_eq!(
        why(server_set(trial("s"), "s", cli(None).logout(), Ok(badly("", "no")))),
        "`bw config server s` failed: no"
    );
    assert_eq!(
        why(login_tried(trial(""), Ok(badly("", "bad key")))),
        "`bw login --apikey` failed: bad key"
    );
    assert!(matches!(key_retry_answered(true), KeyCheck::AskKey));
    match key_retry_answered(false) {
        KeyCheck::Fail(e) => assert_eq!(e, "aborted: API key not validated"),
        _ => panic!("not given up"),
    }
}

#[test]
fn a_configuration_that_is_there_is_overwritten_on_request_only() {
    assert!(matches!(write_config(false), ConfigStep::Write));
    assert!(matches!(write_config(true), ConfigStep::Ask));
    assert!(matches!(config_answered(Existing::Overwrite), ConfigStep::Write));
    assert!(matches!(config_answered(Existing::Reuse), ConfigStep::Keep));
    match config_answered(Existing::Abort) {
        ConfigStep::Fail(e) => assert_eq!(e, "aborted at config-file step"),
        _ => panic!("no failure"),
    }
}

#[test]
fn what_is_written_is_loaded_again() {
    let empty = ConfigEnv { client_id: None, client_secret: None, server: None };
    let settings = config_settings(&entered("https://v"));
    let loaded = match Config::load_from(empty, Some(settings)) {
        Ok(c) => c,
        Err(e) => panic!("{}", e),
    };
    let key = loaded.api_key.expect("a key");
    assert_eq!(key.client_id, "user.x");
    assert_eq!(key.client_secret.expose(), "s");
    assert_eq!(loaded.server, Some("https://v".to_string()));
}

/// What stands at the top of the configuration file.
const WARNING: &str = "# Managed by `bitwarden-ssh-agent setup`.\n# Holds ONLY the Bitwarden API key (device auth). Never put your\n# master password here.\n\n";

fn written(input: &ApiKeyInput) -> String {
    match config_text(input) {
        Ok(contents) => contents.expose().to_string(),
        Err(e) => panic!("{}", e),
    }
}

#[test]
fn the_configuration_file_begins_with_a_warning() {
    match under_header(Ok("client_id = \"x\"\n".to_string())) {
        Ok(contents) => {
            assert_eq!(contents.expose(), format!("{WARNING}client_id = \"x\"\n"))
        }
        Err(e) => panic!("{}", e),
    }
    match under_header(Err(x())) {
        Ok(_) => panic!("written"),
        Err(e) => assert_eq!(e, "serializing config file: x"),
    }
}

#[test]
fn the_configuration_file_holds_what_was_entered() {
    assert_eq!(
        written(&entered("https://v")),
        format!(
            "{WARNING}client_id = \"user.x\"\nclient_secret = \"s\"\nserver = \"https://v\"\n"
        )
    );
    assert_eq!(
        written(&entered("")),
        format!("{WARNING}client_id = \"user.x\"\nclient_secret = \"s\"\n")
    );
    let odd = api_key_entered("a\"b", Secret::new("c\\d\n".to_string()), "");
    let table: toml::Table = match written(&odd).parse() {
        Ok(table) => table,
        Err(_) => panic!("no TOML"),
    };
    assert_eq!(table["client_id"].as_str(), Some("a\"b"));
    assert_eq!(table["client_secret"].as_str(), Some("c\\d\n"));
    assert_eq!(table.len(), 2);
}

#[test]
fn the_master_password_is_asked_for_on_request_only() {
    assert!(matches!(
        provision_master_password(false, true),
        PasswordStep::Settled(UnlockStrategy::OnDemand)
    ));
    assert!(matches!(
        provision_master_password(true, true),
        PasswordStep::AskExisting
    ));
    assert!(matches!(
        provision_master_password(true, false),
        PasswordStep::AskPassword
    ));
    assert!(matches!(
        credential_answered(Existing::Overwrite),
        PasswordStep::AskPassword
    ));
    assert!(matches!(
        credential_answered(Existing::Reuse),
        PasswordStep::Settled(UnlockStrategy::Credential)
    ));
    match credential_answered(Existing::Abort) {
        PasswordStep::Fail(e) => assert_eq!(e, "aborted at master-password step"),
        _ => panic!("no failure"),
    }
}

/// The master password on trial.
fn password_trial() -> PasswordTrial {
    let password = Secret::new("pw".to_string());
    match master_password_entered(&cli(None), password, b"/c/x.cred".to_vec()) {
        PasswordStep::Verify(call, trial) => {
            assert_eq!(call.args[0], "unlock");
            trial
        }
        _ => panic!("not tried"),
    }
}

#[test]
fn a_password_that_unlocks_the_vault_is_encrypted() {
    let trial = match master_password_tried(password_trial(), Ok(well("session"))) {
        PasswordStep::MakeDirectory(trial) => trial,
        _ => panic!("not taken"),
    };
    let file = match credential_directory_made(trial, "/c", Ok(())) {
        PasswordStep::Encrypt { call, file } => {
            assert_eq!(call.program, "systemd-creds");
            assert_eq!(call.args, vec!["encrypt", "--user", "--name=bw_master_password", "-"]);
            assert_eq!(call.path, Some(b"/c/x.cred".to_vec()));
            assert!(call.env.is_empty());
            match call.input {
                Input::Sealed(s) => assert_eq!(s.expose(), "pw"),
                _ => panic!("no password"),
            }
            file
        }
        _ => panic!("not encrypted"),
    };
    let file = match master_password_encrypted(file, Ok(well(""))) {
        PasswordStep::SetMode { file, mode } => {
            assert_eq!(file, b"/c/x.cred".to_vec());
            assert_eq!(mode, 0o600);
            file
        }
        _ => panic!("left open"),
    };
    assert!(matches!(
        credential_made_private(&file, Ok(())),
        PasswordStep::Settled(UnlockStrategy::Credential)
    ));
}

#[test]
fn a_password_that_does_not_unlock_the_vault_is_not() {
    match master_password_tried(password_trial(), Ok(badly("", "no"))) {
        PasswordStep::AskRetry(e) => {
            assert_eq!(e, "`bw unlock` failed (wrong master password?): no")
        }
        _ => panic!("taken"),
    }
    assert!(matches!(password_retry_answered(true), PasswordStep::AskPassword));
    match password_retry_answered(false) {
        PasswordStep::Fail(e) => assert_eq!(e, "aborted: master password not verified"),
        _ => panic!("no failure"),
    }
}

#[test]
fn what_is_wrong_with_the_file_of_the_credential_is_told() {
    let why = |step| match step {
        PasswordStep::Fail(e) => e,
        _ => panic!("no failure"),
    };
    assert_eq!(
        why(credential_directory_made(password_trial(), "/c", Err(x()))),
        "creating credential directory /c: x"
    );
    assert_eq!(
        why(credential_made_private(&b"/c/x.cred".to_vec(), Err(x()))),
        "setting permissions on /c/x.cred: x"
    );
}

#[test]
fn what_keeps_the_password_from_being_encrypted_is_told() {
    let why = |r| match master_password_encrypted(b"/c/x.cred".to_vec(), r) {
        PasswordStep::Fail(e) => e,
        _ => panic!("no failure"),
    };
    assert_eq!(
        why(Err(Broken::Spawn(x()))),
        "spawning `systemd-creds encrypt` (is systemd installed?): x"
    );
    assert_eq!(why(Err(Broken::NoInput)), "failed to open stdin for systemd-creds");
    assert_eq!(
        why(Err(Broken::Write(x()))),
        "writing master password to systemd-creds: x"
    );
    assert_eq!(why(Err(Broken::Wait(x()))), "waiting for `systemd-creds encrypt`: x");
    assert_eq!(
        why(Ok(badly("", " denied\n"))),
        "`systemd-creds encrypt` failed: denied"
    );
}

#[test]
fn the_unit_runs_the_program_that_was_installed() {
    assert!(install_systemd_unit(false, false));
    assert!(install_systemd_unit(true, true));
    assert!(!install_systemd_unit(true, false));
    let unit = |strategy, path: Option<&str>| {
        render_unit(
            &b"/usr/bin/agent".to_vec(),
            strategy,
            &b"/c/x.cred".to_vec(),
            path.map(|p| p.to_string()),
        )
    };
    assert_eq!(
        unit(UnlockStrategy::Credential, Some("/opt/node/bin:/bin")),
        "[Unit]\n\
         Description=Bitwarden-backed SSH agent\n\
         Documentation=https://github.com/kierandrewett/bitwarden-ssh-agent\n\
         After=default.target\n\
         \n\
         [Service]\n\
         Type=simple\n\
         # Generated by `bitwarden-ssh-agent setup`; points at the installed binary.\n\
         ExecStart=/usr/bin/agent serve\n\
         Restart=on-failure\n\
         RestartSec=2\n\
         # PATH captured at setup time so `bw` (and its node) are reachable.\n\
         Environment=PATH=/opt/node/bin:/bin\n\
         LoadCredentialEncrypted=bw_master_password:/c/x.cred\n\
         # Modest hardening. Do not add ProtectHome \u{2014} `bw` needs ~/.config.\n\
         NoNewPrivileges=true\n\
         \n\
         [Install]\n\
         WantedBy=default.target\n"
    );
    let plain = unit(UnlockStrategy::OnDemand, None);
    assert!(!plain.contains("LoadCredentialEncrypted"));
    assert!(plain.contains("\nEnvironment=PATH=/usr/local/bin:/usr/bin:/bin\n# Modest"));
}

#[test]
fn the_service_is_reloaded_enabled_and_restarted() {
    assert!(matches!(enable_and_start(), ServiceStep::Run(ServiceCall::Reload)));
    assert!(matches!(
        service_called(ServiceCall::Reload, Ok(well(""))),
        ServiceStep::Run(ServiceCall::Enable)
    ));
    assert!(matches!(
        service_called(ServiceCall::Enable, Ok(well(""))),
        ServiceStep::Run(ServiceCall::Restart)
    ));
    assert!(matches!(
        service_called(ServiceCall::Restart, Ok(well(""))),
        ServiceStep::Run(ServiceCall::IsActive)
    ));
    assert!(matches!(
        service_called(ServiceCall::IsActive, Ok(well("active\n"))),
        ServiceStep::Active
    ));
    assert_eq!(systemctl(ServiceCall::Reload).args, vec!["--user", "daemon-reload"]);
    assert_eq!(
        systemctl(ServiceCall::Restart).args,
        vec!["--user", "restart", "bitwarden-ssh-agent.service"]
    );
    assert_eq!(
        systemctl(ServiceCall::Enable).args,
        vec!["--user", "enable", "bitwarden-ssh-agent.service"]
    );
    assert_eq!(
        systemctl(ServiceCall::IsActive).args,
        vec!["--user", "is-active", "bitwarden-ssh-agent.service"]
    );
    assert_eq!(systemctl(ServiceCall::Reload).program, "systemctl");
}

#[test]
fn a_service_that_does_not_run_is_reported() {
    match service_called(ServiceCall::IsActive, Ok(badly("failed\n", ""))) {
        ServiceStep::Inactive(said) => assert_eq!(
            said,
            "\nThe service is not active (state: failed).\nInspect the logs with:\n  journalctl --user -u bitwarden-ssh-agent.service -e"
        ),
        _ => panic!("running"),
    }
    match service_called(ServiceCall::IsActive, Ok(badly("", ""))) {
        ServiceStep::Inactive(said) => assert!(said.contains("(state: unknown)")),
        _ => panic!("running"),
    }
    match service_called(ServiceCall::IsActive, Err(x())) {
        ServiceStep::Fail(e) => assert_eq!(e, "running `systemctl --user is-active`: x"),
        _ => panic!("running"),
    }
    match service_called(ServiceCall::Reload, Ok(badly("", "no bus\n"))) {
        ServiceStep::Fail(e) => {
            assert_eq!(e, "`systemctl --user daemon-reload` failed: no bus")
        }
        _ => panic!("no failure"),
    }
    assert_eq!(
        run_systemctl(&systemctl(ServiceCall::Enable).args, Err(x())),
        Err("running `systemctl --user enable bitwarden-ssh-agent.service`: x".to_string())
    );
    assert_eq!(NOT_STARTED, "service failed to start; see the logs above");
}

#[test]
fn the_hint_goes_by_the_name_of_the_shell() {
    let hint = |s: &str| match shell_rc_hint(Some(s.to_string())) {
        ShellHint::Known { rc_file, line } => format!("{} {}", rc_file, line),
        ShellHint::Ksh => "ksh".to_string(),
        ShellHint::Unknown => "unknown".to_string(),
    };
    let posix = "export SSH_AUTH_SOCK=\"$XDG_RUNTIME_DIR/bitwarden-ssh-agent.sock\"";
    let csh = "setenv SSH_AUTH_SOCK \"$XDG_RUNTIME_DIR/bitwarden-ssh-agent.sock\"";
    assert_eq!(hint("/bin/bash"), format!("~/.bashrc {}", posix));
    assert_eq!(hint("zsh"), format!("~/.zshrc {}", posix));
    assert_eq!(
        hint("/usr/bin/fish"),
        "~/.config/fish/config.fish set -gx SSH_AUTH_SOCK \"$XDG_RUNTIME_DIR/bitwarden-ssh-agent.sock\""
    );
    assert_eq!(hint("/bin/ksh"), "ksh");
    assert_eq!(hint("/bin/dash"), format!("~/.profile {}", posix));
    assert_eq!(hint("/bin/sh"), format!("~/.profile {}", posix));
    assert_eq!(hint("/bin/csh"), format!("~/.cshrc {}", csh));
    assert_eq!(hint("/bin/tcsh"), format!("~/.tcshrc {}", csh));
    assert_eq!(
        hint("/usr/bin/nu"),
        "~/.config/nushell/env.nu $env.SSH_AUTH_SOCK = ($env.XDG_RUNTIME_DIR | path join \"bitwarden-ssh-agent.sock\")"
    );
    for odd in ["", "/", "..", "/bin/..", ".", "/bin/elvish", "/bin/bash2"] {
        assert_eq!(hint(odd), "unknown");
    }
    assert!(matches!(shell_rc_hint(None), ShellHint::Unknown));
}

#[test]
fn the_shell_is_found_as_paths_are_read() {
    for path in [
        "/bin/bash", "bash", "/bin/bash/", "/bin/bash//", "/bin/bash/.", "bash/./.", "./bash",
        "/bash/..", "/.", "..", "bash/../", "//", "a/b/bash/./",
    ] {
        let name = std::path::Path::new(path)
            .file_name()
            .map(|s| s.to_string_lossy().into_owned())
            .unwrap_or_default();
        let found = matches!(
            shell_rc_hint(Some(path.to_string())),
            ShellHint::Known { .. }
        );
        assert_eq!(found, name == "bash", "{}", path);
    }
}

#[test]
fn the_closing_note_shows_the_line() {
    assert_eq!(
        ssh_auth_sock_hint(&ShellHint::Known { rc_file: "~/.x", line: "LINE" }),
        "Add the line below to your shell startup file (~/.x):\n\n    LINE\n"
    );
    assert_eq!(
        ssh_auth_sock_hint(&ShellHint::Ksh),
        "Add the line below to your shell startup file (~/.kshrc,\nsourced only if `ENV=~/.kshrc` is set):\n\n    export SSH_AUTH_SOCK=\"$XDG_RUNTIME_DIR/bitwarden-ssh-agent.sock\"\n"
    );
    let unknown = ssh_auth_sock_hint(&ShellHint::Unknown);
    assert!(unknown.contains("\n  csh / tcsh:\n    setenv SSH_AUTH_SOCK "));
    assert!(unknown.ends_with("check your shell's docs.\n"));
}
