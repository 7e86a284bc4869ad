use bitwarden_ssh_agent::bitwarden::{
    create_answer, edit_answer, encode_answer, item_id, parse_item_id, run_capturing_stdin,
    select_ssh_keys, BitwardenCli, Broken, ItemIdError, LoginStep, PickError, Session, SshKeyData,
    SshKeyItem, Status,
};
use bitwarden_ssh_agent::config::ApiKey;
use bitwarden_ssh_agent::process::{Input, Invocation, Output};
use bitwarden_ssh_agent::secret::Secret;

fn cli() -> BitwardenCli {
    BitwardenCli::new(None, None)
}

fn session() -> Session {
    Session { key: Secret::new("sesame".to_string()) }
}

fn ran_well(stdout: &[u8]) -> Output {
    Output { success: true, stdout: stdout.to_vec(), stderr: Vec::new() }
}

fn ran_badly(stderr: &str) -> Output {
    Output { success: false, stdout: Vec::new(), stderr: stderr.as_bytes().to_vec() }
}

fn words(args: &[&str]) -> Vec<String> {
    args.iter().map(|a| a.to_string()).collect()
}

fn environment(call: &Invocation) -> Vec<(String, String)> {
    call.env
        .iter()
        .map(|v| (v.name.clone(), v.value.expose().to_string()))
        .collect()
}

fn input(call: &Invocation) -> Option<Vec<u8>> {
    match &call.input {
        Input::Nothing => None,
        Input::Bytes(b) => Some(b.clone()),
        Input::Sealed(s) => Some(s.expose().as_bytes().to_vec()),
    }
}

fn ssh_item(id: &str) -> SshKeyItem {
    SshKeyItem {
        id: id.to_string(),
        name: "n".to_string(),
        ssh_key: SshKeyData {
            private_key: String::new(),
            public_key: String::new(),
            key_fingerprint: None,
        },
    }
}

#[test]
fn calls_carry_no_session_that_is_left_over() {
    let call = cli().status();
    assert_eq!(call.program, "bw");
    assert_eq!(call.args, vec!["status"]);
    assert_eq!(call.removed, vec!["BW_SESSION"]);
    assert_eq!(
        environment(&call),
        vec![("BW_NOINTERACTION".to_string(), "true".to_string())]
    );
    assert_eq!(input(&call), None);
    let elsewhere = BitwardenCli::new(None, Some("/opt/bw".to_string()));
    assert_eq!(elsewhere.version().program, "/opt/bw");
    assert_eq!(elsewhere.version().args, vec!["--version"]);
}

#[test]
fn secrets_travel_in_the_environment_or_on_standard_input() {
    let key = ApiKey {
        client_id: "user.x".to_string(),
        client_secret: Secret::new("hush".to_string()),
    };
    let call = cli().login_with_api_key(&key);
    assert_eq!(call.args, vec!["login", "--apikey"]);
    assert_eq!(
        environment(&call)[1..],
        [
            ("BW_CLIENTID".to_string(), "user.x".to_string()),
            ("BW_CLIENTSECRET".to_string(), "hush".to_string()),
        ]
    );
    let call = cli().unlock(&Secret::new("pw".to_string()));
    assert_eq!(call.args, vec!["unlock", "--passwordenv", "BW_SSH_AGENT_MASTER_PW", "--raw"]);
    assert_eq!(
        environment(&call)[1],
        ("BW_SSH_AGENT_MASTER_PW".to_string(), "pw".to_string())
    );
    let call = cli().create_item(&session(), b"code".to_vec());
    assert_eq!(call.args, vec!["create", "item"]);
    assert_eq!(environment(&call)[1], ("BW_SESSION".to_string(), "sesame".to_string()));
    assert_eq!(input(&call), Some(b"code".to_vec()));
    let call = cli().edit_item(&session(), "42", b"code".to_vec());
    assert_eq!(call.args, vec!["edit", "item", "42"]);
    assert_eq!(input(&call), Some(b"code".to_vec()));
    let call = cli().encode_item(b"{}".to_vec());
    assert_eq!(call.args, vec!["encode"]);
    assert_eq!(input(&call), Some(b"{}".to_vec()));
}

#[test]
fn the_other_calls() {
    assert_eq!(cli().logout().args, vec!["logout"]);
    assert_eq!(cli().sync(&session()).args, vec!["sync"]);
    assert_eq!(cli().list_ssh_keys(&session()).args, vec!["list", "items"]);
    assert_eq!(cli().item_template().args, vec!["get", "template", "item"]);
    assert_eq!(cli().get_item(&session(), "42").args, vec!["get", "item", "42"]);
    assert_eq!(cli().configure_server("s").args, vec!["config", "server", "s"]);
    assert_eq!(
        environment(&cli().sync(&session()))[1],
        ("BW_SESSION".to_string(), "sesame".to_string())
    );
}

#[test]
fn the_version_is_trimmed() {
    assert_eq!(
        cli().version_answer(Ok(ran_well(b" 2024.1.0\n"))),
        Ok("2024.1.0".to_string())
    );
    assert_eq!(
        cli().version_answer(Ok(ran_badly("boom\n"))),
        Err("`bw --version` failed: boom".to_string())
    );
    assert_eq!(
        cli().version_answer(Err("No such file or directory".to_string())),
        Err("failed to run `bw` \u{2014} is the Bitwarden CLI installed? (`npm install -g @bitwarden/cli`): No such file or directory".to_string())
    );
}

#[test]
fn complaints_are_handed_on() {
    assert_eq!(
        BitwardenCli::status_answer(Ok(ran_badly(""))),
        Err("`bw status` failed: (no stderr)".to_string())
    );
    assert_eq!(
        BitwardenCli::server_answer("s", Ok(ran_badly("x"))),
        Err("`bw config server s` failed: x".to_string())
    );
    assert_eq!(
        BitwardenCli::login_answer(Ok(ran_badly("x"))),
        Err("`bw login --apikey` failed: x".to_string())
    );
    assert_eq!(
        BitwardenCli::sync_answer(Err("x".to_string())),
        Err("running `bw sync`: x".to_string())
    );
    assert_eq!(
        BitwardenCli::list_answer(Ok(ran_badly("x"))),
        Err("`bw list items` failed: x".to_string())
    );
    assert_eq!(
        BitwardenCli::template_answer(Ok(ran_badly("x"))),
        Err("`bw get template item` failed: x".to_string())
    );
    assert_eq!(
        BitwardenCli::item_answer("42", Ok(ran_badly("x"))),
        Err("`bw get item 42` failed: x".to_string())
    );
    assert_eq!(
        BitwardenCli::list_answer(Ok(ran_well(b"[]"))),
        Ok(b"[]".to_vec())
    );
}

#[test]
fn a_device_that_was_logged_out_already_is_fine() {
    assert_eq!(BitwardenCli::logout_answer(Ok(ran_badly("not logged in"))), Ok(()));
    assert_eq!(
        BitwardenCli::logout_answer(Err("x".to_string())),
        Err("running `bw logout`: x".to_string())
    );
}

#[test]
fn unlocking_yields_a_session() {
    match BitwardenCli::unlock_answer(Ok(ran_well(b" abc= \n"))) {
        Ok(s) => assert_eq!(s.key.expose(), "abc="),
        Err(e) => panic!("{}", e),
    }
    let why = |r| match BitwardenCli::unlock_answer(r) {
        Ok(_) => panic!("a session"),
        Err(e) => e,
    };
    assert_eq!(
        why(Ok(ran_well(b" \n"))),
        "`bw unlock --raw` returned an empty session key"
    );
    assert_eq!(
        why(Ok(ran_badly("no"))),
        "`bw unlock` failed (wrong master password?): no"
    );
    assert_eq!(why(Err("x".to_string())), "running `bw unlock`: x");
    assert!(why(Ok(ran_well(&[0xff])))
        .starts_with("`bw unlock --raw` returned non-UTF8 session key: "));
}

#[test]
fn a_device_is_logged_in_unless_it_says_otherwise() {
    let logged_in = |s: &str| Status { status: s.to_string() }.is_logged_in();
    assert!(logged_in("locked"));
    assert!(logged_in("unlocked"));
    assert!(!logged_in("unauthenticated"));
    assert!(logged_in("something new"));
}

#[test]
fn a_device_that_is_logged_in_is_left_alone() {
    let plan = |s: &str| {
        cli().login_plan(&None, Ok(Status { status: s.to_string() }))
    };
    assert!(matches!(plan("locked"), LoginStep::LoggedIn));
    assert!(matches!(plan("unauthenticated"), LoginStep::Failed(_)));
    match cli().login_plan(&None, Err("x".to_string())) {
        LoginStep::Failed(e) => assert_eq!(e, "x"),
        _ => panic!("no failure"),
    }
    assert!(matches!(
        BitwardenCli::login_after_server("s", cli().logout(), Ok(ran_badly("x"))),
        LoginStep::Failed(_)
    ));
    assert!(matches!(
        BitwardenCli::login_after_login(Ok(ran_well(b""))),
        LoginStep::LoggedIn
    ));
}

#[test]
fn where_a_call_broke_off_is_told() {
    let args = words(&["create", "item"]);
    let why = |r| match run_capturing_stdin(&args, r) {
        Ok(_) => panic!("no failure"),
        Err(e) => e,
    };
    assert_eq!(why(Err(Broken::Spawn("x".to_string()))), "spawning `bw create item`: x");
    assert_eq!(why(Err(Broken::NoInput)), "failed to open stdin for `bw`");
    assert_eq!(why(Err(Broken::Write("x".to_string()))), "writing to `bw` stdin: x");
    assert_eq!(
        why(Err(Broken::Wait("x".to_string()))),
        "waiting for `bw create item`: x"
    );
    assert_eq!(why(Ok(ran_badly("x"))), "`bw create item` failed: x");
    assert_eq!(run_capturing_stdin(&args, Ok(ran_well(b"y"))), Ok(b"y".to_vec()));
}

#[test]
fn encoded_items_lose_their_line_end() {
    let args = words(&["encode"]);
    assert_eq!(encode_answer(&args, Ok(ran_well(b"e30=\r\n\n"))), Ok(b"e30=".to_vec()));
    assert_eq!(encode_answer(&args, Ok(ran_well(b"\n"))), Ok(Vec::new()));
    assert_eq!(
        encode_answer(&args, Ok(ran_badly("x"))),
        Err("running `bw encode`: `bw encode` failed: x".to_string())
    );
}

#[test]
fn the_id_of_an_item_is_read_from_the_answer() {
    match parse_item_id(b"{\"object\":\"item\",\"id\":\"42-x\"}") {
        Ok(id) => assert_eq!(id, "42-x"),
        Err(e) => panic!("{}", e.message()),
    }
    assert!(matches!(parse_item_id(b"{\"id\":7}"), Err(ItemIdError::Missing)));
    assert!(matches!(parse_item_id(b"[]"), Err(ItemIdError::Missing)));
    match parse_item_id(b"x") {
        Err(ItemIdError::NotJson(cause)) => {
            assert_eq!(cause, "expected value at line 1 column 1")
        }
        _ => panic!("taken for JSON"),
    }
    assert!(matches!(item_id(None), Err(ItemIdError::Missing)));
    assert_eq!(
        ItemIdError::Missing.message(),
        "`bw` response did not contain an item id"
    );
    assert_eq!(
        ItemIdError::NotJson("x".to_string()).message(),
        "parsing `bw create/edit item` output: x"
    );
}

#[test]
fn storing_an_item_answers_with_its_id() {
    let args = words(&["create", "item"]);
    assert_eq!(
        create_answer(&args, Ok(ran_well(b"{\"id\":\"42\"}"))),
        Ok("42".to_string())
    );
    assert_eq!(
        create_answer(&args, Ok(ran_well(b"{}"))),
        Err("`bw` response did not contain an item id".to_string())
    );
    assert_eq!(
        create_answer(&args, Ok(ran_well(b"x"))),
        Err("parsing `bw create/edit item` output: expected value at line 1 column 1".to_string())
    );
    assert_eq!(
        create_answer(&args, Ok(ran_badly("x"))),
        Err("running `bw create item`: `bw create item` failed: x".to_string())
    );
    let args = words(&["edit", "item", "42"]);
    assert_eq!(
        edit_answer(&args, Ok(ran_badly("x"))),
        Err("running `bw edit item`: `bw edit item 42` failed: x".to_string())
    );
    assert_eq!(
        edit_answer(&args, Ok(ran_well(b"{\"id\":\"42\"}"))),
        Ok("42".to_string())
    );
}

#[test]
fn ssh_keys_are_picked_out_of_the_list() {
    let entries = vec![Some(ssh_item("a")), Some(ssh_item("b")), None, Some(ssh_item("d"))];
    match select_ssh_keys(Ok(vec![5, 1, 5, 5]), Ok(entries)) {
        Ok(keys) => {
            let ids: Vec<&str> = keys.iter().map(|k| k.id.as_str()).collect();
            assert_eq!(ids, vec!["a", "d"]);
        }
        Err(e) => panic!("{}", e.message()),
    }
    match select_ssh_keys(Ok(vec![1, 2]), Err("x".to_string())) {
        Ok(keys) => assert!(keys.is_empty()),
        Err(e) => panic!("{}", e.message()),
    }
}

#[test]
fn a_list_that_cannot_be_read_is_an_error() {
    let why = |types, entries| match select_ssh_keys(types, entries) {
        Ok(_) => panic!("no error"),
        Err(e) => e,
    };
    let e = why(Err("x".to_string()), Ok(Vec::new()));
    assert!(matches!(e, PickError::Unreadable(_)));
    assert_eq!(e.message(), "parsing `bw list items` output: x");
    let e = why(Ok(vec![5]), Err("x".to_string()));
    assert!(matches!(e, PickError::UnreadableTwice(_)));
    assert_eq!(e.message(), "re-parsing `bw list items` output: x");
    let e = why(Ok(vec![1, 5]), Ok(vec![None]));
    assert!(matches!(e, PickError::OutOfRange(1)));
    assert_eq!(e.message(), "item index 1 out of range");
}
