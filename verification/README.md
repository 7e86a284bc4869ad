# bitwarden-ssh-agent

A headless SSH agent that serves the SSH keys of a Bitwarden vault over the
ssh-agent protocol. It shells out to the `bw` CLI and runs as a
`systemd --user` service.

## Layout

- `src/` is the library. It holds the decisions of the agent, each with a
  contract that Verus proves: which programs are run and how, what their answers
  mean, when the vault is unlocked, which keys are served and how they sign, the
  wire format of the control channel, and the steps of the wizards.
- `app/` is the program around it: arguments, sockets, files, child processes,
  the terminal, and reading JSON and TOML into values.
- `tests/` runs the library, with the crates it calls.

An operation that needs the outside world is a chain of steps. The library says
what to do next; the program does it and hands back what came of it. Secrets are
held in `Secret`, and what a child process is given is an `Invocation`, whose
visible part (program and arguments) is proved not to depend on any secret.

Calls into other crates (`ssh_key`, `rsa`, `secrecy`, `serde_json`, `toml`,
`zeroize`) stand behind small functions marked `external_body`; a comment at each says what
is taken on trust.

Each module ends with its laws: public proof functions that state what holds
over several calls.
