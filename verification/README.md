# cry (verified core)

The key-handling logic of `cry`, a command-line tool for random and
passphrase-derived keys and for SSH sessions with an agent-held key,
written in Verus.

- `src/` — the verified library:
  - `keygen` — key algorithms, command options, key file names, overwrite rules;
  - `keys` — key material and key file contents for `keygen` and `derive`,
    the Argon2id derivation of symmetric keys;
  - `ssh` — reading `ssh-agent` output, the agent session, `ssh-add`/`ssh`
    command lines, the OpenSSH text of the session key;
  - `passphrase` — passphrase files and prompted passphrases;
  - `text`, `command`, `error` — character scanning, commands as data, errors;
  - `crypto` — the trusted calls into `hex`, `sha2`, `argon2`, `ed25519-dalek`,
    `rand`, `rsa`, `ssh-key` and `std::str::from_utf8`;
  - `laws` — properties across functions.
- `app/` — the program: argument parsing, prompts, files and processes.
- `tests/` — tests of the library.
