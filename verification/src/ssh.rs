//! `cry ssh`: reading `ssh-agent` output, the ephemeral agent session, the
//! key handed to the agent and the `ssh` command line.

use vstd::prelude::*;
use crate::command::{decimal, decimal_string, CommandSpec};
use crate::crypto::{
    consistent_ed25519_keypair, ed25519_public_key, ed25519_verifying_key,
    openssh_decrypted_key, openssh_ed25519_encrypted_private_key, openssh_ed25519_fingerprint,
    openssh_ed25519_private_key, openssh_ed25519_public_line, openssh_private_key_text,
    openssh_public_key_line, openssh_sha256_fingerprint, ssh_comment_fits, ssh_comment_reads_back,
    OpensshKeyError,
};
use crate::error::{invalid_format_from, lemma_message_prefix, CryError, CryErrorView};
use crate::text::{
    chars_of, has_prefix, lead_end, lead_len, starts_with, trail_start, trim, trim_end_char, trim_range,
    until, CharClass,
};

verus! {

/// Options of `cry ssh`.
#[derive(Debug)]
pub struct SshArgs {
    /// SSH target in OpenSSH syntax: `[user@]hostname`.
    pub target: String,
    /// Passphrase given on the command line, if any.
    pub passphrase: Option<String>,
    /// Derivation namespace.
    pub namespace: String,
    /// Key version of the identity (key rotation context).
    pub key_version: u32,
    /// File whose first line is the passphrase.
    pub pass_file: Option<String>,
    /// Port forwarded to `ssh` as `-p PORT`.
    pub port: Option<u16>,
    /// Extra arguments forwarded verbatim to `ssh`.
    pub ssh_args: Vec<String>,
}

/// `setenv ` — how csh-style `ssh-agent` output starts a line.
pub open spec fn setenv_prefix() -> Seq<char> {
    seq!['s', 'e', 't', 'e', 'n', 'v', ' ']
}

/// What one line of `ssh-agent` output says about `var`:
/// `None` when the line does not set it, `Some(Some(v))` when it sets it to `v`,
/// and `Some(None)` when it names `var` after `setenv` without a value,
/// which ends the search with no result.
pub open spec fn line_outcome(line: Seq<char>, var: Seq<char>) -> Option<Option<Seq<char>>> {
    let t = trim(line);
    if starts_with(t, var.push('=')) {
        Some(Some(trim(until(t.skip(var.len() + 1int), ';'))))
    } else if starts_with(t, setenv_prefix()) {
        let rest = t.skip(7);
        let k = lead_len(rest, CharClass::Not(' ')) as int;
        if rest.take(k) == var {
            if k < rest.len() {
                Some(Some(trim_end_char(until(rest.skip(k + 1), ' '), ';')))
            } else {
                Some(None)
            }
        } else {
            None
        }
    } else {
        None
    }
}

/// The value that `ssh-agent` output `text` gives to `var`, looked up line by line
/// (lines end at `\n`); the first line that decides wins.
pub open spec fn extract_var_spec(text: Seq<char>, var: Seq<char>) -> Option<Seq<char>>
    decreases text.len(),
{
    let k = lead_len(text, CharClass::Not('\n')) as int;
    match line_outcome(text.take(k), var) {
        Some(r) => r,
        None => if k < text.len() {
            extract_var_spec(text.skip(k + 1), var)
        } else {
            None
        },
    }
}

/// `line_outcome` of `v[a..b]`, with a found value given by its bounds in `v`.
fn line_outcome_range(v: &Vec<char>, a: usize, b: usize, w: &Vec<char>) -> (r: Option<
    Option<(usize, usize)>,
>)
    requires
        a <= b <= v@.len(),
    ensures
        match r {
            None => line_outcome(v@.subrange(a as int, b as int), w@) is None,
            Some(None) => line_outcome(v@.subrange(a as int, b as int), w@) == Some(
                None::<Seq<char>>,
            ),
            Some(Some((x, y))) => x <= y <= v@.len() && line_outcome(
                v@.subrange(a as int, b as int),
                w@,
            ) == Some(Some(v@.subrange(x as int, y as int))),
        },
{
    let (ta, tb) = trim_range(v, a, b);
    let ghost t = v@.subrange(ta as int, tb as int);
    let sh = tb - ta > w.len() && has_prefix(v, ta, tb, w) && v[ta + w.len()] == '=';
    proof {
        let p = w@.push('=');
        if sh {
            assert(t.take(p.len() as int) =~= p) by {
                assert(t.take(w@.len() as int) =~= w@);
            }
        }
        if starts_with(t, p) {
            assert(t.take(w@.len() as int) =~= w@) by {
                assert forall|k: int| 0 <= k < w@.len() implies t.take(w@.len() as int)[k]
                    == w@[k] by {
                    assert(t.take(p.len() as int)[k] == p[k]);
                }
            }
            assert(t.take(p.len() as int)[w@.len() as int] == p[w@.len() as int]);
        }
    }
    if sh {
        let s = ta + w.len() + 1;
        let u = lead_end(v, s, tb, &CharClass::Not(';'));
        let (x, y) = trim_range(v, s, u);
        proof {
            let rest = t.skip(w@.len() + 1int);
            assert(rest =~= v@.subrange(s as int, tb as int));
            assert(until(rest, ';') =~= v@.subrange(s as int, u as int));
        }
        return Some(Some((x, y)));
    }
    let st = tb - ta >= 7 && v[ta] == 's' && v[ta + 1] == 'e' && v[ta + 2] == 't' && v[ta + 3]
        == 'e' && v[ta + 4] == 'n' && v[ta + 5] == 'v' && v[ta + 6] == ' ';
    proof {
        if st {
            assert(t.take(7) =~= setenv_prefix());
        }
        if starts_with(t, setenv_prefix()) {
            assert(t.take(7)[0] == 's');
            assert(t.take(7)[1] == 'e');
            assert(t.take(7)[2] == 't');
            assert(t.take(7)[3] == 'e');
            assert(t.take(7)[4] == 'n');
            assert(t.take(7)[5] == 'v');
            assert(t.take(7)[6] == ' ');
        }
    }
    if !st {
        return None;
    }
    let r = ta + 7;
    let ghost rest = t.skip(7);
    proof {
        assert(rest =~= v@.subrange(r as int, tb as int));
    }
    let k = lead_end(v, r, tb, &CharClass::Not(' '));
    let same = k - r == w.len() && has_prefix(v, r, k, w);
    proof {
        assert(rest.take(k - r) =~= v@.subrange(r as int, k as int));
        let f = v@.subrange(r as int, k as int);
        if same {
            assert(f.take(w@.len() as int) =~= f);
        }
        if f == w@ {
            assert(f.take(w@.len() as int) =~= f);
        }
    }
    if !same {
        return None;
    }
    if k == tb {
        return Some(None);
    }
    let s2 = k + 1;
    let e2 = lead_end(v, s2, tb, &CharClass::Not(' '));
    let y = trail_start(v, s2, e2, &CharClass::Is(';'));
    proof {
        assert(rest.skip(k - r + 1) =~= v@.subrange(s2 as int, tb as int));
        let u2 = until(rest.skip(k - r + 1), ' ');
        assert(u2 =~= v@.subrange(s2 as int, e2 as int));
        assert(trim_end_char(u2, ';') =~= v@.subrange(s2 as int, y as int));
    }
    Some(Some((s2, y)))
}

/// Read the value of `var` from `ssh-agent` output, in either shell syntax:
/// `VAR=value; export VAR;` or `setenv VAR value;`.
pub fn extract_var(text: &str, var: &str) -> (res: Option<String>)
    ensures
        match res {
            Some(s) => extract_var_spec(text@, var@) == Some(s@),
            None => extract_var_spec(text@, var@) is None,
        },
{
    let v = chars_of(text);
    let w = chars_of(var);
    let n = v.len();
    let mut p: usize = 0;
    proof {
        assert(v@.subrange(0, n as int) =~= v@);
    }
    loop
        invariant
            p <= n == v@.len(),
            v@ == text@,
            w@ == var@,
            extract_var_spec(text@, var@) == extract_var_spec(v@.subrange(p as int, n as int), w@),
        decreases n - p,
    {
        let e = lead_end(&v, p, n, &CharClass::Not('\n'));
        let ghost s = v@.subrange(p as int, n as int);
        proof {
            assert(s.take(e - p) =~= v@.subrange(p as int, e as int));
        }
        match line_outcome_range(&v, p, e, &w) {
            Some(Some((x, y))) => {
                let sub = text.substring_char(x, y);
                return Some(String::from_str(sub));
            },
            Some(None) => {
                return None;
            },
            None => {
                if e == n {
                    return None;
                }
                proof {
                    assert(s.skip(e - p + 1) =~= v@.subrange(e + 1, n as int));
                }
                p = e + 1;
            },
        }
    }
}

/// The named pipe of the Windows OpenSSH agent service.
pub open spec fn default_windows_pipe() -> Seq<char> {
    r"\\.\pipe\openssh-ssh-agent"@
}

/// `\\.\pipe\`: how a Windows named-pipe path starts.
pub open spec fn pipe_prefix() -> Seq<char> {
    seq!['\\', '\\', '.', '\\', 'p', 'i', 'p', 'e', '\\']
}

/// The agent endpoint on Windows: `SSH_AUTH_SOCK` when it names a named pipe,
/// else the built-in agent's pipe. `env_value` is the variable's value, if set.
pub fn windows_agent_socket(env_value: Option<String>) -> (res: String)
    ensures
        match env_value {
            Some(v) if starts_with(v@, pipe_prefix()) => res@ == v@,
            _ => res@ == default_windows_pipe(),
        },
{
    match env_value {
        Some(v) => {
            let chars = chars_of(v.as_str());
            let mut prefix: Vec<char> = Vec::new();
            prefix.push('\\');
            prefix.push('\\');
            prefix.push('.');
            prefix.push('\\');
            prefix.push('p');
            prefix.push('i');
            prefix.push('p');
            prefix.push('e');
            prefix.push('\\');
            assert(prefix@ =~= pipe_prefix());
            let n = chars.len();
            let is_pipe = has_prefix(&chars, 0, n, &prefix);
            assert(chars@.subrange(0, n as int) =~= chars@);
            if is_pipe {
                v
            } else {
                String::from_str(r"\\.\pipe\openssh-ssh-agent")
            }
        },
        None => String::from_str(r"\\.\pipe\openssh-ssh-agent"),
    }
}

/// A running `ssh-agent` session as the tools reach it.
pub struct AgentSession {
    /// Agent socket path (or Windows pipe).
    pub socket: String,
    /// Agent process id, when a per-session agent was started.
    pub pid: Option<String>,
    /// Whether this session started the agent and must stop it.
    pub owned: bool,
}

pub struct AgentSessionView {
    pub socket: Seq<char>,
    pub pid: Option<Seq<char>>,
    pub owned: bool,
}

impl View for AgentSession {
    type V = AgentSessionView;

    open spec fn view(&self) -> AgentSessionView {
        AgentSessionView {
            socket: self.socket@,
            pid: match self.pid {
                Some(p) => Some(p@),
                None => None,
            },
            owned: self.owned,
        }
    }
}

/// What came of running `ssh-agent -s`.
pub enum AgentLaunch {
    /// The program could not be started.
    NotStarted,
    /// It ran; its exit status and its output, decoded as UTF-8 (lossily).
    Exited { success: bool, stdout: String, stderr: String },
}

/// The session to use and whether the Windows agent service must be started
/// first (on Windows, when no per-session agent could be had).
pub struct AgentPlan {
    pub session: Result<AgentSession, CryError>,
    pub start_windows_service: bool,
}

pub open spec fn session_is(r: Result<AgentSession, CryError>, v: AgentSessionView) -> bool {
    r is Ok && r->Ok_0@ == v
}

/// What `ssh-agent -s` gives: the session, or the error for the platform.
/// `windows_pipe` is `Some` on Windows, with the fallback agent endpoint.
pub open spec fn agent_plan_spec(
    launch: AgentLaunch,
    windows_pipe: Option<Seq<char>>,
    plan: AgentPlan,
) -> bool {
    match launch {
        AgentLaunch::Exited { success: true, stdout, .. } => {
            let sock = extract_var_spec(stdout@, "SSH_AUTH_SOCK"@);
            let pid = extract_var_spec(stdout@, "SSH_AGENT_PID"@);
            &&& !plan.start_windows_service
            &&& match windows_pipe {
                None => match (sock, pid) {
                    (None, _) => fails_with_message(
                        plan.session,
                        "Could not parse SSH_AUTH_SOCK"@,
                    ),
                    (Some(_), None) => fails_with_message(
                        plan.session,
                        "Could not parse SSH_AGENT_PID"@,
                    ),
                    (Some(s), Some(p)) => session_is(
                        plan.session,
                        AgentSessionView { socket: s, pid: Some(p), owned: true },
                    ),
                },
                Some(w) => session_is(
                    plan.session,
                    AgentSessionView {
                        socket: match sock {
                            Some(s) => s,
                            None => w,
                        },
                        pid: pid,
                        owned: pid is Some,
                    },
                ),
            }
        },
        AgentLaunch::Exited { success: false, stderr, .. } => match windows_pipe {
            None => !plan.start_windows_service && fails_with_message(
                plan.session,
                "ssh-agent failed: "@ + stderr@,
            ),
            Some(w) => plan.start_windows_service && session_is(
                plan.session,
                AgentSessionView { socket: w, pid: None, owned: false },
            ),
        },
        AgentLaunch::NotStarted => match windows_pipe {
            None => !plan.start_windows_service && fails_with_message(
                plan.session,
                "Failed to spawn ssh-agent"@,
            ),
            Some(w) => plan.start_windows_service && session_is(
                plan.session,
                AgentSessionView { socket: w, pid: None, owned: false },
            ),
        },
    }
}

pub open spec fn fails_with_message<T>(r: Result<T, CryError>, m: Seq<char>) -> bool {
    r is Err && r->Err_0@ == CryErrorView::InvalidFormat(m)
}

fn plan_error(m: String) -> (p: AgentPlan)
    ensures
        fails_with_message(p.session, m@),
        !p.start_windows_service,
{
    AgentPlan { session: Err(CryError::InvalidFormat(m)), start_windows_service: false }
}

/// Decide the agent session from the outcome of `ssh-agent -s`.
pub fn agent_session(launch: &AgentLaunch, windows_pipe: Option<&String>) -> (plan: AgentPlan)
    ensures
        agent_plan_spec(
            *launch,
            match windows_pipe {
                Some(w) => Some(w@),
                None => None,
            },
            plan,
        ),
{
    match launch {
        AgentLaunch::Exited { success, stdout, stderr } => {
            if *success {
                let sock = extract_var(stdout.as_str(), "SSH_AUTH_SOCK");
                let pid = extract_var(stdout.as_str(), "SSH_AGENT_PID");
                match windows_pipe {
                    None => {
                        let socket = match sock {
                            Some(s) => s,
                            None => {
                                return plan_error(
                                    String::from_str("Could not parse SSH_AUTH_SOCK"),
                                );
                            },
                        };
                        let pid = match pid {
                            Some(p) => p,
                            None => {
                                return plan_error(
                                    String::from_str("Could not parse SSH_AGENT_PID"),
                                );
                            },
                        };
                        AgentPlan {
                            session: Ok(AgentSession { socket, pid: Some(pid), owned: true }),
                            start_windows_service: false,
                        }
                    },
                    Some(w) => {
                        let socket = match sock {
                            Some(s) => s,
                            None => w.clone(),
                        };
                        let owned = pid.is_some();
                        AgentPlan {
                            session: Ok(AgentSession { socket, pid, owned }),
                            start_windows_service: false,
                        }
                    },
                }
            } else {
                match windows_pipe {
                    None => {
                        let mut m = String::from_str("ssh-agent failed: ");
                        m.append(stderr.as_str());
                        plan_error(m)
                    },
                    Some(w) => AgentPlan {
                        session: Ok(AgentSession { socket: w.clone(), pid: None, owned: false }),
                        start_windows_service: true,
                    },
                }
            }
        },
        AgentLaunch::NotStarted => match windows_pipe {
            None => plan_error(String::from_str("Failed to spawn ssh-agent")),
            Some(w) => AgentPlan {
                session: Ok(AgentSession { socket: w.clone(), pid: None, owned: false }),
                start_windows_service: true,
            },
        },
    }
}

/// The environment that points OpenSSH tools at the agent session.
pub open spec fn agent_env_spec(session: AgentSessionView) -> Seq<(Seq<char>, Seq<char>)> {
    seq![("SSH_AUTH_SOCK"@, session.socket)] + match session.pid {
        Some(p) => seq![("SSH_AGENT_PID"@, p)],
        None => seq![],
    }
}

pub fn agent_env(session: &AgentSession) -> (env: Vec<(String, String)>)
    ensures
        env.deep_view() == agent_env_spec(session@),
{
    let mut env: Vec<(String, String)> = Vec::new();
    env.push((String::from_str("SSH_AUTH_SOCK"), session.socket.clone()));
    match &session.pid {
        Some(p) => {
            env.push((String::from_str("SSH_AGENT_PID"), p.clone()));
        },
        None => {},
    }
    assert(env.deep_view() =~= agent_env_spec(session@));
    env
}

/// `ssh-add -` pointed at the session: it reads the private key text on stdin.
pub fn ssh_add_command(session: &AgentSession) -> (cmd: CommandSpec)
    ensures
        cmd@.program == "ssh-add"@,
        cmd@.args == seq!["-"@],
        cmd@.env == agent_env_spec(session@),
{
    let mut args: Vec<String> = Vec::new();
    args.push(String::from_str("-"));
    assert(args.deep_view() =~= seq!["-"@]);
    CommandSpec { program: String::from_str("ssh-add"), args, env: agent_env(session) }
}

/// The error when `ssh-add` cannot be started.
pub fn ssh_add_spawn_error(reason: &str) -> (e: CryError)
    ensures
        e@ == CryErrorView::InvalidFormat("Failed to spawn ssh-add: "@ + reason@),
{
    let mut m = String::from_str("Failed to spawn ssh-add: ");
    m.append(reason);
    CryError::InvalidFormat(m)
}

/// Advice appended when `ssh-add` fails.
pub open spec fn ssh_add_advice() -> Seq<char> {
    "\nOn Windows, run PowerShell as Administrator and execute: Get-Service ssh-agent | Set-Service -StartupType Automatic; Start-Service ssh-agent"@
}

/// The result of `ssh-add` from its exit status and its error output.
pub fn ssh_add_result(success: bool, stderr: &str) -> (res: Result<(), CryError>)
    ensures
        success ==> res is Ok,
        !success ==> fails_with_message(res, "ssh-add failed: "@ + stderr@ + ssh_add_advice()),
{
    if success {
        return Ok(());
    }
    let mut m = String::from_str("ssh-add failed: ");
    m.append(stderr);
    m.append(
        "\nOn Windows, run PowerShell as Administrator and execute: Get-Service ssh-agent | Set-Service -StartupType Automatic; Start-Service ssh-agent",
    );
    Err(CryError::InvalidFormat(m))
}

/// `ssh-agent -k` for the session, when the session owns its agent;
/// `None` when the agent is not ours to stop.
pub fn agent_kill_command(session: &AgentSession) -> (cmd: Option<CommandSpec>)
    ensures
        cmd is None <==> !session.owned,
        cmd is Some ==> cmd->0@.program == "ssh-agent"@ && cmd->0@.args == seq!["-k"@]
            && cmd->0@.env == agent_env_spec(session@),
{
    if !session.owned {
        return None;
    }
    let mut args: Vec<String> = Vec::new();
    args.push(String::from_str("-k"));
    assert(args.deep_view() =~= seq!["-k"@]);
    Some(CommandSpec { program: String::from_str("ssh-agent"), args, env: agent_env(session) })
}


/// `CryDNA:<namespace>`: the comment of the session key.
pub open spec fn ssh_key_comment_spec(namespace: Seq<char>) -> Seq<char> {
    "CryDNA:"@ + namespace
}

pub fn ssh_key_comment(namespace: &str) -> (res: String)
    ensures
        res@ == ssh_key_comment_spec(namespace@),
{
    let mut s = String::from_str("CryDNA:");
    s.append(namespace);
    s
}

/// The 64-byte Ed25519 keypair: secret key followed by its public key.
pub fn ed25519_keypair_bytes(secret: &[u8; 32]) -> (res: [u8; 64])
    ensures
        res@ == secret@ + ed25519_public_key(secret@),
{
    let public = ed25519_verifying_key(secret);
    let mut out = [0u8; 64];
    let mut i: usize = 0;
    while i < 32
        invariant
            i <= 32,
            forall|k: int| 0 <= k < i ==> out@[k] == secret@[k],
            forall|k: int| 0 <= k < i ==> out@[32 + k] == public@[k],
        decreases 32 - i,
    {
        out[i] = secret[i];
        out[32 + i] = public[i];
        i = i + 1;
    }
    assert(out@ =~= secret@ + public@);
    out
}

/// Secret key bytes followed by their own public key form a consistent keypair.
proof fn lemma_keypair_consistent(secret: Seq<u8>, keypair: Seq<u8>)
    requires
        secret.len() == 32,
        keypair.len() == 64,
        keypair == secret + ed25519_public_key(secret),
    ensures
        consistent_ed25519_keypair(keypair),
{
    assert(keypair.subrange(0, 32) =~= secret);
    assert(keypair.subrange(32, 64) =~= ed25519_public_key(secret));
}

/// The unencrypted OpenSSH private key for the session: the Ed25519 key
/// with secret `secret`, commented `CryDNA:<namespace>`. It is always made
/// unless the comment is too long for the encoding; then the error says
/// which step failed, with the crate's message.
pub fn session_private_key(secret: &[u8; 32], namespace: &str) -> (res: Result<String, CryError>)
    ensures
        res is Ok ==> res->Ok_0@ == openssh_private_key_text(
            secret@ + ed25519_public_key(secret@),
            ssh_key_comment_spec(namespace@),
        ),
        ssh_comment_fits(ssh_key_comment_spec(namespace@)) ==> res is Ok,
        res is Err ==> openssh_step_failed(res->Err_0@),
{
    let comment = ssh_key_comment(namespace);
    let keypair = ed25519_keypair_bytes(secret);
    proof {
        lemma_keypair_consistent(secret@, keypair@);
    }
    let encoded = openssh_ed25519_private_key(&keypair, comment.as_str());
    let ghost enc = encoded;
    let res = openssh_key_outcome(encoded);
    proof {
        if let Err(e) = enc {
            lemma_openssh_step_failed(e);
        }
    }
    res
}

/// An error from building or encoding an OpenSSH private key: its message
/// names the step that failed.
pub open spec fn openssh_step_failed(e: CryErrorView) -> bool {
    invalid_format_from(e, "OpenSSH key build failed: "@) || invalid_format_from(
        e,
        "OpenSSH key encode failed: "@,
    )
}

/// The error made from a failed OpenSSH key step names that step.
proof fn lemma_openssh_step_failed(e: OpensshKeyError)
    ensures
        match e {
            OpensshKeyError::Build(m) => invalid_format_from(
                CryErrorView::InvalidFormat("OpenSSH key build failed: "@ + m@),
                "OpenSSH key build failed: "@,
            ),
            OpensshKeyError::Encode(m) => invalid_format_from(
                CryErrorView::InvalidFormat("OpenSSH key encode failed: "@ + m@),
                "OpenSSH key encode failed: "@,
            ),
        },
{
    match e {
        OpensshKeyError::Build(m) => lemma_message_prefix("OpenSSH key build failed: "@, m@),
        OpensshKeyError::Encode(m) => lemma_message_prefix("OpenSSH key encode failed: "@, m@),
    }
}

/// The error for a failed OpenSSH key step: which step, with the crate's message.
pub fn openssh_key_error(e: OpensshKeyError) -> (res: CryError)
    ensures
        match e {
            OpensshKeyError::Build(m) => res@ == CryErrorView::InvalidFormat(
                "OpenSSH key build failed: "@ + m@,
            ),
            OpensshKeyError::Encode(m) => res@ == CryErrorView::InvalidFormat(
                "OpenSSH key encode failed: "@ + m@,
            ),
        },
{
    match e {
        OpensshKeyError::Build(m) => {
            let mut msg = String::from_str("OpenSSH key build failed: ");
            msg.append(m.as_str());
            CryError::InvalidFormat(msg)
        },
        OpensshKeyError::Encode(m) => {
            let mut msg = String::from_str("OpenSSH key encode failed: ");
            msg.append(m.as_str());
            CryError::InvalidFormat(msg)
        },
    }
}

/// The outcome of building and encoding the session key: the text, or the
/// error that says which step failed, with the crate's message.
pub fn openssh_key_outcome(encoded: Result<String, OpensshKeyError>) -> (res: Result<String, CryError>)
    ensures
        match encoded {
            Ok(t) => res is Ok && res->Ok_0@ == t@,
            Err(OpensshKeyError::Build(m)) => res is Err && res->Err_0@
                == CryErrorView::InvalidFormat("OpenSSH key build failed: "@ + m@),
            Err(OpensshKeyError::Encode(m)) => res is Err && res->Err_0@
                == CryErrorView::InvalidFormat("OpenSSH key encode failed: "@ + m@),
        },
{
    match encoded {
        Ok(text) => Ok(text),
        Err(e) => Err(openssh_key_error(e)),
    }
}

/// The arguments of `ssh`: pin the agent and use only its identities, then
/// the port, the extra arguments as given, and the target last.
pub open spec fn ssh_args_spec(
    socket: Seq<char>,
    port: Option<u16>,
    extra: Seq<Seq<char>>,
    target: Seq<char>,
) -> Seq<Seq<char>> {
    seq!["-o"@, "IdentityAgent="@ + socket, "-o"@, "IdentitiesOnly=yes"@] + match port {
        Some(p) => seq!["-p"@, decimal(p as nat)],
        None => seq![],
    } + extra + seq![target]
}

/// The `ssh` command for `args`, pointed at the agent session.
pub fn ssh_command(args: &SshArgs, session: &AgentSession) -> (cmd: CommandSpec)
    ensures
        cmd@.program == "ssh"@,
        cmd@.args == ssh_args_spec(
            session@.socket,
            args.port,
            args.ssh_args.deep_view(),
            args.target@,
        ),
        cmd@.env == agent_env_spec(session@),
{
    let mut out: Vec<String> = Vec::new();
    out.push(String::from_str("-o"));
    let mut agent = String::from_str("IdentityAgent=");
    agent.append(session.socket.as_str());
    out.push(agent);
    out.push(String::from_str("-o"));
    out.push(String::from_str("IdentitiesOnly=yes"));
    match args.port {
        Some(p) => {
            out.push(String::from_str("-p"));
            out.push(decimal_string(p));
        },
        None => {},
    }
    let ghost head = out.deep_view();
    assert(head =~= seq!["-o"@, "IdentityAgent="@ + session@.socket, "-o"@, "IdentitiesOnly=yes"@]
        + match args.port {
        Some(p) => seq!["-p"@, decimal(p as nat)],
        None => seq![],
    });
    let mut i: usize = 0;
    while i < args.ssh_args.len()
        invariant
            i <= args.ssh_args@.len(),
            out.deep_view() == head + args.ssh_args.deep_view().take(i as int),
        decreases args.ssh_args@.len() - i,
    {
        let ghost prev = out.deep_view();
        let item = args.ssh_args[i].clone();
        out.push(item);
        assert(out.deep_view() =~= prev.push(args.ssh_args@[i as int]@));
        assert(args.ssh_args.deep_view().take(i + 1) =~= args.ssh_args.deep_view().take(
            i as int,
        ).push(args.ssh_args@[i as int]@));
        assert(out.deep_view() =~= head + args.ssh_args.deep_view().take(i + 1));
        i = i + 1;
    }
    assert(args.ssh_args.deep_view().take(i as int) =~= args.ssh_args.deep_view());
    let ghost prev = out.deep_view();
    out.push(args.target.clone());
    assert(out.deep_view() =~= prev.push(args.target@));
    assert(out.deep_view() =~= ssh_args_spec(
        session@.socket,
        args.port,
        args.ssh_args.deep_view(),
        args.target@,
    ));
    CommandSpec { program: String::from_str("ssh"), args: out, env: agent_env(session) }
}

/// The second space-separated field of `line`: in an OpenSSH public key line,
/// the base64 key.
pub open spec fn second_field(line: Seq<char>) -> Seq<char> {
    let k = lead_len(line, CharClass::Not(' ')) as int;
    if k < line.len() {
        until(line.skip(k + 1), ' ')
    } else {
        Seq::empty()
    }
}

pub fn second_field_of(line: &str) -> (res: String)
    ensures
        res@ == second_field(line@),
{
    let v = chars_of(line);
    let n = v.len();
    let k = lead_end(&v, 0, n, &CharClass::Not(' '));
    proof {
        assert(v@.subrange(0, n as int) =~= v@);
    }
    if k == n {
        return String::new();
    }
    let e = lead_end(&v, k + 1, n, &CharClass::Not(' '));
    proof {
        assert(v@.skip(k + 1) =~= v@.subrange(k + 1, n as int));
        assert(until(v@.skip(k + 1), ' ') =~= v@.subrange(k + 1, e as int));
    }
    String::from_str(line.substring_char(k + 1, e))
}

/// The OpenSSH forms of an Ed25519 identity.
pub struct OpensshFiles {
    /// The private key, encrypted with the passphrase.
    pub private_text: String,
    /// The `authorized_keys` line.
    pub public_line: String,
    /// The public key file: the line and a newline.
    pub public_file_text: String,
    /// The base64 key of the line.
    pub public_base64: String,
    /// The SHA-256 fingerprint.
    pub fingerprint: String,
}

/// The OpenSSH forms of the Ed25519 identity with secret `secret`: its private
/// key encrypted with `passphrase`, which decrypts to the keypair and
/// `comment` (when the comment is short enough for the key to be read back);
/// its `authorized_keys` line, base64 key and fingerprint. They are always
/// made when the comment fits and the passphrase is not empty.
pub fn openssh_identity_files(secret: &[u8; 32], passphrase: &str, comment: &str) -> (res: Result<
    OpensshFiles,
    CryError,
>)
    ensures
        res is Ok ==> {
            let f = res->Ok_0;
            let public = ed25519_public_key(secret@);
            &&& ssh_comment_reads_back(comment@) ==> openssh_decrypted_key(
                f.private_text@,
                vstd::utf8::encode_utf8(passphrase@),
            ) == Some((secret@ + public, comment@))
            &&& f.public_line@ == openssh_public_key_line(public, comment@)
            &&& f.public_file_text@ == f.public_line@.push('\n')
            &&& f.public_base64@ == second_field(f.public_line@)
            &&& f.fingerprint@ == openssh_sha256_fingerprint(public)
        },
        ssh_comment_fits(comment@) && vstd::utf8::encode_utf8(passphrase@).len() > 0 ==> res is Ok,
        res is Err ==> openssh_step_failed(res->Err_0@) || invalid_format_from(
            res->Err_0@,
            "OpenSSH public key encode failed: "@,
        ),
{
    let keypair = ed25519_keypair_bytes(secret);
    proof {
        lemma_keypair_consistent(secret@, keypair@);
    }
    let private_text = match openssh_ed25519_encrypted_private_key(
        &keypair,
        comment,
        passphrase.as_bytes(),
    ) {
        Ok(t) => t,
        Err(e) => {
            proof {
                lemma_openssh_step_failed(e);
            }
            return Err(openssh_key_error(e));
        },
    };
    let public = ed25519_verifying_key(secret);
    let public_line = match openssh_ed25519_public_line(&public, comment) {
        Ok(l) => l,
        Err(m) => {
            let mut msg = String::from_str("OpenSSH public key encode failed: ");
            msg.append(m.as_str());
            proof {
                lemma_message_prefix("OpenSSH public key encode failed: "@, m@);
            }
            return Err(CryError::InvalidFormat(msg));
        },
    };
    let mut public_file_text = public_line.clone();
    public_file_text.append("\n");
    proof {
        reveal_strlit("\n");
    }
    let public_base64 = second_field_of(public_line.as_str());
    let fingerprint = openssh_ed25519_fingerprint(&public);
    Ok(OpensshFiles { private_text, public_line, public_file_text, public_base64, fingerprint })
}

} // verus!
