//! One run of the node agent: read the configuration, check the secret, the
//! signed request and its nonce, map the command to driver arguments, run the
//! driver, and answer with one reply. Each decision here takes what the
//! previous outside step produced; the first failure ends the run.

use vstd::prelude::*;
use vstd::string::*;
use crate::handlers::{trim, trimmed};
use crate::node::{driver_args, driver_argv, strings_view, valid_nonce, valid_token, NodeCommand};
use crate::numbers::{parse_i64, parsed_i64};
use crate::text::{first_index_of, lemma_first_index_of, split_at_first, split_first};

verus! {

// ---------------------------------------------------------------------------
// The configuration file
// ---------------------------------------------------------------------------

pub open spec fn trim_start_quotes(s: Seq<char>) -> Seq<char>
    decreases s.len(),
{
    if s.len() > 0 && s[0] == '"' {
        trim_start_quotes(s.drop_first())
    } else {
        s
    }
}

pub open spec fn trim_end_quotes(s: Seq<char>) -> Seq<char>
    decreases s.len(),
{
    if s.len() > 0 && s.last() == '"' {
        trim_end_quotes(s.drop_last())
    } else {
        s
    }
}

/// `s` without leading and trailing `"` (as `trim_matches('"')`).
pub open spec fn unquoted(s: Seq<char>) -> Seq<char> {
    trim_end_quotes(trim_start_quotes(s))
}

/// The lines of `text`, split at every `\n`.
pub open spec fn lines(text: Seq<char>) -> Seq<Seq<char>>
    decreases text.len(),
{
    match first_index_of(text, '\n') {
        Some(i) => if 0 <= i < text.len() {
            seq![text.subrange(0, i)] + lines(text.subrange(i + 1, text.len() as int))
        } else {
            seq![text]
        },
        None => seq![text],
    }
}

/// The value a `KEY=value` line gives `key`: both sides trimmed, the value
/// also unquoted.
pub open spec fn line_setting(line: Seq<char>, key: Seq<char>) -> Option<Seq<char>> {
    match split_at_first(line, '=') {
        Some((k, v)) => if trimmed(k) == key {
            Some(unquoted(trimmed(v)))
        } else {
            None
        },
        None => None,
    }
}

/// The value of `key` in the given lines: the last line that sets it wins.
pub open spec fn setting_in(lines: Seq<Seq<char>>, key: Seq<char>) -> Option<Seq<char>>
    decreases lines.len(),
{
    if lines.len() == 0 {
        None
    } else {
        match line_setting(lines.last(), key) {
            Some(v) => Some(v),
            None => setting_in(lines.drop_last(), key),
        }
    }
}

/// The value of `key` in the configuration `text`.
pub open spec fn config_setting(text: Seq<char>, key: Seq<char>) -> Option<Seq<char>> {
    setting_in(lines(text), key)
}

/// `s.trim_matches('"')`.
pub fn unquote(s: &str) -> (t: &str)
    ensures
        t@ == unquoted(s@),
{
    let n = s.unicode_len();
    let mut a: usize = 0;
    assert(s@.skip(0) =~= s@);
    while a < n && s.get_char(a) == '"'
        invariant
            n == s@.len(),
            a <= n,
            trim_start_quotes(s@) == trim_start_quotes(s@.skip(a as int)),
        decreases n - a,
    {
        assert(s@.skip(a as int).drop_first() =~= s@.skip(a + 1));
        a += 1;
    }
    assert(trim_start_quotes(s@) == s@.skip(a as int));
    let mut b: usize = n;
    while b > a && s.get_char(b - 1) == '"'
        invariant
            n == s@.len(),
            a <= b <= n,
            trim_end_quotes(s@.skip(a as int)) == trim_end_quotes(s@.subrange(a as int, b as int)),
        decreases b,
    {
        assert(s@.subrange(a as int, b as int).drop_last() =~= s@.subrange(a as int, b - 1));
        b -= 1;
    }
    assert(s@.skip(a as int) =~= s@.subrange(a as int, n as int));
    s.substring_char(a, b)
}

fn setting_of_line(line: &str, key: &str) -> (r: Option<String>)
    ensures
        match r {
            Some(v) => line_setting(line@, key@) == Some(v@),
            None => line_setting(line@, key@) is None,
        },
{
    match split_first(line, '=') {
        Some((k, v)) => {
            let k = trim(k);
            if crate::text::str_eq(k, key) {
                Some(unquote(trim(v)).to_string())
            } else {
                None
            }
        },
        None => None,
    }
}

proof fn lemma_setting_in_push(ls: Seq<Seq<char>>, line: Seq<char>, key: Seq<char>)
    ensures
        setting_in(ls.push(line), key) == match line_setting(line, key) {
            Some(v) => Some(v),
            None => setting_in(ls, key),
        },
{
    assert(ls.push(line).drop_last() =~= ls);
}

/// The value of `key` in the configuration `text` (the last `key=value` line
/// wins).
pub fn config_value(text: &str, key: &str) -> (r: Option<String>)
    ensures
        match r {
            Some(v) => config_setting(text@, key@) == Some(v@),
            None => config_setting(text@, key@) is None,
        },
{
    let mut rest: &str = text;
    let mut found: Option<String> = None;
    let ghost mut done: Seq<Seq<char>> = Seq::empty();
    loop
        invariant
            lines(text@) == done + lines(rest@),
            match found {
                Some(v) => setting_in(done, key@) == Some(v@),
                None => setting_in(done, key@) is None,
            },
        decreases rest@.len(),
    {
        proof {
            lemma_first_index_of(rest@, '\n');
        }
        match split_first(rest, '\n') {
            Some((line, tail)) => {
                proof {
                    let i = first_index_of(rest@, '\n')->0;
                    assert(lines(rest@) == seq![line@] + lines(tail@));
                    assert(done + lines(rest@) =~= done.push(line@) + lines(tail@));
                    lemma_setting_in_push(done, line@, key@);
                    done = done.push(line@);
                }
                match setting_of_line(line, key) {
                    Some(v) => {
                        found = Some(v);
                    },
                    None => {},
                }
                rest = tail;
            },
            None => {
                proof {
                    assert(lines(rest@) == seq![rest@]);
                    assert(done + lines(rest@) =~= done.push(rest@));
                    lemma_setting_in_push(done, rest@, key@);
                }
                match setting_of_line(rest, key) {
                    Some(v) => {
                        return Some(v);
                    },
                    None => {
                        return found;
                    },
                }
            },
        }
    }
}

/// What the agent reads from its configuration.
pub struct NodeSettings {
    /// `NODE_ID`, when it reads as an integer.
    pub node_id: Option<i64>,
    /// `PROTOCOL` as written; the driver decides which names it knows.
    pub protocol: Option<String>,
    /// `SECRET_FILE`, or the default secret path.
    pub secret_file: String,
    /// `DRIVER_COMMAND`, or the default driver path.
    pub driver: String,
}

pub open spec fn or_default(value: Option<Seq<char>>, default: Seq<char>) -> Seq<char> {
    match value {
        Some(v) => v,
        None => default,
    }
}

pub open spec fn setting_id(text: Seq<char>) -> Option<i64> {
    match config_setting(text, "NODE_ID"@) {
        Some(v) => parsed_i64(v),
        None => None,
    }
}

fn value_or(value: Option<String>, default: &str) -> (r: String)
    ensures
        r@ == or_default(
            match value {
                Some(v) => Some(v@),
                None => None,
            },
            default@,
        ),
{
    match value {
        Some(v) => v,
        None => default.to_string(),
    }
}

/// The agent's settings in the configuration `text`.
pub fn node_settings(text: &str) -> (s: NodeSettings)
    ensures
        s.node_id == setting_id(text@),
        match s.protocol {
            Some(p) => config_setting(text@, "PROTOCOL"@) == Some(p@),
            None => config_setting(text@, "PROTOCOL"@) is None,
        },
        s.secret_file@ == or_default(
            config_setting(text@, "SECRET_FILE"@),
            "/etc/awgram-node/agent.secret"@,
        ),
        s.driver@ == or_default(
            config_setting(text@, "DRIVER_COMMAND"@),
            "/usr/local/libexec/awgram-driver"@,
        ),
{
    let node_id = match config_value(text, "NODE_ID") {
        Some(v) => parse_i64(v.as_str()),
        None => None,
    };
    let protocol = config_value(text, "PROTOCOL");
    let secret_file = value_or(config_value(text, "SECRET_FILE"), "/etc/awgram-node/agent.secret");
    let driver = value_or(config_value(text, "DRIVER_COMMAND"), "/usr/local/libexec/awgram-driver");
    NodeSettings { node_id, protocol, secret_file, driver }
}

// ---------------------------------------------------------------------------
// Replies
// ---------------------------------------------------------------------------

/// What a reply carries besides its code and message.
#[derive(Debug, Clone, PartialEq)]
pub enum ReplyData {
    Nothing,
    /// The node's capabilities for its protocol.
    Capabilities,
    /// What the driver printed, trimmed.
    Output(String),
}

/// The agent's one reply.
#[derive(Debug, Clone, PartialEq)]
pub struct NodeReply {
    pub ok: bool,
    pub code: String,
    pub message: String,
    pub data: ReplyData,
}

pub open spec fn is_failure(r: NodeReply, code: Seq<char>, message: Seq<char>) -> bool {
    !r.ok && r.code@ == code && r.message@ == message && r.data == ReplyData::Nothing
}

/// A failure with `code` and `message`.
pub fn failure(code: &str, message: &str) -> (r: NodeReply)
    ensures
        is_failure(r, code@, message@),
{
    NodeReply { ok: false, code: code.to_string(), message: message.to_string(), data: ReplyData::Nothing }
}

// ---------------------------------------------------------------------------
// Decisions
// ---------------------------------------------------------------------------

/// The settings, or the reply that ends the run: the file could not be read
/// (`Err` holds the error text), or `NODE_ID` is missing, or `PROTOCOL` is.
pub fn settings_or_reply(read: Result<&str, &str>) -> (r: Result<NodeSettings, NodeReply>)
    ensures
        match read {
            Err(error) => r matches Err(reply) && is_failure(reply, "config"@, error@),
            Ok(text) => match r {
                Ok(s) => setting_id(text@) is Some && config_setting(text@, "PROTOCOL"@) is Some
                    && s.node_id == setting_id(text@) && s.protocol is Some
                    && config_setting(text@, "PROTOCOL"@) == Some(s.protocol->0@)
                    && s.secret_file@ == or_default(config_setting(text@, "SECRET_FILE"@), "/etc/awgram-node/agent.secret"@)
                    && s.driver@ == or_default(config_setting(text@, "DRIVER_COMMAND"@), "/usr/local/libexec/awgram-driver"@),
                Err(reply) => if setting_id(text@) is None {
                    is_failure(reply, "config"@, "NODE_ID is missing"@)
                } else {
                    config_setting(text@, "PROTOCOL"@) is None && is_failure(
                        reply,
                        "config"@,
                        "PROTOCOL is invalid"@,
                    )
                },
            },
        },
{
    match read {
        Err(error) => Err(failure("config", error)),
        Ok(text) => {
            let s = node_settings(text);
            if s.node_id.is_none() {
                Err(failure("config", "NODE_ID is missing"))
            } else if s.protocol.is_none() {
                Err(failure("config", "PROTOCOL is invalid"))
            } else {
                Ok(s)
            }
        },
    }
}

/// The reply when the protocol the configuration names is not one the
/// driver knows.
pub fn protocol_reply(known: bool) -> (r: Option<NodeReply>)
    ensures
        known <==> r is None,
        r matches Some(reply) ==> is_failure(reply, "config"@, "PROTOCOL is invalid"@),
{
    if known {
        None
    } else {
        Some(failure("config", "PROTOCOL is invalid"))
    }
}

/// The shortest secret the agent accepts, in bytes.
pub const MIN_SECRET_LEN: usize = 32;

/// The reply when the secret (of `len` bytes, when it could be read) is
/// missing or too short.
pub fn secret_reply(len: Option<usize>) -> (r: Option<NodeReply>)
    ensures
        r is None <==> (len matches Some(n) && n >= MIN_SECRET_LEN),
        r matches Some(reply) ==> is_failure(reply, "config"@, "node secret is missing"@),
{
    match len {
        Some(n) => if n >= MIN_SECRET_LEN {
            None
        } else {
            Some(failure("config", "node secret is missing"))
        },
        None => Some(failure("config", "node secret is missing")),
    }
}

/// The reply when the request could not be read or parsed (`error` is the
/// error text).
pub fn request_reply(error: &str) -> (r: NodeReply)
    ensures
        is_failure(r, "request"@, error@),
{
    failure("request", error)
}

/// The reply when the request's signature does not hold.
pub fn unauthorized_reply(error: &str) -> (r: NodeReply)
    ensures
        is_failure(r, "unauthorized"@, error@),
{
    failure("unauthorized", error)
}

/// Whether the nonce may be claimed at all: only a well-formed nonce reaches
/// the nonce store; any other counts as already used.
pub fn nonce_claimable(nonce: &str) -> (r: bool)
    ensures
        r == valid_token(nonce@, 16, 128),
{
    valid_nonce(nonce)
}

/// The reply after claiming the nonce: `Ok(true)` when it was fresh, `Ok(false)`
/// when it was used before (or malformed), `Err` with the store's error text.
pub fn nonce_reply(claim: Result<bool, &str>) -> (r: Option<NodeReply>)
    ensures
        r is None <==> claim == Ok::<bool, &str>(true),
        claim == Ok::<bool, &str>(false) ==> (r matches Some(reply) && is_failure(
            reply,
            "replay"@,
            "nonce already used or invalid"@,
        )),
        claim matches Err(error) ==> (r matches Some(reply) && is_failure(
            reply,
            "nonce_store"@,
            error@,
        )),
{
    match claim {
        Ok(true) => None,
        Ok(false) => Some(failure("replay", "nonce already used or invalid")),
        Err(error) => Some(failure("nonce_store", error)),
    }
}

/// What the agent does with a verified command.
pub enum CommandPlan {
    /// Answer with the node's capabilities.
    Capabilities,
    /// Run the driver with these arguments.
    Driver(Vec<String>),
}

/// The plan for `command`, or the reply that refuses it. `canonical_protocol`
/// is the driver's name for the protocol an `Install` command names, when it
/// names one.
pub fn command_plan(command: &NodeCommand, canonical_protocol: Option<&str>) -> (r: Result<
    CommandPlan,
    NodeReply,
>)
    ensures
        (*command == NodeCommand::Capabilities) ==> r matches Ok(CommandPlan::Capabilities),
        *command != NodeCommand::Capabilities ==> match driver_argv(
            *command,
            match canonical_protocol {
                Some(p) => Some(p@),
                None => None,
            },
        ) {
            None => r matches Err(reply) && is_failure(
                reply,
                "unsupported"@,
                "command is not supported"@,
            ),
            Some(args) => if args.len() == 0 {
                r matches Err(reply) && is_failure(
                    reply,
                    "invalid_arguments"@,
                    "command arguments are invalid"@,
                )
            } else {
                r matches Ok(CommandPlan::Driver(v)) && strings_view(v@) == args
            },
        },
{
    if let NodeCommand::Capabilities = command {
        return Ok(CommandPlan::Capabilities);
    }
    match driver_args(command, canonical_protocol) {
        None => Err(failure("unsupported", "command is not supported")),
        Some(args) => if args.len() == 0 {
            Err(failure("invalid_arguments", "command arguments are invalid"))
        } else {
            Ok(CommandPlan::Driver(args))
        },
    }
}

/// The reply that carries the node's capabilities.
pub fn capabilities_reply() -> (r: NodeReply)
    ensures
        r.ok && r.code@ == "ok"@ && r.message@ == "capabilities"@ && r.data
            == ReplyData::Capabilities,
{
    NodeReply {
        ok: true,
        code: "ok".to_string(),
        message: "capabilities".to_string(),
        data: ReplyData::Capabilities,
    }
}

/// The reply when the driver is not installed.
pub fn driver_reply(present: bool) -> (r: Option<NodeReply>)
    ensures
        present <==> r is None,
        r matches Some(reply) ==> is_failure(
            reply,
            "driver_missing"@,
            "VPN driver is not installed"@,
        ),
{
    if present {
        None
    } else {
        Some(failure("driver_missing", "VPN driver is not installed"))
    }
}

/// How a driver run ended.
pub enum DriverRun {
    /// The driver could not be started (the error text).
    NotStarted(String),
    /// The driver ran: whether it exited successfully, and what it printed.
    Exited { success: bool, stdout: String, stderr: String },
}

/// The reply after running the driver: a failure when it could not start or
/// did not succeed, otherwise its trimmed output.
pub fn run_reply(run: &DriverRun) -> (r: NodeReply)
    ensures
        match run {
            DriverRun::NotStarted(error) => is_failure(r, "driver_start"@, error@),
            DriverRun::Exited { success, stdout, stderr } => if *success {
                r.ok && r.code@ == "ok"@ && r.message@ == "command completed"@ && (r.data matches ReplyData::Output(out) && out@ == trimmed(stdout@))
            } else {
                is_failure(r, "driver_failed"@, trimmed(stderr@))
            },
        },
{
    match run {
        DriverRun::NotStarted(error) => failure("driver_start", error.as_str()),
        DriverRun::Exited { success, stdout, stderr } => if *success {
            NodeReply {
                ok: true,
                code: "ok".to_string(),
                message: "command completed".to_string(),
                data: ReplyData::Output(trim(stdout.as_str()).to_string()),
            }
        } else {
            failure("driver_failed", trim(stderr.as_str()))
        },
    }
}

/// The driver runs only with arguments made from a valid command: a client
/// name among them is a valid client name.
pub proof fn law_driver_args_only_valid_names(
    command: NodeCommand,
    canonical_protocol: Option<Seq<char>>,
    args: Seq<Seq<char>>,
)
    requires
        driver_argv(command, canonical_protocol) == Some(args),
        args.len() > 0,
        command is CreateClient || command is RevokeClient || command is GetConfiguration
            || command is RegenerateClient || command is SetClientEnabled || command is SetClientExpiry,
    ensures
        crate::node::valid_client_name(args[1]),
{
}

} // verus!

verus! {

// ---------------------------------------------------------------------------
// One run, step by step
// ---------------------------------------------------------------------------

/// Where a run of the agent stands: what it waits for next.
pub enum AgentPhase {
    /// The configuration file's text.
    Config,
    /// Whether the driver knows the configured protocol.
    Protocol,
    /// The secret's length.
    Secret,
    /// Whether the request could be read from standard input.
    Request,
    /// The verified command and nonce.
    Verify,
    /// The nonce claim, for this verified command.
    Nonce { command: NodeCommand },
    /// The driver's name for the protocol an `Install` command names.
    InstallProtocol { command: NodeCommand },
    /// Whether the driver is installed, to run it with these arguments.
    DriverCheck { args: Vec<String> },
    /// How the driver run ended.
    Driver,
    /// The run has replied.
    Done,
}

/// What the caller learnt by performing the last command.
pub enum AgentEvent {
    /// The configuration file's text, or the error text.
    ConfigRead(Result<String, String>),
    ProtocolKnown(bool),
    /// The secret's length in bytes, when it could be read.
    SecretRead(Option<usize>),
    /// Standard input was read, or the error text.
    RequestRead(Result<(), String>),
    /// The verified command and its nonce, or why verification failed.
    Verified(Result<(NodeCommand, String), String>),
    /// Whether the nonce was claimed fresh, or the nonce store's error text.
    NonceClaimed(Result<bool, String>),
    /// The driver's name for the requested protocol, if it knows it.
    Canonical(Option<String>),
    DriverPresent(bool),
    DriverRan(DriverRun),
}

/// What the caller does next.
pub enum AgentCommand {
    /// Check the configured protocol with the driver (the settings read).
    CheckProtocol(NodeSettings),
    ReadSecret,
    ReadRequest,
    /// Verify the request with the node id, the time and the secret.
    Verify,
    /// Claim this nonce in the nonce store.
    ClaimNonce(String),
    /// Ask the driver for its name of this protocol.
    CanonicalProtocol(String),
    CheckDriver,
    RunDriver(Vec<String>),
    /// Print this reply (with the capabilities when it carries them); the
    /// run is over.
    Reply(NodeReply),
}

/// The event is the one the phase waits for.
pub open spec fn event_fits(phase: AgentPhase, event: AgentEvent) -> bool {
    match phase {
        AgentPhase::Config => event is ConfigRead,
        AgentPhase::Protocol => event is ProtocolKnown,
        AgentPhase::Secret => event is SecretRead,
        AgentPhase::Request => event is RequestRead,
        AgentPhase::Verify => event is Verified,
        AgentPhase::Nonce { .. } => event is NonceClaimed,
        AgentPhase::InstallProtocol { .. } => event is Canonical,
        AgentPhase::DriverCheck { .. } => event is DriverPresent,
        AgentPhase::Driver => event is DriverRan,
        AgentPhase::Done => false,
    }
}

/// The step after a verified, freshly claimed `command` (with the driver's
/// name of its install protocol): the capabilities reply, a refusal, or the
/// driver check with the driver's arguments.
pub open spec fn planned(
    command: NodeCommand,
    canonical: Option<Seq<char>>,
    next: AgentPhase,
    out: AgentCommand,
) -> bool {
    if command == NodeCommand::Capabilities {
        next is Done && (out matches AgentCommand::Reply(reply) && reply.ok && reply.code@ == "ok"@
            && reply.message@ == "capabilities"@ && reply.data == ReplyData::Capabilities)
    } else {
        match driver_argv(command, canonical) {
            None => next is Done && (out matches AgentCommand::Reply(reply) && is_failure(
                reply,
                "unsupported"@,
                "command is not supported"@,
            )),
            Some(args) => if args.len() == 0 {
                next is Done && (out matches AgentCommand::Reply(reply) && is_failure(
                    reply,
                    "invalid_arguments"@,
                    "command arguments are invalid"@,
                ))
            } else {
                out is CheckDriver && (next matches AgentPhase::DriverCheck { args: v } && strings_view(
                    v@,
                ) == args)
            },
        }
    }
}

fn plan_step(command: NodeCommand, canonical: Option<&str>) -> (r: (AgentPhase, AgentCommand))
    ensures
        planned(
            command,
            match canonical {
                Some(p) => Some(p@),
                None => None,
            },
            r.0,
            r.1,
        ),
{
    match command_plan(&command, canonical) {
        Ok(CommandPlan::Capabilities) => (AgentPhase::Done, AgentCommand::Reply(capabilities_reply())),
        Ok(CommandPlan::Driver(args)) => (AgentPhase::DriverCheck { args }, AgentCommand::CheckDriver),
        Err(reply) => (AgentPhase::Done, AgentCommand::Reply(reply)),
    }
}

/// The next step of a run. The checks come in a fixed order: configuration,
/// protocol, secret, request, signature, nonce, command, driver; each refusal
/// is the run's reply and ends it, and the driver runs only after every check
/// passed.
pub fn agent_step(phase: AgentPhase, event: AgentEvent) -> (r: (AgentPhase, AgentCommand))
    requires
        event_fits(phase, event),
    ensures
        r.1 is Reply <==> r.0 is Done,
        r.1 is RunDriver ==> phase is DriverCheck && event == AgentEvent::DriverPresent(true),
        r.0 is Nonce ==> phase is Verify && event matches AgentEvent::Verified(Ok(_)),
        r.0 is DriverCheck ==> (phase is Nonce && event == AgentEvent::NonceClaimed(Ok(true)))
            || phase is InstallProtocol,
        match (phase, event) {
            (AgentPhase::Config, AgentEvent::ConfigRead(Err(error))) => r.0 is Done
                && (r.1 matches AgentCommand::Reply(reply) && is_failure(reply, "config"@, error@)),
            (AgentPhase::Config, AgentEvent::ConfigRead(Ok(text))) => match r.1 {
                AgentCommand::CheckProtocol(s) => r.0 is Protocol && setting_id(text@) is Some
                    && config_setting(text@, "PROTOCOL"@) is Some && s.node_id == setting_id(text@)
                    && config_setting(text@, "PROTOCOL"@) == Some(s.protocol->0@)
                    && s.secret_file@ == or_default(config_setting(text@, "SECRET_FILE"@), "/etc/awgram-node/agent.secret"@)
                    && s.driver@ == or_default(config_setting(text@, "DRIVER_COMMAND"@), "/usr/local/libexec/awgram-driver"@),
                AgentCommand::Reply(reply) => if setting_id(text@) is None {
                    is_failure(reply, "config"@, "NODE_ID is missing"@)
                } else {
                    config_setting(text@, "PROTOCOL"@) is None && is_failure(reply, "config"@, "PROTOCOL is invalid"@)
                },
                _ => false,
            },
            (AgentPhase::Protocol, AgentEvent::ProtocolKnown(known)) => if known {
                r.0 is Secret && r.1 is ReadSecret
            } else {
                r.1 matches AgentCommand::Reply(reply) && is_failure(reply, "config"@, "PROTOCOL is invalid"@)
            },
            (AgentPhase::Secret, AgentEvent::SecretRead(len)) => if len matches Some(n) && n >= MIN_SECRET_LEN {
                r.0 is Request && r.1 is ReadRequest
            } else {
                r.1 matches AgentCommand::Reply(reply) && is_failure(reply, "config"@, "node secret is missing"@)
            },
            (AgentPhase::Request, AgentEvent::RequestRead(read)) => match read {
                Ok(_) => r.0 is Verify && r.1 is Verify,
                Err(error) => r.1 matches AgentCommand::Reply(reply) && is_failure(reply, "request"@, error@),
            },
            (AgentPhase::Verify, AgentEvent::Verified(verdict)) => match verdict {
                Ok((command, nonce)) => r.0 == AgentPhase::Nonce { command } && r.1 == AgentCommand::ClaimNonce(nonce),
                Err(error) => r.1 matches AgentCommand::Reply(reply) && is_failure(reply, "unauthorized"@, error@),
            },
            (AgentPhase::Nonce { command }, AgentEvent::NonceClaimed(claim)) => match claim {
                Ok(true) => match command {
                    NodeCommand::Install { protocol } => r.0 == AgentPhase::InstallProtocol { command }
                        && r.1 == AgentCommand::CanonicalProtocol(protocol),
                    _ => planned(command, None, r.0, r.1),
                },
                Ok(false) => r.1 matches AgentCommand::Reply(reply) && is_failure(reply, "replay"@, "nonce already used or invalid"@),
                Err(error) => r.1 matches AgentCommand::Reply(reply) && is_failure(reply, "nonce_store"@, error@),
            },
            (AgentPhase::InstallProtocol { command }, AgentEvent::Canonical(canonical)) => planned(
                command,
                match canonical {
                    Some(p) => Some(p@),
                    None => None,
                },
                r.0,
                r.1,
            ),
            (AgentPhase::DriverCheck { args }, AgentEvent::DriverPresent(present)) => if present {
                r.0 is Driver && r.1 == AgentCommand::RunDriver(args)
            } else {
                r.1 matches AgentCommand::Reply(reply) && is_failure(reply, "driver_missing"@, "VPN driver is not installed"@)
            },
            (AgentPhase::Driver, AgentEvent::DriverRan(run)) => r.0 is Done && match r.1 {
                AgentCommand::Reply(reply) => match run {
                    DriverRun::NotStarted(error) => is_failure(reply, "driver_start"@, error@),
                    DriverRun::Exited { success, stdout, stderr } => if success {
                        reply.ok && reply.code@ == "ok"@ && reply.message@ == "command completed"@
                            && (reply.data matches ReplyData::Output(out) && out@ == trimmed(stdout@))
                    } else {
                        is_failure(reply, "driver_failed"@, trimmed(stderr@))
                    },
                },
                _ => false,
            },
            _ => false,
        },
{
    match (phase, event) {
        (AgentPhase::Config, AgentEvent::ConfigRead(read)) => {
            let outcome = match &read {
                Ok(text) => settings_or_reply(Ok(text.as_str())),
                Err(error) => settings_or_reply(Err(error.as_str())),
            };
            match outcome {
                Ok(s) => (AgentPhase::Protocol, AgentCommand::CheckProtocol(s)),
                Err(reply) => (AgentPhase::Done, AgentCommand::Reply(reply)),
            }
        },
        (AgentPhase::Protocol, AgentEvent::ProtocolKnown(known)) => match protocol_reply(known) {
            Some(reply) => (AgentPhase::Done, AgentCommand::Reply(reply)),
            None => (AgentPhase::Secret, AgentCommand::ReadSecret),
        },
        (AgentPhase::Secret, AgentEvent::SecretRead(len)) => match secret_reply(len) {
            Some(reply) => (AgentPhase::Done, AgentCommand::Reply(reply)),
            None => (AgentPhase::Request, AgentCommand::ReadRequest),
        },
        (AgentPhase::Request, AgentEvent::RequestRead(read)) => match read {
            Ok(()) => (AgentPhase::Verify, AgentCommand::Verify),
            Err(error) => (AgentPhase::Done, AgentCommand::Reply(request_reply(error.as_str()))),
        },
        (AgentPhase::Verify, AgentEvent::Verified(verdict)) => match verdict {
            Ok((command, nonce)) => (AgentPhase::Nonce { command }, AgentCommand::ClaimNonce(nonce)),
            Err(error) => (AgentPhase::Done, AgentCommand::Reply(unauthorized_reply(error.as_str()))),
        },
        (AgentPhase::Nonce { command }, AgentEvent::NonceClaimed(claim)) => {
            let outcome = match &claim {
                Ok(fresh) => nonce_reply(Ok(*fresh)),
                Err(error) => nonce_reply(Err(error.as_str())),
            };
            match outcome {
                Some(reply) => (AgentPhase::Done, AgentCommand::Reply(reply)),
                None => match command {
                    NodeCommand::Install { protocol } => {
                        let requested = protocol.clone();
                        (
                            AgentPhase::InstallProtocol { command: NodeCommand::Install { protocol } },
                            AgentCommand::CanonicalProtocol(requested),
                        )
                    },
                    other => plan_step(other, None),
                },
            }
        },
        (AgentPhase::InstallProtocol { command }, AgentEvent::Canonical(canonical)) => match canonical {
            Some(p) => plan_step(command, Some(p.as_str())),
            None => plan_step(command, None),
        },
        (AgentPhase::DriverCheck { args }, AgentEvent::DriverPresent(present)) => match driver_reply(present) {
            Some(reply) => (AgentPhase::Done, AgentCommand::Reply(reply)),
            None => (AgentPhase::Driver, AgentCommand::RunDriver(args)),
        },
        (AgentPhase::Driver, AgentEvent::DriverRan(run)) => (AgentPhase::Done, AgentCommand::Reply(run_reply(&run))),
        _ => (AgentPhase::Done, AgentCommand::Reply(failure("internal", "unexpected step"))),
    }
}

} // verus!
