//! The command dispatcher: parses a message against the prefix, routes the
//! command through the table, runs it and decides how its outcome is logged.

use vstd::prelude::*;
use crate::ping;
use crate::storage::{HandlerStatus, Storage};
use crate::text::{has_prefix, is_white_space, same_text, scan, split_words, starts_with, views, words};

verus! {

/// The words that follow `prefix` at the start of `content`.
pub open spec fn command_words(prefix: Seq<char>, content: Seq<char>) -> Seq<Seq<char>> {
    words(content.subrange(prefix.len() as int, content.len() as int))
}

/// Whether a message from an author (automated or not) is a command
/// invocation: a person wrote it, it starts with the prefix, and a word
/// follows the prefix.
pub open spec fn is_invocation(prefix: Seq<char>, content: Seq<char>, author_is_bot: bool) -> bool {
    !author_is_bot && has_prefix(content, prefix) && command_words(prefix, content).len() > 0
}

/// Scanning whitespace only closes no word and leaves none in progress.
proof fn lemma_scan_blank(s: Seq<char>)
    requires
        forall|i: int| 0 <= i < s.len() ==> is_white_space(#[trigger] s[i]),
    ensures
        scan(s).0.len() == 0,
        scan(s).1.len() == 0,
    decreases s.len(),
{
    if s.len() > 0 {
        let t = s.drop_last();
        assert forall|i: int| 0 <= i < t.len() implies is_white_space(#[trigger] t[i]) by {
            assert(t[i] == s[i]);
        }
        lemma_scan_blank(t);
        assert(is_white_space(s[s.len() - 1]));
    }
}

/// A message that is empty or holds only whitespace is never an invocation,
/// whatever the prefix.
pub proof fn lemma_blank_message_is_skipped(prefix: Seq<char>, content: Seq<char>, author_is_bot: bool)
    requires
        forall|i: int| 0 <= i < content.len() ==> is_white_space(#[trigger] content[i]),
    ensures
        !is_invocation(prefix, content, author_is_bot),
{
    if has_prefix(content, prefix) {
        let rest = content.subrange(prefix.len() as int, content.len() as int);
        assert forall|i: int| 0 <= i < rest.len() implies is_white_space(#[trigger] rest[i]) by {
            assert(rest[i] == content[i + prefix.len()]);
        }
        lemma_scan_blank(rest);
    }
}

/// A parsed invocation: the command's name, the prefix it was called with and
/// its arguments.
pub struct CommandData {
    pub name: String,
    pub prefix: String,
    pub args: Vec<String>,
}

impl CommandData {
    /// `self` is the parse of `content` under `prefix`: the first word after
    /// the prefix is the name, the others are the arguments.
    pub open spec fn parses(&self, prefix: Seq<char>, content: Seq<char>) -> bool {
        let w = command_words(prefix, content);
        &&& w.len() > 0
        &&& self.name@ == w[0]
        &&& self.prefix@ == prefix
        &&& views(self.args@) == w.drop_first()
    }

    /// Parses `content` under `prefix`; fails when `content` does not start
    /// with `prefix` or no word follows it.
    pub fn new(prefix: &String, content: &String) -> (r: Result<CommandData, ()>)
        ensures
            r is Ok <==> (has_prefix(content@, prefix@) && command_words(prefix@, content@).len() > 0),
            r matches Ok(cmd) ==> cmd.parses(prefix@, content@),
    {
        if !starts_with(content.as_str(), prefix.as_str()) {
            return Err(());
        }
        let rest = content.as_str().substring_char(prefix.as_str().unicode_len(), content.as_str().unicode_len());
        let mut w = split_words(rest);
        if w.len() == 0 {
            return Err(());
        }
        let ghost all = w@;
        let name = w.remove(0);
        proof {
            assert(views(w@) =~= views(all).drop_first());
        }
        Ok(CommandData { name, prefix: prefix.clone(), args: w })
    }
}

/// The ways a command can fail.
#[derive(Clone, Copy, Debug, PartialEq, Eq, Structural)]
pub enum CommandError {
    MessageNotSent,
    InvalidData,
    NoPermissions,
    TreatedException,
    TooEarly,
    CommandNotFound,
    Unknown,
}

/// The name of an error as it is logged.
pub open spec fn error_name(e: CommandError) -> Seq<char> {
    match e {
        CommandError::MessageNotSent => "MessageNotSent"@,
        CommandError::InvalidData => "InvalidData"@,
        CommandError::NoPermissions => "NoPermissions"@,
        CommandError::TreatedException => "TreatedException"@,
        CommandError::TooEarly => "TooEarly"@,
        CommandError::CommandNotFound => "CommandNotFound"@,
        CommandError::Unknown => "Unknown"@,
    }
}

impl CommandError {
    /// The error's name.
    pub fn as_str(&self) -> (r: &'static str)
        ensures
            r@ == error_name(*self),
    {
        match self {
            CommandError::MessageNotSent => "MessageNotSent",
            CommandError::InvalidData => "InvalidData",
            CommandError::NoPermissions => "NoPermissions",
            CommandError::TreatedException => "TreatedException",
            CommandError::TooEarly => "TooEarly",
            CommandError::CommandNotFound => "CommandNotFound",
            CommandError::Unknown => "Unknown",
        }
    }
}

/// The commands that the bot knows.
#[derive(Clone, Copy, Debug, PartialEq, Eq, Structural)]
pub enum Command {
    Ping,
}

/// The reply that a command sends back to the channel it was invoked in.
#[derive(Clone, Copy, Debug, PartialEq, Eq, Structural)]
pub enum Reply {
    /// The measured latency of connection `shard`.
    Pong { latency_ms: u64, shard: u64 },
    /// The bot cannot answer yet: it is still starting.
    StillStarting,
}

/// How the dispatcher logs a command's outcome.
#[derive(Clone, Copy, Debug, PartialEq, Eq, Structural)]
pub enum LogAction {
    /// A benign failure, logged as a warning.
    Warn,
    /// A failure logged as an error, with its cause.
    Error,
    /// A success traced with the command's name and its author.
    Trace,
    /// Nothing is logged.
    Quiet,
}

/// The log action for a command's result in handler mode `mode`.
pub open spec fn log_for(result: Result<(), CommandError>, mode: HandlerStatus) -> LogAction {
    match result {
        Ok(()) => if mode is ProdMode {
            LogAction::Quiet
        } else {
            LogAction::Trace
        },
        Err(CommandError::TooEarly) => LogAction::Warn,
        Err(CommandError::CommandNotFound) => LogAction::Warn,
        Err(CommandError::TreatedException) => LogAction::Quiet,
        Err(_) => LogAction::Error,
    }
}

/// Decides how a command's result is logged: `TooEarly` and
/// `CommandNotFound` warn, `TreatedException` was already answered and stays
/// silent, any other error is an error; a success is traced in development
/// and debug modes only.
pub fn classify(result: &Result<(), CommandError>, mode: HandlerStatus) -> (r: LogAction)
    ensures
        r == log_for(*result, mode),
{
    match result {
        Ok(()) => if mode.is_dev() {
            LogAction::Trace
        } else {
            LogAction::Quiet
        },
        Err(CommandError::TooEarly) | Err(CommandError::CommandNotFound) => LogAction::Warn,
        Err(CommandError::TreatedException) => LogAction::Quiet,
        Err(_) => LogAction::Error,
    }
}

/// One entry of the command table.
pub struct CommandEntry {
    pub name: String,
    pub command: Command,
}

/// The command that the first entry named `name` stands for.
pub open spec fn find_in(entries: Seq<CommandEntry>, name: Seq<char>) -> Result<Command, CommandError>
    decreases entries.len(),
{
    if entries.len() == 0 {
        Err(CommandError::CommandNotFound)
    } else if entries[0].name@ == name {
        Ok(entries[0].command)
    } else {
        find_in(entries.drop_first(), name)
    }
}

/// The table from command names to commands, built once at startup.
pub struct CommandTable {
    pub entries: Vec<CommandEntry>,
}

impl CommandTable {
    /// The table of the commands that the bot knows: `ping`.
    pub fn standard() -> (r: CommandTable)
        ensures
            r.entries@.len() == 1,
            r.entries@[0].name@ == "ping"@,
            r.entries@[0].command == Command::Ping,
    {
        let mut entries: Vec<CommandEntry> = Vec::new();
        entries.push(CommandEntry { name: String::from_str("ping"), command: Command::Ping });
        CommandTable { entries }
    }

    /// The command named `name`, or `CommandNotFound`.
    pub fn lookup(&self, name: &str) -> (r: Result<Command, CommandError>)
        ensures
            r == find_in(self.entries@, name@),
    {
        let n = self.entries.len();
        let mut i: usize = 0;
        assert(self.entries@.subrange(0, n as int) =~= self.entries@);
        while i < n
            invariant
                n == self.entries@.len(),
                i <= n,
                find_in(self.entries@, name@) == find_in(self.entries@.subrange(i as int, n as int), name@),
            decreases n - i,
        {
            let ghost rest = self.entries@.subrange(i as int, n as int);
            assert(rest.drop_first() =~= self.entries@.subrange(i + 1, n as int));
            if same_text(self.entries[i].name.as_str(), name) {
                return Ok(self.entries[i].command);
            }
            i = i + 1;
        }
        Err(CommandError::CommandNotFound)
    }
}

/// The reply and result of running `command` on connection `shard`.
pub open spec fn run_outcome(storage: Storage, found: Result<Command, CommandError>, shard: u64) -> (Option<Reply>, Result<(), CommandError>) {
    match found {
        Ok(Command::Ping) => {
            let o = ping::ping_outcome(storage.latency@, shard);
            (Some(o.0), o.1)
        },
        Err(e) => (None, Err(e)),
    }
}

/// What handling one message came to.
pub struct Dispatch {
    /// The parsed invocation.
    pub command: CommandData,
    /// The reply to send back, if any.
    pub reply: Option<Reply>,
    /// The command's result.
    pub result: Result<(), CommandError>,
    /// How the result is logged.
    pub log: LogAction,
}

/// Handles a message read on connection `shard`: nothing when it is no
/// invocation (an automated author, no prefix, or nothing but whitespace
/// after it), else the command's reply, result and log action.
pub fn execute(storage: &Storage, table: &CommandTable, content: &String, author_is_bot: bool, shard: u64) -> (r: Option<Dispatch>)
    ensures
        r is Some <==> is_invocation(storage.client.prefix@, content@, author_is_bot),
        r matches Some(d) ==> {
            let found = find_in(table.entries@, d.command.name@);
            let out = run_outcome(*storage, found, shard);
            &&& d.command.parses(storage.client.prefix@, content@)
            &&& d.reply == out.0
            &&& d.result == out.1
            &&& d.log == log_for(out.1, storage.handler_state)
        },
{
    if author_is_bot {
        return None;
    }
    let command = match CommandData::new(&storage.client.prefix, content) {
        Ok(c) => c,
        Err(()) => {
            return None;
        },
    };
    let (reply, result) = match table.lookup(command.name.as_str()) {
        Ok(Command::Ping) => {
            let (rep, res) = ping::execute(&storage.latency, shard);
            (Some(rep), res)
        },
        Err(e) => (None, Err(e)),
    };
    let log = classify(&result, storage.handler_state);
    Some(Dispatch { command, reply, result, log })
}

} // verus!
