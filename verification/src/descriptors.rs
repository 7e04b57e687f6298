use vstd::prelude::*;
use crate::numeric::as_unsigned_index;
use crate::numeric::as_wire_index;
use crate::numeric::lemma_index_round_trip;
use crate::numeric::narrow_index;
use crate::numeric::widen_index;

verus! {

/// A file the host is asked to open, with an optional line to jump to and
/// an optional working directory.
#[derive(Clone, Debug, PartialEq, Eq)]
pub struct FileToOpen {
    pub path: String,
    pub line_number: Option<u32>,
    pub cwd: Option<String>,
}

/// The wire shape of a file descriptor: the line number crosses the wire
/// at the wider signed width.
#[derive(Clone, Debug, PartialEq, Eq)]
pub struct WireFile {
    pub path: String,
    pub line_number: Option<i32>,
    pub cwd: Option<String>,
}

/// What decoding a wire file descriptor yields.
pub open spec fn file_of_wire(f: WireFile) -> FileToOpen {
    FileToOpen {
        path: f.path,
        line_number: (match f.line_number {
            Some(n) => Some(as_unsigned_index(n)),
            None => None,
        }),
        cwd: f.cwd,
    }
}

/// What encoding a file descriptor yields.
pub open spec fn wire_of_file(f: FileToOpen) -> WireFile {
    WireFile {
        path: f.path,
        line_number: (match f.line_number {
            Some(n) => Some(as_wire_index(n)),
            None => None,
        }),
        cwd: f.cwd,
    }
}

/// Decodes a wire file descriptor.
pub fn file_from_wire(f: WireFile) -> (r: FileToOpen)
    ensures
        r == file_of_wire(f),
{
    FileToOpen {
        path: f.path,
        line_number: (match f.line_number {
            Some(n) => Some(narrow_index(n)),
            None => None,
        }),
        cwd: f.cwd,
    }
}

/// Encodes a file descriptor.
pub fn file_to_wire(f: FileToOpen) -> (r: WireFile)
    ensures
        r == wire_of_file(f),
{
    WireFile {
        path: f.path,
        line_number: (match f.line_number {
            Some(n) => Some(widen_index(n)),
            None => None,
        }),
        cwd: f.cwd,
    }
}

/// A file descriptor survives the trip onto the wire and back unchanged.
pub broadcast proof fn lemma_file_round_trip(f: FileToOpen)
    ensures
        #[trigger] file_of_wire(wire_of_file(f)) == f,
{
    match f.line_number {
        Some(n) => lemma_index_round_trip(n),
        None => {},
    }
}

/// A command the host is asked to run in a new pane.
#[derive(Clone, Debug, PartialEq, Eq)]
pub struct CommandToRun {
    pub path: String,
    pub args: Vec<String>,
    pub cwd: Option<String>,
}

/// The wire shape of a command descriptor.
#[derive(Clone, Debug, PartialEq, Eq)]
pub struct WireRunCommand {
    pub path: String,
    pub args: Vec<String>,
    pub cwd: Option<String>,
}

/// What decoding a wire command descriptor yields.
pub open spec fn run_command_of_wire(w: WireRunCommand) -> CommandToRun {
    CommandToRun { path: w.path, args: w.args, cwd: w.cwd }
}

/// What encoding a command descriptor yields.
pub open spec fn wire_of_run_command(c: CommandToRun) -> WireRunCommand {
    WireRunCommand { path: c.path, args: c.args, cwd: c.cwd }
}

/// Decodes a wire command descriptor.
pub fn run_command_from_wire(w: WireRunCommand) -> (r: CommandToRun)
    ensures
        r == run_command_of_wire(w),
{
    CommandToRun { path: w.path, args: w.args, cwd: w.cwd }
}

/// Encodes a command descriptor.
pub fn run_command_to_wire(c: CommandToRun) -> (r: WireRunCommand)
    ensures
        r == wire_of_run_command(c),
{
    WireRunCommand { path: c.path, args: c.args, cwd: c.cwd }
}

/// A message posted to another plugin or worker.
#[derive(Clone, Debug, PartialEq, Eq)]
pub struct PluginMessage {
    pub name: String,
    pub payload: String,
    pub worker_name: Option<String>,
}

/// The wire shape of a plugin message.
#[derive(Clone, Debug, PartialEq, Eq)]
pub struct WireMessage {
    pub name: String,
    pub payload: String,
    pub worker_name: Option<String>,
}

/// What decoding a wire message yields.
pub open spec fn message_of_wire(w: WireMessage) -> PluginMessage {
    PluginMessage { name: w.name, payload: w.payload, worker_name: w.worker_name }
}

/// What encoding a plugin message yields.
pub open spec fn wire_of_message(m: PluginMessage) -> WireMessage {
    WireMessage { name: m.name, payload: m.payload, worker_name: m.worker_name }
}

/// Decodes a wire message.
pub fn message_from_wire(w: WireMessage) -> (r: PluginMessage)
    ensures
        r == message_of_wire(w),
{
    PluginMessage { name: w.name, payload: w.payload, worker_name: w.worker_name }
}

/// Encodes a plugin message.
pub fn message_to_wire(m: PluginMessage) -> (r: WireMessage)
    ensures
        r == wire_of_message(m),
{
    WireMessage { name: m.name, payload: m.payload, worker_name: m.worker_name }
}

} // verus!
