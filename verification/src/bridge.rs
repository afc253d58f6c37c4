use vstd::prelude::*;

use crate::mode::BuildMode;
use crate::text::{lines_view, str_equal};
use crate::window::{has_window, main_of, tooling_opened, RegistryModel, WindowRegistry};
use vstd::string::StringExecFns;

verus! {

/// The fixed set of remote operations the bridge can carry. Each one is
/// registered under a stable, unique name before the run loop starts.
#[derive(Clone, Copy, Debug, PartialEq, Eq, Structural)]
pub enum Operation {
    OpenDevtools,
    LogToConsole,
}

/// The name under which an operation is addressable from the frontend.
pub open spec fn operation_name(op: Operation) -> Seq<char> {
    match op {
        Operation::OpenDevtools => "open_devtools"@,
        Operation::LogToConsole => "log_to_console"@,
    }
}

/// The name of an operation, as the registry and the frontend use it.
pub fn operation_name_str(op: Operation) -> (r: &'static str)
    ensures
        r@ == operation_name(op),
{
    match op {
        Operation::OpenDevtools => "open_devtools",
        Operation::LogToConsole => "log_to_console",
    }
}

/// No two registered operations share a slot.
pub open spec fn unique_operations(ops: Seq<Operation>) -> bool {
    forall|i: int, j: int| 0 <= i < j < ops.len() ==> ops[i] != ops[j]
}

/// Whether some registered operation carries the given name.
pub open spec fn finds_name(ops: Seq<Operation>, name: Seq<char>) -> bool {
    exists|i: int| 0 <= i < ops.len() && operation_name(ops[i]) == name
}

/// Registry of the named remote operations: filled once at bootstrap,
/// looked up by name for every call from the frontend.
pub struct CommandBridge {
    pub ops: Vec<Operation>,
}

impl View for CommandBridge {
    type V = Seq<Operation>;

    open spec fn view(&self) -> Seq<Operation> {
        self.ops@
    }
}

impl CommandBridge {
    /// An empty registry: no operation is reachable yet.
    pub fn new() -> (b: CommandBridge)
        ensures
            b@ == Seq::<Operation>::empty(),
    {
        CommandBridge { ops: Vec::new() }
    }

    /// Register an operation; names stay unique because each operation may
    /// be registered only once.
    pub fn register(&mut self, op: Operation)
        requires
            !old(self)@.contains(op),
        ensures
            final(self)@ == old(self)@.push(op),
    {
        self.ops.push(op);
    }

    /// Find the registered operation carrying `name`, if any.
    pub fn lookup(&self, name: &str) -> (r: Option<Operation>)
        ensures
            r is Some <==> finds_name(self@, name@),
            r matches Some(op) ==> self@.contains(op) && operation_name(op) == name@,
    {
        let mut i: usize = 0;
        while i < self.ops.len()
            invariant
                i <= self.ops.len(),
                forall|j: int| 0 <= j < i ==> operation_name(self.ops@[j]) != name@,
            decreases self.ops.len() - i,
        {
            let op = self.ops[i];
            if str_equal(operation_name_str(op), name) {
                return Some(op);
            }
            i = i + 1;
        }
        None
    }
}

/// The line `log_to_console` relays to the diagnostic output: a fixed prefix
/// tag (a clipboard pictogram and the words "Frontend Log:"), then the
/// caller's message verbatim.
pub open spec fn log_line(message: Seq<char>) -> Seq<char> {
    "\u{1F4CB} Frontend Log: "@ + message
}

/// Relay a frontend message to the diagnostic output: the returned line is
/// the fixed prefix followed by the message verbatim, for any message.
pub fn log_to_console(message: &str) -> (line: String)
    ensures
        line@ == log_line(message@),
{
    let mut line: String = "\u{1F4CB} Frontend Log: ".to_owned();
    line.append(message);
    line
}

/// The registry after `open_devtools` ran in Debug mode: the debug tooling
/// of the window labeled "main" is open; without such a window, unchanged.
pub open spec fn tooling_opened_main(r: RegistryModel) -> RegistryModel {
    if has_window(r, "main"@) {
        RegistryModel { main: Some(tooling_opened(main_of(r))) }
    } else {
        r
    }
}

/// The string `open_devtools` answers with: its fixed success string in
/// Debug mode, its fixed advisory string in Release mode.
pub open spec fn devtools_answer(mode: BuildMode) -> Seq<char> {
    match mode {
        BuildMode::Debug => "DevTools opened successfully"@,
        BuildMode::Release => "Use console logs for debugging in production"@,
    }
}

/// The one diagnostic line `open_devtools` logs per call: the
/// devtools-opened line in Debug mode, the devtools-unavailable line in
/// Release mode.
pub open spec fn devtools_lines(mode: BuildMode) -> Seq<Seq<char>> {
    match mode {
        BuildMode::Debug => seq!["\u{2705} DevTools opened successfully"@],
        BuildMode::Release => seq!["\u{2139}\u{FE0F} DevTools not available in production build"@],
    }
}

/// The window registry after `open_devtools` ran: mutated only in Debug
/// mode, and there only by opening the main window's debug tooling.
pub open spec fn devtools_windows(mode: BuildMode, r: RegistryModel) -> RegistryModel {
    match mode {
        BuildMode::Debug => tooling_opened_main(r),
        BuildMode::Release => r,
    }
}

/// Handle the `open_devtools` call. In Debug mode it opens the debug tooling
/// of the "main" window and answers with its fixed success string; in
/// Release mode it touches no window and answers with its fixed advisory
/// string. It never fails, and logs exactly one line in either branch.
pub fn open_devtools(mode: BuildMode, windows: &mut WindowRegistry) -> (r: (String, Vec<String>))
    ensures
        r.0@ == devtools_answer(mode),
        final(windows)@ == devtools_windows(mode, old(windows)@),
        lines_view(r.1@) == devtools_lines(mode),
{
    let mut lines: Vec<String> = Vec::new();
    match mode {
        BuildMode::Debug => {
            let _found = windows.open_debug_tooling("main");
            lines.push("\u{2705} DevTools opened successfully".to_owned());
            proof {
                assert(lines_view(lines@) =~= seq!["\u{2705} DevTools opened successfully"@]);
            }
            ("DevTools opened successfully".to_owned(), lines)
        },
        BuildMode::Release => {
            lines.push("\u{2139}\u{FE0F} DevTools not available in production build".to_owned());
            proof {
                assert(lines_view(lines@) =~= seq![
                    "\u{2139}\u{FE0F} DevTools not available in production build"@,
                ]);
            }
            ("Use console logs for debugging in production".to_owned(), lines)
        },
    }
}

/// Failure of a bridge call, surfaced to the caller by name; the process
/// keeps running.
#[derive(Debug, PartialEq, Eq)]
pub enum BridgeError {
    /// The caller named an operation that was never registered.
    UnknownOperation { name: String },
}

/// Successful answer of a bridge call: the string result, where the
/// operation has one, and the diagnostic lines it emitted.
#[derive(Debug, PartialEq, Eq)]
pub struct BridgeReply {
    pub value: Option<String>,
    pub diagnostics: Vec<String>,
}

} // verus!
