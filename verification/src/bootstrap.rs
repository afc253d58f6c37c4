use vstd::prelude::*;

use crate::bridge::{
    devtools_answer, devtools_lines, devtools_windows, finds_name, log_line, log_to_console,
    open_devtools, operation_name, BridgeError, BridgeReply, CommandBridge, Operation,
};
use crate::mode::BuildMode;
use crate::text::{lines_view, str_equal};
use crate::window::{tooling_opened, RegistryModel, WindowHandle, WindowRegistry};

verus! {

/// The external capability plugins the bootstrap registers, in registration
/// order. The core registers them as opaque capabilities; their behaviour
/// is the host's.
#[derive(Clone, Copy, Debug, PartialEq, Eq, Structural)]
pub enum Plugin {
    Opener,
    DeepLink,
    Store,
}

/// The capabilities every startup must register, in the order the bootstrap
/// registers them: external-resource opener, deep-link handler, persistent
/// key-value store.
pub fn required_plugins() -> (v: Vec<Plugin>)
    ensures
        v@ == seq![Plugin::Opener, Plugin::DeepLink, Plugin::Store],
{
    let mut v: Vec<Plugin> = Vec::new();
    v.push(Plugin::Opener);
    v.push(Plugin::DeepLink);
    v.push(Plugin::Store);
    proof {
        assert(v@ =~= seq![Plugin::Opener, Plugin::DeepLink, Plugin::Store]);
    }
    v
}

/// A fatal startup fault: either a capability plugin failed to register, or
/// the required "main" window does not exist. Both abort startup before the
/// run loop; nothing later can raise them.
#[derive(Clone, Copy, Debug, PartialEq, Eq, Structural)]
pub enum StartupError {
    PluginRegistrationFailed,
    MainWindowMissing,
}

/// The state a primary process runs with: its build mode, its window
/// registry, and the command bridge the frontend calls into.
pub struct AppCore {
    pub mode: BuildMode,
    pub windows: WindowRegistry,
    pub bridge: CommandBridge,
}

/// Mathematical state of a running core.
pub struct CoreModel {
    pub mode: BuildMode,
    pub windows: RegistryModel,
    pub bridge: Seq<Operation>,
}

impl View for AppCore {
    type V = CoreModel;

    open spec fn view(&self) -> CoreModel {
        CoreModel { mode: self.mode, windows: self.windows@, bridge: self.bridge@ }
    }
}

/// Whether the host handed bootstrap the required window: one labeled
/// "main".
pub open spec fn main_window_present(w: Option<WindowHandle>) -> bool {
    w matches Some(h) && h@.label == "main"@
}

/// The registry a finished bootstrap owns: the given window, with its debug
/// tooling opened when the build mode is Debug.
pub open spec fn bootstrapped_registry(mode: BuildMode, w: crate::window::WindowModel) -> RegistryModel {
    match mode {
        BuildMode::Debug => RegistryModel { main: Some(tooling_opened(w)) },
        BuildMode::Release => RegistryModel { main: Some(w) },
    }
}

/// The fixed startup diagnostic lines, in order: the debug-tooling line in
/// Debug mode only, then the three lines every startup emits.
pub open spec fn startup_lines(mode: BuildMode) -> Seq<Seq<char>> {
    let common = seq![
        "\u{1F680} Application startup complete"@,
        "\u{1F4CB} Debug info available in terminal/console logs"@,
        "\u{1F4A1} JavaScript console logs transferred via window.logToRust()"@,
    ];
    match mode {
        BuildMode::Debug => seq!["\u{1F6E0}\u{FE0F} DevTools auto-opened (debug mode)"@] + common,
        BuildMode::Release => common,
    }
}

/// What a finished primary bootstrap hands the run loop: the core state and
/// the startup diagnostic lines to emit.
pub struct BootOutcome {
    pub core: AppCore,
    pub diagnostics: Vec<String>,
}

/// Bootstrap of a primary process, in order: capability registration must
/// have succeeded (fatal otherwise), the command bridge is filled with both
/// operations under their unique names, the window labeled "main" must
/// exist (fatal otherwise), and in Debug mode its debug tooling is opened.
/// The plugin fault is checked first: it is reported even when the window
/// is also missing.
pub fn bootstrap(mode: BuildMode, plugins_registered: bool, main_window: Option<WindowHandle>) -> (r:
    Result<BootOutcome, StartupError>)
    ensures
        r is Ok <==> plugins_registered && main_window_present(main_window),
        !plugins_registered ==> (r matches Err(e) && e == StartupError::PluginRegistrationFailed),
        plugins_registered && !main_window_present(main_window) ==> (r matches Err(e) && e
            == StartupError::MainWindowMissing),
        (plugins_registered && main_window_present(main_window)) ==> (r matches Ok(out)
            && out.core@.mode == mode && out.core@.bridge == seq![
            Operation::OpenDevtools,
            Operation::LogToConsole,
        ] && out.core@.windows == bootstrapped_registry(mode, main_window->0@) && lines_view(
            out.diagnostics@,
        ) == startup_lines(mode)),
{
    if !plugins_registered {
        return Err(StartupError::PluginRegistrationFailed);
    }
    let window = match main_window {
        Some(w) => {
            if str_equal(w.label.as_str(), "main") {
                w
            } else {
                return Err(StartupError::MainWindowMissing);
            }
        },
        None => {
            return Err(StartupError::MainWindowMissing);
        },
    };
    let mut bridge = CommandBridge::new();
    bridge.register(Operation::OpenDevtools);
    bridge.register(Operation::LogToConsole);
    proof {
        assert(bridge@ =~= seq![Operation::OpenDevtools, Operation::LogToConsole]);
    }
    let mut windows = WindowRegistry::with_window(window);
    let mut diagnostics: Vec<String> = Vec::new();
    match mode {
        BuildMode::Debug => {
            let _found = windows.open_debug_tooling("main");
            diagnostics.push("\u{1F6E0}\u{FE0F} DevTools auto-opened (debug mode)".to_owned());
        },
        BuildMode::Release => {},
    }
    diagnostics.push("\u{1F680} Application startup complete".to_owned());
    diagnostics.push("\u{1F4CB} Debug info available in terminal/console logs".to_owned());
    diagnostics.push(
        "\u{1F4A1} JavaScript console logs transferred via window.logToRust()".to_owned(),
    );
    proof {
        assert(lines_view(diagnostics@) =~= startup_lines(mode));
    }
    Ok(BootOutcome { core: AppCore { mode, windows, bridge }, diagnostics })
}

impl AppCore {
    /// Dispatch one bridge call from the frontend: look the name up in the
    /// registry; a miss is answered with a named error and changes nothing,
    /// a hit runs the matching handler. Only `open_devtools` may touch the
    /// window registry; the mode and the registered operations never change.
    pub fn dispatch(&mut self, name: &str, argument: &str) -> (r: Result<BridgeReply, BridgeError>)
        ensures
            r is Ok <==> finds_name(old(self)@.bridge, name@),
            final(self)@.mode == old(self)@.mode,
            final(self)@.bridge == old(self)@.bridge,
            r matches Err(e) ==> (e matches BridgeError::UnknownOperation { name: n } && n@
                == name@ && final(self)@ == old(self)@),
            finds_name(old(self)@.bridge, name@) ==> name@ == operation_name(
                Operation::OpenDevtools,
            ) || name@ == operation_name(Operation::LogToConsole),
            (finds_name(old(self)@.bridge, name@) && name@ == operation_name(
                Operation::OpenDevtools,
            )) ==> (r matches Ok(reply) && reply.value matches Some(v) && v@ == devtools_answer(
                old(self)@.mode,
            ) && lines_view(reply.diagnostics@) == devtools_lines(old(self)@.mode)
                && final(self)@.windows == devtools_windows(old(self)@.mode, old(self)@.windows)),
            (finds_name(old(self)@.bridge, name@) && name@ == operation_name(
                Operation::LogToConsole,
            )) ==> (r matches Ok(reply) && reply.value is None && lines_view(reply.diagnostics@)
                == seq![log_line(argument@)] && final(self)@.windows == old(self)@.windows),
    {
        proof {
            reveal_strlit("open_devtools");
            reveal_strlit("log_to_console");
            assert("open_devtools"@.len() == 13);
            assert("log_to_console"@.len() == 14);
            assert(operation_name(Operation::OpenDevtools) != operation_name(
                Operation::LogToConsole,
            ));
        }
        match self.bridge.lookup(name) {
            None => Err(BridgeError::UnknownOperation { name: name.to_owned() }),
            Some(Operation::OpenDevtools) => {
                let (value, diagnostics) = open_devtools(self.mode, &mut self.windows);
                Ok(BridgeReply { value: Some(value), diagnostics })
            },
            Some(Operation::LogToConsole) => {
                let line = log_to_console(argument);
                let mut diagnostics: Vec<String> = Vec::new();
                diagnostics.push(line);
                proof {
                    assert(lines_view(diagnostics@) =~= seq![log_line(argument@)]);
                }
                Ok(BridgeReply { value: None, diagnostics })
            },
        }
    }
}

} // verus!
