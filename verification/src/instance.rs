use vstd::prelude::*;

use crate::window::{focus_granted, has_window, main_of, shown, RegistryModel, WindowRegistry};
use vstd::string::StringExecFns;

verus! {

/// Role a process launch ends up with: the primary owns the window and the
/// run loop; a secondary forwards its activation payload and terminates.
#[derive(Clone, Copy, Debug, PartialEq, Eq, Structural)]
pub enum LaunchRole {
    Primary,
    Secondary,
}

/// Model of the process-wide exclusive lock identified by the application's
/// identity: at most one process holds it at any time.
pub struct InstanceLock {
    pub holder: Option<u64>,
}

/// One arbitration step: a launch with process id `pid` against the lock in
/// state `holder`. A free lock is taken and the launch becomes primary; a
/// held lock stays with its holder and the launch becomes secondary.
pub open spec fn arbitration_step(holder: Option<u64>, pid: u64) -> (Option<u64>, LaunchRole) {
    match holder {
        None => (Some(pid), LaunchRole::Primary),
        Some(h) => (Some(h), LaunchRole::Secondary),
    }
}

/// Lock state after the launches in `pids`, in order, against a fresh lock.
pub open spec fn holder_after(pids: Seq<u64>) -> Option<u64>
    decreases pids.len(),
{
    if pids.len() == 0 {
        None
    } else {
        arbitration_step(holder_after(pids.drop_last()), pids.last()).0
    }
}

/// Roles assigned to the launches in `pids`, in order, against a fresh lock.
pub open spec fn roles_of(pids: Seq<u64>) -> Seq<LaunchRole>
    decreases pids.len(),
{
    if pids.len() == 0 {
        Seq::empty()
    } else {
        roles_of(pids.drop_last()).push(
            arbitration_step(holder_after(pids.drop_last()), pids.last()).1,
        )
    }
}

/// After at least one launch the lock is held.
proof fn lemma_lock_held(pids: Seq<u64>)
    requires
        pids.len() >= 1,
    ensures
        holder_after(pids) is Some,
    decreases pids.len(),
{
    if pids.len() > 1 {
        lemma_lock_held(pids.drop_last());
    }
}

/// Launching any number of times against one fresh lock yields exactly one
/// primary — the first launch — and makes every later launch secondary.
pub proof fn lemma_exactly_one_primary(pids: Seq<u64>)
    requires
        pids.len() >= 1,
    ensures
        roles_of(pids).len() == pids.len(),
        roles_of(pids)[0] == LaunchRole::Primary,
        forall|i: int| 1 <= i < pids.len() ==> roles_of(pids)[i] == LaunchRole::Secondary,
    decreases pids.len(),
{
    if pids.len() == 1 {
        assert(roles_of(pids.drop_last()) =~= Seq::<LaunchRole>::empty());
        assert(holder_after(pids.drop_last()) is None);
    } else {
        lemma_exactly_one_primary(pids.drop_last());
        lemma_lock_held(pids.drop_last());
    }
}

impl InstanceLock {
    /// A fresh lock for an application identity no process has claimed yet.
    pub fn new() -> (l: InstanceLock)
        ensures
            l.holder is None,
    {
        InstanceLock { holder: None }
    }

    /// Arbitrate one launch: take the lock if it is free. The secondary
    /// outcome is the designed non-primary path, not a fault.
    pub fn try_acquire(&mut self, pid: u64) -> (role: LaunchRole)
        ensures
            final(self).holder == arbitration_step(old(self).holder, pid).0,
            role == arbitration_step(old(self).holder, pid).1,
    {
        match self.holder {
            None => {
                self.holder = Some(pid);
                LaunchRole::Primary
            },
            Some(_) => LaunchRole::Secondary,
        }
    }
}

/// Arbitrate a whole series of launches, in the order the lock serializes
/// them, starting from a fresh lock.
pub fn arbitrate_launches(pids: &Vec<u64>) -> (roles: Vec<LaunchRole>)
    ensures
        roles@ == roles_of(pids@),
{
    let mut lock = InstanceLock::new();
    let mut roles: Vec<LaunchRole> = Vec::new();
    let mut i: usize = 0;
    while i < pids.len()
        invariant
            i <= pids.len(),
            lock.holder == holder_after(pids@.take(i as int)),
            roles@ == roles_of(pids@.take(i as int)),
        decreases pids.len() - i,
    {
        let role = lock.try_acquire(pids[i]);
        roles.push(role);
        proof {
            let taken = pids@.take(i + 1 as int);
            assert(taken.drop_last() =~= pids@.take(i as int));
            assert(taken.last() == pids@[i as int]);
        }
        i = i + 1;
    }
    proof {
        assert(pids@.take(pids@.len() as int) =~= pids@);
    }
    roles
}

/// What a secondary launch forwards to the primary: its process arguments,
/// in order, and its working directory.
pub struct ActivationPayload {
    pub arguments: Vec<String>,
    pub working_directory: String,
}

/// Mathematical content of an activation payload.
pub struct PayloadModel {
    pub arguments: Seq<Seq<char>>,
    pub working_directory: Seq<char>,
}

impl View for ActivationPayload {
    type V = PayloadModel;

    open spec fn view(&self) -> PayloadModel {
        PayloadModel {
            arguments: self.arguments@.map_values(|s: String| s@),
            working_directory: self.working_directory@,
        }
    }
}

/// Build the payload a secondary launch forwards: its arguments and working
/// directory, verbatim and in order.
pub fn secondary_launch(arguments: Vec<String>, working_directory: String) -> (p: ActivationPayload)
    ensures
        p@.arguments == arguments@.map_values(|s: String| s@),
        p@.working_directory == working_directory@,
{
    ActivationPayload { arguments, working_directory }
}

/// A payload field as the activation line renders it: wrapped in double
/// quotes.
pub open spec fn quoted(s: Seq<char>) -> Seq<char> {
    "\""@ + s + "\""@
}

/// The payload arguments as the activation line renders them: each in
/// double quotes, separated by a comma and a space.
pub open spec fn joined_arguments(arguments: Seq<Seq<char>>) -> Seq<char>
    decreases arguments.len(),
{
    if arguments.len() == 0 {
        Seq::empty()
    } else if arguments.len() == 1 {
        quoted(arguments.last())
    } else {
        joined_arguments(arguments.drop_last()) + ", "@ + quoted(arguments.last())
    }
}

/// The fixed-format diagnostic line for a forwarded activation: the fixed
/// prefix, the argument list in brackets, then the working directory, both
/// rendered with quoted fields.
pub open spec fn activation_line_of(p: PayloadModel) -> Seq<char> {
    "Single instance detected: ["@ + joined_arguments(p.arguments) + "], "@ + quoted(
        p.working_directory,
    )
}

/// Render the activation diagnostic line for a forwarded payload.
pub fn activation_line(payload: &ActivationPayload) -> (line: String)
    ensures
        line@ == activation_line_of(payload@),
{
    let mut line: String = "Single instance detected: [".to_owned();
    let mut i: usize = 0;
    while i < payload.arguments.len()
        invariant
            i <= payload.arguments.len(),
            line@ == "Single instance detected: ["@ + joined_arguments(
                payload@.arguments.take(i as int),
            ),
        decreases payload.arguments.len() - i,
    {
        if i > 0 {
            line.append(", ");
        }
        line.append("\"");
        line.append(payload.arguments[i].as_str());
        line.append("\"");
        proof {
            let arguments = payload@.arguments;
            let taken = arguments.take(i + 1 as int);
            assert(taken.drop_last() =~= arguments.take(i as int));
            assert(taken.last() == arguments[i as int]);
            assert(line@ =~= "Single instance detected: ["@ + joined_arguments(taken));
        }
        i = i + 1;
    }
    proof {
        assert(payload@.arguments.take(payload@.arguments.len() as int) =~= payload@.arguments);
    }
    line.append("], ");
    line.append("\"");
    line.append(payload.working_directory.as_str());
    line.append("\"");
    proof {
        assert(line@ =~= activation_line_of(payload@));
    }
    line
}

/// The registry after the primary's activation callback ran: the window
/// labeled "main", if one is registered, is shown and then focused; without
/// one the callback is a best-effort no-op.
pub open spec fn activated(r: RegistryModel) -> RegistryModel {
    if has_window(r, "main"@) {
        RegistryModel { main: Some(focus_granted(shown(main_of(r)))) }
    } else {
        r
    }
}

/// An activation leaves the "main" window visible and focused and changes
/// nothing else about it.
pub proof fn lemma_activation_effect(r: RegistryModel)
    requires
        has_window(r, "main"@),
    ensures
        activated(r).main matches Some(w) && w.visible && w.focused && w.label == main_of(
            r,
        ).label && w.devtools_open == main_of(r).devtools_open,
{
}

/// Activating twice in succession leaves the registry exactly as activating
/// once left it.
pub proof fn lemma_activation_idempotent(r: RegistryModel)
    ensures
        activated(activated(r)) == activated(r),
{
}

/// The primary's callback for a forwarded activation: look up the window
/// labeled "main"; if it exists, show it, then focus it; if not, skip — a
/// lookup miss is never an error. Returns the diagnostic line for the
/// forwarded payload, which the callback receives verbatim.
pub fn handle_activation(windows: &mut WindowRegistry, payload: &ActivationPayload) -> (line:
    String)
    ensures
        final(windows)@ == activated(old(windows)@),
        line@ == activation_line_of(payload@),
{
    let line = activation_line(payload);
    let found = windows.show("main");
    if found {
        let _ = windows.request_focus("main");
    }
    line
}

} // verus!
