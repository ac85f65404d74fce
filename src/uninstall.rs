//! Fail-fast batch uninstallation of every installed tool.
//!
//! The batch is a state machine. Its current step says which action the caller
//! performs for the current tool (stop it, resolve its command, run it, remove
//! its bundle); the caller reports the outcome as an event, and `advance` moves
//! the batch on. Tools are handled strictly in registry order, and the first
//! failure ends the batch with an error that names the failing tool.
use vstd::prelude::*;
use crate::model::{HostOs, InstallationType, InstalledTool};
use crate::session::{app_bundle_of, extract_app_bundle_path};
use crate::text::{contains, has_substring, lower_text, lowered};

verus! {

/// Service that tears down every installed tool, built from its collaborators:
/// the installed-tool registry, the command-argument resolver, the kill service
/// and the directory manager.
#[derive(Clone, Debug)]
pub struct ToolUninstallService<R, C, K, D> {
    pub installed_tools_service: R,
    pub command_params_resolver: C,
    pub tool_kill_service: K,
    pub directory_manager: D,
}

impl<R, C, K, D> ToolUninstallService<R, C, K, D> {
    pub fn new(
        installed_tools_service: R,
        command_params_resolver: C,
        tool_kill_service: K,
        directory_manager: D,
    ) -> (r: Self)
        ensures
            r.installed_tools_service == installed_tools_service,
            r.command_params_resolver == command_params_resolver,
            r.tool_kill_service == tool_kill_service,
            r.directory_manager == directory_manager,
    {
        ToolUninstallService {
            installed_tools_service,
            command_params_resolver,
            tool_kill_service,
            directory_manager,
        }
    }

    /// Starts the uninstallation of `tools`, listed in registry order.
    pub fn uninstall_all(&self, tools: Vec<InstalledTool>, host: HostOs) -> (r: UninstallBatch)
        ensures
            r == UninstallBatch::initial(tools, host),
            r.wf(),
    {
        UninstallBatch::new(tools, host)
    }
}

/// What went wrong with one tool.
#[derive(Clone, Debug)]
pub enum UninstallFailure {
    /// The kill service could not stop the tool.
    StopFailed(String),
    /// The kill service could not stop the tool's auxiliary process.
    AuxiliaryStopFailed(String),
    /// The uninstall command's arguments could not be resolved.
    ArgsFailed(String),
    /// The uninstall command could not be started.
    LaunchFailed(String),
    /// The uninstall command exited unsuccessfully.
    CommandFailed { code: Option<i32>, stdout: String, stderr: String },
}

/// The failure that ended a batch, with the tool it happened to.
#[derive(Clone, Debug)]
pub struct UninstallError {
    pub tool_agent_id: String,
    pub failure: UninstallFailure,
}

/// The action that the batch waits on, for the tool at `index`.
#[derive(Clone, Debug)]
pub enum UninstallStep {
    /// Stop the tool's running process through the kill service.
    StopTool,
    /// Stop the auxiliary process `auxiliary_process()` through the kill service.
    StopAuxiliary,
    /// Resolve the placeholders of the tool's uninstall command arguments.
    ResolveArgs,
    /// Resolve the tool's executable path and whether it exists on disk.
    LocateExecutable { args: Vec<String> },
    /// Run the executable with the arguments and wait for its exit.
    RunCommand { path: String, args: Vec<String> },
    /// Delete the application bundle that `bundle_path` gives, if it is present.
    RemoveBundle,
    /// The batch is over: `None` when every tool was uninstalled.
    Finished { error: Option<UninstallError> },
}

/// The outcome of the action that the batch waited on.
#[derive(Clone, Debug)]
pub enum UninstallEvent {
    /// A stop or a bundle removal was done.
    Done,
    /// The action failed, with a message.
    Failed(String),
    /// The resolved uninstall command arguments.
    ArgsResolved(Vec<String>),
    /// The resolved executable path, and whether it exists.
    Located { path: String, exists: bool },
    /// The uninstall command exited.
    Exited { success: bool, code: Option<i32>, stdout: String, stderr: String },
}

/// A running uninstallation of a list of tools.
#[derive(Clone, Debug)]
pub struct UninstallBatch {
    pub tools: Vec<InstalledTool>,
    pub host: HostOs,
    pub index: usize,
    pub step: UninstallStep,
}

/// The name of the auxiliary process stopped beside some tools.
pub open spec fn auxiliary_process_spec() -> Seq<char> {
    "osqueryd"@
}

/// Tools whose identifier holds this text (in lower case) run the auxiliary process.
pub open spec fn auxiliary_marker() -> Seq<char> {
    "fleet"@
}

/// `true` when the tool with identifier `id` needs its auxiliary process stopped too.
pub open spec fn needs_auxiliary_stop(id: Seq<char>) -> bool {
    contains(lowered(id), auxiliary_marker())
}

/// `true` when the tool carries a non-empty uninstall command.
pub open spec fn has_uninstall_args(t: InstalledTool) -> bool {
    t.uninstallation_command_args is Some && t.uninstallation_command_args->0@.len() > 0
}

/// The bundle to delete after the tool's command: only GUI applications on a
/// system with bundles, and only when the recorded path lies inside one.
pub open spec fn bundle_to_remove(t: InstalledTool, host: HostOs) -> Option<Seq<char>> {
    if host == HostOs::Macos && t.installation_type == InstallationType::GuiApp
        && t.executable_path is Some {
        app_bundle_of(t.executable_path->0@)
    } else {
        None
    }
}

impl UninstallBatch {
    pub open spec fn wf(self) -> bool {
        &&& self.tools@.len() <= usize::MAX
        &&& self.index <= self.tools@.len()
        &&& !(self.step is Finished) ==> self.index < self.tools@.len()
        &&& self.step is RemoveBundle ==> bundle_to_remove(self.current(), self.host) is Some
    }

    pub open spec fn current(self) -> InstalledTool {
        self.tools@[self.index as int]
    }

    pub open spec fn with_step(self, step: UninstallStep) -> UninstallBatch {
        UninstallBatch { tools: self.tools, host: self.host, index: self.index, step }
    }

    /// The batch before any action: over no tools it is already over, successfully.
    pub open spec fn initial(tools: Vec<InstalledTool>, host: HostOs) -> UninstallBatch {
        UninstallBatch {
            tools,
            host,
            index: 0,
            step: if tools@.len() == 0 {
                UninstallStep::Finished { error: None }
            } else {
                UninstallStep::StopTool
            },
        }
    }

    /// Moves on to the next tool, or ends the batch successfully after the last one.
    pub open spec fn finish_tool(self) -> UninstallBatch {
        UninstallBatch {
            tools: self.tools,
            host: self.host,
            index: (self.index + 1) as usize,
            step: if self.index + 1 == self.tools@.len() {
                UninstallStep::Finished { error: None }
            } else {
                UninstallStep::StopTool
            },
        }
    }

    /// After the command part of the current tool: bundle removal, if any.
    pub open spec fn after_command(self) -> UninstallBatch {
        if bundle_to_remove(self.current(), self.host) is Some {
            self.with_step(UninstallStep::RemoveBundle)
        } else {
            self.finish_tool()
        }
    }

    /// After the current tool was stopped: its command, if it has one.
    pub open spec fn after_stop(self) -> UninstallBatch {
        if has_uninstall_args(self.current()) {
            self.with_step(UninstallStep::ResolveArgs)
        } else {
            self.after_command()
        }
    }

    /// Ends the batch with `failure` of the current tool.
    pub open spec fn fail(self, failure: UninstallFailure) -> UninstallBatch {
        self.with_step(
            UninstallStep::Finished {
                error: Some(UninstallError { tool_agent_id: self.current().tool_agent_id, failure }),
            },
        )
    }

    /// The batch after `event`. An event that does not answer the current step
    /// leaves the batch as it is; a finished batch stays as it is.
    pub open spec fn next(self, event: UninstallEvent) -> UninstallBatch {
        match self.step {
            UninstallStep::StopTool => match event {
                UninstallEvent::Done => if needs_auxiliary_stop(self.current().tool_agent_id@) {
                    self.with_step(UninstallStep::StopAuxiliary)
                } else {
                    self.after_stop()
                },
                UninstallEvent::Failed(m) => self.fail(UninstallFailure::StopFailed(m)),
                _ => self,
            },
            UninstallStep::StopAuxiliary => match event {
                UninstallEvent::Done => self.after_stop(),
                UninstallEvent::Failed(m) => self.fail(UninstallFailure::AuxiliaryStopFailed(m)),
                _ => self,
            },
            UninstallStep::ResolveArgs => match event {
                UninstallEvent::ArgsResolved(args) => self.with_step(
                    UninstallStep::LocateExecutable { args },
                ),
                UninstallEvent::Failed(m) => self.fail(UninstallFailure::ArgsFailed(m)),
                _ => self,
            },
            UninstallStep::LocateExecutable { args } => match event {
                UninstallEvent::Located { path, exists } => if exists {
                    self.with_step(UninstallStep::RunCommand { path, args })
                } else {
                    self.after_command()
                },
                _ => self,
            },
            UninstallStep::RunCommand { .. } => match event {
                UninstallEvent::Exited { success, code, stdout, stderr } => if success {
                    self.after_command()
                } else {
                    self.fail(UninstallFailure::CommandFailed { code, stdout, stderr })
                },
                UninstallEvent::Failed(m) => self.fail(UninstallFailure::LaunchFailed(m)),
                _ => self,
            },
            UninstallStep::RemoveBundle => match event {
                UninstallEvent::Done => self.finish_tool(),
                UninstallEvent::Failed(_) => self.finish_tool(),
                _ => self,
            },
            UninstallStep::Finished { .. } => self,
        }
    }

    /// The batch after a sequence of events.
    pub open spec fn run(self, events: Seq<UninstallEvent>) -> UninstallBatch
        decreases events.len(),
    {
        if events.len() == 0 {
            self
        } else {
            self.next(events[0]).run(events.drop_first())
        }
    }

    /// Starts a batch over `tools`, listed in registry order.
    pub fn new(tools: Vec<InstalledTool>, host: HostOs) -> (r: UninstallBatch)
        ensures
            r == UninstallBatch::initial(tools, host),
            r.wf(),
    {
        let step = if tools.len() == 0 {
            UninstallStep::Finished { error: None }
        } else {
            UninstallStep::StopTool
        };
        UninstallBatch { tools, host, index: 0, step }
    }

    /// `true` once the batch is over.
    pub fn is_finished(&self) -> (r: bool)
        ensures
            r == (self.step is Finished),
    {
        matches!(self.step, UninstallStep::Finished { .. })
    }

    /// The name of the auxiliary process that `StopAuxiliary` stops.
    pub fn auxiliary_process(&self) -> (r: String)
        ensures
            r@ == auxiliary_process_spec(),
    {
        crate::text::owned("osqueryd")
    }

    /// The bundle that `RemoveBundle` deletes.
    pub fn bundle_path(&self) -> (r: String)
        requires
            self.wf(),
            self.step is RemoveBundle,
        ensures
            r@ == bundle_to_remove(self.current(), self.host)->0,
    {
        let t = &self.tools[self.index];
        match bundle_for(t, self.host) {
            Some(b) => b,
            None => {
                assert(false);
                crate::text::owned("")
            },
        }
    }

    /// Moves the batch on from `event`, the outcome of the current step's action.
    pub fn advance(&mut self, event: UninstallEvent)
        requires
            old(self).wf(),
        ensures
            *final(self) == old(self).next(event),
            final(self).wf(),
    {
        let mut step = UninstallStep::RemoveBundle;
        core::mem::swap(&mut self.step, &mut step);
        let ghost before = self.with_step(step);
        assert(before == *old(self));
        match step {
            UninstallStep::StopTool => match event {
                UninstallEvent::Done => {
                    if needs_auxiliary(&self.tools[self.index]) {
                        self.step = UninstallStep::StopAuxiliary;
                    } else {
                        self.set_after_stop();
                    }
                },
                UninstallEvent::Failed(m) => {
                    self.set_failed(UninstallFailure::StopFailed(m));
                },
                _ => {
                    self.step = step;
                },
            },
            UninstallStep::StopAuxiliary => match event {
                UninstallEvent::Done => {
                    self.set_after_stop();
                },
                UninstallEvent::Failed(m) => {
                    self.set_failed(UninstallFailure::AuxiliaryStopFailed(m));
                },
                _ => {
                    self.step = step;
                },
            },
            UninstallStep::ResolveArgs => match event {
                UninstallEvent::ArgsResolved(args) => {
                    self.step = UninstallStep::LocateExecutable { args };
                },
                UninstallEvent::Failed(m) => {
                    self.set_failed(UninstallFailure::ArgsFailed(m));
                },
                _ => {
                    self.step = step;
                },
            },
            UninstallStep::LocateExecutable { args } => match event {
                UninstallEvent::Located { path, exists } => {
                    if exists {
                        self.step = UninstallStep::RunCommand { path, args };
                    } else {
                        self.set_after_command();
                    }
                },
                _ => {
                    self.step = UninstallStep::LocateExecutable { args };
                },
            },
            UninstallStep::RunCommand { path, args } => match event {
                UninstallEvent::Exited { success, code, stdout, stderr } => {
                    if success {
                        self.set_after_command();
                    } else {
                        self.set_failed(UninstallFailure::CommandFailed { code, stdout, stderr });
                    }
                },
                UninstallEvent::Failed(m) => {
                    self.set_failed(UninstallFailure::LaunchFailed(m));
                },
                _ => {
                    self.step = UninstallStep::RunCommand { path, args };
                },
            },
            UninstallStep::RemoveBundle => match event {
                UninstallEvent::Done => {
                    self.set_finish_tool();
                },
                UninstallEvent::Failed(_) => {
                    self.set_finish_tool();
                },
                _ => {
                    self.step = step;
                },
            },
            UninstallStep::Finished { error } => {
                self.step = UninstallStep::Finished { error };
            },
        }
    }

    fn set_finish_tool(&mut self)
        requires
            old(self).index < old(self).tools@.len(),
            old(self).tools@.len() <= usize::MAX,
        ensures
            *final(self) == old(self).finish_tool(),
            final(self).wf(),
    {
        let n = self.tools.len();
        self.index = self.index + 1;
        if self.index == n {
            self.step = UninstallStep::Finished { error: None };
        } else {
            self.step = UninstallStep::StopTool;
        }
    }

    fn set_after_command(&mut self)
        requires
            old(self).index < old(self).tools@.len(),
            old(self).tools@.len() <= usize::MAX,
        ensures
            *final(self) == old(self).after_command(),
            final(self).wf(),
    {
        if bundle_for(&self.tools[self.index], self.host).is_some() {
            self.step = UninstallStep::RemoveBundle;
        } else {
            self.set_finish_tool();
        }
    }

    fn set_after_stop(&mut self)
        requires
            old(self).index < old(self).tools@.len(),
            old(self).tools@.len() <= usize::MAX,
        ensures
            *final(self) == old(self).after_stop(),
            final(self).wf(),
    {
        if has_args(&self.tools[self.index]) {
            self.step = UninstallStep::ResolveArgs;
        } else {
            self.set_after_command();
        }
    }

    fn set_failed(&mut self, failure: UninstallFailure)
        requires
            old(self).index < old(self).tools@.len(),
            old(self).tools@.len() <= usize::MAX,
        ensures
            *final(self) == old(self).fail(failure),
            final(self).wf(),
    {
        let tool_agent_id = self.tools[self.index].tool_agent_id.clone();
        self.step = UninstallStep::Finished { error: Some(UninstallError { tool_agent_id, failure }) };
    }
}

/// A finished batch stays as it is, whatever events follow.
pub proof fn lemma_finished_is_final(b: UninstallBatch, events: Seq<UninstallEvent>)
    requires
        b.step is Finished,
    ensures
        b.run(events) == b,
    decreases events.len(),
{
    if events.len() > 0 {
        lemma_finished_is_final(b.next(events[0]), events.drop_first());
    }
}

/// A batch over no tools is over before any action: it succeeds without a call
/// to the kill service or the command resolver, whatever events follow.
pub proof fn lemma_empty_batch_does_nothing(tools: Vec<InstalledTool>, host: HostOs, events: Seq<UninstallEvent>)
    requires
        tools@.len() == 0,
    ensures
        UninstallBatch::initial(tools, host).step == (UninstallStep::Finished { error: None }),
        UninstallBatch::initial(tools, host).run(events) == UninstallBatch::initial(tools, host),
{
    lemma_finished_is_final(UninstallBatch::initial(tools, host), events);
}

/// The first failure of a tool ends the batch: the error names that tool, and
/// no later tool is started, whatever events follow.
pub proof fn lemma_failure_ends_batch(b: UninstallBatch, e: UninstallEvent, events: Seq<UninstallEvent>)
    requires
        b.wf(),
        !(b.step is Finished),
        b.next(e).step is Finished,
        b.next(e).step->error is Some,
    ensures
        b.next(e).index == b.index,
        b.next(e).step->error->0.tool_agent_id == b.tools@[b.index as int].tool_agent_id,
        b.next(e).run(events) == b.next(e),
{
    lemma_finished_is_final(b.next(e), events);
}

/// A step never goes back to an earlier tool and leaves a tool only for the
/// next one; every tool begins with stopping its process, and nothing else
/// happens to it until that stop succeeded.
pub proof fn lemma_tools_in_order(b: UninstallBatch, e: UninstallEvent)
    requires
        b.wf(),
    ensures
        b.next(e).wf(),
        b.next(e).tools == b.tools,
        b.next(e).index == b.index || b.next(e).index == b.index + 1,
        b.next(e).index == b.index + 1 && !(b.next(e).step is Finished) ==> b.next(e).step is StopTool,
        b.step is StopTool && !(b.next(e).step is StopTool) && !(b.next(e).step is Finished) ==> e is Done,
{
}

/// A finished batch with an error names the tool it stopped at.
pub open spec fn error_names_current(b: UninstallBatch) -> bool {
    (b.step is Finished && b.step->error is Some) ==> b.index < b.tools@.len()
        && b.step->error->0.tool_agent_id == b.tools@[b.index as int].tool_agent_id
}

/// Running events one after the other is running them in one go.
pub proof fn lemma_run_split(b: UninstallBatch, first: Seq<UninstallEvent>, rest: Seq<UninstallEvent>)
    ensures
        b.run(first + rest) == b.run(first).run(rest),
    decreases first.len(),
{
    if first.len() > 0 {
        assert((first + rest).drop_first() =~= first.drop_first() + rest);
        assert((first + rest)[0] == first[0]);
        lemma_run_split(b.next(first[0]), first.drop_first(), rest);
    }
}

/// Along any run the batch stays well formed, never goes back to an earlier
/// tool, and an error always names the tool at which the batch stopped.
pub proof fn lemma_run_in_order(b: UninstallBatch, events: Seq<UninstallEvent>)
    requires
        b.wf(),
        error_names_current(b),
    ensures
        b.run(events).wf(),
        b.run(events).tools == b.tools,
        b.run(events).index >= b.index,
        error_names_current(b.run(events)),
    decreases events.len(),
{
    if events.len() > 0 {
        lemma_tools_in_order(b, events[0]);
        lemma_run_in_order(b.next(events[0]), events.drop_first());
    }
}

/// The batch that `uninstall_all` starts, run over any events: once some tool
/// fails, the batch is over with an error naming that tool, and no later
/// event moves it on, so no tool after it is stopped, resolved, run or
/// cleaned up; before the failure, no tool after it was reached either.
pub proof fn lemma_uninstall_all_fail_fast(tools: Vec<InstalledTool>, host: HostOs, events: Seq<UninstallEvent>, k: int, m: int)
    requires
        tools@.len() <= usize::MAX,
        0 <= k <= events.len(),
        0 <= m <= events.len(),
        UninstallBatch::initial(tools, host).run(events.take(k)).step is Finished,
        UninstallBatch::initial(tools, host).run(events.take(k)).step->error is Some,
    ensures
        ({
            let failed = UninstallBatch::initial(tools, host).run(events.take(k));
            &&& failed.index < tools@.len()
            &&& failed.step->error->0.tool_agent_id == tools@[failed.index as int].tool_agent_id
            &&& m >= k ==> UninstallBatch::initial(tools, host).run(events.take(m)) == failed
            &&& UninstallBatch::initial(tools, host).run(events.take(m)).index <= failed.index
        }),
{
    let b0 = UninstallBatch::initial(tools, host);
    let failed = b0.run(events.take(k));
    lemma_run_in_order(b0, events.take(k));
    if m >= k {
        assert(events.take(m) =~= events.take(k) + events.subrange(k, m));
        lemma_run_split(b0, events.take(k), events.subrange(k, m));
        lemma_finished_is_final(failed, events.subrange(k, m));
    } else {
        assert(events.take(k) =~= events.take(m) + events.subrange(m, k));
        lemma_run_split(b0, events.take(m), events.subrange(m, k));
        lemma_run_in_order(b0, events.take(m));
        lemma_run_in_order(b0.run(events.take(m)), events.subrange(m, k));
    }
}

/// `true` when the batch waits on the command part of tool `i`.
pub open spec fn in_command_part(b: UninstallBatch, i: int) -> bool {
    b.index == i && (b.step is ResolveArgs || b.step is LocateExecutable || b.step is RunCommand)
}

/// A tool without uninstall command arguments never has its command resolved
/// or run, whatever events follow.
pub proof fn lemma_no_command_without_args(b: UninstallBatch, i: int, events: Seq<UninstallEvent>)
    requires
        b.wf(),
        0 <= i < b.tools@.len(),
        !has_uninstall_args(b.tools@[i]),
        !in_command_part(b, i),
    ensures
        !in_command_part(b.run(events), i),
    decreases events.len(),
{
    if events.len() > 0 {
        lemma_tools_in_order(b, events[0]);
        lemma_no_command_without_args(b.next(events[0]), i, events.drop_first());
    }
}

/// A GUI application without uninstall command arguments still has its bundle
/// removed once it is stopped.
pub proof fn lemma_cleanup_without_args(b: UninstallBatch)
    requires
        b.wf(),
        b.step is StopAuxiliary || (b.step is StopTool && !needs_auxiliary_stop(b.current().tool_agent_id@)),
        !has_uninstall_args(b.current()),
        bundle_to_remove(b.current(), b.host) is Some,
    ensures
        b.next(UninstallEvent::Done).step is RemoveBundle,
        b.next(UninstallEvent::Done).index == b.index,
{
}

/// Decides whether the tool's auxiliary process is stopped too.
fn needs_auxiliary(t: &InstalledTool) -> (r: bool)
    ensures
        r == needs_auxiliary_stop(t.tool_agent_id@),
{
    let id = lower_text(t.tool_agent_id.as_str());
    has_substring(id.as_str(), "fleet")
}

/// Decides whether the tool carries a non-empty uninstall command.
fn has_args(t: &InstalledTool) -> (r: bool)
    ensures
        r == has_uninstall_args(*t),
{
    match &t.uninstallation_command_args {
        Some(args) => args.len() > 0,
        None => false,
    }
}

/// Computes the bundle to delete after the tool's command.
fn bundle_for(t: &InstalledTool, host: HostOs) -> (r: Option<String>)
    ensures
        r is Some <==> bundle_to_remove(*t, host) is Some,
        r is Some ==> r->0@ == bundle_to_remove(*t, host)->0,
{
    if host == HostOs::Macos && t.installation_type == InstallationType::GuiApp {
        match &t.executable_path {
            Some(p) => extract_app_bundle_path(p.as_str()),
            None => None,
        }
    } else {
        None
    }
}

} // verus!
