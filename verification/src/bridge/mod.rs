//! The rules of the bridge to the editor process: how it starts up, how it
//! ends, and how it forwards what the windowing layer asks for.
//!
//! The bridge itself spawns the process and talks to it. What it does next at
//! each point is decided here.

pub mod ui_commands;

pub use ui_commands::UiCommand;

use crate::wire::{signed, value_as_i64, value_integer};
use rmpv::Value;
use vstd::prelude::*;

verus! {

/// The exit code with which the front end ends when the editor has gone, or is
/// too old.
pub const EXIT_CODE: i32 = 0;

/// The steps that bring the editor up, in the order in which they are taken.
#[derive(Clone, Copy, Debug, PartialEq, Eq, Structural)]
pub enum StartupStep {
    /// Spawn the editor process, embedded, with the editor's command line.
    Spawn,
    /// Start the task that watches the process's I/O loop.
    Watch,
    /// Ask the editor whether it is recent enough.
    CheckVersion,
    /// Tell the editor which front end it is talking to.
    Announce,
    /// Attach the user interface.
    Attach,
    /// Start the loop that dispatches commands.
    Dispatch,
    /// Settle the first value of every setting.
    ReadSettings,
    /// Make the editor report every change of a setting.
    WatchSettings,
    /// Switch off the editor's own lazy redrawing: the front end decides when
    /// to draw.
    DisableLazyRedraw,
}

/// Why the start was given up.
#[derive(Clone, Copy, Debug, PartialEq, Eq, Structural)]
pub enum StartupFailure {
    ProcessNotStarted,
    NoCommunication,
    NotAttached,
    NoSettingNotifier,
}

/// What follows a step.
#[derive(Clone, Copy, Debug, PartialEq, Eq, Structural)]
pub enum Verdict {
    /// Take this step next.
    Continue(StartupStep),
    /// The editor is up; nothing is left to do.
    Ready,
    /// Give up with a diagnostic.
    Abort(StartupFailure),
    /// The editor is too old: report it and end with `EXIT_CODE`.
    Exit,
}

impl StartupStep {
    /// The step that follows this one when nothing goes wrong.
    pub open spec fn following(self) -> Option<StartupStep> {
        match self {
            StartupStep::Spawn => Some(StartupStep::Watch),
            StartupStep::Watch => Some(StartupStep::CheckVersion),
            StartupStep::CheckVersion => Some(StartupStep::Announce),
            StartupStep::Announce => Some(StartupStep::Attach),
            StartupStep::Attach => Some(StartupStep::Dispatch),
            StartupStep::Dispatch => Some(StartupStep::ReadSettings),
            StartupStep::ReadSettings => Some(StartupStep::WatchSettings),
            StartupStep::WatchSettings => Some(StartupStep::DisableLazyRedraw),
            StartupStep::DisableLazyRedraw => None,
        }
    }

    /// What a failure of this step means. A step that has none is one whose
    /// failure is passed over.
    pub open spec fn on_failure(self) -> Option<Verdict> {
        match self {
            StartupStep::Spawn => Some(Verdict::Abort(StartupFailure::ProcessNotStarted)),
            StartupStep::CheckVersion => Some(Verdict::Exit),
            StartupStep::Announce => Some(Verdict::Abort(StartupFailure::NoCommunication)),
            StartupStep::Attach => Some(Verdict::Abort(StartupFailure::NotAttached)),
            StartupStep::WatchSettings => Some(Verdict::Abort(StartupFailure::NoSettingNotifier)),
            _ => None,
        }
    }

    /// What follows this step, given whether it succeeded.
    pub open spec fn outcome(self, succeeded: bool) -> Verdict {
        if !succeeded && self.on_failure() is Some {
            self.on_failure()->0
        } else {
            match self.following() {
                Some(step) => Verdict::Continue(step),
                None => Verdict::Ready,
            }
        }
    }

    /// The step with which the start begins.
    pub fn first() -> (step: StartupStep)
        ensures
            step == StartupStep::Spawn,
    {
        StartupStep::Spawn
    }

    /// Decides what follows this step. `succeeded` says whether the step did
    /// what it was meant to; for the version check, whether the editor's
    /// answer was accepted.
    pub fn proceed(self, succeeded: bool) -> (verdict: Verdict)
        ensures
            verdict == self.outcome(succeeded),
    {
        match self {
            StartupStep::Spawn => if succeeded {
                Verdict::Continue(StartupStep::Watch)
            } else {
                Verdict::Abort(StartupFailure::ProcessNotStarted)
            },
            StartupStep::Watch => Verdict::Continue(StartupStep::CheckVersion),
            StartupStep::CheckVersion => if succeeded {
                Verdict::Continue(StartupStep::Announce)
            } else {
                Verdict::Exit
            },
            StartupStep::Announce => if succeeded {
                Verdict::Continue(StartupStep::Attach)
            } else {
                Verdict::Abort(StartupFailure::NoCommunication)
            },
            StartupStep::Attach => if succeeded {
                Verdict::Continue(StartupStep::Dispatch)
            } else {
                Verdict::Abort(StartupFailure::NotAttached)
            },
            StartupStep::Dispatch => Verdict::Continue(StartupStep::ReadSettings),
            StartupStep::ReadSettings => Verdict::Continue(StartupStep::WatchSettings),
            StartupStep::WatchSettings => if succeeded {
                Verdict::Continue(StartupStep::DisableLazyRedraw)
            } else {
                Verdict::Abort(StartupFailure::NoSettingNotifier)
            },
            StartupStep::DisableLazyRedraw => Verdict::Ready,
        }
    }
}

impl StartupFailure {
    /// The diagnostic with which the start is given up.
    pub open spec fn text(self) -> Seq<char> {
        match self {
            StartupFailure::ProcessNotStarted => "Could not locate or start the neovim process"@,
            StartupFailure::NoCommunication => "Could not communicate with neovim process"@,
            StartupFailure::NotAttached => "Could not attach ui to neovim process"@,
            StartupFailure::NoSettingNotifier => "Could not setup setting notifier for a setting"@,
        }
    }

    /// The diagnostic with which the start is given up.
    pub fn message(&self) -> (message: &'static str)
        ensures
            message@ == self.text(),
    {
        match self {
            StartupFailure::ProcessNotStarted => "Could not locate or start the neovim process",
            StartupFailure::NoCommunication => "Could not communicate with neovim process",
            StartupFailure::NotAttached => "Could not attach ui to neovim process",
            StartupFailure::NoSettingNotifier => "Could not setup setting notifier for a setting",
        }
    }
}

/// A start in which every step succeeds takes the nine steps in their order and
/// ends ready.
pub proof fn lemma_startup_order()
    ensures
        StartupStep::Spawn.outcome(true) == Verdict::Continue(StartupStep::Watch),
        StartupStep::Watch.outcome(true) == Verdict::Continue(StartupStep::CheckVersion),
        StartupStep::CheckVersion.outcome(true) == Verdict::Continue(StartupStep::Announce),
        StartupStep::Announce.outcome(true) == Verdict::Continue(StartupStep::Attach),
        StartupStep::Attach.outcome(true) == Verdict::Continue(StartupStep::Dispatch),
        StartupStep::Dispatch.outcome(true) == Verdict::Continue(StartupStep::ReadSettings),
        StartupStep::ReadSettings.outcome(true) == Verdict::Continue(StartupStep::WatchSettings),
        StartupStep::WatchSettings.outcome(true) == Verdict::Continue(
            StartupStep::DisableLazyRedraw,
        ),
        StartupStep::DisableLazyRedraw.outcome(true) == Verdict::Ready,
{
}

/// A failure either ends the start or is passed over: a step that fails is
/// never followed by another step than the one that follows its success. The
/// main loop is reached only through the last step, and whether that one
/// succeeds does not matter.
pub proof fn lemma_failure_is_fatal_or_ignored(step: StartupStep)
    ensures
        step.outcome(false) is Abort || step.outcome(false) is Exit || step.outcome(false)
            == step.outcome(true),
        step.outcome(false) is Ready <==> step == StartupStep::DisableLazyRedraw,
        step.outcome(true) is Ready <==> step == StartupStep::DisableLazyRedraw,
        step.outcome(false) is Exit <==> step == StartupStep::CheckVersion,
{
}

/// The expression that asks the editor whether it is recent enough.
pub fn version_query() -> (query: &'static str)
    ensures
        query@ == "has(\"nvim-0.4\")"@,
{
    "has(\"nvim-0.4\")"
}

/// The message reported when the editor is too old.
pub fn version_message() -> (message: &'static str)
    ensures
        message@ == "Neovide requires version 0.4 or higher"@,
{
    "Neovide requires version 0.4 or higher"
}

/// Whether a number is the editor's yes to the version query.
pub open spec fn is_yes(number: Option<i64>) -> bool {
    number == Some(1i64)
}

/// Whether the editor's answer, read as a number, accepts the version query.
/// Only the number 1 does.
pub fn accepts(number: Option<i64>) -> (accepted: bool)
    ensures
        accepted == is_yes(number),
{
    match number {
        Some(number) => number == 1,
        None => false,
    }
}

/// Whether the editor's answer to the version query says that it is recent
/// enough: the answer is the integer 1.
pub fn version_supported(answer: &Value) -> (supported: bool)
    ensures
        supported == is_yes(signed(value_integer(*answer))),
{
    accepts(value_as_i64(answer))
}

/// The name of the editor variable that tells scripts which front end is
/// attached. It is set to true.
pub fn frontend_variable() -> (name: &'static str)
    ensures
        name@ == "neovide"@,
{
    "neovide"
}

/// The name of the editor option that the front end switches off once it is
/// attached.
pub fn lazy_redraw_option() -> (name: &'static str)
    ensures
        name@ == "lazyredraw"@,
{
    "lazyredraw"
}

/// The options with which the user interface is attached.
#[derive(Clone, Copy, Debug, PartialEq, Eq, Structural)]
pub struct AttachOptions {
    /// The editor sends the grid line by line for the front end to render.
    pub linegrid_external: bool,
    /// Colours are sent as RGB.
    pub rgb: bool,
}

/// The options with which the user interface is attached: both are on.
pub fn attach_options() -> (options: AttachOptions)
    ensures
        options == (AttachOptions { linegrid_external: true, rgb: true }),
{
    AttachOptions { linegrid_external: true, rgb: true }
}

/// How the editor's I/O loop ended.
#[derive(Clone, Copy, Debug, PartialEq, Eq, Structural)]
pub enum LoopEnd {
    /// The loop ran to its end.
    Finished,
    /// The loop ended with an error; `channel_closed` says that the error is
    /// no more than the closing of the channel.
    Failed { channel_closed: bool },
    /// The task that ran the loop could not be joined.
    JoinFailed,
}

/// Where the end of the I/O loop is reported.
#[derive(Clone, Copy, Debug, PartialEq, Eq, Structural)]
pub enum Report {
    /// Nowhere: the editor went the expected way.
    Silent,
    /// In the log, as an error.
    Log,
    /// On the error stream.
    ErrorStream,
}

impl LoopEnd {
    /// Where this end is reported.
    pub open spec fn reported(self) -> Report {
        match self {
            LoopEnd::JoinFailed => Report::ErrorStream,
            LoopEnd::Failed { channel_closed } => if channel_closed {
                Report::Silent
            } else {
                Report::Log
            },
            LoopEnd::Finished => Report::Silent,
        }
    }

    /// Decides what the watcher does when the editor's I/O loop has ended:
    /// where the end is reported, and the code with which the front end ends.
    /// However the loop ended, the front end does not outlive the editor.
    pub fn watch(self) -> (decision: (Report, i32))
        ensures
            decision.0 == self.reported(),
            decision.1 == EXIT_CODE,
    {
        let report = match self {
            LoopEnd::JoinFailed => Report::ErrorStream,
            LoopEnd::Failed { channel_closed } => if channel_closed {
                Report::Silent
            } else {
                Report::Log
            },
            LoopEnd::Finished => Report::Silent,
        };
        (report, EXIT_CODE)
    }
}

} // verus!
