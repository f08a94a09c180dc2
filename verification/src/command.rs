//! The command machine: every decision of the save, load and remove flows
//! as verified transition functions. The machine never touches the disk or
//! spawns a process itself: it issues an `Action`, the caller performs it,
//! and feeds the resulting `Event` back in until a `Step::Done` falls out.

use vstd::prelude::*;
use crate::errors::CommandError;
use crate::errors::CommandSuccess;
use crate::paths::joined_path;
use crate::paths::save_destination;
use crate::paths::tar_entries;
use crate::paths::tar_file_name;
use crate::paths::join_archive_path;
use crate::resolve::validate_archive_path;
use crate::resolve::validated;

verus! {

/// The configuration every command needs: the archive directory, and the
/// identifier of the image that Save snapshots.
#[derive(Debug, Clone, PartialEq, Eq)]
pub struct Config {
    pub image_folder: String,
    pub api_image_name: String,
}

/// Which of the three operations a request asks for.
#[derive(Debug, Clone, Copy, PartialEq, Eq)]
pub enum Operation {
    Save,
    Load,
    Remove,
}

/// A request as the command surface hands it in: an operation together
/// with the optional archive name the user supplied.
#[derive(Debug, Clone, PartialEq, Eq)]
pub enum DockerAction {
    Save(Option<String>),
    Load(Option<String>),
    Remove(Option<String>),
}

/// A single request; consumed once.
#[derive(Debug, Clone, PartialEq, Eq)]
pub struct DockerCommand {
    pub docker_action: DockerAction,
}

/// What the machine asks its caller to do next.
#[derive(Debug, Clone, PartialEq, Eq)]
pub enum Action {
    /// List the file names directly inside this directory.
    ListArchives(String),
    /// Run the interactive picker over these candidate file names.
    SelectArchive(Vec<String>),
    /// Report whether this path exists on disk.
    CheckArchive(String),
    /// Run the external save of `image`, directing its output to
    /// `destination`.
    RunSave { destination: String, image: String },
    /// Read this archive whole and pipe its bytes into the external load's
    /// input stream, then close the stream and wait.
    RunLoad { archive: String },
    /// Delete this archive file.
    RunRemove { archive: String },
}

/// The caller's answer to the action it performed.
#[derive(Debug, Clone, PartialEq, Eq)]
pub enum Event {
    /// The directory listing: the file names of the direct children.
    Entries(Vec<String>),
    /// The picker chose this file name.
    Selected(String),
    /// The picker was cancelled.
    Aborted,
    /// Whether the checked path exists.
    Exists(bool),
    /// The external process exited; `true` means a clean exit.
    ProcessDone(bool),
    /// Listing, reading, writing or spawning failed; the description.
    IoError(String),
}

/// Which answer the machine awaits.
#[derive(Debug, Clone, PartialEq, Eq)]
pub enum Phase {
    /// Awaiting the archive-directory listing.
    AwaitEntries,
    /// Awaiting the picker's outcome.
    AwaitSelection,
    /// Awaiting the existence check for this candidate path.
    AwaitExistence(String),
    /// Awaiting the exit of the external action on this path.
    AwaitProcess(String),
}

/// The state carried between steps: the archive directory, the operation
/// under way, and the answer awaited.
#[derive(Debug, Clone, PartialEq, Eq)]
pub struct Machine {
    pub dir: String,
    pub op: Operation,
    pub phase: Phase,
}

/// What a transition hands back: an action to perform, with the machine to
/// resume once the action's event is in, or the final outcome.
#[derive(Debug, PartialEq, Eq)]
pub enum Step {
    Pending(Machine, Action),
    Done(Result<CommandSuccess, CommandError>),
}

impl Machine {
    /// Save never resolves interactively: a machine in a resolution phase
    /// is always running Load or Remove.
    pub open spec fn wf(self) -> bool {
        match self.phase {
            Phase::AwaitEntries => self.op is Load || self.op is Remove,
            Phase::AwaitSelection => self.op is Load || self.op is Remove,
            Phase::AwaitExistence(_) => self.op is Load || self.op is Remove,
            Phase::AwaitProcess(_) => true,
        }
    }
}

/// Any machine handed back in a pending step is well-formed, so the flow
/// can always continue.
pub open spec fn step_wf(r: Step) -> bool {
    r matches Step::Pending(m, _) ==> m.wf()
}

/// Which events answer the action issued in this phase.
pub open spec fn event_fits(ph: Phase, e: Event) -> bool {
    match e {
        Event::Entries(_) => ph is AwaitEntries,
        Event::Selected(_) => ph is AwaitSelection,
        Event::Aborted => ph is AwaitSelection,
        Event::Exists(_) => ph is AwaitExistence,
        Event::ProcessDone(_) => ph is AwaitProcess,
        Event::IoError(_) => true,
    }
}

/// The fixed message reported when the external action exits nonzero.
pub open spec fn failure_message(op: Operation) -> Seq<char> {
    match op {
        Operation::Save => "could not save docker image"@,
        Operation::Load => "could not load docker image"@,
        Operation::Remove => "could not remove docker image"@,
    }
}

fn failure_text(op: Operation) -> (r: String)
    ensures
        r@ == failure_message(op),
{
    match op {
        Operation::Save => "could not save docker image".to_owned(),
        Operation::Load => "could not load docker image".to_owned(),
        Operation::Remove => "could not remove docker image".to_owned(),
    }
}

/// The transition relation of `on_event`: for machine `m` and event `e`,
/// which step is owed.
pub open spec fn step_spec(m: Machine, e: Event, r: Step) -> bool {
    match e {
        Event::IoError(msg) => {
            &&& r matches Step::Done(res)
            &&& res matches Err(CommandError::IoFailure(t))
            &&& t == msg
        },
        Event::Entries(v) => {
            &&& r matches Step::Pending(m2, a)
            &&& m2.dir == m.dir
            &&& m2.op == m.op
            &&& m2.phase is AwaitSelection
            &&& a matches Action::SelectArchive(c)
            &&& c.deep_view() == tar_entries(v.deep_view())
        },
        Event::Selected(f) => {
            let p = joined_path(m.dir@, f@);
            &&& r matches Step::Pending(m2, a)
            &&& m2.dir == m.dir
            &&& m2.op == m.op
            &&& m2.phase matches Phase::AwaitExistence(c)
            &&& c@ == p
            &&& a matches Action::CheckArchive(q)
            &&& q@ == p
        },
        Event::Aborted => {
            &&& r matches Step::Done(res)
            &&& res matches Err(CommandError::SelectionAborted)
        },
        Event::Exists(b) => {
            &&& m.phase matches Phase::AwaitExistence(cand)
            &&& match m.op {
                // a well-formed machine never awaits an existence answer
                // for Save, so nothing is owed there
                Operation::Save => true,
                Operation::Load => continues_when_valid(m, cand@, b, r, true),
                Operation::Remove => continues_when_valid(m, cand@, b, r, false),
            }
        },
        Event::ProcessDone(ok) => {
            &&& m.phase matches Phase::AwaitProcess(p)
            &&& if ok {
                &&& r matches Step::Done(res)
                &&& res matches Ok(s)
                &&& match m.op {
                    Operation::Save => s is Saved,
                    Operation::Load => s is Loaded,
                    Operation::Remove => {
                        &&& s matches CommandSuccess::Removed(q)
                        &&& q == p
                    },
                }
            } else {
                &&& r matches Step::Done(res)
                &&& res matches Err(CommandError::ExternalProcessFailure(t))
                &&& t@ == failure_message(m.op)
            }
        },
    }
}

/// After the existence answer `b` for candidate `c`: a validation failure
/// ends the flow with that exact error; a candidate that passes both checks
/// goes on to the external load (`loading` true) or delete (false) of that
/// very path.
pub open spec fn continues_when_valid(
    m: Machine,
    c: Seq<char>,
    b: bool,
    r: Step,
    loading: bool,
) -> bool {
    if b && crate::paths::ends_with_tar(c) {
        &&& r matches Step::Pending(m2, a)
        &&& m2.dir == m.dir
        &&& m2.op == m.op
        &&& m2.phase matches Phase::AwaitProcess(p)
        &&& p@ == c
        &&& if loading {
            &&& a matches Action::RunLoad { archive }
            &&& archive@ == c
        } else {
            &&& a matches Action::RunRemove { archive }
            &&& archive@ == c
        }
    } else {
        &&& r matches Step::Done(res)
        &&& res matches Err(err)
        &&& validated(c, b, Err(err))
    }
}

impl Machine {
    /// One transition: consumes the event that answers the pending action
    /// and hands back the next step.
    pub fn on_event(self, e: Event) -> (r: Step)
        requires
            self.wf(),
            event_fits(self.phase, e),
        ensures
            step_spec(self, e, r),
            step_wf(r),
    {
        let Machine { dir, op, phase } = self;
        match (phase, e) {
            (_, Event::IoError(msg)) => Step::Done(Err(CommandError::IoFailure(msg))),
            (Phase::AwaitEntries, Event::Entries(v)) => {
                let candidates = crate::paths::selection_candidates(&v);
                Step::Pending(
                    Machine { dir, op, phase: Phase::AwaitSelection },
                    Action::SelectArchive(candidates),
                )
            },
            (Phase::AwaitSelection, Event::Selected(f)) => {
                let p = join_archive_path(dir.as_str(), f.as_str());
                Step::Pending(
                    Machine { dir, op, phase: Phase::AwaitExistence(p.clone()) },
                    Action::CheckArchive(p),
                )
            },
            (Phase::AwaitSelection, Event::Aborted) => Step::Done(
                Err(CommandError::SelectionAborted),
            ),
            (Phase::AwaitExistence(cand), Event::Exists(b)) => {
                match validate_archive_path(cand, b) {
                    Err(err) => Step::Done(Err(err)),
                    Ok(path) => {
                        let next = Machine { dir, op, phase: Phase::AwaitProcess(path.clone()) };
                        match op {
                            Operation::Load => Step::Pending(
                                next,
                                Action::RunLoad { archive: path },
                            ),
                            Operation::Remove => Step::Pending(
                                next,
                                Action::RunRemove { archive: path },
                            ),
                            Operation::Save => {
                                // well-formedness keeps Save out of every
                                // resolution phase
                                proof {
                                    assert(false);
                                }
                                Step::Done(Err(CommandError::MissingName))
                            },
                        }
                    },
                }
            },
            (Phase::AwaitProcess(p), Event::ProcessDone(ok)) => {
                if ok {
                    match op {
                        Operation::Save => Step::Done(Ok(CommandSuccess::Saved)),
                        Operation::Load => Step::Done(Ok(CommandSuccess::Loaded)),
                        Operation::Remove => Step::Done(Ok(CommandSuccess::Removed(p))),
                    }
                } else {
                    Step::Done(Err(CommandError::ExternalProcessFailure(failure_text(op))))
                }
            },
            _ => {
                // event_fits rules every remaining pairing out
                proof {
                    assert(false);
                }
                Step::Done(Err(CommandError::SelectionAborted))
            },
        }
    }
}

/// What the first step of a Load or Remove owes: a given name goes straight
/// to the existence check of `dir/<name>.tar`; no name starts with the
/// directory listing.
pub open spec fn start_resolving(d: Seq<char>, op: Operation, name: Option<String>, r: Step) -> bool {
    match name {
        Some(n) => {
            let c = joined_path(d, tar_file_name(n@));
            &&& r matches Step::Pending(m, a)
            &&& m.dir@ == d
            &&& m.op == op
            &&& m.phase matches Phase::AwaitExistence(q)
            &&& q@ == c
            &&& a matches Action::CheckArchive(p)
            &&& p@ == c
        },
        None => {
            &&& r matches Step::Pending(m, a)
            &&& m.dir@ == d
            &&& m.op == op
            &&& m.phase is AwaitEntries
            &&& a matches Action::ListArchives(l)
            &&& l@ == d
        },
    }
}

/// What the first step of any request owes: Save without a name fails at
/// once; Save with a name goes straight to running the external save into
/// `dir/<name>.tar` with the configured image; Load and Remove start
/// resolving.
pub open spec fn start_spec(config: Config, cmd: DockerCommand, r: Step) -> bool {
    let d = config.image_folder@;
    match cmd.docker_action {
        DockerAction::Save(name) => match name {
            None => {
                &&& r matches Step::Done(res)
                &&& res matches Err(CommandError::MissingName)
            },
            Some(n) => {
                let dest = joined_path(d, tar_file_name(n@));
                &&& r matches Step::Pending(m, a)
                &&& m.op is Save
                &&& m.phase matches Phase::AwaitProcess(p)
                &&& p@ == dest
                &&& a matches Action::RunSave { destination, image }
                &&& destination@ == dest
                &&& image@ == config.api_image_name@
            },
        },
        DockerAction::Load(name) => start_resolving(d, Operation::Load, name, r),
        DockerAction::Remove(name) => start_resolving(d, Operation::Remove, name, r),
    }
}

fn start_resolve(dir: String, op: Operation, name: Option<String>) -> (r: Step)
    requires
        op is Load || op is Remove,
    ensures
        start_resolving(dir@, op, name, r),
        step_wf(r),
{
    match name {
        Some(n) => {
            let c = save_destination(dir.as_str(), n.as_str());
            Step::Pending(
                Machine { dir, op, phase: Phase::AwaitExistence(c.clone()) },
                Action::CheckArchive(c),
            )
        },
        None => {
            let listed = dir.clone();
            Step::Pending(
                Machine { dir, op, phase: Phase::AwaitEntries },
                Action::ListArchives(listed),
            )
        },
    }
}

/// Begins handling a request: hands back the first step of its flow.
pub fn handle_docker_command(config: Config, cmd: DockerCommand) -> (r: Step)
    ensures
        start_spec(config, cmd, r),
        step_wf(r),
{
    let Config { image_folder, api_image_name } = config;
    match cmd.docker_action {
        DockerAction::Save(name) => match name {
            None => Step::Done(Err(CommandError::MissingName)),
            Some(n) => {
                let dest = save_destination(image_folder.as_str(), n.as_str());
                Step::Pending(
                    Machine {
                        dir: image_folder,
                        op: Operation::Save,
                        phase: Phase::AwaitProcess(dest.clone()),
                    },
                    Action::RunSave { destination: dest, image: api_image_name },
                )
            },
        },
        DockerAction::Load(name) => start_resolve(image_folder, Operation::Load, name),
        DockerAction::Remove(name) => start_resolve(image_folder, Operation::Remove, name),
    }
}

/// Law: an aborted selection ends the flow at once with SelectionAborted —
/// the step is final, so no further action (and no filesystem change) is
/// ever issued for this request.
pub proof fn lemma_abort_issues_no_action(m: Machine, r: Step)
    requires
        step_spec(m, Event::Aborted, r),
    ensures
        ({
            &&& r matches Step::Done(res)
            &&& res matches Err(CommandError::SelectionAborted)
        }),
        r !is Pending,
{
}

/// Law: when the external save exits nonzero, the flow ends with the fixed
/// message "could not save docker image" — and since the step is final, no
/// cleanup action touches whatever the process wrote to the destination.
pub proof fn lemma_failed_save_reports_failure(m: Machine, r: Step)
    requires
        m.op is Save,
        m.phase is AwaitProcess,
        step_spec(m, Event::ProcessDone(false), r),
    ensures
        ({
            &&& r matches Step::Done(res)
            &&& res matches Err(CommandError::ExternalProcessFailure(t))
            &&& t@ == "could not save docker image"@
        }),
        r !is Pending,
{
}

} // verus!
