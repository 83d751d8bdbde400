//! The commands of the native host.
//!
//! A command that needs the platform is a function from where the command
//! stands to what happens next: either an interaction that the embedding
//! application has to perform, or the final answer.  The application calls
//! the command with `Invoked`, performs what it is asked for, calls the
//! command again with the outcome, and stops at the `Reply`.  No command
//! keeps anything between two invocations.

use vstd::prelude::*;
use crate::dialog::{
    open_chooser, open_chooser_spec, save_chooser, save_chooser_spec, Chooser, ChooserView, Pick,
    PickView,
};
use crate::file_result::{FileResult, FileResultView};

verus! {

/// Mathematical value of the outcome of reading a file: its text, or the
/// platform's description of the failure.
pub open spec fn read_outcome_view(outcome: Result<String, String>) -> Result<
    Seq<char>,
    Seq<char>,
> {
    match outcome {
        Ok(content) => Ok(content@),
        Err(error) => Err(error@),
    }
}

/// Mathematical value of an outcome without a payload (a write, an
/// instruction to the window): nothing, or the platform's description of the
/// failure.
pub open spec fn unit_outcome_view(outcome: Result<(), String>) -> Result<(), Seq<char>> {
    match outcome {
        Ok(_) => Ok(()),
        Err(error) => Err(error@),
    }
}

/// The answer to a finished write: the path echoed back, or the failure.
pub open spec fn write_reply_spec(path: Seq<char>, outcome: Result<(), Seq<char>>) -> FileResultView {
    match outcome {
        Ok(_) => FileResultView::saved(path),
        Err(error) => FileResultView::failed(error),
    }
}

/// The answer to a finished read: path and text, or the failure.
pub open spec fn read_reply_spec(
    path: Seq<char>,
    outcome: Result<Seq<char>, Seq<char>>,
) -> FileResultView {
    match outcome {
        Ok(content) => FileResultView::opened(path, content),
        Err(error) => FileResultView::failed(error),
    }
}

/// Acknowledges a new document.  The document view owns what "new" means;
/// the host only confirms, whatever was invoked before.
pub fn new_file() -> (reply: FileResult)
    ensures
        reply@ == FileResultView::acknowledged(),
        reply.well_formed(),
{
    FileResult::acknowledged()
}

/// Where an open command stands.
#[derive(Debug, PartialEq, Eq)]
pub enum OpenStage {
    /// The command has just been invoked.
    Invoked,
    /// The chooser has been shown and closed.
    Chose(Pick),
    /// The file at `path` has been read as UTF-8 text, or could not be.
    Read { path: String, outcome: Result<String, String> },
}

/// Mathematical value of an [`OpenStage`].
pub ghost enum OpenStageView {
    Invoked,
    Chose(PickView),
    Read { path: Seq<char>, outcome: Result<Seq<char>, Seq<char>> },
}

impl View for OpenStage {
    type V = OpenStageView;

    open spec fn view(&self) -> OpenStageView {
        match self {
            OpenStage::Invoked => OpenStageView::Invoked,
            OpenStage::Chose(pick) => OpenStageView::Chose(pick@),
            OpenStage::Read { path, outcome } => OpenStageView::Read {
                path: path@,
                outcome: read_outcome_view(*outcome),
            },
        }
    }
}

/// What an open command wants next.
#[derive(Debug, PartialEq, Eq)]
pub enum OpenStep {
    /// Show this chooser and come back with the pick.
    Ask(Chooser),
    /// Read the file at `path` as UTF-8 text and come back with the outcome.
    Read { path: String },
    /// The command is finished.
    Reply(FileResult),
}

/// Mathematical value of an [`OpenStep`].
pub ghost enum OpenStepView {
    Ask(ChooserView),
    Read { path: Seq<char> },
    Reply(FileResultView),
}

impl View for OpenStep {
    type V = OpenStepView;

    open spec fn view(&self) -> OpenStepView {
        match self {
            OpenStep::Ask(chooser) => OpenStepView::Ask(chooser@),
            OpenStep::Read { path } => OpenStepView::Read { path: path@ },
            OpenStep::Reply(reply) => OpenStepView::Reply(reply@),
        }
    }
}

/// The open command, stage by stage.
///
/// Invoked, it asks for the open chooser.  A dismissed chooser ends it as a
/// cancellation, an entry without a usable path as a failure; a resolved
/// path is to be read.  A finished read ends it with path and text, a failed
/// one with the failure.
pub open spec fn open_file_spec(stage: OpenStageView) -> OpenStepView {
    match stage {
        OpenStageView::Invoked => OpenStepView::Ask(open_chooser_spec()),
        OpenStageView::Chose(PickView::Cancelled) => OpenStepView::Reply(
            FileResultView::cancelled(),
        ),
        OpenStageView::Chose(PickView::Unresolved(error)) => OpenStepView::Reply(
            FileResultView::failed(error),
        ),
        OpenStageView::Chose(PickView::Resolved(path)) => OpenStepView::Read { path },
        OpenStageView::Read { path, outcome } => OpenStepView::Reply(
            read_reply_spec(path, outcome),
        ),
    }
}

/// Advances the open command by one stage.
pub fn open_file(stage: OpenStage) -> (step: OpenStep)
    ensures
        step@ == open_file_spec(stage@),
        step matches OpenStep::Reply(reply) ==> reply.well_formed(),
{
    match stage {
        OpenStage::Invoked => OpenStep::Ask(open_chooser()),
        OpenStage::Chose(pick) => match pick {
            Pick::Cancelled => OpenStep::Reply(FileResult::cancelled()),
            Pick::Unresolved(error) => OpenStep::Reply(FileResult::failed(error)),
            Pick::Resolved(path) => OpenStep::Read { path },
        },
        OpenStage::Read { path, outcome } => match outcome {
            Ok(content) => OpenStep::Reply(FileResult::opened(path, content)),
            Err(error) => OpenStep::Reply(FileResult::failed(error)),
        },
    }
}

/// Where a save command stands.
#[derive(Debug, PartialEq, Eq)]
pub enum SaveStage {
    /// The command has just been invoked with a destination and a text.
    Invoked { path: String, content: String },
    /// The text has been written to `path`, or could not be.
    Wrote { path: String, outcome: Result<(), String> },
}

/// Mathematical value of a [`SaveStage`].
pub ghost enum SaveStageView {
    Invoked { path: Seq<char>, content: Seq<char> },
    Wrote { path: Seq<char>, outcome: Result<(), Seq<char>> },
}

impl View for SaveStage {
    type V = SaveStageView;

    open spec fn view(&self) -> SaveStageView {
        match self {
            SaveStage::Invoked { path, content } => SaveStageView::Invoked {
                path: path@,
                content: content@,
            },
            SaveStage::Wrote { path, outcome } => SaveStageView::Wrote {
                path: path@,
                outcome: unit_outcome_view(*outcome),
            },
        }
    }
}

/// What a save command wants next.
#[derive(Debug, PartialEq, Eq)]
pub enum SaveStep {
    /// Replace what the file at `path` holds by `content` and come back with
    /// the outcome.
    Write { path: String, content: String },
    /// The command is finished.
    Reply(FileResult),
}

/// Mathematical value of a [`SaveStep`].
pub ghost enum SaveStepView {
    Write { path: Seq<char>, content: Seq<char> },
    Reply(FileResultView),
}

impl View for SaveStep {
    type V = SaveStepView;

    open spec fn view(&self) -> SaveStepView {
        match self {
            SaveStep::Write { path, content } => SaveStepView::Write {
                path: path@,
                content: content@,
            },
            SaveStep::Reply(reply) => SaveStepView::Reply(reply@),
        }
    }
}

/// The save command, stage by stage.
///
/// Invoked, it asks for exactly the given text to be written to exactly the
/// given path, without a dialog.  A finished write ends it with the path
/// echoed back and no text, a failed one with the failure.
pub open spec fn save_file_spec(stage: SaveStageView) -> SaveStepView {
    match stage {
        SaveStageView::Invoked { path, content } => SaveStepView::Write { path, content },
        SaveStageView::Wrote { path, outcome } => SaveStepView::Reply(
            write_reply_spec(path, outcome),
        ),
    }
}

/// The answer to a finished write.
fn write_reply(path: String, outcome: Result<(), String>) -> (reply: FileResult)
    ensures
        reply@ == write_reply_spec(path@, unit_outcome_view(outcome)),
        reply.well_formed(),
        reply.content is None,
{
    match outcome {
        Ok(_) => FileResult::saved(path),
        Err(error) => FileResult::failed(error),
    }
}

/// Advances the save command by one stage.
pub fn save_file(stage: SaveStage) -> (step: SaveStep)
    ensures
        step@ == save_file_spec(stage@),
        step matches SaveStep::Reply(reply) ==> reply.well_formed() && reply.content is None,
{
    match stage {
        SaveStage::Invoked { path, content } => SaveStep::Write { path, content },
        SaveStage::Wrote { path, outcome } => SaveStep::Reply(write_reply(path, outcome)),
    }
}

/// Where a save-as command stands.
#[derive(Debug, PartialEq, Eq)]
pub enum SaveAsStage {
    /// The command has just been invoked.
    Invoked,
    /// The chooser has been shown and closed; `content` is the text to save.
    Chose { pick: Pick, content: String },
    /// The text has been written to `path`, or could not be.
    Wrote { path: String, outcome: Result<(), String> },
}

/// Mathematical value of a [`SaveAsStage`].
pub ghost enum SaveAsStageView {
    Invoked,
    Chose { pick: PickView, content: Seq<char> },
    Wrote { path: Seq<char>, outcome: Result<(), Seq<char>> },
}

impl View for SaveAsStage {
    type V = SaveAsStageView;

    open spec fn view(&self) -> SaveAsStageView {
        match self {
            SaveAsStage::Invoked => SaveAsStageView::Invoked,
            SaveAsStage::Chose { pick, content } => SaveAsStageView::Chose {
                pick: pick@,
                content: content@,
            },
            SaveAsStage::Wrote { path, outcome } => SaveAsStageView::Wrote {
                path: path@,
                outcome: unit_outcome_view(*outcome),
            },
        }
    }
}

/// What a save-as command wants next.
#[derive(Debug, PartialEq, Eq)]
pub enum SaveAsStep {
    /// Show this chooser and come back with the pick.
    Ask(Chooser),
    /// Replace what the file at `path` holds by `content` and come back with
    /// the outcome.
    Write { path: String, content: String },
    /// The command is finished.
    Reply(FileResult),
}

/// Mathematical value of a [`SaveAsStep`].
pub ghost enum SaveAsStepView {
    Ask(ChooserView),
    Write { path: Seq<char>, content: Seq<char> },
    Reply(FileResultView),
}

impl View for SaveAsStep {
    type V = SaveAsStepView;

    open spec fn view(&self) -> SaveAsStepView {
        match self {
            SaveAsStep::Ask(chooser) => SaveAsStepView::Ask(chooser@),
            SaveAsStep::Write { path, content } => SaveAsStepView::Write {
                path: path@,
                content: content@,
            },
            SaveAsStep::Reply(reply) => SaveAsStepView::Reply(reply@),
        }
    }
}

/// The save-as command, stage by stage.
///
/// Invoked, it asks for the save chooser.  A dismissed chooser ends it as a
/// cancellation, an entry without a usable path as a failure; to a resolved
/// path exactly the given text is to be written.  From there on it answers
/// as the save command does.
pub open spec fn save_file_as_spec(stage: SaveAsStageView) -> SaveAsStepView {
    match stage {
        SaveAsStageView::Invoked => SaveAsStepView::Ask(save_chooser_spec()),
        SaveAsStageView::Chose { pick: PickView::Cancelled, content } => SaveAsStepView::Reply(
            FileResultView::cancelled(),
        ),
        SaveAsStageView::Chose { pick: PickView::Unresolved(error), content } => {
            SaveAsStepView::Reply(FileResultView::failed(error))
        },
        SaveAsStageView::Chose { pick: PickView::Resolved(path), content } => {
            SaveAsStepView::Write { path, content }
        },
        SaveAsStageView::Wrote { path, outcome } => SaveAsStepView::Reply(
            write_reply_spec(path, outcome),
        ),
    }
}

/// Advances the save-as command by one stage.
pub fn save_file_as(stage: SaveAsStage) -> (step: SaveAsStep)
    ensures
        step@ == save_file_as_spec(stage@),
        step matches SaveAsStep::Reply(reply) ==> reply.well_formed() && reply.content is None,
{
    match stage {
        SaveAsStage::Invoked => SaveAsStep::Ask(save_chooser()),
        SaveAsStage::Chose { pick, content } => match pick {
            Pick::Cancelled => SaveAsStep::Reply(FileResult::cancelled()),
            Pick::Unresolved(error) => SaveAsStep::Reply(FileResult::failed(error)),
            Pick::Resolved(path) => SaveAsStep::Write { path, content },
        },
        SaveAsStage::Wrote { path, outcome } => SaveAsStep::Reply(write_reply(path, outcome)),
    }
}

/// An instruction to the window or the application that has no file in it.
#[derive(Debug, PartialEq, Eq)]
pub enum HostAction {
    /// Run `script` in the document view.
    Evaluate { script: String },
    /// Make `title` the title of the native window.
    SetTitle { title: String },
    /// End the process with `status`.
    Exit { status: i32 },
}

/// Mathematical value of a [`HostAction`].
pub ghost enum HostActionView {
    Evaluate { script: Seq<char> },
    SetTitle { title: Seq<char> },
    Exit { status: int },
}

impl View for HostAction {
    type V = HostActionView;

    open spec fn view(&self) -> HostActionView {
        match self {
            HostAction::Evaluate { script } => HostActionView::Evaluate { script: script@ },
            HostAction::SetTitle { title } => HostActionView::SetTitle { title: title@ },
            HostAction::Exit { status } => HostActionView::Exit { status: *status as int },
        }
    }
}

/// What a window command wants next.
#[derive(Debug, PartialEq, Eq)]
pub enum WindowStep {
    /// Carry out this instruction and come back with the outcome.
    Perform(HostAction),
    /// The command is finished: done, or the platform's description of why
    /// the instruction was not carried out.
    Reply(Result<(), String>),
}

/// Mathematical value of a [`WindowStep`].
pub ghost enum WindowStepView {
    Perform(HostActionView),
    Reply(Result<(), Seq<char>>),
}

impl View for WindowStep {
    type V = WindowStepView;

    open spec fn view(&self) -> WindowStepView {
        match self {
            WindowStep::Perform(action) => WindowStepView::Perform(action@),
            WindowStep::Reply(outcome) => WindowStepView::Reply(unit_outcome_view(*outcome)),
        }
    }
}

/// Where a print command stands.
#[derive(Debug, PartialEq, Eq)]
pub enum PrintStage {
    /// The command has just been invoked.
    Invoked,
    /// The instruction has been delivered to the document view, or could not
    /// be.
    Delivered(Result<(), String>),
}

/// Mathematical value of a [`PrintStage`].
pub ghost enum PrintStageView {
    Invoked,
    Delivered(Result<(), Seq<char>>),
}

impl View for PrintStage {
    type V = PrintStageView;

    open spec fn view(&self) -> PrintStageView {
        match self {
            PrintStage::Invoked => PrintStageView::Invoked,
            PrintStage::Delivered(outcome) => PrintStageView::Delivered(
                unit_outcome_view(*outcome),
            ),
        }
    }
}

/// The print command, stage by stage.
///
/// Invoked, it tells the document view to bring up its own print facility.
/// The outcome of the delivery is the answer, unchanged.
pub open spec fn print_document_spec(stage: PrintStageView) -> WindowStepView {
    match stage {
        PrintStageView::Invoked => WindowStepView::Perform(
            HostActionView::Evaluate { script: "window.print()"@ },
        ),
        PrintStageView::Delivered(outcome) => WindowStepView::Reply(outcome),
    }
}

/// Advances the print command by one stage.
pub fn print_document(stage: PrintStage) -> (step: WindowStep)
    ensures
        step@ == print_document_spec(stage@),
{
    match stage {
        PrintStage::Invoked => WindowStep::Perform(
            HostAction::Evaluate { script: "window.print()".to_owned() },
        ),
        PrintStage::Delivered(outcome) => WindowStep::Reply(outcome),
    }
}

/// Where a set-title command stands.
#[derive(Debug, PartialEq, Eq)]
pub enum TitleStage {
    /// The command has just been invoked with the new title.
    Invoked { title: String },
    /// The window manager has taken the title, or has refused it.
    Applied(Result<(), String>),
}

/// Mathematical value of a [`TitleStage`].
pub ghost enum TitleStageView {
    Invoked { title: Seq<char> },
    Applied(Result<(), Seq<char>>),
}

impl View for TitleStage {
    type V = TitleStageView;

    open spec fn view(&self) -> TitleStageView {
        match self {
            TitleStage::Invoked { title } => TitleStageView::Invoked { title: title@ },
            TitleStage::Applied(outcome) => TitleStageView::Applied(unit_outcome_view(*outcome)),
        }
    }
}

/// The set-title command, stage by stage.
///
/// Invoked, it asks for the window to get the given title, character for
/// character.  The window manager's outcome is the answer, unchanged.
pub open spec fn set_window_title_spec(stage: TitleStageView) -> WindowStepView {
    match stage {
        TitleStageView::Invoked { title } => WindowStepView::Perform(
            HostActionView::SetTitle { title },
        ),
        TitleStageView::Applied(outcome) => WindowStepView::Reply(outcome),
    }
}

/// Advances the set-title command by one stage.
pub fn set_window_title(stage: TitleStage) -> (step: WindowStep)
    ensures
        step@ == set_window_title_spec(stage@),
{
    match stage {
        TitleStage::Invoked { title } => WindowStep::Perform(HostAction::SetTitle { title }),
        TitleStage::Applied(outcome) => WindowStep::Reply(outcome),
    }
}

/// The quit command: a clean exit with status zero.  Nothing is answered,
/// since the process ends.
pub fn quit_app() -> (action: HostAction)
    ensures
        action@ == (HostActionView::Exit { status: 0 }),
{
    HostAction::Exit { status: 0 }
}

} // verus!
