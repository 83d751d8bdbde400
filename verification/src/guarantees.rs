//! What holds of every answer that the file commands give.

use vstd::prelude::*;
use crate::commands::{
    open_file_spec, read_reply_spec, save_file_as_spec, save_file_spec, write_reply_spec,
    OpenStageView, OpenStepView, SaveAsStageView, SaveAsStepView, SaveStageView, SaveStepView,
};
use crate::dialog::{open_chooser_spec, save_chooser_spec, PickView};
use crate::file_result::FileResultView;

verus! {

/// A stage of any of the four file commands.
pub ghost enum FileStage {
    New,
    Open(OpenStageView),
    Save(SaveStageView),
    SaveAs(SaveAsStageView),
}

/// The answer that a file command gives at a stage, if it finishes there.
pub open spec fn file_reply(stage: FileStage) -> Option<FileResultView> {
    match stage {
        FileStage::New => Some(FileResultView::acknowledged()),
        FileStage::Open(at) => match open_file_spec(at) {
            OpenStepView::Reply(reply) => Some(reply),
            _ => None,
        },
        FileStage::Save(at) => match save_file_spec(at) {
            SaveStepView::Reply(reply) => Some(reply),
            _ => None,
        },
        FileStage::SaveAs(at) => match save_file_as_spec(at) {
            SaveAsStepView::Reply(reply) => Some(reply),
            _ => None,
        },
    }
}

/// The stage is the return from a chooser that the user dismissed.
pub open spec fn is_dismissal(stage: FileStage) -> bool {
    match stage {
        FileStage::Open(OpenStageView::Chose(PickView::Cancelled)) => true,
        FileStage::SaveAs(SaveAsStageView::Chose { pick: PickView::Cancelled, content }) => true,
        _ => false,
    }
}

/// What a whole open command answers, given what the user picked and, where
/// a file is read, what reading it gave.
pub open spec fn open_file_outcome(
    pick: PickView,
    read: Result<Seq<char>, Seq<char>>,
) -> FileResultView {
    match pick {
        PickView::Cancelled => FileResultView::cancelled(),
        PickView::Unresolved(error) => FileResultView::failed(error),
        PickView::Resolved(path) => read_reply_spec(path, read),
    }
}

/// What a whole save-as command answers, given what the user picked and,
/// where a file is written, what writing it gave.
pub open spec fn save_file_as_outcome(
    pick: PickView,
    written: Result<(), Seq<char>>,
) -> FileResultView {
    match pick {
        PickView::Cancelled => FileResultView::cancelled(),
        PickView::Unresolved(error) => FileResultView::failed(error),
        PickView::Resolved(path) => write_reply_spec(path, written),
    }
}

/// Every answer of a file command has one of the envelope's shapes; in
/// particular a success never carries an error.
pub proof fn lemma_success_carries_no_error(stage: FileStage)
    ensures
        file_reply(stage) matches Some(reply) ==> {
            &&& reply.well_formed()
            &&& reply.success ==> reply.error is None
        },
{
}

/// An answer carries a text only when the open command has read a file: the
/// answer is then a success, the text is what was read, and the path is the
/// one that was read.
pub proof fn lemma_content_comes_from_open(stage: FileStage)
    ensures
        file_reply(stage) matches Some(reply) ==> (reply.content is Some <==> stage matches
            FileStage::Open(OpenStageView::Read { path, outcome: Ok(text) })),
        file_reply(stage) matches Some(reply) ==> (stage matches FileStage::Open(
            OpenStageView::Read { path, outcome: Ok(text) },
        ) ==> reply == FileResultView::opened(path, text)),
        file_reply(stage) matches Some(reply) ==> (reply.content is Some ==> reply.success),
{
}

/// Neither save command ever puts a text into its answer.
pub proof fn lemma_save_carries_no_content(stage: FileStage)
    requires
        stage is Save || stage is SaveAs,
    ensures
        file_reply(stage) matches Some(reply) ==> reply.content is None,
{
}

/// A dismissed chooser ends the command without success and without an
/// error, and no other answer looks like that.
pub proof fn lemma_dismissal_is_no_error(stage: FileStage)
    ensures
        is_dismissal(stage) ==> file_reply(stage) == Some(FileResultView::cancelled()),
        file_reply(stage) matches Some(reply) ==> (reply.is_cancellation() <==> is_dismissal(
            stage,
        )),
        FileResultView::cancelled().is_cancellation(),
{
}

/// A run of the open command: it asks for the open chooser, reads the file
/// only when the pick resolved to a path, and that path, and ends with
/// [`open_file_outcome`].
pub proof fn lemma_open_file_run(pick: PickView, read: Result<Seq<char>, Seq<char>>)
    ensures
        open_file_spec(OpenStageView::Invoked) == OpenStepView::Ask(open_chooser_spec()),
        match open_file_spec(OpenStageView::Chose(pick)) {
            OpenStepView::Ask(_) => false,
            OpenStepView::Read { path } => {
                &&& pick == PickView::Resolved(path)
                &&& open_file_spec(OpenStageView::Read { path, outcome: read })
                    == OpenStepView::Reply(open_file_outcome(pick, read))
            },
            OpenStepView::Reply(reply) => {
                &&& !(pick is Resolved)
                &&& reply == open_file_outcome(pick, read)
            },
        },
{
}

/// A run of the save command: it asks for the given text to be written to
/// the given path, both unchanged, and ends with the path echoed back or the
/// failure.
pub proof fn lemma_save_file_run(
    path: Seq<char>,
    content: Seq<char>,
    written: Result<(), Seq<char>>,
)
    ensures
        save_file_spec(SaveStageView::Invoked { path, content }) == (SaveStepView::Write {
            path,
            content,
        }),
        save_file_spec(SaveStageView::Wrote { path, outcome: written }) == SaveStepView::Reply(
            write_reply_spec(path, written),
        ),
        written is Ok ==> write_reply_spec(path, written) == FileResultView::saved(path),
        written matches Err(error) ==> write_reply_spec(path, written) == FileResultView::failed(
            error,
        ),
{
}

/// A run of the save-as command: it asks for the save chooser, writes only
/// when the pick resolved to a path, the given text to that path, and ends
/// with [`save_file_as_outcome`], which on a resolved pick is what the save
/// command answers for that path.
pub proof fn lemma_save_file_as_run(
    pick: PickView,
    content: Seq<char>,
    written: Result<(), Seq<char>>,
)
    ensures
        save_file_as_spec(SaveAsStageView::Invoked) == SaveAsStepView::Ask(save_chooser_spec()),
        match save_file_as_spec(SaveAsStageView::Chose { pick, content }) {
            SaveAsStepView::Ask(_) => false,
            SaveAsStepView::Write { path, content: text } => {
                &&& pick == PickView::Resolved(path)
                &&& text == content
                &&& save_file_as_spec(SaveAsStageView::Wrote { path, outcome: written })
                    == SaveAsStepView::Reply(save_file_as_outcome(pick, written))
                &&& save_file_spec(SaveStageView::Wrote { path, outcome: written })
                    == SaveStepView::Reply(save_file_as_outcome(pick, written))
            },
            SaveAsStepView::Reply(reply) => {
                &&& !(pick is Resolved)
                &&& reply == save_file_as_outcome(pick, written)
            },
        },
{
}

/// What is saved is what is opened: the save command hands the platform the
/// text unchanged, and when reading the same path gives that text back, the
/// open command answers with exactly it.
pub proof fn lemma_saved_text_is_opened_text(path: Seq<char>, text: Seq<char>)
    ensures
        save_file_spec(SaveStageView::Invoked { path, content: text }) == (SaveStepView::Write {
            path,
            content: text,
        }),
        open_file_spec(OpenStageView::Read { path, outcome: Ok(text) }) == OpenStepView::Reply(
            FileResultView::opened(path, text),
        ),
{
}

} // verus!
