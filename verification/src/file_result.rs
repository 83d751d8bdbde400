//! The envelope that file-oriented commands answer with.

use vstd::prelude::*;

verus! {

/// Uniform answer of the file commands.
///
/// `path` names the file a command worked on, `content` carries the text of
/// an opened file, and `error` describes a platform failure.  A dismissed
/// dialog is reported as `success == false` with nothing else set.
#[derive(Debug, PartialEq, Eq)]
pub struct FileResult {
    pub success: bool,
    pub path: Option<String>,
    pub content: Option<String>,
    pub error: Option<String>,
}

/// Mathematical value of a [`FileResult`]: texts are sequences of characters.
pub ghost struct FileResultView {
    pub success: bool,
    pub path: Option<Seq<char>>,
    pub content: Option<Seq<char>>,
    pub error: Option<Seq<char>>,
}

impl View for FileResult {
    type V = FileResultView;

    open spec fn view(&self) -> FileResultView {
        FileResultView {
            success: self.success,
            path: self.path.deep_view(),
            content: self.content.deep_view(),
            error: self.error.deep_view(),
        }
    }
}

impl FileResultView {
    /// Plain acknowledgement: success and nothing else.
    pub open spec fn acknowledged() -> FileResultView {
        FileResultView { success: true, path: None, content: None, error: None }
    }

    /// A file was opened: its path and its text.
    pub open spec fn opened(path: Seq<char>, content: Seq<char>) -> FileResultView {
        FileResultView { success: true, path: Some(path), content: Some(content), error: None }
    }

    /// A file was written: its path, and no text.
    pub open spec fn saved(path: Seq<char>) -> FileResultView {
        FileResultView { success: true, path: Some(path), content: None, error: None }
    }

    /// The platform failed: its description, and nothing else.
    pub open spec fn failed(error: Seq<char>) -> FileResultView {
        FileResultView { success: false, path: None, content: None, error: Some(error) }
    }

    /// The user dismissed a dialog: no success, and nothing else.
    pub open spec fn cancelled() -> FileResultView {
        FileResultView { success: false, path: None, content: None, error: None }
    }

    /// The shapes an envelope may take.
    ///
    /// A success carries no error.  A text is only ever carried together with
    /// the path it was read from, on success.  Without success the envelope
    /// holds at most an error.
    pub open spec fn well_formed(self) -> bool {
        &&& self.success ==> self.error is None
        &&& self.content is Some ==> self.path is Some
        &&& !self.success ==> self.path is None && self.content is None
    }

    /// The envelope reports a dismissed dialog.
    pub open spec fn is_cancellation(self) -> bool {
        !self.success && self.error is None
    }
}

impl FileResult {
    /// See [`FileResultView::well_formed`].
    pub open spec fn well_formed(&self) -> bool {
        self@.well_formed()
    }

    /// Success with no optional field set.
    pub fn acknowledged() -> (r: FileResult)
        ensures
            r@ == FileResultView::acknowledged(),
            r.well_formed(),
    {
        FileResult { success: true, path: None, content: None, error: None }
    }

    /// Success of an open: the file's path and its text.
    pub fn opened(path: String, content: String) -> (r: FileResult)
        ensures
            r@ == FileResultView::opened(path@, content@),
            r.well_formed(),
    {
        FileResult { success: true, path: Some(path), content: Some(content), error: None }
    }

    /// Success of a write: the file's path, and no text.
    pub fn saved(path: String) -> (r: FileResult)
        ensures
            r@ == FileResultView::saved(path@),
            r.well_formed(),
    {
        FileResult { success: true, path: Some(path), content: None, error: None }
    }

    /// Platform failure with its description.
    pub fn failed(error: String) -> (r: FileResult)
        ensures
            r@ == FileResultView::failed(error@),
            r.well_formed(),
    {
        FileResult { success: false, path: None, content: None, error: Some(error) }
    }

    /// Dismissed dialog: no success and no error.
    pub fn cancelled() -> (r: FileResult)
        ensures
            r@ == FileResultView::cancelled(),
            r.well_formed(),
    {
        FileResult { success: false, path: None, content: None, error: None }
    }

    /// Whether the envelope has one of the shapes of
    /// [`FileResultView::well_formed`].
    pub fn is_well_formed(&self) -> (ok: bool)
        ensures
            ok == self.well_formed(),
    {
        if self.success {
            self.error.is_none() && (self.content.is_none() || self.path.is_some())
        } else {
            self.path.is_none() && self.content.is_none()
        }
    }

    /// Whether the envelope reports a dismissed dialog rather than a result
    /// or a platform failure.
    pub fn is_cancellation(&self) -> (yes: bool)
        ensures
            yes == self@.is_cancellation(),
    {
        !self.success && self.error.is_none()
    }
}

} // verus!
