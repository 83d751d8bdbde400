//! The native file chooser: how a command configures it, and what comes back.

use vstd::prelude::*;

verus! {

/// One entry of a chooser's file-type list: a label and the extensions it
/// admits, without the dot.
#[derive(Debug, PartialEq, Eq)]
pub struct DialogFilter {
    pub name: String,
    pub extensions: Vec<String>,
}

/// Mathematical value of a [`DialogFilter`].
pub ghost struct DialogFilterView {
    pub name: Seq<char>,
    pub extensions: Seq<Seq<char>>,
}

impl View for DialogFilter {
    type V = DialogFilterView;

    open spec fn view(&self) -> DialogFilterView {
        DialogFilterView { name: self.name@, extensions: self.extensions.deep_view() }
    }
}

impl DeepView for DialogFilter {
    type V = DialogFilterView;

    open spec fn deep_view(&self) -> DialogFilterView {
        self@
    }
}

/// Whether a chooser picks an existing file or a destination.
#[derive(Debug, Clone, Copy, PartialEq, Eq)]
pub enum ChooserMode {
    Open,
    Save,
}

/// A modal file chooser as a command wants it shown.
#[derive(Debug, PartialEq, Eq)]
pub struct Chooser {
    pub mode: ChooserMode,
    pub filters: Vec<DialogFilter>,
    pub default_name: Option<String>,
}

/// Mathematical value of a [`Chooser`].
pub ghost struct ChooserView {
    pub mode: ChooserMode,
    pub filters: Seq<DialogFilterView>,
    pub default_name: Option<Seq<char>>,
}

impl View for Chooser {
    type V = ChooserView;

    open spec fn view(&self) -> ChooserView {
        ChooserView {
            mode: self.mode,
            filters: self.filters.deep_view(),
            default_name: self.default_name.deep_view(),
        }
    }
}

/// What the user did with a chooser.
#[derive(Debug, PartialEq, Eq)]
pub enum Pick {
    /// The chooser was dismissed without a choice.
    Cancelled,
    /// An entry was chosen, but the platform could not turn it into an
    /// absolute path; the text is the platform's description.
    Unresolved(String),
    /// An entry was chosen; the text is its absolute path.
    Resolved(String),
}

/// Mathematical value of a [`Pick`].
pub ghost enum PickView {
    Cancelled,
    Unresolved(Seq<char>),
    Resolved(Seq<char>),
}

impl View for Pick {
    type V = PickView;

    open spec fn view(&self) -> PickView {
        match self {
            Pick::Cancelled => PickView::Cancelled,
            Pick::Unresolved(error) => PickView::Unresolved(error@),
            Pick::Resolved(path) => PickView::Resolved(path@),
        }
    }
}

/// The file types every chooser offers, in order: text documents, then
/// everything.
pub open spec fn text_filters_spec() -> Seq<DialogFilterView> {
    seq![
        DialogFilterView { name: "Text Documents"@, extensions: seq!["txt"@] },
        DialogFilterView { name: "All Files"@, extensions: seq!["*"@] },
    ]
}

/// The chooser of the open command.
pub open spec fn open_chooser_spec() -> ChooserView {
    ChooserView { mode: ChooserMode::Open, filters: text_filters_spec(), default_name: None }
}

/// The chooser of the save-as command: same file types, and a proposed name.
pub open spec fn save_chooser_spec() -> ChooserView {
    ChooserView {
        mode: ChooserMode::Save,
        filters: text_filters_spec(),
        default_name: Some("Untitled.txt"@),
    }
}

/// A filter with a single extension.
fn single_extension_filter(name: &str, extension: &str) -> (filter: DialogFilter)
    ensures
        filter@ == (DialogFilterView { name: name@, extensions: seq![extension@] }),
{
    let mut extensions: Vec<String> = Vec::new();
    extensions.push(extension.to_owned());
    let filter = DialogFilter { name: name.to_owned(), extensions };
    assert(filter@.extensions =~= seq![extension@]);
    filter
}

/// Builds the two file-type filters shared by both choosers.
pub fn text_filters() -> (filters: Vec<DialogFilter>)
    ensures
        filters.deep_view() == text_filters_spec(),
{
    let mut filters: Vec<DialogFilter> = Vec::new();
    filters.push(single_extension_filter("Text Documents", "txt"));
    filters.push(single_extension_filter("All Files", "*"));
    assert(filters.deep_view() =~= text_filters_spec());
    filters
}

/// Builds the chooser of the open command.
pub fn open_chooser() -> (chooser: Chooser)
    ensures
        chooser@ == open_chooser_spec(),
{
    Chooser { mode: ChooserMode::Open, filters: text_filters(), default_name: None }
}

/// Builds the chooser of the save-as command.
pub fn save_chooser() -> (chooser: Chooser)
    ensures
        chooser@ == save_chooser_spec(),
{
    Chooser {
        mode: ChooserMode::Save,
        filters: text_filters(),
        default_name: Some("Untitled.txt".to_owned()),
    }
}

} // verus!
