//! What a region of the window shows, as plain values: the rows of a list and
//! the blocks of a detail panel. The embedding program turns them into
//! widgets.

use vstd::prelude::*;
use vstd::string::StringExecFns;

verus! {

/// Name that marks the row of a list that stands for "nothing to show".
pub const EMPTY_ROW_NAME: &'static str = "__empty__";

/// Text of the list row that stands for a missing engine.
pub const NO_DATA_DIR: &'static str = "No data directory set";

/// How a piece of text is set.
#[derive(Debug, Clone, Copy, PartialEq, Eq, Structural)]
pub enum Style {
    Plain,
    Title,
    Heading,
    Caption,
    DimCaption,
    Dim,
    Success,
    Error,
}

impl Style {
    /// The style classes that set a text in this style.
    pub open spec fn classes(self) -> Seq<Seq<char>> {
        match self {
            Style::Plain => seq![],
            Style::Title => seq!["title-1"@],
            Style::Heading => seq!["heading"@],
            Style::Caption => seq!["caption"@],
            Style::DimCaption => seq!["caption"@, "dim-label"@],
            Style::Dim => seq!["dim-label"@],
            Style::Success => seq!["success"@],
            Style::Error => seq!["error"@],
        }
    }

    /// The style classes that set a text in this style.
    pub fn css_classes(&self) -> (names: Vec<&'static str>)
        ensures
            names.len() == self.classes().len(),
            forall|i: int| 0 <= i < names.len() ==> names[i]@ == self.classes()[i],
    {
        let mut names: Vec<&'static str> = Vec::new();
        match self {
            Style::Plain => {},
            Style::Title => {
                names.push("title-1");
            },
            Style::Heading => {
                names.push("heading");
            },
            Style::Caption => {
                names.push("caption");
            },
            Style::DimCaption => {
                names.push("caption");
                names.push("dim-label");
            },
            Style::Dim => {
                names.push("dim-label");
            },
            Style::Success => {
                names.push("success");
            },
            Style::Error => {
                names.push("error");
            },
        }
        names
    }
}

/// The mark in front of a row: filled where everything needed is in the
/// pantry, hollow where it is not.
pub open spec fn mark(filled: bool) -> Seq<char> {
    if filled {
        "●"@
    } else {
        "○"@
    }
}

/// The mark in front of a row.
pub fn mark_text(filled: bool) -> (text: &'static str)
    ensures
        text@ == mark(filled),
{
    if filled {
        "●"
    } else {
        "○"
    }
}

/// A page that fills a region while there is nothing to show in it.
#[derive(Debug, PartialEq)]
pub struct StatusPage {
    pub icon_name: String,
    pub title: String,
    pub description: String,
}

/// Mathematical value of [`StatusPage`].
pub struct StatusPageView {
    pub icon_name: Seq<char>,
    pub title: Seq<char>,
    pub description: Seq<char>,
}

impl View for StatusPage {
    type V = StatusPageView;

    open spec fn view(&self) -> StatusPageView {
        StatusPageView {
            icon_name: self.icon_name@,
            title: self.title@,
            description: self.description@,
        }
    }
}

/// One block of a detail panel, from top to bottom.
#[derive(Debug, PartialEq)]
pub enum Block {
    /// The name of the entity with the buttons to edit and to delete it.
    Header { title: String },
    /// One line of text.
    Text { text: String, style: Style },
    /// Short texts side by side, each set as a caption.
    Captions { texts: Vec<String> },
    /// A line of text behind a mark.
    Marked { filled: bool, mark_style: Style, text: String, style: Style },
    /// A long text that wraps and can be selected.
    Passage { text: String },
    /// A line between two sections.
    Separator,
    /// The buttons to edit and to delete the entity, at the end of the panel.
    Actions,
}

/// Mathematical value of [`Block`].
pub enum BlockView {
    Header { title: Seq<char> },
    Text { text: Seq<char>, style: Style },
    Captions { texts: Seq<Seq<char>> },
    Marked { filled: bool, mark_style: Style, text: Seq<char>, style: Style },
    Passage { text: Seq<char> },
    Separator,
    Actions,
}

impl View for Block {
    type V = BlockView;

    open spec fn view(&self) -> BlockView {
        match *self {
            Block::Header { title } => BlockView::Header { title: title@ },
            Block::Text { text, style } => BlockView::Text { text: text@, style },
            Block::Captions { texts } => BlockView::Captions { texts: texts.deep_view() },
            Block::Marked { filled, mark_style, text, style } => BlockView::Marked {
                filled,
                mark_style,
                text: text@,
                style,
            },
            Block::Passage { text } => BlockView::Passage { text: text@ },
            Block::Separator => BlockView::Separator,
            Block::Actions => BlockView::Actions,
        }
    }
}

impl DeepView for Block {
    type V = BlockView;

    open spec fn deep_view(&self) -> BlockView {
        self@
    }
}

/// What a detail panel shows.
#[derive(Debug, PartialEq)]
pub enum Detail {
    /// Nothing is selected, no engine is loaded, or the entity is gone.
    Placeholder(StatusPage),
    /// The entity, block by block.
    Blocks(Vec<Block>),
}

/// Mathematical value of [`Detail`].
pub enum DetailView {
    Placeholder(StatusPageView),
    Blocks(Seq<BlockView>),
}

impl View for Detail {
    type V = DetailView;

    open spec fn view(&self) -> DetailView {
        match *self {
            Detail::Placeholder(page) => DetailView::Placeholder(page@),
            Detail::Blocks(blocks) => DetailView::Blocks(blocks.deep_view()),
        }
    }
}

/// Puts one more block at the end of a panel.
pub fn push_block(blocks: &mut Vec<Block>, block: Block)
    ensures
        final(blocks).deep_view() == old(blocks).deep_view().push(block@),
{
    let ghost before = blocks.deep_view();
    blocks.push(block);
    assert(blocks.deep_view() =~= before.push(block@));
}

/// Puts more blocks at the end of a panel.
pub fn push_blocks(blocks: &mut Vec<Block>, more: Vec<Block>)
    ensures
        final(blocks).deep_view() == old(blocks).deep_view() + more.deep_view(),
{
    let ghost before = blocks.deep_view();
    let ghost added = more.deep_view();
    let mut more = more;
    blocks.append(&mut more);
    assert(blocks.deep_view() =~= before + added);
}

/// A panel without blocks.
pub fn no_blocks() -> (blocks: Vec<Block>)
    ensures
        blocks.deep_view() == Seq::<BlockView>::empty(),
{
    let blocks: Vec<Block> = Vec::new();
    assert(blocks.deep_view() =~= Seq::<BlockView>::empty());
    blocks
}

/// A question that the user answers with "cancel" or "delete" before
/// something is removed for good. Cancelling is the default, and it is what
/// closing the dialog means.
#[derive(Debug, PartialEq)]
pub struct ConfirmDialog {
    pub heading: String,
    pub body: String,
}

/// Mathematical value of [`ConfirmDialog`].
pub struct ConfirmDialogView {
    pub heading: Seq<char>,
    pub body: Seq<char>,
}

impl View for ConfirmDialog {
    type V = ConfirmDialogView;

    open spec fn view(&self) -> ConfirmDialogView {
        ConfirmDialogView { heading: self.heading@, body: self.body@ }
    }
}

/// Heading of the question whether to delete the entity of a given name.
pub open spec fn delete_heading(name: Seq<char>) -> Seq<char> {
    "Delete \""@ + name + "\"?"@
}

/// Heading of the question whether to delete the entity of a given name.
pub fn delete_heading_text(name: &str) -> (heading: String)
    ensures
        heading@ == delete_heading(name@),
{
    crate::text::prefixed("Delete \"", name).concat("\"?")
}

/// What the engine gave for an identifier.
#[derive(Debug, PartialEq)]
pub enum Lookup<T> {
    /// No engine is loaded.
    NoEngine,
    /// The engine knows nothing under the identifier.
    Missing,
    /// The engine's record.
    Found(T),
}

impl<T: DeepView> Lookup<T> {
    /// The engine's record, if there is one.
    pub open spec fn record(self) -> Option<T::V> {
        match self {
            Lookup::Found(found) => Some(found.deep_view()),
            _ => None,
        }
    }
}

/// What a list shows: one row that says why there is nothing, or the rows of
/// its entries.
#[derive(Debug, PartialEq)]
pub enum ListContent<R> {
    Empty { name: String, text: String },
    Rows(Vec<R>),
}

/// Mathematical value of [`ListContent`].
pub enum ListContentView<V> {
    Empty { name: Seq<char>, text: Seq<char> },
    Rows(Seq<V>),
}

impl<R: DeepView> DeepView for ListContent<R> {
    type V = ListContentView<R::V>;

    open spec fn deep_view(&self) -> ListContentView<R::V> {
        match *self {
            ListContent::Empty { name, text } => ListContentView::Empty {
                name: name@,
                text: text@,
            },
            ListContent::Rows(rows) => ListContentView::Rows(rows.deep_view()),
        }
    }
}

/// The row that a list of recipes or ingredients shows in place of entries.
/// It can be neither activated nor selected.
pub fn empty_state_row<R: DeepView>(text: &str) -> (content: ListContent<R>)
    ensures
        content.deep_view() == (ListContentView::<R::V>::Empty {
            name: EMPTY_ROW_NAME@,
            text: text@,
        }),
{
    ListContent::Empty { name: EMPTY_ROW_NAME.to_owned(), text: text.to_owned() }
}

/// The position of the first row that bears a name, if one does. A list is
/// rebuilt from scratch, so a selection is found again by name and not by
/// position.
pub fn select_row_by_name(names: &Vec<String>, name: &str) -> (at: Option<usize>)
    ensures
        match at {
            Some(i) => i < names.len() && names[i as int]@ == name@ && forall|k: int|
                0 <= k < i ==> names[k]@ != name@,
            None => forall|k: int| 0 <= k < names.len() ==> names[k]@ != name@,
        },
{
    let mut i: usize = 0;
    while i < names.len()
        invariant
            i <= names.len(),
            forall|k: int| 0 <= k < i ==> names[k]@ != name@,
        decreases names.len() - i,
    {
        if crate::text::same_text(names[i].as_str(), name) {
            return Some(i);
        }
        i += 1;
    }
    None
}

} // verus!
