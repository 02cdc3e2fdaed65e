//! The knowledge-base page: the list of articles, which the user narrows by
//! typing, and the article on show.

use vstd::prelude::*;
use crate::blocks::{
    Block, BlockView, Detail, DetailView, ListContent, ListContentView, Lookup, StatusPage,
    StatusPageView, Style, NO_DATA_DIR, no_blocks, push_block,
};
use crate::messages::{AppMsg, AppMsgView};
use crate::order::{arranged, is_stable_order, stable_order};
use crate::records::{KbEntry, KbEntryView};
use crate::text::{contains, lowercase, occurs_in, to_lowercase};

verus! {

/// Text of the list row that stands for a search without result.
pub const NO_ARTICLES: &'static str = "No articles found";

/// One row of the list of articles. `name` is what the row is found by.
#[derive(Debug, PartialEq)]
pub struct KbRow {
    pub name: String,
    pub title: String,
}

/// Mathematical value of [`KbRow`].
pub struct KbRowView {
    pub name: Seq<char>,
    pub title: Seq<char>,
}

impl View for KbRow {
    type V = KbRowView;

    open spec fn view(&self) -> KbRowView {
        KbRowView { name: self.name@, title: self.title@ }
    }
}

impl DeepView for KbRow {
    type V = KbRowView;

    open spec fn deep_view(&self) -> KbRowView {
        self@
    }
}

/// The row of an article: found by its slug, shown by its title.
pub open spec fn kb_row(entry: KbEntryView) -> KbRowView {
    KbRowView { name: entry.slug, title: entry.title }
}

/// Whether an article is listed for a query: every article for the empty
/// query, else those whose title or slug, in lower case, holds the query.
pub open spec fn article_matches(entry: KbEntryView, query: Seq<char>) -> bool {
    query.len() == 0 || occurs_in(query, lowercase(entry.title)) || occurs_in(
        query,
        lowercase(entry.slug),
    )
}

/// The titles of the articles, in their order.
pub open spec fn article_titles(entries: Seq<KbEntryView>) -> Seq<Seq<char>> {
    entries.map_values(|e: KbEntryView| e.title)
}

/// The row that the list shows in place of articles. It bears no name.
pub open spec fn no_articles_row(text: Seq<char>) -> ListContentView<KbRowView> {
    ListContentView::Empty { name: Seq::empty(), text }
}

/// What the list shows of the articles once they are in order.
pub open spec fn listed(ordered: Seq<KbEntryView>, query: Seq<char>) -> ListContentView<KbRowView> {
    let hits = ordered.filter(|e: KbEntryView| article_matches(e, query));
    if hits.len() == 0 {
        no_articles_row(NO_ARTICLES@)
    } else {
        ListContentView::Rows(hits.map_values(|e: KbEntryView| kb_row(e)))
    }
}

/// Whether a list content is what the list of articles shows for the
/// engine's answer: one row that names the reason where there is no engine
/// or no article that matches; else a row for each article that matches, by
/// ascending title.
pub open spec fn kb_list_shows(
    found: Option<Seq<KbEntryView>>,
    query: Seq<char>,
    content: ListContentView<KbRowView>,
) -> bool {
    match found {
        None => content == no_articles_row(NO_DATA_DIR@),
        Some(entries) => exists|order: Seq<usize>|
            is_stable_order(article_titles(entries), order) && content == listed(
                arranged(entries, order),
                query,
            ),
    }
}

/// The query that a search text stands for: the text in lower case, so that
/// capital and small letters count alike; the empty text stands for the
/// empty query, which every article matches.
pub open spec fn query_of(search: Seq<char>) -> Seq<char> {
    if search.len() == 0 {
        Seq::empty()
    } else {
        lowercase(search)
    }
}

/// The query that a search text stands for.
pub fn kb_query(search: &str) -> (query: String)
    ensures
        query@ == query_of(search@),
{
    if search.is_empty() {
        String::new()
    } else {
        to_lowercase(search)
    }
}

/// Whether an article is listed for a query.
pub fn matches_query(entry: &KbEntry, query: &str) -> (hit: bool)
    ensures
        hit == article_matches(entry@, query@),
{
    if query.is_empty() {
        return true;
    }
    let title = to_lowercase(entry.title.as_str());
    if contains(title.as_str(), query) {
        return true;
    }
    let slug = to_lowercase(entry.slug.as_str());
    contains(slug.as_str(), query)
}

/// The titles of the articles.
fn titles_of(entries: &Vec<KbEntry>) -> (titles: Vec<String>)
    ensures
        titles.deep_view() == article_titles(entries.deep_view()),
{
    let mut titles: Vec<String> = Vec::new();
    let mut i: usize = 0;
    while i < entries.len()
        invariant
            i <= entries.len(),
            titles.len() == i,
            forall|k: int| 0 <= k < i ==> titles[k]@ == entries[k].title@,
        decreases entries.len() - i,
    {
        titles.push(entries[i].title.clone());
        i += 1;
    }
    assert(titles.deep_view() =~= article_titles(entries.deep_view()));
    titles
}

/// What the list of articles shows for a query. `found` holds every article
/// of the engine, or is `None` where no engine is loaded.
pub fn populate_kb_list_filtered(found: Option<Vec<KbEntry>>, query: &str) -> (content:
    ListContent<KbRow>)
    ensures
        kb_list_shows(found.deep_view(), query@, content.deep_view()),
{
    match found {
        None => ListContent::Empty { name: String::new(), text: NO_DATA_DIR.to_owned() },
        Some(entries) => {
            let titles = titles_of(&entries);
            let order = stable_order(&titles);
            let ghost ordered = arranged(entries.deep_view(), order@);
            let ghost wanted = |e: KbEntryView| article_matches(e, query@);
            let ghost as_row = |e: KbEntryView| kb_row(e);
            let mut rows: Vec<KbRow> = Vec::new();
            let mut i: usize = 0;
            proof {
                reveal(Seq::filter);
                assert(ordered.take(0) =~= Seq::<KbEntryView>::empty());
                assert(rows.deep_view() =~= ordered.take(0).filter(wanted).map_values(as_row));
            }
            while i < order.len()
                invariant
                    i <= order.len(),
                    order.len() == entries.len(),
                    forall|k: int| 0 <= k < order.len() ==> order[k] < entries.len(),
                    ordered == arranged(entries.deep_view(), order@),
                    wanted == (|e: KbEntryView| article_matches(e, query@)),
                    as_row == (|e: KbEntryView| kb_row(e)),
                    rows.deep_view() == ordered.take(i as int).filter(wanted).map_values(as_row),
                decreases order.len() - i,
            {
                let entry = &entries[order[i]];
                proof {
                    reveal(Seq::filter);
                    assert(ordered.take(i + 1).drop_last() =~= ordered.take(i as int));
                    assert(ordered.take(i + 1).last() == entry@);
                }
                if matches_query(entry, query) {
                    let ghost before = rows.deep_view();
                    rows.push(KbRow { name: entry.slug.clone(), title: entry.title.clone() });
                    proof {
                        assert(rows.deep_view() =~= before.push(kb_row(entry@)));
                        assert(ordered.take(i + 1).filter(wanted).map_values(as_row)
                            =~= before.push(kb_row(entry@)));
                    }
                }
                i += 1;
            }
            proof {
                assert(ordered.take(order.len() as int) =~= ordered);
            }
            if rows.len() == 0 {
                ListContent::Empty { name: String::new(), text: NO_ARTICLES.to_owned() }
            } else {
                ListContent::Rows(rows)
            }
        },
    }
}

/// What the list of articles shows for the search text of the state.
/// `found` holds every article of the engine, or is `None` where no engine is
/// loaded.
pub fn populate_kb_list(found: Option<Vec<KbEntry>>, search: &str) -> (content: ListContent<KbRow>)
    ensures
        kb_list_shows(found.deep_view(), query_of(search@), content.deep_view()),
{
    let query = kb_query(search);
    populate_kb_list_filtered(found, query.as_str())
}

/// The event that follows from the selection of a row: the article of that
/// slug is selected, unless the row bears no name.
pub open spec fn row_selection(slug: Seq<char>) -> Option<AppMsgView> {
    if slug.len() > 0 {
        Some(AppMsgView::SelectKb(Some(slug)))
    } else {
        None
    }
}

/// The event that follows from the selection of a row of the list.
pub fn kb_row_selected(slug: &str) -> (msg: Option<AppMsg>)
    ensures
        msg.deep_view() == row_selection(slug@),
{
    if !slug.is_empty() {
        Some(AppMsg::SelectKb(Some(slug.to_owned())))
    } else {
        None
    }
}

/// The article on show, with the names of the ingredients that refer to it.
#[derive(Debug, PartialEq)]
pub struct KbDetail {
    pub title: String,
    pub content: String,
    pub linked: Vec<String>,
}

/// Mathematical value of [`KbDetail`].
pub struct KbDetailView {
    pub title: Seq<char>,
    pub content: Seq<char>,
    pub linked: Seq<Seq<char>>,
}

impl View for KbDetail {
    type V = KbDetailView;

    open spec fn view(&self) -> KbDetailView {
        KbDetailView {
            title: self.title@,
            content: self.content@,
            linked: self.linked.deep_view(),
        }
    }
}

impl DeepView for KbDetail {
    type V = KbDetailView;

    open spec fn deep_view(&self) -> KbDetailView {
        self@
    }
}

/// The section of the ingredients that refer to the article, where one does.
pub open spec fn linked_blocks(linked: Seq<Seq<char>>) -> Seq<BlockView> {
    if linked.len() > 0 {
        seq![
            BlockView::Separator,
            BlockView::Text { text: "Related ingredients"@, style: Style::Heading },
        ] + linked.map_values(|name: Seq<char>| BlockView::Text { text: name, style: Style::Caption })
    } else {
        seq![]
    }
}

/// The blocks of an article, from top to bottom.
pub open spec fn kb_blocks(d: KbDetailView) -> Seq<BlockView> {
    seq![
        BlockView::Text { text: d.title, style: Style::Title },
        BlockView::Separator,
        BlockView::Passage { text: d.content },
    ] + linked_blocks(d.linked)
}

/// The page that the panel shows while no article is on show.
pub open spec fn kb_placeholder() -> StatusPageView {
    StatusPageView {
        icon_name: "system-help-symbolic"@,
        title: "Knowledge Base"@,
        description: "Select an article from the list to read it."@,
    }
}

/// What the detail panel shows for the engine's answer: the article where
/// the engine has it, the placeholder where no engine is loaded or the
/// article is gone.
pub open spec fn kb_detail(found: Option<KbDetailView>) -> DetailView {
    match found {
        Some(d) => DetailView::Blocks(kb_blocks(d)),
        None => DetailView::Placeholder(kb_placeholder()),
    }
}

/// The page that the panel shows while no article is on show.
pub fn show_kb_placeholder() -> (page: StatusPage)
    ensures
        page@ == kb_placeholder(),
{
    StatusPage {
        icon_name: "system-help-symbolic".to_owned(),
        title: "Knowledge Base".to_owned(),
        description: "Select an article from the list to read it.".to_owned(),
    }
}

/// The blocks of an article, from top to bottom.
fn build_kb_blocks(d: &KbDetail) -> (blocks: Vec<Block>)
    ensures
        blocks.deep_view() == kb_blocks(d@),
{
    let mut blocks = no_blocks();
    push_block(&mut blocks, Block::Text { text: d.title.clone(), style: Style::Title });
    push_block(&mut blocks, Block::Separator);
    push_block(&mut blocks, Block::Passage { text: d.content.clone() });
    if d.linked.len() > 0 {
        push_block(&mut blocks, Block::Separator);
        push_block(
            &mut blocks,
            Block::Text { text: "Related ingredients".to_owned(), style: Style::Heading },
        );
        let ghost head = blocks.deep_view();
        let mut i: usize = 0;
        while i < d.linked.len()
            invariant
                i <= d.linked.len(),
                blocks.deep_view() == head + d.linked.deep_view().take(i as int).map_values(
                    |name: Seq<char>| BlockView::Text { text: name, style: Style::Caption },
                ),
            decreases d.linked.len() - i,
        {
            push_block(
                &mut blocks,
                Block::Text { text: d.linked[i].clone(), style: Style::Caption },
            );
            assert(blocks.deep_view() =~= head + d.linked.deep_view().take(i + 1).map_values(
                |name: Seq<char>| BlockView::Text { text: name, style: Style::Caption },
            ));
            i += 1;
        }
        assert(d.linked.deep_view().take(d.linked.len() as int) =~= d.linked.deep_view());
    }
    assert(blocks.deep_view() =~= kb_blocks(d@));
    blocks
}

/// What the detail panel shows for the selected article. `found` is what the
/// engine gave for the selected slug.
pub fn update_kb_detail(found: Lookup<KbDetail>) -> (detail: Detail)
    ensures
        detail@ == kb_detail(found.record()),
{
    match found {
        Lookup::Found(d) => Detail::Blocks(build_kb_blocks(&d)),
        _ => Detail::Placeholder(show_kb_placeholder()),
    }
}

/// The knowledge-base page as it is built: the search field, the list, and
/// the detail panel with its placeholder.
#[derive(Debug, PartialEq)]
pub struct KbTab {
    pub search_hint: String,
    pub list: ListContent<KbRow>,
    pub detail: StatusPage,
}

/// The knowledge-base page as it is built. Nothing is typed and nothing is
/// selected yet; `found` holds every article of the engine, or is `None`
/// where no engine is loaded.
pub fn build_kb_tab(found: Option<Vec<KbEntry>>) -> (tab: KbTab)
    ensures
        tab.search_hint@ == "Search articles…"@,
        kb_list_shows(found.deep_view(), Seq::empty(), tab.list.deep_view()),
        tab.detail@ == kb_placeholder(),
{
    proof {
        reveal_strlit("");
        assert(""@ =~= Seq::<char>::empty());
    }
    KbTab {
        search_hint: "Search articles…".to_owned(),
        list: populate_kb_list(found, ""),
        detail: show_kb_placeholder(),
    }
}

} // verus!
