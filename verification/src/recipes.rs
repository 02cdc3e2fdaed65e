//! The recipes page: its list with the marks of what can be cooked, and the
//! detail of the selected recipe.

use vstd::prelude::*;
use vstd::string::StringExecFns;
use crate::blocks::{
    Block, BlockView, ConfirmDialog, ConfirmDialogView, Detail, DetailView, ListContent,
    ListContentView, Lookup, StatusPage, StatusPageView, Style, EMPTY_ROW_NAME, NO_DATA_DIR,
    delete_heading, delete_heading_text, empty_state_row, no_blocks, push_block, push_blocks,
};
use crate::messages::{AppMsg, AppMsgView};
use crate::numbers::{decimal_text, to_decimal};
use crate::order::{arranged, identity_order, is_stable_order, stable_order};
use crate::text::{join, joined, prefixed, same_text};

verus! {

/// Text of the list row that stands for a search without result.
pub const NO_RECIPES: &'static str = "No recipes found";

/// What the engine knows of one recipe of the list.
#[derive(Debug, PartialEq)]
pub struct RecipeEntry {
    pub title: String,
    pub all_in_stock: bool,
}

/// Mathematical value of [`RecipeEntry`].
pub struct RecipeEntryView {
    pub title: Seq<char>,
    pub all_in_stock: bool,
}

impl View for RecipeEntry {
    type V = RecipeEntryView;

    open spec fn view(&self) -> RecipeEntryView {
        RecipeEntryView { title: self.title@, all_in_stock: self.all_in_stock }
    }
}

impl DeepView for RecipeEntry {
    type V = RecipeEntryView;

    open spec fn deep_view(&self) -> RecipeEntryView {
        self@
    }
}

/// What the list asks of the engine.
#[derive(Debug, PartialEq)]
pub enum RecipeQuery {
    /// Every recipe.
    All,
    /// The recipes that the engine finds for a text.
    Search(String),
}

/// What the list asks of the engine for a search text: everything where the
/// text is empty, else a search.
pub fn recipe_query(search: &str) -> (query: RecipeQuery)
    ensures
        search@.len() == 0 ==> query is All,
        search@.len() > 0 ==> (query matches RecipeQuery::Search(text) && text@ == search@),
{
    if search.is_empty() {
        RecipeQuery::All
    } else {
        RecipeQuery::Search(search.to_owned())
    }
}

/// One row of the recipe list. `name` is what the row is found by.
#[derive(Debug, PartialEq)]
pub struct RecipeRow {
    pub name: String,
    pub filled: bool,
    pub mark_style: Style,
    pub tooltip: String,
    pub title: String,
}

/// Mathematical value of [`RecipeRow`].
pub struct RecipeRowView {
    pub name: Seq<char>,
    pub filled: bool,
    pub mark_style: Style,
    pub tooltip: Seq<char>,
    pub title: Seq<char>,
}

impl View for RecipeRow {
    type V = RecipeRowView;

    open spec fn view(&self) -> RecipeRowView {
        RecipeRowView {
            name: self.name@,
            filled: self.filled,
            mark_style: self.mark_style,
            tooltip: self.tooltip@,
            title: self.title@,
        }
    }
}

impl DeepView for RecipeRow {
    type V = RecipeRowView;

    open spec fn deep_view(&self) -> RecipeRowView {
        self@
    }
}

/// The row of a recipe: a filled green mark where everything it needs is in
/// the pantry, a hollow dim one where something is missing.
pub open spec fn recipe_row(entry: RecipeEntryView) -> RecipeRowView {
    RecipeRowView {
        name: entry.title,
        filled: entry.all_in_stock,
        mark_style: if entry.all_in_stock {
            Style::Success
        } else {
            Style::Dim
        },
        tooltip: if entry.all_in_stock {
            "All ingredients available"@
        } else {
            "Some ingredients missing from pantry"@
        },
        title: entry.title,
    }
}

/// The titles of the entries, in their order.
pub open spec fn entry_titles(entries: Seq<RecipeEntryView>) -> Seq<Seq<char>> {
    entries.map_values(|e: RecipeEntryView| e.title)
}

/// Whether a list content is what the recipe list shows for the engine's
/// answer: one row that names the reason where there is no engine or no
/// recipe; else a row for each recipe, by ascending title where nothing is
/// searched for, in the engine's order where the engine searched.
pub open spec fn recipe_list_shows(
    found: Option<Seq<RecipeEntryView>>,
    search: Seq<char>,
    content: ListContentView<RecipeRowView>,
) -> bool {
    match found {
        None => content == (ListContentView::<RecipeRowView>::Empty {
            name: EMPTY_ROW_NAME@,
            text: NO_DATA_DIR@,
        }),
        Some(entries) => if entries.len() == 0 {
            content == (ListContentView::<RecipeRowView>::Empty {
                name: EMPTY_ROW_NAME@,
                text: NO_RECIPES@,
            })
        } else if search.len() > 0 {
            content == ListContentView::Rows(
                entries.map_values(|e: RecipeEntryView| recipe_row(e)),
            )
        } else {
            exists|order: Seq<usize>|
                is_stable_order(entry_titles(entries), order) && content == ListContentView::Rows(
                    arranged(entries.map_values(|e: RecipeEntryView| recipe_row(e)), order),
                )
        },
    }
}

/// The row of a recipe.
pub fn build_recipe_row(entry: &RecipeEntry) -> (row: RecipeRow)
    ensures
        row@ == recipe_row(entry@),
{
    RecipeRow {
        name: entry.title.clone(),
        filled: entry.all_in_stock,
        mark_style: if entry.all_in_stock {
            Style::Success
        } else {
            Style::Dim
        },
        tooltip: if entry.all_in_stock {
            "All ingredients available".to_owned()
        } else {
            "Some ingredients missing from pantry".to_owned()
        },
        title: entry.title.clone(),
    }
}

/// The titles of the entries.
fn titles_of(entries: &Vec<RecipeEntry>) -> (titles: Vec<String>)
    ensures
        titles.deep_view() == entry_titles(entries.deep_view()),
{
    let mut titles: Vec<String> = Vec::new();
    let mut i: usize = 0;
    while i < entries.len()
        invariant
            i <= entries.len(),
            titles.len() == i,
            forall|k: int| 0 <= k < i ==> titles[k]@ == entries[k].title@,
        decreases entries.len() - i,
    {
        titles.push(entries[i].title.clone());
        i += 1;
    }
    assert(titles.deep_view() =~= entry_titles(entries.deep_view()));
    titles
}

/// The rows of the entries in a given order.
fn rows_in_order(entries: &Vec<RecipeEntry>, order: &Vec<usize>) -> (rows: Vec<RecipeRow>)
    requires
        forall|i: int| 0 <= i < order.len() ==> order[i] < entries.len(),
    ensures
        rows.deep_view() == arranged(
            entries.deep_view().map_values(|e: RecipeEntryView| recipe_row(e)),
            order@,
        ),
{
    let mut rows: Vec<RecipeRow> = Vec::new();
    let mut i: usize = 0;
    while i < order.len()
        invariant
            i <= order.len(),
            rows.len() == i,
            forall|k: int| 0 <= k < order.len() ==> order[k] < entries.len(),
            forall|k: int| 0 <= k < i ==> rows[k]@ == recipe_row(entries[order[k] as int]@),
        decreases order.len() - i,
    {
        rows.push(build_recipe_row(&entries[order[i]]));
        i += 1;
    }
    assert(rows.deep_view() =~= arranged(
        entries.deep_view().map_values(|e: RecipeEntryView| recipe_row(e)),
        order@,
    ));
    rows
}

/// What the recipe list shows. `found` is the engine's answer to the query
/// for `search`, or `None` where no engine is loaded.
pub fn populate_recipe_list(found: Option<Vec<RecipeEntry>>, search: &str) -> (content:
    ListContent<RecipeRow>)
    ensures
        recipe_list_shows(found.deep_view(), search@, content.deep_view()),
{
    match found {
        None => empty_state_row(NO_DATA_DIR),
        Some(entries) => {
            if entries.len() == 0 {
                empty_state_row(NO_RECIPES)
            } else if search.is_empty() {
                let titles = titles_of(&entries);
                let order = stable_order(&titles);
                let rows = rows_in_order(&entries, &order);
                ListContent::Rows(rows)
            } else {
                let order = identity_order(entries.len());
                let rows = rows_in_order(&entries, &order);
                assert(rows.deep_view() =~= entries.deep_view().map_values(
                    |e: RecipeEntryView| recipe_row(e),
                ));
                ListContent::Rows(rows)
            }
        },
    }
}

/// The event that follows from the selection of a row: the recipe of that
/// name is selected, unless the row is the one that stands for an empty list
/// or bears no name.
pub open spec fn row_selection(name: Seq<char>) -> Option<AppMsgView> {
    if name.len() > 0 && name != EMPTY_ROW_NAME@ {
        Some(AppMsgView::SelectRecipe(Some(name)))
    } else {
        None
    }
}

/// The event that follows from the selection of a row of the recipe list.
pub fn recipe_row_selected(name: &str) -> (msg: Option<AppMsg>)
    ensures
        msg.deep_view() == row_selection(name@),
{
    if !name.is_empty() && !same_text(name, EMPTY_ROW_NAME) {
        Some(AppMsg::SelectRecipe(Some(name.to_owned())))
    } else {
        None
    }
}

/// One ingredient of the recipe on show, with what the engine knows of it.
#[derive(Debug, PartialEq)]
pub struct DetailIngredient {
    pub display_name: String,
    pub quantity: Option<String>,
    pub quantity_type: Option<String>,
    pub in_pantry: bool,
}

/// Mathematical value of [`DetailIngredient`].
pub struct DetailIngredientView {
    pub display_name: Seq<char>,
    pub quantity: Option<Seq<char>>,
    pub quantity_type: Option<Seq<char>>,
    pub in_pantry: bool,
}

impl View for DetailIngredient {
    type V = DetailIngredientView;

    open spec fn view(&self) -> DetailIngredientView {
        DetailIngredientView {
            display_name: self.display_name@,
            quantity: self.quantity.deep_view(),
            quantity_type: self.quantity_type.deep_view(),
            in_pantry: self.in_pantry,
        }
    }
}

impl DeepView for DetailIngredient {
    type V = DetailIngredientView;

    open spec fn deep_view(&self) -> DetailIngredientView {
        self@
    }
}

/// The recipe on show, with what the engine knows of its ingredients.
#[derive(Debug, PartialEq)]
pub struct RecipeDetail {
    pub title: String,
    pub prep_time: Option<u32>,
    pub downtime: Option<u32>,
    pub servings: Option<u32>,
    pub tags: Option<Vec<String>>,
    pub ingredients: Vec<DetailIngredient>,
    pub all_in_stock: bool,
    pub instructions: String,
}

/// Mathematical value of [`RecipeDetail`].
pub struct RecipeDetailView {
    pub title: Seq<char>,
    pub prep_time: Option<u32>,
    pub downtime: Option<u32>,
    pub servings: Option<u32>,
    pub tags: Option<Seq<Seq<char>>>,
    pub ingredients: Seq<DetailIngredientView>,
    pub all_in_stock: bool,
    pub instructions: Seq<char>,
}

impl View for RecipeDetail {
    type V = RecipeDetailView;

    open spec fn view(&self) -> RecipeDetailView {
        RecipeDetailView {
            title: self.title@,
            prep_time: self.prep_time,
            downtime: self.downtime,
            servings: self.servings,
            tags: self.tags.deep_view(),
            ingredients: self.ingredients.deep_view(),
            all_in_stock: self.all_in_stock,
            instructions: self.instructions@,
        }
    }
}

impl DeepView for RecipeDetail {
    type V = RecipeDetailView;

    open spec fn deep_view(&self) -> RecipeDetailView {
        self@
    }
}

/// A number between two texts.
pub open spec fn counted(before: Seq<char>, n: u32, after: Seq<char>) -> Seq<char> {
    before + decimal_text(n as nat) + after
}

/// The captions below the title: the times and the servings that are known.
pub open spec fn meta_captions(
    prep_time: Option<u32>,
    downtime: Option<u32>,
    servings: Option<u32>,
) -> Seq<Seq<char>> {
    (match prep_time {
        Some(n) => seq![counted("⏱ "@, n, " min prep"@)],
        None => seq![],
    }) + (match downtime {
        Some(n) => seq![counted("🔥 "@, n, " min"@)],
        None => seq![],
    }) + (match servings {
        Some(n) => seq![counted("👤 "@, n, " servings"@)],
        None => seq![],
    })
}

/// The line of captions, where there is a caption.
pub open spec fn meta_blocks(
    prep_time: Option<u32>,
    downtime: Option<u32>,
    servings: Option<u32>,
) -> Seq<BlockView> {
    let texts = meta_captions(prep_time, downtime, servings);
    if texts.len() > 0 {
        seq![BlockView::Captions { texts }]
    } else {
        seq![]
    }
}

/// The line that lists the tags, where there is a tag.
pub open spec fn tag_blocks(tags: Option<Seq<Seq<char>>>, style: Style) -> Seq<BlockView> {
    match tags {
        Some(names) => if names.len() > 0 {
            seq![BlockView::Text { text: "Tags: "@ + joined(names, ", "@), style }]
        } else {
            seq![]
        },
        None => seq![],
    }
}

/// An ingredient with its amount: the amount and a unit that is not empty
/// come first, each followed by a blank.
pub open spec fn amount_line(
    quantity: Option<Seq<char>>,
    quantity_type: Option<Seq<char>>,
    name: Seq<char>,
) -> Seq<char> {
    match quantity {
        Some(amount) => match quantity_type {
            Some(unit) => if unit.len() > 0 {
                amount + " "@ + unit + " "@ + name
            } else {
                amount + " "@ + name
            },
            None => amount + " "@ + name,
        },
        None => name,
    }
}

/// The line of one ingredient: marked filled and green where it is in the
/// pantry, hollow and red, with a dim text, where it is not.
pub open spec fn ingredient_block(line: DetailIngredientView) -> BlockView {
    BlockView::Marked {
        filled: line.in_pantry,
        mark_style: if line.in_pantry {
            Style::Success
        } else {
            Style::Error
        },
        text: amount_line(line.quantity, line.quantity_type, line.display_name),
        style: if line.in_pantry {
            Style::Plain
        } else {
            Style::Dim
        },
    }
}

/// The section of the instructions, where there are instructions.
pub open spec fn instruction_blocks(instructions: Seq<char>) -> Seq<BlockView> {
    if instructions.len() > 0 {
        seq![
            BlockView::Separator,
            BlockView::Text { text: "Instructions"@, style: Style::Heading },
            BlockView::Passage { text: instructions },
        ]
    } else {
        seq![]
    }
}

/// The blocks of a recipe, from top to bottom.
pub open spec fn recipe_blocks(d: RecipeDetailView) -> Seq<BlockView> {
    seq![BlockView::Header { title: d.title }] + meta_blocks(d.prep_time, d.downtime, d.servings)
        + tag_blocks(d.tags, Style::DimCaption) + seq![
        BlockView::Separator,
        BlockView::Text { text: "Ingredients"@, style: Style::Heading },
    ] + (if d.all_in_stock {
        seq![
            BlockView::Text {
                text: "● All ingredients available — ready to cook!"@,
                style: Style::Success,
            },
        ]
    } else {
        seq![]
    }) + d.ingredients.map_values(|line: DetailIngredientView| ingredient_block(line))
        + instruction_blocks(d.instructions)
}

/// The page that the panel shows while no recipe is on show.
pub open spec fn recipe_placeholder() -> StatusPageView {
    StatusPageView {
        icon_name: "emblem-documents-symbolic"@,
        title: "Recipes"@,
        description: "Select a recipe to view it, or add a new one.\n● = all ingredients in pantry"@,
    }
}

/// What the detail panel shows for the engine's answer: the recipe where the
/// engine has it, the placeholder where no engine is loaded or the recipe is
/// gone.
pub open spec fn recipe_detail(found: Option<RecipeDetailView>) -> DetailView {
    match found {
        Some(d) => DetailView::Blocks(recipe_blocks(d)),
        None => DetailView::Placeholder(recipe_placeholder()),
    }
}

/// The page that the panel shows while no recipe is on show.
pub fn show_recipe_placeholder() -> (page: StatusPage)
    ensures
        page@ == recipe_placeholder(),
{
    StatusPage {
        icon_name: "emblem-documents-symbolic".to_owned(),
        title: "Recipes".to_owned(),
        description: "Select a recipe to view it, or add a new one.\n● = all ingredients in pantry".to_owned(),
    }
}

/// A number between two texts.
pub fn counted_text(before: &str, n: u32, after: &str) -> (text: String)
    ensures
        text@ == counted(before@, n, after@),
{
    prefixed(before, to_decimal(n).as_str()).concat(after)
}

/// The line of captions, where there is a caption.
fn build_meta(prep_time: Option<u32>, downtime: Option<u32>, servings: Option<u32>) -> (blocks:
    Vec<Block>)
    ensures
        blocks.deep_view() == meta_blocks(prep_time, downtime, servings),
{
    let mut texts: Vec<String> = Vec::new();
    assert(texts.deep_view() =~= Seq::<Seq<char>>::empty());
    if let Some(n) = prep_time {
        let ghost before = texts.deep_view();
        texts.push(counted_text("⏱ ", n, " min prep"));
        assert(texts.deep_view() =~= before + seq![counted("⏱ "@, n, " min prep"@)]);
    }
    if let Some(n) = downtime {
        let ghost before = texts.deep_view();
        texts.push(counted_text("🔥 ", n, " min"));
        assert(texts.deep_view() =~= before + seq![counted("🔥 "@, n, " min"@)]);
    }
    if let Some(n) = servings {
        let ghost before = texts.deep_view();
        texts.push(counted_text("👤 ", n, " servings"));
        assert(texts.deep_view() =~= before + seq![counted("👤 "@, n, " servings"@)]);
    }
    assert(texts.deep_view() =~= meta_captions(prep_time, downtime, servings));
    let mut blocks = no_blocks();
    if texts.len() > 0 {
        push_block(&mut blocks, Block::Captions { texts });
    }
    assert(blocks.deep_view() =~= meta_blocks(prep_time, downtime, servings));
    blocks
}

/// The line that lists the tags, where there is a tag.
pub fn build_tags(tags: &Option<Vec<String>>, style: Style) -> (blocks: Vec<Block>)
    ensures
        blocks.deep_view() == tag_blocks(tags.deep_view(), style),
{
    let mut blocks = no_blocks();
    if let Some(names) = tags {
        if names.len() > 0 {
            let text = prefixed("Tags: ", join(names, ", ").as_str());
            push_block(&mut blocks, Block::Text { text, style });
        }
    }
    assert(blocks.deep_view() =~= tag_blocks(tags.deep_view(), style));
    blocks
}

/// An ingredient with its amount.
pub fn amount_line_text(quantity: &Option<String>, quantity_type: &Option<String>, name: &str) -> (text:
    String)
    ensures
        text@ == amount_line(quantity.deep_view(), quantity_type.deep_view(), name@),
{
    match quantity {
        Some(amount) => {
            let with_blank = amount.clone().concat(" ");
            match quantity_type {
                Some(unit) => {
                    if !unit.as_str().is_empty() {
                        with_blank.concat(unit.as_str()).concat(" ").concat(name)
                    } else {
                        with_blank.concat(name)
                    }
                },
                None => with_blank.concat(name),
            }
        },
        None => name.to_owned(),
    }
}

/// The line of one ingredient.
fn build_ingredient_line(line: &DetailIngredient) -> (block: Block)
    ensures
        block@ == ingredient_block(line@),
{
    Block::Marked {
        filled: line.in_pantry,
        mark_style: if line.in_pantry {
            Style::Success
        } else {
            Style::Error
        },
        text: amount_line_text(&line.quantity, &line.quantity_type, line.display_name.as_str()),
        style: if line.in_pantry {
            Style::Plain
        } else {
            Style::Dim
        },
    }
}

/// The lines of the ingredients.
fn build_ingredient_lines(lines: &Vec<DetailIngredient>) -> (blocks: Vec<Block>)
    ensures
        blocks.deep_view() == lines.deep_view().map_values(
            |line: DetailIngredientView| ingredient_block(line),
        ),
{
    let mut blocks: Vec<Block> = Vec::new();
    let mut i: usize = 0;
    while i < lines.len()
        invariant
            i <= lines.len(),
            blocks.len() == i,
            forall|k: int| 0 <= k < i ==> blocks[k]@ == ingredient_block(lines[k]@),
        decreases lines.len() - i,
    {
        blocks.push(build_ingredient_line(&lines[i]));
        i += 1;
    }
    assert(blocks.deep_view() =~= lines.deep_view().map_values(
        |line: DetailIngredientView| ingredient_block(line),
    ));
    blocks
}

/// The section of the instructions, where there are instructions.
fn build_instructions(instructions: &String) -> (blocks: Vec<Block>)
    ensures
        blocks.deep_view() == instruction_blocks(instructions@),
{
    let mut blocks = no_blocks();
    if !instructions.as_str().is_empty() {
        push_block(&mut blocks, Block::Separator);
        push_block(
            &mut blocks,
            Block::Text { text: "Instructions".to_owned(), style: Style::Heading },
        );
        push_block(&mut blocks, Block::Passage { text: instructions.clone() });
    }
    assert(blocks.deep_view() =~= instruction_blocks(instructions@));
    blocks
}

/// The blocks of a recipe, from top to bottom.
fn build_recipe_blocks(d: &RecipeDetail) -> (blocks: Vec<Block>)
    ensures
        blocks.deep_view() == recipe_blocks(d@),
{
    let mut blocks = no_blocks();
    push_block(&mut blocks, Block::Header { title: d.title.clone() });
    push_blocks(&mut blocks, build_meta(d.prep_time, d.downtime, d.servings));
    push_blocks(&mut blocks, build_tags(&d.tags, Style::DimCaption));
    push_block(&mut blocks, Block::Separator);
    push_block(&mut blocks, Block::Text { text: "Ingredients".to_owned(), style: Style::Heading });
    if d.all_in_stock {
        push_block(
            &mut blocks,
            Block::Text {
                text: "● All ingredients available — ready to cook!".to_owned(),
                style: Style::Success,
            },
        );
    }
    push_blocks(&mut blocks, build_ingredient_lines(&d.ingredients));
    push_blocks(&mut blocks, build_instructions(&d.instructions));
    assert(blocks.deep_view() =~= recipe_blocks(d@));
    blocks
}

/// What the detail panel shows for the selected recipe. `found` is what the
/// engine gave for the selected title.
pub fn update_recipe_detail(found: Lookup<RecipeDetail>) -> (detail: Detail)
    ensures
        detail@ == recipe_detail(found.record()),
{
    match found {
        Lookup::Found(d) => Detail::Blocks(build_recipe_blocks(&d)),
        _ => Detail::Placeholder(show_recipe_placeholder()),
    }
}

/// The recipes page as it is built: the search field, the list, the button
/// that adds a recipe, and the detail panel with its placeholder.
#[derive(Debug, PartialEq)]
pub struct RecipesTab {
    pub search_hint: String,
    pub add_label: String,
    pub list: ListContent<RecipeRow>,
    pub detail: StatusPage,
}

/// The recipes page as it is built. Nothing is searched for and nothing is
/// selected yet; `found` holds every recipe of the engine, or is `None`
/// where no engine is loaded.
pub fn build_recipes_tab(found: Option<Vec<RecipeEntry>>) -> (tab: RecipesTab)
    ensures
        tab.search_hint@ == "Search recipes…"@,
        tab.add_label@ == "Add Recipe"@,
        recipe_list_shows(found.deep_view(), Seq::empty(), tab.list.deep_view()),
        tab.detail@ == recipe_placeholder(),
{
    proof {
        reveal_strlit("");
        assert(""@ =~= Seq::<char>::empty());
    }
    RecipesTab {
        search_hint: "Search recipes…".to_owned(),
        add_label: "Add Recipe".to_owned(),
        list: populate_recipe_list(found, ""),
        detail: show_recipe_placeholder(),
    }
}

/// The question that is asked before a recipe is deleted.
pub fn show_delete_recipe_confirm(title: &str) -> (dialog: ConfirmDialog)
    ensures
        dialog@ == (ConfirmDialogView {
            heading: delete_heading(title@),
            body: "This recipe will be permanently removed. This cannot be undone."@,
        }),
{
    ConfirmDialog {
        heading: delete_heading_text(title),
        body: "This recipe will be permanently removed. This cannot be undone.".to_owned(),
    }
}

/// The event that follows from the answer to that question: the recipe is
/// deleted where the answer is "delete", and nothing happens on any other.
pub fn delete_recipe_response(response: &str, title: &str) -> (msg: Option<AppMsg>)
    ensures
        msg.deep_view() == if response@ == "delete"@ {
            Some(AppMsgView::DeleteRecipe(title@))
        } else {
            None
        },
{
    if same_text(response, "delete") {
        Some(AppMsg::DeleteRecipe(title.to_owned()))
    } else {
        None
    }
}

} // verus!
