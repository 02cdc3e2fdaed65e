//! The pantry page: the list of ingredients with the marks of what is in
//! stock, and the detail of the selected ingredient.

use vstd::prelude::*;
use vstd::string::StringExecFns;
use crate::blocks::{
    Block, BlockView, ConfirmDialog, ConfirmDialogView, Detail, DetailView, ListContent,
    ListContentView, Lookup, StatusPage, StatusPageView, Style, EMPTY_ROW_NAME, NO_DATA_DIR,
    delete_heading, delete_heading_text, empty_state_row, no_blocks, push_block, push_blocks,
};
use crate::messages::{AppMsg, AppMsgView};
use crate::order::{arranged, is_stable_order, stable_order};
use crate::recipes::{RecipeEntry, RecipeEntryView, build_tags, tag_blocks};
use crate::records::{PantryItem, PantryItemView};
use crate::text::{prefixed, same_text};

verus! {

/// Text of the list row that stands for a filter without result.
pub const NO_INGREDIENTS: &'static str = "No ingredients found";

/// Language in which the engine matches the names of ingredients.
pub const LIST_LANGUAGE: &'static str = "en";

/// What the engine knows of one ingredient of the list.
#[derive(Debug, PartialEq)]
pub struct IngredientEntry {
    pub name: String,
    pub category: String,
    pub in_pantry: bool,
}

/// Mathematical value of [`IngredientEntry`].
pub struct IngredientEntryView {
    pub name: Seq<char>,
    pub category: Seq<char>,
    pub in_pantry: bool,
}

impl View for IngredientEntry {
    type V = IngredientEntryView;

    open spec fn view(&self) -> IngredientEntryView {
        IngredientEntryView {
            name: self.name@,
            category: self.category@,
            in_pantry: self.in_pantry,
        }
    }
}

impl DeepView for IngredientEntry {
    type V = IngredientEntryView;

    open spec fn deep_view(&self) -> IngredientEntryView {
        self@
    }
}

/// One row of the pantry list. `name` is what the row is found by.
#[derive(Debug, PartialEq)]
pub struct IngredientRow {
    pub name: String,
    pub filled: bool,
    pub mark_style: Style,
    pub label: String,
    pub category: String,
    pub category_style: Style,
}

/// Mathematical value of [`IngredientRow`].
pub struct IngredientRowView {
    pub name: Seq<char>,
    pub filled: bool,
    pub mark_style: Style,
    pub label: Seq<char>,
    pub category: Seq<char>,
    pub category_style: Style,
}

impl View for IngredientRow {
    type V = IngredientRowView;

    open spec fn view(&self) -> IngredientRowView {
        IngredientRowView {
            name: self.name@,
            filled: self.filled,
            mark_style: self.mark_style,
            label: self.label@,
            category: self.category@,
            category_style: self.category_style,
        }
    }
}

impl DeepView for IngredientRow {
    type V = IngredientRowView;

    open spec fn deep_view(&self) -> IngredientRowView {
        self@
    }
}

/// The row of an ingredient: a filled green mark where it is in the pantry,
/// a hollow dim one where it is not, its name and its category.
pub open spec fn ingredient_row(entry: IngredientEntryView) -> IngredientRowView {
    IngredientRowView {
        name: entry.name,
        filled: entry.in_pantry,
        mark_style: if entry.in_pantry {
            Style::Success
        } else {
            Style::Dim
        },
        label: entry.name,
        category: entry.category,
        category_style: Style::DimCaption,
    }
}

/// The names of the entries, in their order.
pub open spec fn entry_names(entries: Seq<IngredientEntryView>) -> Seq<Seq<char>> {
    entries.map_values(|e: IngredientEntryView| e.name)
}

/// Whether a list content is what the pantry list shows for the engine's
/// answer: one row that names the reason where there is no engine or no
/// ingredient; else a row for each ingredient, by ascending name.
pub open spec fn pantry_list_shows(
    found: Option<Seq<IngredientEntryView>>,
    content: ListContentView<IngredientRowView>,
) -> bool {
    match found {
        None => content == (ListContentView::<IngredientRowView>::Empty {
            name: EMPTY_ROW_NAME@,
            text: NO_DATA_DIR@,
        }),
        Some(entries) => if entries.len() == 0 {
            content == (ListContentView::<IngredientRowView>::Empty {
                name: EMPTY_ROW_NAME@,
                text: NO_INGREDIENTS@,
            })
        } else {
            exists|order: Seq<usize>|
                is_stable_order(entry_names(entries), order) && content == ListContentView::Rows(
                    arranged(entries.map_values(|e: IngredientEntryView| ingredient_row(e)), order),
                )
        },
    }
}

/// The row of an ingredient.
pub fn build_ingredient_row(entry: &IngredientEntry) -> (row: IngredientRow)
    ensures
        row@ == ingredient_row(entry@),
{
    IngredientRow {
        name: entry.name.clone(),
        filled: entry.in_pantry,
        mark_style: if entry.in_pantry {
            Style::Success
        } else {
            Style::Dim
        },
        label: entry.name.clone(),
        category: entry.category.clone(),
        category_style: Style::DimCaption,
    }
}

/// The names of the entries.
fn names_of(entries: &Vec<IngredientEntry>) -> (names: Vec<String>)
    ensures
        names.deep_view() == entry_names(entries.deep_view()),
{
    let mut names: Vec<String> = Vec::new();
    let mut i: usize = 0;
    while i < entries.len()
        invariant
            i <= entries.len(),
            names.len() == i,
            forall|k: int| 0 <= k < i ==> names[k]@ == entries[k].name@,
        decreases entries.len() - i,
    {
        names.push(entries[i].name.clone());
        i += 1;
    }
    assert(names.deep_view() =~= entry_names(entries.deep_view()));
    names
}

/// The rows of the entries in a given order.
fn rows_in_order(entries: &Vec<IngredientEntry>, order: &Vec<usize>) -> (rows: Vec<IngredientRow>)
    requires
        forall|i: int| 0 <= i < order.len() ==> order[i] < entries.len(),
    ensures
        rows.deep_view() == arranged(
            entries.deep_view().map_values(|e: IngredientEntryView| ingredient_row(e)),
            order@,
        ),
{
    let mut rows: Vec<IngredientRow> = Vec::new();
    let mut i: usize = 0;
    while i < order.len()
        invariant
            i <= order.len(),
            rows.len() == i,
            forall|k: int| 0 <= k < order.len() ==> order[k] < entries.len(),
            forall|k: int| 0 <= k < i ==> rows[k]@ == ingredient_row(entries[order[k] as int]@),
        decreases order.len() - i,
    {
        rows.push(build_ingredient_row(&entries[order[i]]));
        i += 1;
    }
    assert(rows.deep_view() =~= arranged(
        entries.deep_view().map_values(|e: IngredientEntryView| ingredient_row(e)),
        order@,
    ));
    rows
}

/// What the pantry list shows. `found` is the engine's answer to the search
/// text and the filters of the state, or `None` where no engine is loaded.
pub fn populate_pantry_list(found: Option<Vec<IngredientEntry>>) -> (content: ListContent<
    IngredientRow,
>)
    ensures
        pantry_list_shows(found.deep_view(), content.deep_view()),
{
    match found {
        None => empty_state_row(NO_DATA_DIR),
        Some(entries) => {
            if entries.len() == 0 {
                empty_state_row(NO_INGREDIENTS)
            } else {
                let names = names_of(&entries);
                let order = stable_order(&names);
                let rows = rows_in_order(&entries, &order);
                ListContent::Rows(rows)
            }
        },
    }
}

/// The event that follows from the selection of a row: the ingredient of
/// that name is selected, unless the row is the one that stands for an empty
/// list or bears no name.
pub open spec fn row_selection(name: Seq<char>) -> Option<AppMsgView> {
    if name.len() > 0 && name != EMPTY_ROW_NAME@ {
        Some(AppMsgView::SelectIngredient(Some(name)))
    } else {
        None
    }
}

/// The event that follows from the selection of a row of the pantry list.
pub fn ingredient_row_selected(name: &str) -> (msg: Option<AppMsg>)
    ensures
        msg.deep_view() == row_selection(name@),
{
    if !name.is_empty() && !same_text(name, EMPTY_ROW_NAME) {
        Some(AppMsg::SelectIngredient(Some(name.to_owned())))
    } else {
        None
    }
}

/// The ingredient on show, with what the engine knows around it: its pantry
/// entry, the recipes that use it, and the title of the article that it
/// refers to where the knowledge base has that article.
#[derive(Debug, PartialEq)]
pub struct IngredientDetail {
    pub name: String,
    pub category: String,
    pub tags: Option<Vec<String>>,
    pub pantry: Option<PantryItem>,
    pub used_in: Vec<RecipeEntry>,
    pub kb_title: Option<String>,
}

/// Mathematical value of [`IngredientDetail`].
pub struct IngredientDetailView {
    pub name: Seq<char>,
    pub category: Seq<char>,
    pub tags: Option<Seq<Seq<char>>>,
    pub pantry: Option<PantryItemView>,
    pub used_in: Seq<RecipeEntryView>,
    pub kb_title: Option<Seq<char>>,
}

impl View for IngredientDetail {
    type V = IngredientDetailView;

    open spec fn view(&self) -> IngredientDetailView {
        IngredientDetailView {
            name: self.name@,
            category: self.category@,
            tags: self.tags.deep_view(),
            pantry: self.pantry.deep_view(),
            used_in: self.used_in.deep_view(),
            kb_title: self.kb_title.deep_view(),
        }
    }
}

impl DeepView for IngredientDetail {
    type V = IngredientDetailView;

    open spec fn deep_view(&self) -> IngredientDetailView {
        self@
    }
}

/// The line that tells the amount in stock: with the unit unless it is
/// empty.
pub open spec fn quantity_line(amount: Seq<char>, unit: Seq<char>) -> Seq<char> {
    if unit.len() == 0 {
        "Quantity: "@ + amount
    } else {
        "Quantity: "@ + amount + " "@ + unit
    }
}

/// The section of the pantry: in stock, with the amount where one is known
/// and the day of the last change, or not in stock.
pub open spec fn stock_blocks(pantry: Option<PantryItemView>) -> Seq<BlockView> {
    match pantry {
        Some(item) => seq![BlockView::Text { text: "✓ In stock"@, style: Style::Success }] + (
        match item.quantity {
            Some(amount) => seq![
                BlockView::Text {
                    text: quantity_line(amount, item.quantity_type),
                    style: Style::Plain,
                },
            ],
            None => seq![],
        }) + seq![
            BlockView::Text {
                text: "Last updated: "@ + item.last_updated,
                style: Style::DimCaption,
            },
        ],
        None => seq![BlockView::Text { text: "✗ Not in stock"@, style: Style::Error }],
    }
}

/// The line of a recipe that uses the ingredient: marked filled and green
/// where the recipe can be cooked from the pantry, hollow and dim where not.
pub open spec fn usage_block(recipe: RecipeEntryView) -> BlockView {
    BlockView::Marked {
        filled: recipe.all_in_stock,
        mark_style: if recipe.all_in_stock {
            Style::Success
        } else {
            Style::Dim
        },
        text: recipe.title,
        style: Style::Plain,
    }
}

/// The section of the recipes that use the ingredient, where one does.
pub open spec fn usage_blocks(used_in: Seq<RecipeEntryView>) -> Seq<BlockView> {
    if used_in.len() > 0 {
        seq![
            BlockView::Separator,
            BlockView::Text { text: "Used in recipes"@, style: Style::Heading },
        ] + used_in.map_values(|recipe: RecipeEntryView| usage_block(recipe))
    } else {
        seq![]
    }
}

/// The line of the article that the ingredient refers to, where there is
/// one.
pub open spec fn article_blocks(kb_title: Option<Seq<char>>) -> Seq<BlockView> {
    match kb_title {
        Some(title) => seq![
            BlockView::Separator,
            BlockView::Text { text: "📖 "@ + title, style: Style::Caption },
        ],
        None => seq![],
    }
}

/// The blocks of an ingredient, from top to bottom.
pub open spec fn ingredient_blocks(d: IngredientDetailView) -> Seq<BlockView> {
    seq![
        BlockView::Text { text: d.name, style: Style::Title },
        BlockView::Text { text: "Category: "@ + d.category, style: Style::DimCaption },
    ] + tag_blocks(d.tags, Style::Caption) + seq![
        BlockView::Separator,
        BlockView::Text { text: "Pantry"@, style: Style::Heading },
    ] + stock_blocks(d.pantry) + usage_blocks(d.used_in) + article_blocks(d.kb_title) + seq![
        BlockView::Separator,
        BlockView::Actions,
    ]
}

/// The page that the panel shows while no ingredient is on show.
pub open spec fn ingredient_placeholder() -> StatusPageView {
    StatusPageView {
        icon_name: "view-list-symbolic"@,
        title: "Pantry"@,
        description: "Select an ingredient to view details, or add a new one."@,
    }
}

/// What the detail panel shows for the engine's answer: the ingredient where
/// the engine has it, the placeholder where no engine is loaded or the
/// ingredient is gone.
pub open spec fn ingredient_detail(found: Option<IngredientDetailView>) -> DetailView {
    match found {
        Some(d) => DetailView::Blocks(ingredient_blocks(d)),
        None => DetailView::Placeholder(ingredient_placeholder()),
    }
}

/// The page that the panel shows while no ingredient is on show.
pub fn show_ingredient_placeholder() -> (page: StatusPage)
    ensures
        page@ == ingredient_placeholder(),
{
    StatusPage {
        icon_name: "view-list-symbolic".to_owned(),
        title: "Pantry".to_owned(),
        description: "Select an ingredient to view details, or add a new one.".to_owned(),
    }
}

/// The section of the pantry.
fn build_stock(pantry: &Option<PantryItem>) -> (blocks: Vec<Block>)
    ensures
        blocks.deep_view() == stock_blocks(pantry.deep_view()),
{
    let mut blocks = no_blocks();
    match pantry {
        Some(item) => {
            push_block(
                &mut blocks,
                Block::Text { text: "✓ In stock".to_owned(), style: Style::Success },
            );
            if let Some(amount) = &item.quantity {
                let text = if item.quantity_type.as_str().is_empty() {
                    prefixed("Quantity: ", amount.as_str())
                } else {
                    prefixed("Quantity: ", amount.as_str()).concat(" ").concat(
                        item.quantity_type.as_str(),
                    )
                };
                push_block(&mut blocks, Block::Text { text, style: Style::Plain });
            }
            push_block(
                &mut blocks,
                Block::Text {
                    text: prefixed("Last updated: ", item.last_updated.as_str()),
                    style: Style::DimCaption,
                },
            );
        },
        None => {
            push_block(
                &mut blocks,
                Block::Text { text: "✗ Not in stock".to_owned(), style: Style::Error },
            );
        },
    }
    assert(blocks.deep_view() =~= stock_blocks(pantry.deep_view()));
    blocks
}

/// The section of the recipes that use the ingredient.
fn build_usage(used_in: &Vec<RecipeEntry>) -> (blocks: Vec<Block>)
    ensures
        blocks.deep_view() == usage_blocks(used_in.deep_view()),
{
    let mut blocks = no_blocks();
    if used_in.len() > 0 {
        push_block(&mut blocks, Block::Separator);
        push_block(
            &mut blocks,
            Block::Text { text: "Used in recipes".to_owned(), style: Style::Heading },
        );
        let ghost head = blocks.deep_view();
        let mut i: usize = 0;
        while i < used_in.len()
            invariant
                i <= used_in.len(),
                blocks.deep_view() == head + used_in.deep_view().take(i as int).map_values(
                    |recipe: RecipeEntryView| usage_block(recipe),
                ),
            decreases used_in.len() - i,
        {
            let recipe = &used_in[i];
            let ghost before = blocks.deep_view();
            push_block(
                &mut blocks,
                Block::Marked {
                    filled: recipe.all_in_stock,
                    mark_style: if recipe.all_in_stock {
                        Style::Success
                    } else {
                        Style::Dim
                    },
                    text: recipe.title.clone(),
                    style: Style::Plain,
                },
            );
            assert(blocks.deep_view() =~= head + used_in.deep_view().take(i + 1).map_values(
                |recipe: RecipeEntryView| usage_block(recipe),
            ));
            i += 1;
        }
        assert(used_in.deep_view().take(used_in.len() as int) =~= used_in.deep_view());
    }
    assert(blocks.deep_view() =~= usage_blocks(used_in.deep_view()));
    blocks
}

/// The line of the article that the ingredient refers to.
fn build_article(kb_title: &Option<String>) -> (blocks: Vec<Block>)
    ensures
        blocks.deep_view() == article_blocks(kb_title.deep_view()),
{
    let mut blocks = no_blocks();
    if let Some(title) = kb_title {
        push_block(&mut blocks, Block::Separator);
        push_block(
            &mut blocks,
            Block::Text { text: prefixed("📖 ", title.as_str()), style: Style::Caption },
        );
    }
    assert(blocks.deep_view() =~= article_blocks(kb_title.deep_view()));
    blocks
}

/// The blocks of an ingredient, from top to bottom.
fn build_ingredient_blocks(d: &IngredientDetail) -> (blocks: Vec<Block>)
    ensures
        blocks.deep_view() == ingredient_blocks(d@),
{
    let mut blocks = no_blocks();
    push_block(&mut blocks, Block::Text { text: d.name.clone(), style: Style::Title });
    push_block(
        &mut blocks,
        Block::Text {
            text: prefixed("Category: ", d.category.as_str()),
            style: Style::DimCaption,
        },
    );
    push_blocks(&mut blocks, build_tags(&d.tags, Style::Caption));
    push_block(&mut blocks, Block::Separator);
    push_block(&mut blocks, Block::Text { text: "Pantry".to_owned(), style: Style::Heading });
    push_blocks(&mut blocks, build_stock(&d.pantry));
    push_blocks(&mut blocks, build_usage(&d.used_in));
    push_blocks(&mut blocks, build_article(&d.kb_title));
    push_block(&mut blocks, Block::Separator);
    push_block(&mut blocks, Block::Actions);
    assert(blocks.deep_view() =~= ingredient_blocks(d@));
    blocks
}

/// What the detail panel shows for the selected ingredient. `found` is what
/// the engine gave for the selected name.
pub fn update_ingredient_detail(found: Lookup<IngredientDetail>) -> (detail: Detail)
    ensures
        detail@ == ingredient_detail(found.record()),
{
    match found {
        Lookup::Found(d) => Detail::Blocks(build_ingredient_blocks(&d)),
        _ => Detail::Placeholder(show_ingredient_placeholder()),
    }
}

/// The pantry page as it is built: the search field, the switch that keeps
/// only what is in stock, the list, the button that adds an ingredient, and
/// the detail panel with its placeholder.
#[derive(Debug, PartialEq)]
pub struct PantryTab {
    pub search_hint: String,
    pub filter_label: String,
    pub in_stock_only: bool,
    pub add_label: String,
    pub list: ListContent<IngredientRow>,
    pub detail: StatusPage,
}

/// The pantry page as it is built. Nothing is searched for and nothing is
/// selected yet; `found` is the engine's answer to the filters, or `None`
/// where no engine is loaded.
pub fn build_pantry_tab(found: Option<Vec<IngredientEntry>>, in_stock_only: bool) -> (tab:
    PantryTab)
    ensures
        tab.search_hint@ == "Search ingredients…"@,
        tab.filter_label@ == "In stock only"@,
        tab.in_stock_only == in_stock_only,
        tab.add_label@ == "Add Ingredient"@,
        pantry_list_shows(found.deep_view(), tab.list.deep_view()),
        tab.detail@ == ingredient_placeholder(),
{
    PantryTab {
        search_hint: "Search ingredients…".to_owned(),
        filter_label: "In stock only".to_owned(),
        in_stock_only,
        add_label: "Add Ingredient".to_owned(),
        list: populate_pantry_list(found),
        detail: show_ingredient_placeholder(),
    }
}

/// The question that is asked before an ingredient is deleted.
pub fn show_delete_ingredient_confirm(name: &str) -> (dialog: ConfirmDialog)
    ensures
        dialog@ == (ConfirmDialogView {
            heading: delete_heading(name@),
            body: "This will remove the ingredient and its pantry entry. This cannot be undone."@,
        }),
{
    ConfirmDialog {
        heading: delete_heading_text(name),
        body: "This will remove the ingredient and its pantry entry. This cannot be undone.".to_owned(),
    }
}

/// The event that follows from the answer to that question: the ingredient
/// is deleted where the answer is "delete", and nothing happens on any
/// other.
pub fn delete_ingredient_response(response: &str, name: &str) -> (msg: Option<AppMsg>)
    ensures
        msg.deep_view() == if response@ == "delete"@ {
            Some(AppMsgView::DeleteIngredient(name@))
        } else {
            None
        },
{
    if same_text(response, "delete") {
        Some(AppMsg::DeleteIngredient(name.to_owned()))
    } else {
        None
    }
}

} // verus!
