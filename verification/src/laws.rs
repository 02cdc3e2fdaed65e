//! What holds of every state and every event, proved from the transition
//! function and the reconciler, and what holds of every list.

use vstd::prelude::*;
use crate::app::{AppView, resumed, step};
use crate::blocks::{DetailView, ListContentView, EMPTY_ROW_NAME, NO_DATA_DIR};
use crate::kb::{
    KbRowView, article_titles, kb_detail, kb_list_shows, kb_placeholder, listed, no_articles_row,
};
use crate::messages::{AppMsgView, EffectView, Tab};
use crate::order::{
    arranged, is_stable_order, order_holds_every_position, stable_order_is_unique,
};
use crate::pantry::{
    IngredientEntryView, IngredientRowView, entry_names, ingredient_detail,
    ingredient_placeholder, ingredient_row, pantry_list_shows,
};
use crate::recipes::{
    RecipeEntryView, RecipeRowView, entry_titles, recipe_detail, recipe_list_shows,
    recipe_placeholder, recipe_row,
};
use crate::reconcile::{
    KbListRenderView, PantryListRenderView, RecipeListRenderView, detail_render, rendering,
    settled,
};
use crate::records::{IngredientView, KbEntryView, RecipeView};
use crate::text::lex_le;

verus! {

/// The state after an event has been handled to its end, where the engine
/// answers the first call of the handler with `first` and the second, if
/// there is one, with `second`. No handler makes a third call.
pub open spec fn handled<E, L>(
    s: AppView<E, L>,
    m: AppMsgView,
    first: Result<(), Seq<char>>,
    second: Result<(), Seq<char>>,
) -> AppView<E, L> {
    let (s1, e1) = step(s, m);
    match e1 {
        EffectView::Call { call, then } => {
            let (s2, e2) = resumed(s1, then, first);
            match e2 {
                EffectView::Call { call: next, then: after } => resumed(s2, after, second).0,
                _ => s2,
            }
        },
        _ => s1,
    }
}

/// Whether the event saves or deletes a recipe or an ingredient.
pub open spec fn changes_records(m: AppMsgView) -> bool {
    m is DeleteRecipe || m is SaveRecipe || m is DeleteIngredient || m is SaveIngredient
}

/// The state after the recipe search texts have been entered one after the
/// other, with a reconciliation before each but the first one where
/// `reconcile_between` says so.
pub open spec fn after_recipe_searches<E, L>(
    s: AppView<E, L>,
    texts: Seq<Seq<char>>,
    reconcile_between: bool,
) -> AppView<E, L>
    decreases texts.len(),
{
    if texts.len() == 0 {
        s
    } else {
        let before = after_recipe_searches(s, texts.drop_last(), reconcile_between);
        let ready = if reconcile_between && texts.len() > 1 {
            settled(before)
        } else {
            before
        };
        step(ready, AppMsgView::SearchRecipes(texts.last())).0
    }
}

/// The same for the search texts of the pantry.
pub open spec fn after_ingredient_searches<E, L>(
    s: AppView<E, L>,
    texts: Seq<Seq<char>>,
    reconcile_between: bool,
) -> AppView<E, L>
    decreases texts.len(),
{
    if texts.len() == 0 {
        s
    } else {
        let before = after_ingredient_searches(s, texts.drop_last(), reconcile_between);
        let ready = if reconcile_between && texts.len() > 1 {
            settled(before)
        } else {
            before
        };
        step(ready, AppMsgView::SearchIngredients(texts.last())).0
    }
}

/// The same for the search texts of the knowledge base.
pub open spec fn after_kb_searches<E, L>(
    s: AppView<E, L>,
    texts: Seq<Seq<char>>,
    reconcile_between: bool,
) -> AppView<E, L>
    decreases texts.len(),
{
    if texts.len() == 0 {
        s
    } else {
        let before = after_kb_searches(s, texts.drop_last(), reconcile_between);
        let ready = if reconcile_between && texts.len() > 1 {
            settled(before)
        } else {
            before
        };
        step(ready, AppMsgView::SearchKb(texts.last())).0
    }
}

/// A run of recipe searches touches nothing but the search text and the flag
/// of the recipe list, and, where reconciliations lie between, what a
/// reconciliation clears.
proof fn recipe_searches_keep_the_rest<E, L>(
    s: AppView<E, L>,
    texts: Seq<Seq<char>>,
    reconcile_between: bool,
)
    ensures
        after_recipe_searches(s, texts, reconcile_between).selected_recipe == s.selected_recipe,
        after_recipe_searches(s, texts, reconcile_between).tab == s.tab,
    decreases texts.len(),
{
    if texts.len() > 0 {
        recipe_searches_keep_the_rest(s, texts.drop_last(), reconcile_between);
    }
}

/// A run of pantry searches keeps the selection and the filters.
proof fn ingredient_searches_keep_the_rest<E, L>(
    s: AppView<E, L>,
    texts: Seq<Seq<char>>,
    reconcile_between: bool,
)
    ensures
        after_ingredient_searches(s, texts, reconcile_between).selected_ingredient
            == s.selected_ingredient,
        after_ingredient_searches(s, texts, reconcile_between).category_filter
            == s.category_filter,
        after_ingredient_searches(s, texts, reconcile_between).in_stock_only == s.in_stock_only,
    decreases texts.len(),
{
    if texts.len() > 0 {
        ingredient_searches_keep_the_rest(s, texts.drop_last(), reconcile_between);
    }
}

/// After any run of recipe searches the recipe list is stale, the next
/// reconciliation rebuilds it from the text entered last and the unchanged
/// selection, and clears the flag.
pub proof fn search_recipes_marks_list_until_reconciled<E, L>(
    s: AppView<E, L>,
    texts: Seq<Seq<char>>,
    reconcile_between: bool,
)
    requires
        texts.len() > 0,
    ensures
        ({
            let after = after_recipe_searches(s, texts, reconcile_between);
            &&& after.recipes_dirty
            &&& after.recipe_search == texts.last()
            &&& rendering(after).recipe_list == Some(
                RecipeListRenderView { search: texts.last(), reselect: s.selected_recipe },
            )
            &&& !settled(after).recipes_dirty
            &&& rendering(settled(after)).recipe_list is None
        }),
{
    recipe_searches_keep_the_rest(s, texts, reconcile_between);
}

/// After any run of pantry searches the pantry list is stale, the next
/// reconciliation rebuilds it from the text entered last and the unchanged
/// filters and selection, and clears the flag.
pub proof fn search_ingredients_marks_list_until_reconciled<E, L>(
    s: AppView<E, L>,
    texts: Seq<Seq<char>>,
    reconcile_between: bool,
)
    requires
        texts.len() > 0,
    ensures
        ({
            let after = after_ingredient_searches(s, texts, reconcile_between);
            &&& after.pantry_dirty
            &&& after.ingredient_search == texts.last()
            &&& rendering(after).pantry_list == Some(
                PantryListRenderView {
                    search: texts.last(),
                    categories: s.category_filter,
                    in_stock_only: s.in_stock_only,
                    reselect: s.selected_ingredient,
                },
            )
            &&& !settled(after).pantry_dirty
            &&& rendering(settled(after)).pantry_list is None
        }),
{
    ingredient_searches_keep_the_rest(s, texts, reconcile_between);
}

/// A run of article searches keeps the selection.
proof fn kb_searches_keep_the_rest<E, L>(
    s: AppView<E, L>,
    texts: Seq<Seq<char>>,
    reconcile_between: bool,
)
    ensures
        after_kb_searches(s, texts, reconcile_between).selected_kb == s.selected_kb,
    decreases texts.len(),
{
    if texts.len() > 0 {
        kb_searches_keep_the_rest(s, texts.drop_last(), reconcile_between);
    }
}

/// After any run of article searches the list of articles is stale, the next
/// reconciliation rebuilds it from the text entered last and the unchanged
/// selection, and clears the flag.
pub proof fn search_kb_marks_list_until_reconciled<E, L>(
    s: AppView<E, L>,
    texts: Seq<Seq<char>>,
    reconcile_between: bool,
)
    requires
        texts.len() > 0,
    ensures
        ({
            let after = after_kb_searches(s, texts, reconcile_between);
            &&& after.kb_dirty
            &&& after.kb_search == texts.last()
            &&& rendering(after).kb_list == Some(
                KbListRenderView { search: texts.last(), reselect: s.selected_kb },
            )
            &&& !settled(after).kb_dirty
            &&& rendering(settled(after)).kb_list is None
        }),
{
    kb_searches_keep_the_rest(s, texts, reconcile_between);
}

/// A recipe that is deleted while it is selected leaves nothing selected.
/// Deleting any other recipe keeps the selection, and so does a deletion that
/// fails or finds no engine.
pub proof fn delete_recipe_selection<E, L>(
    s: AppView<E, L>,
    title: Seq<char>,
    first: Result<(), Seq<char>>,
    second: Result<(), Seq<char>>,
)
    ensures
        ({
            let after = handled(s, AppMsgView::DeleteRecipe(title), first, second);
            &&& s.dm is Some && first is Ok && s.selected_recipe == Some(title)
                ==> after.selected_recipe is None
            &&& s.selected_recipe != Some(title) ==> after.selected_recipe == s.selected_recipe
            &&& s.dm is None || first is Err ==> after.selected_recipe == s.selected_recipe
            &&& after.selected_ingredient == s.selected_ingredient
            &&& after.selected_kb == s.selected_kb
        }),
{
}

/// An ingredient that is deleted while it is selected leaves nothing
/// selected. Deleting any other ingredient keeps the selection, and so does a
/// deletion that fails or finds no engine.
pub proof fn delete_ingredient_selection<E, L>(
    s: AppView<E, L>,
    name: Seq<char>,
    first: Result<(), Seq<char>>,
    second: Result<(), Seq<char>>,
)
    ensures
        ({
            let after = handled(s, AppMsgView::DeleteIngredient(name), first, second);
            &&& s.dm is Some && first is Ok && s.selected_ingredient == Some(name)
                ==> after.selected_ingredient is None
            &&& s.selected_ingredient != Some(name) ==> after.selected_ingredient
                == s.selected_ingredient
            &&& s.dm is None || first is Err ==> after.selected_ingredient
                == s.selected_ingredient
            &&& after.selected_recipe == s.selected_recipe
            &&& after.selected_kb == s.selected_kb
        }),
{
}

/// A recipe that was saved is the selected one, whether it was new or not,
/// and its list and detail are stale.
pub proof fn saved_recipe_is_selected<E, L>(
    s: AppView<E, L>,
    original: Option<Seq<char>>,
    recipe: RecipeView,
    second: Result<(), Seq<char>>,
)
    requires
        s.dm is Some,
    ensures
        ({
            let after = handled(
                s,
                AppMsgView::SaveRecipe { original, recipe },
                Ok(()),
                second,
            );
            &&& after.selected_recipe == Some(recipe.title)
            &&& after.recipes_dirty
            &&& after.recipe_detail_dirty
        }),
{
}

/// An ingredient that was saved is the selected one, whether it was new or
/// not and whether it is in the pantry or not.
pub proof fn saved_ingredient_is_selected<E, L>(
    s: AppView<E, L>,
    original: Option<Seq<char>>,
    ingredient: IngredientView,
    in_pantry: bool,
    qty: Option<Seq<char>>,
    qty_type: Seq<char>,
)
    requires
        s.dm is Some,
    ensures
        handled(
            s,
            AppMsgView::SaveIngredient { original, ingredient, in_pantry, qty, qty_type },
            Ok(()),
            Ok(()),
        ).selected_ingredient == Some(ingredient.name),
{
}

/// Saving an ingredient marks the recipe list stale along with the pantry
/// list and the ingredient's detail.
pub proof fn saved_ingredient_marks_recipes<E, L>(
    s: AppView<E, L>,
    original: Option<Seq<char>>,
    ingredient: IngredientView,
    in_pantry: bool,
    qty: Option<Seq<char>>,
    qty_type: Seq<char>,
)
    requires
        s.dm is Some,
    ensures
        ({
            let after = handled(
                s,
                AppMsgView::SaveIngredient { original, ingredient, in_pantry, qty, qty_type },
                Ok(()),
                Ok(()),
            );
            &&& after.recipes_dirty
            &&& after.pantry_dirty
            &&& after.ingredient_detail_dirty
        }),
{
}

/// Deleting an ingredient marks the recipe list stale along with the pantry
/// list and the ingredient's detail.
pub proof fn deleted_ingredient_marks_recipes<E, L>(
    s: AppView<E, L>,
    name: Seq<char>,
    second: Result<(), Seq<char>>,
)
    requires
        s.dm is Some,
    ensures
        ({
            let after = handled(s, AppMsgView::DeleteIngredient(name), Ok(()), second);
            &&& after.recipes_dirty
            &&& after.pantry_dirty
            &&& after.ingredient_detail_dirty
        }),
{
}

/// A save or a deletion that the engine refuses changes nothing in the state.
pub proof fn refused_change_keeps_state<E, L>(
    s: AppView<E, L>,
    m: AppMsgView,
    reason: Seq<char>,
    second: Result<(), Seq<char>>,
)
    requires
        changes_records(m),
    ensures
        handled(s, m, Err(reason), second) == s,
{
}

/// Switching to a page marks no list stale and changes nothing but the page
/// in front; the reconciliation that follows redraws the detail panel of that
/// page, stale or not, and no other panel that was not stale.
pub proof fn switch_tab_redraws_detail<E, L>(s: AppView<E, L>, tab: Tab)
    ensures
        ({
            let (after, effect) = step(s, AppMsgView::SwitchTab(tab));
            let todo = rendering(after);
            &&& effect is Idle
            &&& after == (AppView { tab, ..s })
            &&& todo.visible_tab == tab
            &&& tab == Tab::Recipes ==> todo.recipe_detail == detail_render(
                true,
                true,
                s.selected_recipe,
            ) && !(todo.recipe_detail is Keep)
            &&& tab == Tab::Pantry ==> todo.ingredient_detail == detail_render(
                true,
                true,
                s.selected_ingredient,
            ) && !(todo.ingredient_detail is Keep)
            &&& tab == Tab::Kb ==> todo.kb_detail == detail_render(true, true, s.selected_kb) && !(
            todo.kb_detail is Keep)
            &&& tab != Tab::Recipes && !s.recipe_detail_dirty ==> todo.recipe_detail is Keep
            &&& tab != Tab::Pantry && !s.ingredient_detail_dirty ==> todo.ingredient_detail is Keep
            &&& tab != Tab::Kb && !s.kb_detail_dirty ==> todo.kb_detail is Keep
        }),
{
}

/// Without an engine a save or a deletion does nothing: the state stays as
/// it is, flags and selections included, and no effect is asked for.
pub proof fn no_engine_no_change<E, L>(s: AppView<E, L>, m: AppMsgView)
    requires
        s.dm is None,
        changes_records(m),
    ensures
        step(s, m) == (s, EffectView::<L>::Idle),
{
}

/// A handler asks for an engine call only where an engine is loaded.
pub proof fn calls_need_engine<E, L>(s: AppView<E, L>, m: AppMsgView)
    ensures
        step(s, m).1 is Call ==> s.dm is Some && changes_records(m),
        s.dm is Some && changes_records(m) ==> step(s, m).1 is Call,
{
}

/// After a reconciliation nothing is stale and no dialog is asked for: a
/// second reconciliation rebuilds no list, opens no dialog and redraws at
/// most the detail panel of the page in front.
pub proof fn reconciliation_settles<E, L>(s: AppView<E, L>)
    ensures
        settled(settled(s)) == settled(s),
        ({
            let again = rendering(settled(s));
            &&& again.recipe_list is None
            &&& again.pantry_list is None
            &&& again.kb_list is None
            &&& !again.add_recipe_dialog
            &&& again.edit_recipe_dialog is None
            &&& !again.add_ingredient_dialog
            &&& again.edit_ingredient_dialog is None
            &&& s.tab != Tab::Recipes ==> again.recipe_detail is Keep
            &&& s.tab != Tab::Pantry ==> again.ingredient_detail is Keep
            &&& s.tab != Tab::Kb ==> again.kb_detail is Keep
        }),
{
}

/// A change of the data directory marks nothing stale; the end of its load
/// marks every list stale and clears every selection, and consumes the load
/// that was stored last. Whatever end of a load is reported after that finds
/// no load pending and changes nothing.
pub proof fn data_dir_change_waits_for_load<E, L>(
    s: AppView<E, L>,
    dir: Seq<char>,
    handle: L,
    reported: Seq<char>,
)
    ensures
        ({
            let (changed, start) = step(s, AppMsgView::SetDataDir(dir));
            let loading = AppView { pending_dm: Some(handle), ..changed };
            let (done, wait) = step(loading, AppMsgView::DataDirReady(dir));
            let (again, nothing) = step(done, AppMsgView::DataDirReady(reported));
            &&& start == EffectView::<L>::StartLoad { dir }
            &&& changed.recipes_dirty == s.recipes_dirty
            &&& changed.pantry_dirty == s.pantry_dirty
            &&& changed.kb_dirty == s.kb_dirty
            &&& changed.dm == s.dm
            &&& changed.pending_dm is None
            &&& wait == EffectView::AwaitLoad { handle, dir }
            &&& done.recipes_dirty && done.pantry_dirty && done.kb_dirty
            &&& done.selected_recipe is None && done.selected_ingredient is None
                && done.selected_kb is None
            &&& done.pending_dm is None
            &&& nothing is Idle
            &&& again == done
        }),
{
}

/// The end of a load that is not awaited changes nothing and asks for
/// nothing: that is so where no load is pending, the handle being taken
/// already, and where the event reports another directory than the one that
/// the state holds, the load being superseded.
pub proof fn stale_load_end_is_ignored<E, L>(s: AppView<E, L>, reported: Seq<char>)
    requires
        s.pending_dm is None || reported != s.data_dir,
    ensures
        step(s, AppMsgView::DataDirReady(reported)) == (s, EffectView::<L>::Idle),
{
}

/// A superseded load is never looked at: once a second directory is chosen,
/// the end of the first load changes nothing, and the end of the second load
/// takes the handle of the second.
pub proof fn superseded_load_is_ignored<E, L>(
    s: AppView<E, L>,
    first_dir: Seq<char>,
    second_dir: Seq<char>,
    first: L,
    second: L,
)
    requires
        first_dir != second_dir,
    ensures
        ({
            let one = AppView {
                pending_dm: Some(first),
                ..step(s, AppMsgView::SetDataDir(first_dir)).0
            };
            let two = AppView {
                pending_dm: Some(second),
                ..step(one, AppMsgView::SetDataDir(second_dir)).0
            };
            &&& step(two, AppMsgView::DataDirReady(first_dir)) == (two, EffectView::<L>::Idle)
            &&& step(two, AppMsgView::DataDirReady(second_dir)).1 == EffectView::AwaitLoad {
                handle: second,
                dir: second_dir,
            }
        }),
{
}

/// Without an engine every list shows the one row that says that no data
/// directory is set, whatever is searched for, and every detail panel shows
/// its placeholder.
pub proof fn no_engine_shows_placeholders(
    search: Seq<char>,
    recipes: ListContentView<RecipeRowView>,
    pantry: ListContentView<IngredientRowView>,
    articles: ListContentView<KbRowView>,
)
    ensures
        recipe_list_shows(None, search, recipes) <==> recipes == (ListContentView::<
            RecipeRowView,
        >::Empty { name: EMPTY_ROW_NAME@, text: NO_DATA_DIR@ }),
        pantry_list_shows(None, pantry) <==> pantry == (ListContentView::<
            IngredientRowView,
        >::Empty { name: EMPTY_ROW_NAME@, text: NO_DATA_DIR@ }),
        kb_list_shows(None, search, articles) <==> articles == no_articles_row(NO_DATA_DIR@),
        recipe_detail(None) == DetailView::Placeholder(recipe_placeholder()),
        ingredient_detail(None) == DetailView::Placeholder(ingredient_placeholder()),
        kb_detail(None) == DetailView::Placeholder(kb_placeholder()),
{
}

/// What the recipe list shows is settled by the engine's answer and the
/// search text: two contents that it may show are the same.
pub proof fn recipe_list_is_settled(
    found: Option<Seq<RecipeEntryView>>,
    search: Seq<char>,
    one: ListContentView<RecipeRowView>,
    other: ListContentView<RecipeRowView>,
)
    requires
        recipe_list_shows(found, search, one),
        recipe_list_shows(found, search, other),
    ensures
        one == other,
{
    if let Some(entries) = found {
        if entries.len() > 0 && search.len() == 0 {
            let keys = entry_titles(entries);
            let first = choose|order: Seq<usize>|
                is_stable_order(keys, order) && one == ListContentView::Rows(
                    arranged(entries.map_values(|e: RecipeEntryView| recipe_row(e)), order),
                );
            let second = choose|order: Seq<usize>|
                is_stable_order(keys, order) && other == ListContentView::Rows(
                    arranged(entries.map_values(|e: RecipeEntryView| recipe_row(e)), order),
                );
            stable_order_is_unique(keys, first, second);
        }
    }
}

/// What the pantry list shows is settled by the engine's answer.
pub proof fn pantry_list_is_settled(
    found: Option<Seq<IngredientEntryView>>,
    one: ListContentView<IngredientRowView>,
    other: ListContentView<IngredientRowView>,
)
    requires
        pantry_list_shows(found, one),
        pantry_list_shows(found, other),
    ensures
        one == other,
{
    if let Some(entries) = found {
        if entries.len() > 0 {
            let keys = entry_names(entries);
            let first = choose|order: Seq<usize>|
                is_stable_order(keys, order) && one == ListContentView::Rows(
                    arranged(entries.map_values(|e: IngredientEntryView| ingredient_row(e)), order),
                );
            let second = choose|order: Seq<usize>|
                is_stable_order(keys, order) && other == ListContentView::Rows(
                    arranged(entries.map_values(|e: IngredientEntryView| ingredient_row(e)), order),
                );
            stable_order_is_unique(keys, first, second);
        }
    }
}

/// What the list of articles shows is settled by the engine's answer and the
/// query.
pub proof fn kb_list_is_settled(
    found: Option<Seq<KbEntryView>>,
    query: Seq<char>,
    one: ListContentView<KbRowView>,
    other: ListContentView<KbRowView>,
)
    requires
        kb_list_shows(found, query, one),
        kb_list_shows(found, query, other),
    ensures
        one == other,
{
    if let Some(entries) = found {
        let keys = article_titles(entries);
        let first = choose|order: Seq<usize>|
            is_stable_order(keys, order) && one == listed(arranged(entries, order), query);
        let second = choose|order: Seq<usize>|
            is_stable_order(keys, order) && other == listed(arranged(entries, order), query);
        stable_order_is_unique(keys, first, second);
    }
}

/// The order of the rows of the recipe list while nothing is searched for.
spec fn recipe_order(entries: Seq<RecipeEntryView>, rows: Seq<RecipeRowView>) -> Seq<usize> {
    choose|order: Seq<usize>|
        is_stable_order(entry_titles(entries), order) && ListContentView::Rows(rows)
            == ListContentView::Rows(
            arranged(entries.map_values(|e: RecipeEntryView| recipe_row(e)), order),
        )
}

/// The order of the rows of the pantry list.
spec fn pantry_order(entries: Seq<IngredientEntryView>, rows: Seq<IngredientRowView>) -> Seq<
    usize,
> {
    choose|order: Seq<usize>|
        is_stable_order(entry_names(entries), order) && ListContentView::Rows(rows)
            == ListContentView::Rows(
            arranged(entries.map_values(|e: IngredientEntryView| ingredient_row(e)), order),
        )
}

/// The recipe list shows nothing but what the engine found: it has as many
/// rows as the engine found recipes, and every row is that of one of them.
/// The law names the recipe of a row.
pub proof fn recipe_row_is_of_an_entry(
    entries: Seq<RecipeEntryView>,
    search: Seq<char>,
    rows: Seq<RecipeRowView>,
    i: int,
) -> (j: int)
    requires
        entries.len() > 0,
        recipe_list_shows(Some(entries), search, ListContentView::Rows(rows)),
        0 <= i < rows.len(),
    ensures
        rows.len() == entries.len(),
        0 <= j < entries.len(),
        rows[i] == recipe_row(entries[j]),
        search.len() > 0 ==> j == i,
{
    if search.len() > 0 {
        i
    } else {
        let order = recipe_order(entries, rows);
        assert(order[i] < entries.len());
        order[i] as int
    }
}

/// The recipe list shows all that the engine found: every recipe has its
/// row. The law names the row of a recipe.
pub proof fn recipe_entry_has_a_row(
    entries: Seq<RecipeEntryView>,
    search: Seq<char>,
    rows: Seq<RecipeRowView>,
    j: int,
) -> (i: int)
    requires
        recipe_list_shows(Some(entries), search, ListContentView::Rows(rows)),
        0 <= j < entries.len(),
    ensures
        0 <= i < rows.len(),
        rows[i] == recipe_row(entries[j]),
{
    if search.len() > 0 {
        j
    } else {
        let order = recipe_order(entries, rows);
        order_holds_every_position(entry_titles(entries), order, j);
        choose|at: int| 0 <= at < order.len() && order[at] == j
    }
}

/// While nothing is searched for, the rows of the recipe list ascend by
/// title.
pub proof fn recipe_rows_ascend(
    entries: Seq<RecipeEntryView>,
    rows: Seq<RecipeRowView>,
    i: int,
    k: int,
)
    requires
        recipe_list_shows(Some(entries), Seq::empty(), ListContentView::Rows(rows)),
        0 <= i < k < rows.len(),
    ensures
        lex_le(rows[i].title, rows[k].title),
{
    let order = recipe_order(entries, rows);
    let keys = entry_titles(entries);
    assert(order[i] < keys.len() && order[k] < keys.len());
    assert(lex_le(keys[order[i] as int], keys[order[k] as int]));
}

/// The pantry list shows nothing but what the engine found: it has as many
/// rows as the engine found ingredients, and every row is that of one of
/// them. The law names the ingredient of a row.
pub proof fn pantry_row_is_of_an_entry(
    entries: Seq<IngredientEntryView>,
    rows: Seq<IngredientRowView>,
    i: int,
) -> (j: int)
    requires
        entries.len() > 0,
        pantry_list_shows(Some(entries), ListContentView::Rows(rows)),
        0 <= i < rows.len(),
    ensures
        rows.len() == entries.len(),
        0 <= j < entries.len(),
        rows[i] == ingredient_row(entries[j]),
{
    let order = pantry_order(entries, rows);
    assert(order[i] < entries.len());
    order[i] as int
}

/// The pantry list shows all that the engine found: every ingredient has its
/// row. The law names the row of an ingredient.
pub proof fn pantry_entry_has_a_row(
    entries: Seq<IngredientEntryView>,
    rows: Seq<IngredientRowView>,
    j: int,
) -> (i: int)
    requires
        pantry_list_shows(Some(entries), ListContentView::Rows(rows)),
        0 <= j < entries.len(),
    ensures
        0 <= i < rows.len(),
        rows[i] == ingredient_row(entries[j]),
{
    let order = pantry_order(entries, rows);
    order_holds_every_position(entry_names(entries), order, j);
    choose|at: int| 0 <= at < order.len() && order[at] == j
}

/// The rows of the pantry list ascend by name.
pub proof fn pantry_rows_ascend(
    entries: Seq<IngredientEntryView>,
    rows: Seq<IngredientRowView>,
    i: int,
    k: int,
)
    requires
        pantry_list_shows(Some(entries), ListContentView::Rows(rows)),
        0 <= i < k < rows.len(),
    ensures
        lex_le(rows[i].name, rows[k].name),
{
    let order = pantry_order(entries, rows);
    let keys = entry_names(entries);
    assert(order[i] < keys.len() && order[k] < keys.len());
    assert(lex_le(keys[order[i] as int], keys[order[k] as int]));
}

} // verus!
