// Tests for the reconciler.
use pantryman_linux::app::App;
use pantryman_linux::config::UserSettings;
use pantryman_linux::messages::{AppMsg, Tab};
use pantryman_linux::reconcile::{
    DetailRender, KbListRender, PantryListRender, RecipeListRender, ViewUpdate,
};

fn fresh() -> App<u32, u32> {
    App::init(UserSettings::default(), "/data".to_string(), 1)
}

#[test]
fn first_reconciliation_draws_every_list() {
    let mut app = fresh();
    let todo = app.update_view();
    assert_eq!(
        todo,
        ViewUpdate {
            visible_tab: Tab::Recipes,
            recipe_list: Some(RecipeListRender { search: String::new(), reselect: None }),
            recipe_detail: DetailRender::Placeholder,
            pantry_list: Some(PantryListRender {
                search: String::new(),
                categories: vec![],
                in_stock_only: false,
                reselect: None,
            }),
            ingredient_detail: DetailRender::Keep,
            kb_list: Some(KbListRender { search: String::new(), reselect: None }),
            kb_detail: DetailRender::Keep,
            add_recipe_dialog: false,
            edit_recipe_dialog: None,
            add_ingredient_dialog: false,
            edit_ingredient_dialog: None,
        }
    );
    assert!(!app.recipes_dirty && !app.pantry_dirty && !app.kb_dirty);
}

#[test]
fn second_reconciliation_only_refreshes_the_page_in_front() {
    let mut app = fresh();
    app.update_view();
    let again = app.update_view();
    assert_eq!(again.recipe_list, None);
    assert_eq!(again.pantry_list, None);
    assert_eq!(again.kb_list, None);
    assert_eq!(again.recipe_detail, DetailRender::Placeholder);
    assert_eq!(again.ingredient_detail, DetailRender::Keep);
    assert_eq!(again.kb_detail, DetailRender::Keep);
}

#[test]
fn switching_tab_redraws_its_detail_even_when_clean() {
    let mut app = fresh();
    app.update(AppMsg::SelectIngredient(Some("salt".to_string())));
    app.update(AppMsg::SelectKb(Some("umami".to_string())));
    app.update_view();
    assert!(!app.ingredient_detail_dirty);
    app.update(AppMsg::SwitchTab(Tab::Pantry));
    assert!(!app.ingredient_detail_dirty);
    let todo = app.update_view();
    assert_eq!(todo.visible_tab, Tab::Pantry);
    assert_eq!(todo.ingredient_detail, DetailRender::Show("salt".to_string()));
    assert_eq!(todo.recipe_detail, DetailRender::Keep);
    assert_eq!(todo.kb_detail, DetailRender::Keep);
    assert_eq!(todo.pantry_list, None);
    app.update(AppMsg::SwitchTab(Tab::Kb));
    let todo = app.update_view();
    assert_eq!(todo.kb_detail, DetailRender::Show("umami".to_string()));
    assert_eq!(todo.ingredient_detail, DetailRender::Keep);
    app.update(AppMsg::SwitchTab(Tab::Settings));
    let todo = app.update_view();
    assert_eq!(todo.recipe_detail, DetailRender::Keep);
    assert_eq!(todo.ingredient_detail, DetailRender::Keep);
    assert_eq!(todo.kb_detail, DetailRender::Keep);
}

#[test]
fn stale_detail_is_redrawn_behind_another_page() {
    let mut app = fresh();
    app.update_view();
    app.update(AppMsg::SwitchTab(Tab::Settings));
    app.update(AppMsg::SelectRecipe(Some("Lasagna".to_string())));
    let todo = app.update_view();
    assert_eq!(todo.recipe_detail, DetailRender::Show("Lasagna".to_string()));
    assert!(!app.recipe_detail_dirty);
}

#[test]
fn rebuilt_list_carries_search_filters_and_selection() {
    let mut app = fresh();
    app.update_view();
    app.category_filter = vec!["spice".to_string()];
    app.update(AppMsg::SelectIngredient(Some("salt".to_string())));
    app.update(AppMsg::ToggleInStockOnly(true));
    app.update(AppMsg::SearchIngredients("sa".to_string()));
    app.update(AppMsg::SelectRecipe(Some("Lasagna".to_string())));
    app.update(AppMsg::SearchRecipes("las".to_string()));
    let todo = app.update_view();
    assert_eq!(
        todo.recipe_list,
        Some(RecipeListRender {
            search: "las".to_string(),
            reselect: Some("Lasagna".to_string()),
        })
    );
    assert_eq!(
        todo.pantry_list,
        Some(PantryListRender {
            search: "sa".to_string(),
            categories: vec!["spice".to_string()],
            in_stock_only: true,
            reselect: Some("salt".to_string()),
        })
    );
    assert_eq!(todo.kb_list, None);
}

#[test]
fn dialog_requests_are_drained_once() {
    let mut app = fresh();
    app.update(AppMsg::AddRecipe);
    app.update(AppMsg::EditRecipe("Lasagna".to_string()));
    app.update(AppMsg::AddIngredient);
    app.update(AppMsg::EditIngredient("salt".to_string()));
    let todo = app.update_view();
    assert!(todo.add_recipe_dialog);
    assert_eq!(todo.edit_recipe_dialog, Some("Lasagna".to_string()));
    assert!(todo.add_ingredient_dialog);
    assert_eq!(todo.edit_ingredient_dialog, Some("salt".to_string()));
    assert!(!app.pending_add_recipe);
    assert_eq!(app.pending_edit_recipe, None);
    assert!(!app.pending_add_ingredient);
    assert_eq!(app.pending_edit_ingredient, None);
    let again = app.update_view();
    assert!(!again.add_recipe_dialog);
    assert_eq!(again.edit_recipe_dialog, None);
    assert!(!again.add_ingredient_dialog);
    assert_eq!(again.edit_ingredient_dialog, None);
}

#[test]
fn reconciliation_keeps_everything_but_flags_and_requests() {
    let mut app = fresh();
    app.update(AppMsg::SearchRecipes("x".to_string()));
    app.update(AppMsg::SelectKb(Some("umami".to_string())));
    app.update(AppMsg::SwitchTab(Tab::Kb));
    app.update_view();
    assert_eq!(app.recipe_search, "x");
    assert_eq!(app.selected_kb, Some("umami".to_string()));
    assert_eq!(app.tab, Tab::Kb);
    assert_eq!(app.pending_dm, Some(1));
    assert_eq!(app.data_dir, "/data");
}

#[test]
fn rebuilt_article_list_carries_search_and_selection() {
    let mut app = fresh();
    app.update_view();
    app.update(AppMsg::SelectKb(Some("umami".to_string())));
    app.update(AppMsg::SearchKb("Uma".to_string()));
    let todo = app.update_view();
    assert_eq!(
        todo.kb_list,
        Some(KbListRender { search: "Uma".to_string(), reselect: Some("umami".to_string()) })
    );
    assert_eq!(todo.recipe_list, None);
    assert_eq!(todo.pantry_list, None);
    assert_eq!(app.update_view().kb_list, None);
}
