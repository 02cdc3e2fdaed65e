// Tests for the application state and its transition function.
use pantryman_linux::app::App;
use pantryman_linux::config::{Theme, UserSettings};
use pantryman_linux::messages::{
    AppMsg, Effect, EngineCall, LoadOutcome, Pending, StockEntry, Tab,
};
use pantryman_linux::records::{Ingredient, Recipe};

type TestApp = App<u32, u32>;

fn fresh() -> TestApp {
    App::init(UserSettings::default(), "/data".to_string(), 1)
}

/// A state with an engine and nothing stale.
fn loaded() -> TestApp {
    let mut app = fresh();
    assert_eq!(
        app.update(AppMsg::DataDirReady("/data".to_string())),
        Effect::AwaitLoad { handle: 1, dir: "/data".to_string() }
    );
    assert_eq!(
        app.load_finished("/data".to_string(), LoadOutcome::Loaded(7)),
        Effect::Idle
    );
    app.update_view();
    app
}

fn recipe(title: &str) -> Recipe {
    Recipe {
        title: title.to_string(),
        ingredients: vec![],
        prep_time: None,
        downtime: None,
        servings: None,
        tags: None,
        image: None,
        instructions: String::new(),
    }
}

fn ingredient(name: &str) -> Ingredient {
    Ingredient {
        name: name.to_string(),
        slug: name.to_lowercase(),
        category: "misc".to_string(),
        kb: None,
        tags: None,
    }
}

/// A stand-in for the engine: names of recipes, of ingredients and of what
/// is in the pantry, and the calls it refuses.
struct FakeEngine {
    recipes: Vec<String>,
    ingredients: Vec<String>,
    pantry: Vec<String>,
    refuse: bool,
    calls: usize,
}

fn fake_engine() -> FakeEngine {
    FakeEngine { recipes: vec![], ingredients: vec![], pantry: vec![], refuse: false, calls: 0 }
}

fn perform(engine: &mut FakeEngine, call: EngineCall) -> Result<(), String> {
    engine.calls += 1;
    if engine.refuse {
        return Err("refused".to_string());
    }
    match call {
        EngineCall::DeleteRecipe { title } => {
            if !engine.recipes.contains(&title) {
                return Err(format!("no recipe {}", title));
            }
            engine.recipes.retain(|t| *t != title);
        }
        EngineCall::UpdateRecipe { original, recipe } => {
            if !engine.recipes.contains(&original) {
                return Err(format!("no recipe {}", original));
            }
            engine.recipes.retain(|t| *t != original);
            engine.recipes.push(recipe.title);
        }
        EngineCall::CreateRecipe { recipe } => {
            if engine.recipes.contains(&recipe.title) {
                return Err(format!("recipe {} exists", recipe.title));
            }
            engine.recipes.push(recipe.title);
        }
        EngineCall::DeleteIngredient { name } => {
            if !engine.ingredients.contains(&name) {
                return Err(format!("no ingredient {}", name));
            }
            engine.ingredients.retain(|n| *n != name);
            engine.pantry.retain(|n| *n != name);
        }
        EngineCall::UpdateIngredientWithPantry {
            original,
            ingredient,
            quantity: _,
            quantity_type: _,
            remove_from_pantry,
        } => {
            if !engine.ingredients.contains(&original) {
                return Err(format!("no ingredient {}", original));
            }
            engine.ingredients.retain(|n| *n != original);
            engine.pantry.retain(|n| *n != original);
            engine.ingredients.push(ingredient.name.clone());
            if !remove_from_pantry {
                engine.pantry.push(ingredient.name);
            }
        }
        EngineCall::CreateIngredient { ingredient } => {
            if engine.ingredients.contains(&ingredient.name) {
                return Err(format!("ingredient {} exists", ingredient.name));
            }
            engine.ingredients.push(ingredient.name);
        }
        EngineCall::UpdatePantryItem { name, quantity: _, quantity_type: _ } => {
            if !engine.pantry.contains(&name) {
                engine.pantry.push(name);
            }
        }
    }
    Ok(())
}

/// Handles one event to its end and returns what was put in the queue.
fn drive(app: &mut TestApp, engine: &mut FakeEngine, msg: AppMsg) -> Vec<AppMsg> {
    let mut queued = vec![];
    let mut effect = app.update(msg);
    loop {
        match effect {
            Effect::Call { call, then } => {
                assert!(app.dm.is_some());
                let reply = perform(engine, call);
                effect = app.resume(then, reply);
            }
            Effect::Enqueue(msg) => {
                queued.push(msg);
                break;
            }
            _ => break,
        }
    }
    queued
}

fn flags(app: &TestApp) -> [bool; 6] {
    [
        app.recipes_dirty,
        app.pantry_dirty,
        app.kb_dirty,
        app.recipe_detail_dirty,
        app.ingredient_detail_dirty,
        app.kb_detail_dirty,
    ]
}

#[test]
fn initial_state_forces_first_render_of_lists() {
    let app = fresh();
    assert!(app.dm.is_none());
    assert_eq!(app.data_dir, "/data");
    assert_eq!(app.tab, Tab::Recipes);
    assert_eq!(app.recipe_search, "");
    assert_eq!(app.ingredient_search, "");
    assert_eq!(app.kb_search, "");
    assert!(app.category_filter.is_empty());
    assert!(!app.in_stock_only);
    assert_eq!(app.selected_recipe, None);
    assert_eq!(app.selected_ingredient, None);
    assert_eq!(app.selected_kb, None);
    assert_eq!(flags(&app), [true, true, true, false, false, false]);
    assert!(!app.pending_add_recipe);
    assert!(!app.pending_add_ingredient);
    assert_eq!(app.pending_edit_recipe, None);
    assert_eq!(app.pending_edit_ingredient, None);
    assert_eq!(app.pending_dm, Some(1));
    assert_eq!(app.settings.theme, Theme::System);
}

#[test]
fn switch_tab_only_changes_the_tab() {
    let mut app = loaded();
    let before = flags(&app);
    assert_eq!(app.update(AppMsg::SwitchTab(Tab::Pantry)), Effect::Idle);
    assert_eq!(app.tab, Tab::Pantry);
    assert_eq!(flags(&app), before);
    assert_eq!(app.update(AppMsg::SwitchTab(Tab::Settings)), Effect::Idle);
    assert_eq!(app.tab, Tab::Settings);
    assert_eq!(flags(&app), before);
}

#[test]
fn search_marks_its_list() {
    let mut app = loaded();
    assert_eq!(app.update(AppMsg::SearchRecipes("las".to_string())), Effect::Idle);
    assert_eq!(app.recipe_search, "las");
    assert_eq!(flags(&app), [true, false, false, false, false, false]);
    app.update_view();
    assert_eq!(app.update(AppMsg::SearchIngredients("sa".to_string())), Effect::Idle);
    assert_eq!(app.ingredient_search, "sa");
    assert_eq!(flags(&app), [false, true, false, false, false, false]);
}

#[test]
fn every_search_event_marks_and_every_reconcile_clears() {
    let mut app = loaded();
    for text in ["l", "la", "las", "", "x"] {
        app.update(AppMsg::SearchRecipes(text.to_string()));
        assert!(app.recipes_dirty);
        assert_eq!(app.recipe_search, text);
        let todo = app.update_view();
        assert_eq!(todo.recipe_list.expect("list is rebuilt").search, text);
        assert!(!app.recipes_dirty);
    }
    // several events before one reconciliation: the last text counts
    app.update(AppMsg::SearchIngredients("a".to_string()));
    app.update(AppMsg::SearchIngredients("ab".to_string()));
    assert!(app.pantry_dirty);
    let todo = app.update_view();
    assert_eq!(todo.pantry_list.expect("list is rebuilt").search, "ab");
    assert!(!app.pantry_dirty);
}

#[test]
fn toggle_in_stock_marks_pantry_list() {
    let mut app = loaded();
    assert_eq!(app.update(AppMsg::ToggleInStockOnly(true)), Effect::Idle);
    assert!(app.in_stock_only);
    assert_eq!(flags(&app), [false, true, false, false, false, false]);
}

#[test]
fn selection_marks_its_detail() {
    let mut app = loaded();
    app.update(AppMsg::SelectRecipe(Some("Lasagna".to_string())));
    assert_eq!(app.selected_recipe, Some("Lasagna".to_string()));
    assert_eq!(flags(&app), [false, false, false, true, false, false]);
    app.update(AppMsg::SelectIngredient(Some("salt".to_string())));
    assert_eq!(app.selected_ingredient, Some("salt".to_string()));
    app.update(AppMsg::SelectKb(Some("umami".to_string())));
    assert_eq!(app.selected_kb, Some("umami".to_string()));
    assert_eq!(flags(&app), [false, false, false, true, true, true]);
    app.update_view();
    app.update(AppMsg::SelectRecipe(None));
    assert_eq!(app.selected_recipe, None);
    assert_eq!(flags(&app), [false, false, false, true, false, false]);
}

#[test]
fn dialog_requests_fill_their_slots() {
    let mut app = fresh();
    assert_eq!(app.update(AppMsg::AddRecipe), Effect::Idle);
    assert!(app.pending_add_recipe);
    assert_eq!(app.update(AppMsg::EditRecipe("Lasagna".to_string())), Effect::Idle);
    assert_eq!(app.pending_edit_recipe, Some("Lasagna".to_string()));
    assert_eq!(app.update(AppMsg::AddIngredient), Effect::Idle);
    assert!(app.pending_add_ingredient);
    assert_eq!(app.update(AppMsg::EditIngredient("salt".to_string())), Effect::Idle);
    assert_eq!(app.pending_edit_ingredient, Some("salt".to_string()));
    // a later request for the same slot takes its place
    app.update(AppMsg::EditRecipe("Soup".to_string()));
    assert_eq!(app.pending_edit_recipe, Some("Soup".to_string()));
}

#[test]
fn delete_recipe_asks_the_engine() {
    let mut app = loaded();
    let before = flags(&app);
    let effect = app.update(AppMsg::DeleteRecipe("Lasagna".to_string()));
    assert_eq!(
        effect,
        Effect::Call {
            call: EngineCall::DeleteRecipe { title: "Lasagna".to_string() },
            then: Pending::DeleteRecipe { title: "Lasagna".to_string() },
        }
    );
    assert_eq!(flags(&app), before);
}

#[test]
fn scenario_delete_selected_recipe() {
    let mut app = loaded();
    let mut engine = fake_engine();
    engine.recipes.push("Lasagna".to_string());
    app.update(AppMsg::SelectRecipe(Some("Lasagna".to_string())));
    app.update_view();
    assert_eq!(app.tab, Tab::Recipes);
    let queued = drive(&mut app, &mut engine, AppMsg::DeleteRecipe("Lasagna".to_string()));
    assert!(queued.is_empty());
    assert!(engine.recipes.is_empty());
    assert_eq!(app.selected_recipe, None);
    assert_eq!(flags(&app), [true, false, false, true, false, false]);
}

#[test]
fn deleting_another_recipe_keeps_the_selection() {
    let mut app = loaded();
    let mut engine = fake_engine();
    engine.recipes.push("Lasagna".to_string());
    engine.recipes.push("Soup".to_string());
    app.update(AppMsg::SelectRecipe(Some("Lasagna".to_string())));
    let queued = drive(&mut app, &mut engine, AppMsg::DeleteRecipe("Soup".to_string()));
    assert!(queued.is_empty());
    assert_eq!(app.selected_recipe, Some("Lasagna".to_string()));
    assert!(app.recipes_dirty);
    assert!(app.recipe_detail_dirty);
}

#[test]
fn failed_delete_only_notifies() {
    let mut app = loaded();
    let mut engine = fake_engine();
    app.update(AppMsg::SelectRecipe(Some("Lasagna".to_string())));
    app.update_view();
    let queued = drive(&mut app, &mut engine, AppMsg::DeleteRecipe("Lasagna".to_string()));
    assert_eq!(queued, vec![AppMsg::ShowToast("Error: no recipe Lasagna".to_string())]);
    assert_eq!(app.selected_recipe, Some("Lasagna".to_string()));
    assert_eq!(flags(&app), [false; 6]);
}

#[test]
fn save_recipe_creates_or_updates() {
    let mut app = loaded();
    let effect = app.update(AppMsg::SaveRecipe { original: None, recipe: recipe("Soup") });
    assert_eq!(
        effect,
        Effect::Call {
            call: EngineCall::CreateRecipe { recipe: recipe("Soup") },
            then: Pending::SaveRecipe { title: "Soup".to_string() },
        }
    );
    let effect = app.update(AppMsg::SaveRecipe {
        original: Some("Soup".to_string()),
        recipe: recipe("Stew"),
    });
    assert_eq!(
        effect,
        Effect::Call {
            call: EngineCall::UpdateRecipe { original: "Soup".to_string(), recipe: recipe("Stew") },
            then: Pending::SaveRecipe { title: "Stew".to_string() },
        }
    );
}

#[test]
fn successful_save_selects_the_saved_recipe() {
    let mut app = loaded();
    let mut engine = fake_engine();
    let queued =
        drive(&mut app, &mut engine, AppMsg::SaveRecipe { original: None, recipe: recipe("Soup") });
    assert!(queued.is_empty());
    assert_eq!(app.selected_recipe, Some("Soup".to_string()));
    assert_eq!(flags(&app), [true, false, false, true, false, false]);
    app.update_view();
    let queued = drive(
        &mut app,
        &mut engine,
        AppMsg::SaveRecipe { original: Some("Soup".to_string()), recipe: recipe("Stew") },
    );
    assert!(queued.is_empty());
    assert_eq!(engine.recipes, vec!["Stew".to_string()]);
    assert_eq!(app.selected_recipe, Some("Stew".to_string()));
    assert_eq!(flags(&app), [true, false, false, true, false, false]);
}

#[test]
fn failed_recipe_save_notifies_with_its_own_prefix() {
    let mut app = loaded();
    let mut engine = fake_engine();
    engine.recipes.push("Soup".to_string());
    let queued =
        drive(&mut app, &mut engine, AppMsg::SaveRecipe { original: None, recipe: recipe("Soup") });
    assert_eq!(
        queued,
        vec![AppMsg::ShowToast("Error saving recipe: recipe Soup exists".to_string())]
    );
    assert_eq!(app.selected_recipe, None);
    assert_eq!(flags(&app), [false; 6]);
}

#[test]
fn scenario_save_ingredient_out_of_pantry() {
    let mut app = loaded();
    let mut engine = fake_engine();
    engine.ingredients.push("salt".to_string());
    engine.pantry.push("salt".to_string());
    let msg = AppMsg::SaveIngredient {
        original: Some("salt".to_string()),
        ingredient: ingredient("salt"),
        in_pantry: false,
        qty: Some("2".to_string()),
        qty_type: "kg".to_string(),
    };
    assert_eq!(
        app.update(msg.clone()),
        Effect::Call {
            call: EngineCall::UpdateIngredientWithPantry {
                original: "salt".to_string(),
                ingredient: ingredient("salt"),
                quantity: None,
                quantity_type: None,
                remove_from_pantry: true,
            },
            then: Pending::SaveIngredient { name: "salt".to_string() },
        }
    );
    let queued = drive(&mut app, &mut engine, msg);
    assert!(queued.is_empty());
    assert!(engine.pantry.is_empty());
    assert_eq!(engine.ingredients, vec!["salt".to_string()]);
    assert_eq!(app.selected_ingredient, Some("salt".to_string()));
    assert_eq!(flags(&app), [true, true, false, false, true, false]);
}

#[test]
fn update_ingredient_in_pantry_passes_amount_and_unit() {
    let mut app = loaded();
    let effect = app.update(AppMsg::SaveIngredient {
        original: Some("salt".to_string()),
        ingredient: ingredient("sea salt"),
        in_pantry: true,
        qty: Some("2".to_string()),
        qty_type: "".to_string(),
    });
    assert_eq!(
        effect,
        Effect::Call {
            call: EngineCall::UpdateIngredientWithPantry {
                original: "salt".to_string(),
                ingredient: ingredient("sea salt"),
                quantity: Some("2".to_string()),
                quantity_type: Some("".to_string()),
                remove_from_pantry: false,
            },
            then: Pending::SaveIngredient { name: "sea salt".to_string() },
        }
    );
}

#[test]
fn new_ingredient_in_pantry_takes_two_calls() {
    let mut app = loaded();
    let effect = app.update(AppMsg::SaveIngredient {
        original: None,
        ingredient: ingredient("salt"),
        in_pantry: true,
        qty: Some("1.5".to_string()),
        qty_type: "kg".to_string(),
    });
    let (call, then) = match effect {
        Effect::Call { call, then } => (call, then),
        other => panic!("unexpected effect {:?}", other),
    };
    assert_eq!(call, EngineCall::CreateIngredient { ingredient: ingredient("salt") });
    assert_eq!(
        then,
        Pending::CreateIngredient {
            name: "salt".to_string(),
            stock: Some(StockEntry {
                quantity: Some("1.5".to_string()),
                quantity_type: Some("kg".to_string()),
            }),
        }
    );
    let second = app.resume(then, Ok(()));
    assert_eq!(flags(&app), [false; 6]);
    assert_eq!(
        second,
        Effect::Call {
            call: EngineCall::UpdatePantryItem {
                name: "salt".to_string(),
                quantity: Some("1.5".to_string()),
                quantity_type: Some("kg".to_string()),
            },
            then: Pending::SaveIngredient { name: "salt".to_string() },
        }
    );
    let last = app.resume(Pending::SaveIngredient { name: "salt".to_string() }, Ok(()));
    assert_eq!(last, Effect::Idle);
    assert_eq!(app.selected_ingredient, Some("salt".to_string()));
    assert_eq!(flags(&app), [true, true, false, false, true, false]);
}

#[test]
fn new_ingredient_with_empty_unit_has_no_unit() {
    let mut app = loaded();
    let effect = app.update(AppMsg::SaveIngredient {
        original: None,
        ingredient: ingredient("salt"),
        in_pantry: true,
        qty: None,
        qty_type: "".to_string(),
    });
    match effect {
        Effect::Call { then, .. } => assert_eq!(
            then,
            Pending::CreateIngredient {
                name: "salt".to_string(),
                stock: Some(StockEntry { quantity: None, quantity_type: None }),
            }
        ),
        other => panic!("unexpected effect {:?}", other),
    }
}

#[test]
fn new_ingredient_out_of_pantry_takes_one_call() {
    let mut app = loaded();
    let mut engine = fake_engine();
    let queued = drive(
        &mut app,
        &mut engine,
        AppMsg::SaveIngredient {
            original: None,
            ingredient: ingredient("salt"),
            in_pantry: false,
            qty: Some("3".to_string()),
            qty_type: "g".to_string(),
        },
    );
    assert!(queued.is_empty());
    assert_eq!(engine.calls, 1);
    assert!(engine.pantry.is_empty());
    assert_eq!(app.selected_ingredient, Some("salt".to_string()));
    assert_eq!(flags(&app), [true, true, false, false, true, false]);
}

#[test]
fn failed_ingredient_creation_stops_before_the_pantry() {
    let mut app = loaded();
    let mut engine = fake_engine();
    engine.ingredients.push("salt".to_string());
    let queued = drive(
        &mut app,
        &mut engine,
        AppMsg::SaveIngredient {
            original: None,
            ingredient: ingredient("salt"),
            in_pantry: true,
            qty: Some("3".to_string()),
            qty_type: "g".to_string(),
        },
    );
    assert_eq!(queued, vec![AppMsg::ShowToast("Error: ingredient salt exists".to_string())]);
    assert_eq!(engine.calls, 1);
    assert!(engine.pantry.is_empty());
    assert_eq!(app.selected_ingredient, None);
    assert_eq!(flags(&app), [false; 6]);
}

#[test]
fn delete_ingredient_marks_recipes_too() {
    let mut app = loaded();
    let mut engine = fake_engine();
    engine.ingredients.push("salt".to_string());
    engine.pantry.push("salt".to_string());
    app.update(AppMsg::SelectIngredient(Some("salt".to_string())));
    app.update_view();
    let queued = drive(&mut app, &mut engine, AppMsg::DeleteIngredient("salt".to_string()));
    assert!(queued.is_empty());
    assert_eq!(app.selected_ingredient, None);
    assert_eq!(flags(&app), [true, true, false, false, true, false]);
}

#[test]
fn deleting_another_ingredient_keeps_the_selection() {
    let mut app = loaded();
    let mut engine = fake_engine();
    engine.ingredients.push("salt".to_string());
    engine.ingredients.push("sugar".to_string());
    app.update(AppMsg::SelectIngredient(Some("salt".to_string())));
    drive(&mut app, &mut engine, AppMsg::DeleteIngredient("sugar".to_string()));
    assert_eq!(app.selected_ingredient, Some("salt".to_string()));
}

#[test]
fn failed_ingredient_delete_only_notifies() {
    let mut app = loaded();
    let mut engine = fake_engine();
    engine.refuse = true;
    let queued = drive(&mut app, &mut engine, AppMsg::DeleteIngredient("salt".to_string()));
    assert_eq!(queued, vec![AppMsg::ShowToast("Error: refused".to_string())]);
    assert_eq!(flags(&app), [false; 6]);
}

#[test]
fn without_engine_saves_and_deletes_do_nothing() {
    let mut app = fresh();
    app.update(AppMsg::SelectRecipe(Some("Lasagna".to_string())));
    app.update(AppMsg::SelectIngredient(Some("salt".to_string())));
    app.update_view();
    let events = vec![
        AppMsg::DeleteRecipe("Lasagna".to_string()),
        AppMsg::SaveRecipe { original: None, recipe: recipe("Soup") },
        AppMsg::SaveRecipe { original: Some("Lasagna".to_string()), recipe: recipe("Soup") },
        AppMsg::DeleteIngredient("salt".to_string()),
        AppMsg::SaveIngredient {
            original: None,
            ingredient: ingredient("pepper"),
            in_pantry: true,
            qty: Some("1".to_string()),
            qty_type: "g".to_string(),
        },
        AppMsg::SaveIngredient {
            original: Some("salt".to_string()),
            ingredient: ingredient("pepper"),
            in_pantry: false,
            qty: None,
            qty_type: "".to_string(),
        },
    ];
    for msg in events {
        assert_eq!(app.update(msg), Effect::Idle);
        assert!(app.dm.is_none());
        assert_eq!(flags(&app), [false; 6]);
        assert_eq!(app.selected_recipe, Some("Lasagna".to_string()));
        assert_eq!(app.selected_ingredient, Some("salt".to_string()));
    }
}

#[test]
fn scenario_set_data_dir_then_load() {
    let mut app: TestApp = App::init(UserSettings::default(), "/old".to_string(), 1);
    // the first load never came to an end; the user picks another directory
    app.update(AppMsg::SelectRecipe(Some("Lasagna".to_string())));
    app.update(AppMsg::SelectIngredient(Some("salt".to_string())));
    app.update(AppMsg::SelectKb(Some("umami".to_string())));
    app.update_view();
    assert!(app.dm.is_none());
    let effect = app.update(AppMsg::SetDataDir("/valid/path".to_string()));
    assert_eq!(effect, Effect::StartLoad { dir: "/valid/path".to_string() });
    assert_eq!(app.data_dir, "/valid/path");
    assert_eq!(app.settings.data_dir, Some("/valid/path".to_string()));
    assert_eq!(app.pending_dm, None);
    // nothing is marked before the load has ended
    assert_eq!(flags(&app), [false; 6]);
    assert_eq!(app.selected_recipe, Some("Lasagna".to_string()));
    app.load_started(2);
    assert_eq!(app.pending_dm, Some(2));
    let effect = app.update(AppMsg::DataDirReady("/valid/path".to_string()));
    assert_eq!(effect, Effect::AwaitLoad { handle: 2, dir: "/valid/path".to_string() });
    assert_eq!(app.pending_dm, None);
    let effect = app.load_finished("/valid/path".to_string(), LoadOutcome::Loaded(42));
    assert_eq!(effect, Effect::Idle);
    assert_eq!(app.dm, Some(42));
    assert_eq!(flags(&app), [true, true, true, false, false, false]);
    assert_eq!(app.selected_recipe, None);
    assert_eq!(app.selected_ingredient, None);
    assert_eq!(app.selected_kb, None);
}

#[test]
fn superseded_load_is_never_consumed() {
    let mut app = loaded();
    app.update(AppMsg::SelectRecipe(Some("Lasagna".to_string())));
    app.update_view();
    app.update(AppMsg::SetDataDir("/a".to_string()));
    app.load_started(10);
    app.update(AppMsg::SetDataDir("/b".to_string()));
    assert_eq!(app.pending_dm, None);
    app.load_started(11);
    // the end of the superseded load reports another directory: nothing happens
    assert_eq!(app.update(AppMsg::DataDirReady("/a".to_string())), Effect::Idle);
    assert_eq!(app.pending_dm, Some(11));
    assert_eq!(app.dm, Some(7));
    assert_eq!(flags(&app), [false; 6]);
    assert_eq!(app.selected_recipe, Some("Lasagna".to_string()));
    // the end of the load stored last takes its handle
    assert_eq!(
        app.update(AppMsg::DataDirReady("/b".to_string())),
        Effect::AwaitLoad { handle: 11, dir: "/b".to_string() }
    );
    assert_eq!(app.pending_dm, None);
    app.load_finished("/b".to_string(), LoadOutcome::Loaded(5));
    assert_eq!(app.dm, Some(5));
    assert_eq!(flags(&app), [true, true, true, false, false, false]);
    assert_eq!(app.selected_recipe, None);
}

#[test]
fn load_end_without_pending_handle_is_a_no_op() {
    let mut app = loaded();
    app.update(AppMsg::SelectRecipe(Some("Lasagna".to_string())));
    app.update(AppMsg::SelectIngredient(Some("salt".to_string())));
    app.update(AppMsg::SelectKb(Some("umami".to_string())));
    app.update_view();
    assert_eq!(app.pending_dm, None);
    for dir in ["/data", "/elsewhere", ""] {
        assert_eq!(app.update(AppMsg::DataDirReady(dir.to_string())), Effect::Idle);
        assert_eq!(app.dm, Some(7));
        assert_eq!(app.pending_dm, None);
        assert_eq!(flags(&app), [false; 6]);
        assert_eq!(app.selected_recipe, Some("Lasagna".to_string()));
        assert_eq!(app.selected_ingredient, Some("salt".to_string()));
        assert_eq!(app.selected_kb, Some("umami".to_string()));
    }
}

#[test]
fn load_end_is_taken_once() {
    let mut app = loaded();
    app.update(AppMsg::SetDataDir("/b".to_string()));
    app.load_started(4);
    assert_eq!(
        app.update(AppMsg::DataDirReady("/b".to_string())),
        Effect::AwaitLoad { handle: 4, dir: "/b".to_string() }
    );
    app.load_finished("/b".to_string(), LoadOutcome::Loaded(9));
    app.update(AppMsg::SelectKb(Some("umami".to_string())));
    app.update_view();
    // a second report of the same end finds the handle taken
    assert_eq!(app.update(AppMsg::DataDirReady("/b".to_string())), Effect::Idle);
    assert_eq!(app.dm, Some(9));
    assert_eq!(flags(&app), [false; 6]);
    assert_eq!(app.selected_kb, Some("umami".to_string()));
}

#[test]
fn article_search_marks_the_article_list() {
    let mut app = loaded();
    app.update(AppMsg::SelectKb(Some("umami".to_string())));
    app.update_view();
    for text in ["U", "Um", "UMAMI", ""] {
        assert_eq!(app.update(AppMsg::SearchKb(text.to_string())), Effect::Idle);
        assert_eq!(app.kb_search, text);
        assert_eq!(flags(&app), [false, false, true, false, false, false]);
        let todo = app.update_view();
        let list = todo.kb_list.expect("list is rebuilt");
        assert_eq!(list.search, text);
        assert_eq!(list.reselect, Some("umami".to_string()));
        assert!(!app.kb_dirty);
    }
}

#[test]
fn failed_load_keeps_the_engine_and_notifies() {
    let mut app = loaded();
    app.update(AppMsg::SetDataDir("/bad".to_string()));
    app.load_started(3);
    app.update(AppMsg::DataDirReady("/bad".to_string()));
    let effect = app.load_finished("/bad".to_string(), LoadOutcome::Failed("not found".to_string()));
    assert_eq!(
        effect,
        Effect::Enqueue(AppMsg::ShowToast("Could not load data from /bad: not found".to_string()))
    );
    assert_eq!(app.dm, Some(7));
    assert_eq!(flags(&app), [true, true, true, false, false, false]);
}

#[test]
fn lost_loader_changes_nothing() {
    let mut app = loaded();
    let effect = app.load_finished("/x".to_string(), LoadOutcome::Lost);
    assert_eq!(effect, Effect::Idle);
    assert_eq!(app.dm, Some(7));
}

#[test]
fn set_theme_updates_settings() {
    let mut app = fresh();
    assert_eq!(
        app.update(AppMsg::SetTheme("Dark".to_string())),
        Effect::ApplyTheme { theme: Theme::Dark }
    );
    assert_eq!(app.settings.theme, Theme::Dark);
    assert_eq!(
        app.update(AppMsg::SetTheme("Light".to_string())),
        Effect::ApplyTheme { theme: Theme::Light }
    );
    assert_eq!(
        app.update(AppMsg::SetTheme("whatever".to_string())),
        Effect::ApplyTheme { theme: Theme::System }
    );
    assert_eq!(app.settings.theme, Theme::System);
}

#[test]
fn toast_is_handed_on() {
    let mut app = loaded();
    assert_eq!(
        app.update(AppMsg::ShowToast("hello".to_string())),
        Effect::ShowToast("hello".to_string())
    );
    assert_eq!(flags(&app), [false; 6]);
}

#[test]
fn reload_all_marks_lists_and_installs_engine() {
    let mut app = loaded();
    app.update(AppMsg::SelectRecipe(Some("Lasagna".to_string())));
    app.update_view();
    assert_eq!(app.update(AppMsg::ReloadAll), Effect::Reload { dir: "/data".to_string() });
    assert_eq!(flags(&app), [true, true, true, false, false, false]);
    assert_eq!(app.selected_recipe, Some("Lasagna".to_string()));
    app.reloaded(None);
    assert_eq!(app.dm, Some(7));
    app.reloaded(Some(8));
    assert_eq!(app.dm, Some(8));
}
