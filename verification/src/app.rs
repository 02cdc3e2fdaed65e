//! The application state and its transition function.
//!
//! Events are handled one at a time. `App::update` takes an event and changes
//! the state; where the handler needs the engine, the disk or a worker thread
//! it returns an [`Effect`] that says what is to be done, and the embedding
//! program reports the result through `App::resume`, `App::load_started`,
//! `App::load_finished` or `App::reloaded`. After every event
//! `App::update_view` (see the reconciler) says which regions are redrawn.

use vstd::prelude::*;
use crate::config::{Theme, UserSettings, UserSettingsView};
use crate::messages::{
    AppMsg, AppMsgView, Effect, EffectView, EngineCall, EngineCallView, LoadOutcome,
    LoadOutcomeView, Pending, PendingView, StockEntry, StockEntryView, Tab, reply_view,
};
use crate::records::{Ingredient, Recipe};
use crate::text::{holds_text, prefixed, same_text};

verus! {

/// The single state of the application.
///
/// `E` is the handle of a loaded data engine and `L` the receiving end of a
/// background load; the state stores both and never looks inside.
pub struct App<E, L> {
    pub dm: Option<E>,
    pub data_dir: String,
    pub settings: UserSettings,
    pub tab: Tab,
    // Recipes state
    pub recipe_search: String,
    pub selected_recipe: Option<String>,
    // Pantry state
    pub ingredient_search: String,
    pub selected_ingredient: Option<String>,
    pub category_filter: Vec<String>,
    pub in_stock_only: bool,
    // Knowledge base state
    pub kb_search: String,
    pub selected_kb: Option<String>,
    // Dirty flags, one per region that the reconciler rebuilds
    pub recipes_dirty: bool,
    pub pantry_dirty: bool,
    pub kb_dirty: bool,
    pub recipe_detail_dirty: bool,
    pub ingredient_detail_dirty: bool,
    pub kb_detail_dirty: bool,
    // Pending dialog requests, drained by the reconciler
    pub pending_add_recipe: bool,
    pub pending_edit_recipe: Option<String>,
    pub pending_add_ingredient: bool,
    pub pending_edit_ingredient: Option<String>,
    // Receiving end of the background load in progress
    pub pending_dm: Option<L>,
}

/// Mathematical value of [`App`].
pub struct AppView<E, L> {
    pub dm: Option<E>,
    pub data_dir: Seq<char>,
    pub settings: UserSettingsView,
    pub tab: Tab,
    pub recipe_search: Seq<char>,
    pub selected_recipe: Option<Seq<char>>,
    pub ingredient_search: Seq<char>,
    pub selected_ingredient: Option<Seq<char>>,
    pub category_filter: Seq<Seq<char>>,
    pub in_stock_only: bool,
    pub kb_search: Seq<char>,
    pub selected_kb: Option<Seq<char>>,
    pub recipes_dirty: bool,
    pub pantry_dirty: bool,
    pub kb_dirty: bool,
    pub recipe_detail_dirty: bool,
    pub ingredient_detail_dirty: bool,
    pub kb_detail_dirty: bool,
    pub pending_add_recipe: bool,
    pub pending_edit_recipe: Option<Seq<char>>,
    pub pending_add_ingredient: bool,
    pub pending_edit_ingredient: Option<Seq<char>>,
    pub pending_dm: Option<L>,
}

impl<E, L> View for App<E, L> {
    type V = AppView<E, L>;

    open spec fn view(&self) -> AppView<E, L> {
        AppView {
            dm: self.dm,
            data_dir: self.data_dir@,
            settings: self.settings@,
            tab: self.tab,
            recipe_search: self.recipe_search@,
            selected_recipe: self.selected_recipe.deep_view(),
            ingredient_search: self.ingredient_search@,
            selected_ingredient: self.selected_ingredient.deep_view(),
            category_filter: self.category_filter.deep_view(),
            in_stock_only: self.in_stock_only,
            kb_search: self.kb_search@,
            selected_kb: self.selected_kb.deep_view(),
            recipes_dirty: self.recipes_dirty,
            pantry_dirty: self.pantry_dirty,
            kb_dirty: self.kb_dirty,
            recipe_detail_dirty: self.recipe_detail_dirty,
            ingredient_detail_dirty: self.ingredient_detail_dirty,
            kb_detail_dirty: self.kb_detail_dirty,
            pending_add_recipe: self.pending_add_recipe,
            pending_edit_recipe: self.pending_edit_recipe.deep_view(),
            pending_add_ingredient: self.pending_add_ingredient,
            pending_edit_ingredient: self.pending_edit_ingredient.deep_view(),
            pending_dm: self.pending_dm,
        }
    }
}

impl<E, L> AppView<E, L> {
    /// The state at startup: no engine, the recipes page in front, nothing
    /// searched or selected, every list due for its first drawing, no dialog
    /// asked for, and the first load under way.
    pub open spec fn initial(settings: UserSettingsView, data_dir: Seq<char>, loader: L) -> Self {
        AppView {
            dm: None,
            data_dir,
            settings,
            tab: Tab::Recipes,
            recipe_search: Seq::empty(),
            selected_recipe: None,
            ingredient_search: Seq::empty(),
            selected_ingredient: None,
            category_filter: Seq::empty(),
            in_stock_only: false,
            kb_search: Seq::empty(),
            selected_kb: None,
            recipes_dirty: true,
            pantry_dirty: true,
            kb_dirty: true,
            recipe_detail_dirty: false,
            ingredient_detail_dirty: false,
            kb_detail_dirty: false,
            pending_add_recipe: false,
            pending_edit_recipe: None,
            pending_add_ingredient: false,
            pending_edit_ingredient: None,
            pending_dm: Some(loader),
        }
    }

    /// The same state with every list marked stale.
    pub open spec fn with_lists_stale(self) -> Self {
        AppView { recipes_dirty: true, pantry_dirty: true, kb_dirty: true, ..self }
    }

    /// The same state with nothing selected on any page.
    pub open spec fn with_nothing_selected(self) -> Self {
        AppView { selected_recipe: None, selected_ingredient: None, selected_kb: None, ..self }
    }

    /// The same state after a recipe has been saved under `title`.
    pub open spec fn with_recipe_saved(self, title: Seq<char>) -> Self {
        AppView {
            selected_recipe: Some(title),
            recipes_dirty: true,
            recipe_detail_dirty: true,
            ..self
        }
    }

    /// The same state after the recipe `title` has been deleted.
    pub open spec fn with_recipe_deleted(self, title: Seq<char>) -> Self {
        AppView {
            selected_recipe: if self.selected_recipe == Some(title) {
                None
            } else {
                self.selected_recipe
            },
            recipes_dirty: true,
            recipe_detail_dirty: true,
            ..self
        }
    }

    /// The same state after an ingredient has been saved under `name`. The
    /// recipe list is stale too: what a recipe can be cooked from has changed.
    pub open spec fn with_ingredient_saved(self, name: Seq<char>) -> Self {
        AppView {
            selected_ingredient: Some(name),
            pantry_dirty: true,
            ingredient_detail_dirty: true,
            recipes_dirty: true,
            ..self
        }
    }

    /// The same state after the ingredient `name` has been deleted.
    pub open spec fn with_ingredient_deleted(self, name: Seq<char>) -> Self {
        AppView {
            selected_ingredient: if self.selected_ingredient == Some(name) {
                None
            } else {
                self.selected_ingredient
            },
            pantry_dirty: true,
            ingredient_detail_dirty: true,
            recipes_dirty: true,
            ..self
        }
    }
}

/// Text of the notice for a failed engine call.
pub open spec fn failure_notice(reason: Seq<char>) -> Seq<char> {
    "Error: "@ + reason
}

/// Text of the notice for a recipe that could not be saved.
pub open spec fn save_recipe_notice(reason: Seq<char>) -> Seq<char> {
    "Error saving recipe: "@ + reason
}

/// Text of the notice for a data directory that could not be loaded.
pub open spec fn load_notice(dir: Seq<char>, reason: Seq<char>) -> Seq<char> {
    "Could not load data from "@ + dir + ": "@ + reason
}

/// The engine call that saves a recipe: an update where the recipe had a
/// title before, a creation where it is new.
pub open spec fn save_recipe_call(
    original: Option<Seq<char>>,
    recipe: crate::records::RecipeView,
) -> EngineCallView {
    match original {
        Some(title) => EngineCallView::UpdateRecipe { original: title, recipe },
        None => EngineCallView::CreateRecipe { recipe },
    }
}

/// The pantry entry that goes with a new ingredient: none where the
/// ingredient is not in the pantry, else the amount as given and the unit
/// unless it is empty.
pub open spec fn stock_of_new(
    in_pantry: bool,
    qty: Option<Seq<char>>,
    qty_type: Seq<char>,
) -> Option<StockEntryView> {
    if in_pantry {
        Some(
            StockEntryView {
                quantity: qty,
                quantity_type: if qty_type.len() == 0 {
                    None
                } else {
                    Some(qty_type)
                },
            },
        )
    } else {
        None
    }
}

/// The state and the effect that follow from one event.
///
/// Navigation, search, selection and dialog requests change the state at
/// once. Saving and deleting leave the state alone and ask for an engine
/// call, or do nothing at all where no engine is loaded. A change of the data
/// directory stores the directory, drops the load in progress and asks for a
/// new one. The end of a load counts where a load is pending and the event
/// reports the data directory of the state: the pending load is taken, every
/// list is marked stale and every selection is cleared. The end of any other
/// load, one that was superseded or whose handle is taken already, changes
/// nothing.
pub open spec fn step<E, L>(s: AppView<E, L>, m: AppMsgView) -> (AppView<E, L>, EffectView<L>) {
    match m {
        AppMsgView::SwitchTab(tab) => (AppView { tab, ..s }, EffectView::Idle),
        AppMsgView::SearchRecipes(q) => (
            AppView { recipe_search: q, recipes_dirty: true, ..s },
            EffectView::Idle,
        ),
        AppMsgView::SelectRecipe(title) => (
            AppView { selected_recipe: title, recipe_detail_dirty: true, ..s },
            EffectView::Idle,
        ),
        AppMsgView::AddRecipe => (AppView { pending_add_recipe: true, ..s }, EffectView::Idle),
        AppMsgView::EditRecipe(title) => (
            AppView { pending_edit_recipe: Some(title), ..s },
            EffectView::Idle,
        ),
        AppMsgView::DeleteRecipe(title) => if s.dm is Some {
            (
                s,
                EffectView::Call {
                    call: EngineCallView::DeleteRecipe { title },
                    then: PendingView::DeleteRecipe { title },
                },
            )
        } else {
            (s, EffectView::Idle)
        },
        AppMsgView::SaveRecipe { original, recipe } => if s.dm is Some {
            (
                s,
                EffectView::Call {
                    call: save_recipe_call(original, recipe),
                    then: PendingView::SaveRecipe { title: recipe.title },
                },
            )
        } else {
            (s, EffectView::Idle)
        },
        AppMsgView::SearchIngredients(q) => (
            AppView { ingredient_search: q, pantry_dirty: true, ..s },
            EffectView::Idle,
        ),
        AppMsgView::SelectIngredient(name) => (
            AppView { selected_ingredient: name, ingredient_detail_dirty: true, ..s },
            EffectView::Idle,
        ),
        AppMsgView::ToggleInStockOnly(on) => (
            AppView { in_stock_only: on, pantry_dirty: true, ..s },
            EffectView::Idle,
        ),
        AppMsgView::AddIngredient => (
            AppView { pending_add_ingredient: true, ..s },
            EffectView::Idle,
        ),
        AppMsgView::EditIngredient(name) => (
            AppView { pending_edit_ingredient: Some(name), ..s },
            EffectView::Idle,
        ),
        AppMsgView::DeleteIngredient(name) => if s.dm is Some {
            (
                s,
                EffectView::Call {
                    call: EngineCallView::DeleteIngredient { name },
                    then: PendingView::DeleteIngredient { name },
                },
            )
        } else {
            (s, EffectView::Idle)
        },
        AppMsgView::SaveIngredient { original, ingredient, in_pantry, qty, qty_type } => {
            if s.dm is Some {
                match original {
                    Some(old_name) => (
                        s,
                        EffectView::Call {
                            call: EngineCallView::UpdateIngredientWithPantry {
                                original: old_name,
                                ingredient,
                                quantity: if in_pantry {
                                    qty
                                } else {
                                    None
                                },
                                quantity_type: if in_pantry {
                                    Some(qty_type)
                                } else {
                                    None
                                },
                                remove_from_pantry: !in_pantry,
                            },
                            then: PendingView::SaveIngredient { name: ingredient.name },
                        },
                    ),
                    None => (
                        s,
                        EffectView::Call {
                            call: EngineCallView::CreateIngredient { ingredient },
                            then: PendingView::CreateIngredient {
                                name: ingredient.name,
                                stock: stock_of_new(in_pantry, qty, qty_type),
                            },
                        },
                    ),
                }
            } else {
                (s, EffectView::Idle)
            }
        },
        AppMsgView::SearchKb(q) => (AppView { kb_search: q, kb_dirty: true, ..s }, EffectView::Idle),
        AppMsgView::SelectKb(slug) => (
            AppView { selected_kb: slug, kb_detail_dirty: true, ..s },
            EffectView::Idle,
        ),
        AppMsgView::SetDataDir(dir) => (
            AppView {
                data_dir: dir,
                settings: UserSettingsView { data_dir: Some(dir), ..s.settings },
                pending_dm: None,
                ..s
            },
            EffectView::StartLoad { dir },
        ),
        AppMsgView::DataDirReady(dir) => match s.pending_dm {
            Some(handle) => if dir == s.data_dir {
                (
                    AppView { pending_dm: None, ..s }.with_lists_stale().with_nothing_selected(),
                    EffectView::AwaitLoad { handle, dir },
                )
            } else {
                (s, EffectView::Idle)
            },
            None => (s, EffectView::Idle),
        },
        AppMsgView::SetTheme(name) => (
            AppView {
                settings: UserSettingsView { theme: Theme::named(name), ..s.settings },
                ..s
            },
            EffectView::ApplyTheme { theme: Theme::named(name) },
        ),
        AppMsgView::ShowToast(text) => (s, EffectView::ShowToast(text)),
        AppMsgView::ReloadAll => (s.with_lists_stale(), EffectView::Reload { dir: s.data_dir }),
    }
}

/// The state and the effect that follow from the engine's answer to a call.
///
/// A failure leaves the state as it is and puts a notice in the queue. A
/// success selects what was saved, or drops the selection of what was
/// deleted, and marks the list and the detail of that kind stale, for an
/// ingredient the recipe list as well. After a new ingredient was created its
/// pantry entry, if it has one, is written by a second call.
pub open spec fn resumed<E, L>(
    s: AppView<E, L>,
    then: PendingView,
    reply: Result<(), Seq<char>>,
) -> (AppView<E, L>, EffectView<L>) {
    match reply {
        Err(reason) => (
            s,
            EffectView::Enqueue(
                AppMsgView::ShowToast(
                    if then is SaveRecipe {
                        save_recipe_notice(reason)
                    } else {
                        failure_notice(reason)
                    },
                ),
            ),
        ),
        Ok(_) => match then {
            PendingView::DeleteRecipe { title } => (s.with_recipe_deleted(title), EffectView::Idle),
            PendingView::SaveRecipe { title } => (s.with_recipe_saved(title), EffectView::Idle),
            PendingView::DeleteIngredient { name } => (
                s.with_ingredient_deleted(name),
                EffectView::Idle,
            ),
            PendingView::SaveIngredient { name } => (
                s.with_ingredient_saved(name),
                EffectView::Idle,
            ),
            PendingView::CreateIngredient { name, stock } => match stock {
                Some(entry) => (
                    s,
                    EffectView::Call {
                        call: EngineCallView::UpdatePantryItem {
                            name,
                            quantity: entry.quantity,
                            quantity_type: entry.quantity_type,
                        },
                        then: PendingView::SaveIngredient { name },
                    },
                ),
                None => (s.with_ingredient_saved(name), EffectView::Idle),
            },
        },
    }
}

/// The state and the effect that follow from the end of a background load:
/// a loaded engine takes the place of the one before, a failure keeps the one
/// before and puts a notice in the queue, a lost loader changes nothing.
pub open spec fn load_applied<E, L>(
    s: AppView<E, L>,
    dir: Seq<char>,
    outcome: LoadOutcomeView<E>,
) -> (AppView<E, L>, EffectView<L>) {
    match outcome {
        LoadOutcomeView::Loaded(engine) => (AppView { dm: Some(engine), ..s }, EffectView::Idle),
        LoadOutcomeView::Failed(reason) => (
            s,
            EffectView::Enqueue(AppMsgView::ShowToast(load_notice(dir, reason))),
        ),
        LoadOutcomeView::Lost => (s, EffectView::Idle),
    }
}

/// The state after an engine that was opened at once has been handed in: it
/// takes the place of the one before; where none opened the one before stays.
pub open spec fn reload_applied<E, L>(s: AppView<E, L>, engine: Option<E>) -> AppView<E, L> {
    match engine {
        Some(opened) => AppView { dm: Some(opened), ..s },
        None => s,
    }
}

impl<E, L> App<E, L> {
    /// The state at startup, with `loader` the receiving end of the first
    /// background load.
    pub fn init(settings: UserSettings, data_dir: String, loader: L) -> (app: App<E, L>)
        ensures
            app@ == AppView::<E, L>::initial(settings@, data_dir@, loader),
    {
        let app = App {
            dm: None,
            data_dir,
            settings,
            tab: Tab::Recipes,
            recipe_search: String::new(),
            selected_recipe: None,
            ingredient_search: String::new(),
            selected_ingredient: None,
            category_filter: Vec::new(),
            in_stock_only: false,
            kb_search: String::new(),
            selected_kb: None,
            recipes_dirty: true,
            pantry_dirty: true,
            kb_dirty: true,
            recipe_detail_dirty: false,
            ingredient_detail_dirty: false,
            kb_detail_dirty: false,
            pending_add_recipe: false,
            pending_edit_recipe: None,
            pending_add_ingredient: false,
            pending_edit_ingredient: None,
            pending_dm: Some(loader),
        };
        assert(app.category_filter.deep_view() =~= Seq::<Seq<char>>::empty());
        app
    }

    /// Handles one event.
    pub fn update(&mut self, msg: AppMsg) -> (effect: Effect<L>)
        ensures
            (final(self)@, effect@) == step(old(self)@, msg@),
    {
        match msg {
            AppMsg::SwitchTab(tab) => self.switch_tab(tab),
            AppMsg::SearchRecipes(q) => self.search_recipes(q),
            AppMsg::SelectRecipe(title) => self.select_recipe(title),
            AppMsg::AddRecipe => self.add_recipe(),
            AppMsg::EditRecipe(title) => self.edit_recipe(title),
            AppMsg::DeleteRecipe(title) => self.delete_recipe(title),
            AppMsg::SaveRecipe { original, recipe } => self.save_recipe(original, recipe),
            AppMsg::SearchIngredients(q) => self.search_ingredients(q),
            AppMsg::SelectIngredient(name) => self.select_ingredient(name),
            AppMsg::ToggleInStockOnly(on) => self.toggle_in_stock_only(on),
            AppMsg::AddIngredient => self.add_ingredient(),
            AppMsg::EditIngredient(name) => self.edit_ingredient(name),
            AppMsg::DeleteIngredient(name) => self.delete_ingredient(name),
            AppMsg::SaveIngredient { original, ingredient, in_pantry, qty, qty_type } => {
                self.save_ingredient(original, ingredient, in_pantry, qty, qty_type)
            },
            AppMsg::SearchKb(q) => self.search_kb(q),
            AppMsg::SelectKb(slug) => self.select_kb(slug),
            AppMsg::SetDataDir(dir) => self.set_data_dir(dir),
            AppMsg::DataDirReady(dir) => self.data_dir_ready(dir),
            AppMsg::SetTheme(name) => self.set_theme(name),
            AppMsg::ShowToast(text) => Effect::ShowToast(text),
            AppMsg::ReloadAll => self.reload_all(),
        }
    }

    fn switch_tab(&mut self, tab: Tab) -> (effect: Effect<L>)
        ensures
            (final(self)@, effect@) == step(old(self)@, AppMsgView::SwitchTab(tab)),
    {
        self.tab = tab;
        Effect::Idle
    }

    fn search_recipes(&mut self, q: String) -> (effect: Effect<L>)
        ensures
            (final(self)@, effect@) == step(old(self)@, AppMsgView::SearchRecipes(q@)),
    {
        self.recipe_search = q;
        self.recipes_dirty = true;
        Effect::Idle
    }

    fn select_recipe(&mut self, title: Option<String>) -> (effect: Effect<L>)
        ensures
            (final(self)@, effect@) == step(old(self)@, AppMsgView::SelectRecipe(title.deep_view())),
    {
        self.selected_recipe = title;
        self.recipe_detail_dirty = true;
        Effect::Idle
    }

    fn add_recipe(&mut self) -> (effect: Effect<L>)
        ensures
            (final(self)@, effect@) == step(old(self)@, AppMsgView::AddRecipe),
    {
        self.pending_add_recipe = true;
        Effect::Idle
    }

    fn edit_recipe(&mut self, title: String) -> (effect: Effect<L>)
        ensures
            (final(self)@, effect@) == step(old(self)@, AppMsgView::EditRecipe(title@)),
    {
        self.pending_edit_recipe = Some(title);
        Effect::Idle
    }

    fn search_ingredients(&mut self, q: String) -> (effect: Effect<L>)
        ensures
            (final(self)@, effect@) == step(old(self)@, AppMsgView::SearchIngredients(q@)),
    {
        self.ingredient_search = q;
        self.pantry_dirty = true;
        Effect::Idle
    }

    fn select_ingredient(&mut self, name: Option<String>) -> (effect: Effect<L>)
        ensures
            (final(self)@, effect@) == step(old(self)@, AppMsgView::SelectIngredient(name.deep_view())),
    {
        self.selected_ingredient = name;
        self.ingredient_detail_dirty = true;
        Effect::Idle
    }

    fn toggle_in_stock_only(&mut self, on: bool) -> (effect: Effect<L>)
        ensures
            (final(self)@, effect@) == step(old(self)@, AppMsgView::ToggleInStockOnly(on)),
    {
        self.in_stock_only = on;
        self.pantry_dirty = true;
        Effect::Idle
    }

    fn add_ingredient(&mut self) -> (effect: Effect<L>)
        ensures
            (final(self)@, effect@) == step(old(self)@, AppMsgView::AddIngredient),
    {
        self.pending_add_ingredient = true;
        Effect::Idle
    }

    fn edit_ingredient(&mut self, name: String) -> (effect: Effect<L>)
        ensures
            (final(self)@, effect@) == step(old(self)@, AppMsgView::EditIngredient(name@)),
    {
        self.pending_edit_ingredient = Some(name);
        Effect::Idle
    }

    fn search_kb(&mut self, q: String) -> (effect: Effect<L>)
        ensures
            (final(self)@, effect@) == step(old(self)@, AppMsgView::SearchKb(q@)),
    {
        self.kb_search = q;
        self.kb_dirty = true;
        Effect::Idle
    }

    fn select_kb(&mut self, slug: Option<String>) -> (effect: Effect<L>)
        ensures
            (final(self)@, effect@) == step(old(self)@, AppMsgView::SelectKb(slug.deep_view())),
    {
        self.selected_kb = slug;
        self.kb_detail_dirty = true;
        Effect::Idle
    }

    fn set_theme(&mut self, name: String) -> (effect: Effect<L>)
        ensures
            (final(self)@, effect@) == step(old(self)@, AppMsgView::SetTheme(name@)),
    {
        let theme = Theme::from_name(name.as_str());
        self.settings.theme = theme;
        Effect::ApplyTheme { theme }
    }

    fn reload_all(&mut self) -> (effect: Effect<L>)
        ensures
            (final(self)@, effect@) == step(old(self)@, AppMsgView::ReloadAll),
    {
        self.recipes_dirty = true;
        self.pantry_dirty = true;
        self.kb_dirty = true;
        Effect::Reload { dir: self.data_dir.clone() }
    }

    fn delete_recipe(&mut self, title: String) -> (effect: Effect<L>)
        ensures
            (final(self)@, effect@) == step(old(self)@, AppMsgView::DeleteRecipe(title@)),
    {
        if self.dm.is_some() {
            let kept = title.clone();
            Effect::Call {
                call: EngineCall::DeleteRecipe { title },
                then: Pending::DeleteRecipe { title: kept },
            }
        } else {
            Effect::Idle
        }
    }

    fn save_recipe(&mut self, original: Option<String>, recipe: Recipe) -> (effect: Effect<L>)
        ensures
            (final(self)@, effect@) == step(
                old(self)@,
                AppMsgView::SaveRecipe { original: original.deep_view(), recipe: recipe@ },
            ),
    {
        if self.dm.is_some() {
            let title = recipe.title.clone();
            let call = match original {
                Some(old_title) => EngineCall::UpdateRecipe { original: old_title, recipe },
                None => EngineCall::CreateRecipe { recipe },
            };
            Effect::Call { call, then: Pending::SaveRecipe { title } }
        } else {
            Effect::Idle
        }
    }

    fn delete_ingredient(&mut self, name: String) -> (effect: Effect<L>)
        ensures
            (final(self)@, effect@) == step(old(self)@, AppMsgView::DeleteIngredient(name@)),
    {
        if self.dm.is_some() {
            let kept = name.clone();
            Effect::Call {
                call: EngineCall::DeleteIngredient { name },
                then: Pending::DeleteIngredient { name: kept },
            }
        } else {
            Effect::Idle
        }
    }

    fn save_ingredient(
        &mut self,
        original: Option<String>,
        ingredient: Ingredient,
        in_pantry: bool,
        qty: Option<String>,
        qty_type: String,
    ) -> (effect: Effect<L>)
        ensures
            (final(self)@, effect@) == step(
                old(self)@,
                AppMsgView::SaveIngredient {
                    original: original.deep_view(),
                    ingredient: ingredient@,
                    in_pantry,
                    qty: qty.deep_view(),
                    qty_type: qty_type@,
                },
            ),
    {
        if self.dm.is_some() {
            let name = ingredient.name.clone();
            match original {
                Some(old_name) => {
                    let (quantity, quantity_type) = if in_pantry {
                        (qty, Some(qty_type))
                    } else {
                        (None, None)
                    };
                    Effect::Call {
                        call: EngineCall::UpdateIngredientWithPantry {
                            original: old_name,
                            ingredient,
                            quantity,
                            quantity_type,
                            remove_from_pantry: !in_pantry,
                        },
                        then: Pending::SaveIngredient { name },
                    }
                },
                None => {
                    let stock = if in_pantry {
                        let quantity_type = if qty_type.as_str().is_empty() {
                            None
                        } else {
                            Some(qty_type)
                        };
                        Some(StockEntry { quantity: qty, quantity_type })
                    } else {
                        None
                    };
                    Effect::Call {
                        call: EngineCall::CreateIngredient { ingredient },
                        then: Pending::CreateIngredient { name, stock },
                    }
                },
            }
        } else {
            Effect::Idle
        }
    }

    fn set_data_dir(&mut self, dir: String) -> (effect: Effect<L>)
        ensures
            (final(self)@, effect@) == step(old(self)@, AppMsgView::SetDataDir(dir@)),
    {
        self.data_dir = dir.clone();
        self.settings.data_dir = Some(dir.clone());
        self.pending_dm = None;
        Effect::StartLoad { dir }
    }

    fn data_dir_ready(&mut self, dir: String) -> (effect: Effect<L>)
        ensures
            (final(self)@, effect@) == step(old(self)@, AppMsgView::DataDirReady(dir@)),
    {
        if !same_text(dir.as_str(), self.data_dir.as_str()) {
            return Effect::Idle;
        }
        match self.pending_dm.take() {
            Some(handle) => {
                self.recipes_dirty = true;
                self.pantry_dirty = true;
                self.kb_dirty = true;
                self.selected_recipe = None;
                self.selected_ingredient = None;
                self.selected_kb = None;
                Effect::AwaitLoad { handle, dir }
            },
            None => Effect::Idle,
        }
    }

    /// Goes on with a handler that waited for the engine, given the engine's
    /// answer: nothing on success, the reason on failure.
    pub fn resume(&mut self, then: Pending, reply: Result<(), String>) -> (effect: Effect<L>)
        ensures
            (final(self)@, effect@) == resumed(old(self)@, then@, reply_view(reply)),
    {
        match reply {
            Err(reason) => {
                let text = match then {
                    Pending::SaveRecipe { .. } => prefixed("Error saving recipe: ", reason.as_str()),
                    _ => prefixed("Error: ", reason.as_str()),
                };
                Effect::Enqueue(AppMsg::ShowToast(text))
            },
            Ok(_) => match then {
                Pending::DeleteRecipe { title } => {
                    if holds_text(&self.selected_recipe, title.as_str()) {
                        self.selected_recipe = None;
                    }
                    self.recipes_dirty = true;
                    self.recipe_detail_dirty = true;
                    Effect::Idle
                },
                Pending::SaveRecipe { title } => {
                    self.selected_recipe = Some(title);
                    self.recipes_dirty = true;
                    self.recipe_detail_dirty = true;
                    Effect::Idle
                },
                Pending::DeleteIngredient { name } => {
                    if holds_text(&self.selected_ingredient, name.as_str()) {
                        self.selected_ingredient = None;
                    }
                    self.pantry_dirty = true;
                    self.ingredient_detail_dirty = true;
                    self.recipes_dirty = true;
                    Effect::Idle
                },
                Pending::SaveIngredient { name } => {
                    self.selected_ingredient = Some(name);
                    self.pantry_dirty = true;
                    self.ingredient_detail_dirty = true;
                    self.recipes_dirty = true;
                    Effect::Idle
                },
                Pending::CreateIngredient { name, stock } => match stock {
                    Some(entry) => {
                        let kept = name.clone();
                        Effect::Call {
                            call: EngineCall::UpdatePantryItem {
                                name,
                                quantity: entry.quantity,
                                quantity_type: entry.quantity_type,
                            },
                            then: Pending::SaveIngredient { name: kept },
                        }
                    },
                    None => {
                        self.selected_ingredient = Some(name);
                        self.pantry_dirty = true;
                        self.ingredient_detail_dirty = true;
                        self.recipes_dirty = true;
                        Effect::Idle
                    },
                },
            },
        }
    }

    /// Stores the receiving end of the background load that was just started.
    /// An end stored before is dropped, so its load is never looked at.
    pub fn load_started(&mut self, handle: L)
        ensures
            final(self)@ == (AppView { pending_dm: Some(handle), ..old(self)@ }),
    {
        self.pending_dm = Some(handle);
    }

    /// Takes in the result of the background load of `dir`.
    pub fn load_finished(&mut self, dir: String, outcome: LoadOutcome<E>) -> (effect: Effect<L>)
        ensures
            (final(self)@, effect@) == load_applied(old(self)@, dir@, outcome@),
    {
        match outcome {
            LoadOutcome::Loaded(engine) => {
                self.dm = Some(engine);
                Effect::Idle
            },
            LoadOutcome::Failed(reason) => {
                let head = prefixed("Could not load data from ", dir.as_str());
                let middle = prefixed(head.as_str(), ": ");
                let text = prefixed(middle.as_str(), reason.as_str());
                Effect::Enqueue(AppMsg::ShowToast(text))
            },
            LoadOutcome::Lost => Effect::Idle,
        }
    }

    /// Takes in the engine that a reload opened, if it opened one.
    pub fn reloaded(&mut self, engine: Option<E>)
        ensures
            final(self)@ == reload_applied(old(self)@, engine),
    {
        match engine {
            Some(opened) => {
                self.dm = Some(opened);
            },
            None => {},
        }
    }
}

} // verus!
