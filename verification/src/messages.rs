//! The events that the application reacts to, and the requests that it hands
//! to the embedding program in return.

use vstd::prelude::*;
use crate::config::Theme;
use crate::records::{Ingredient, IngredientView, Recipe, RecipeView};
use crate::text::same_text;

verus! {

/// The pages of the main window.
#[derive(Debug, Clone, Copy, PartialEq, Eq, Structural)]
pub enum Tab {
    Recipes,
    Pantry,
    Kb,
    Settings,
}

impl Tab {
    /// The page that a row of the navigation list stands for. A name that
    /// belongs to no page stands for the recipes.
    pub open spec fn named(name: Seq<char>) -> Tab {
        if name == "pantry"@ {
            Tab::Pantry
        } else if name == "kb"@ {
            Tab::Kb
        } else if name == "settings"@ {
            Tab::Settings
        } else {
            Tab::Recipes
        }
    }

    /// The name of the page in the stack and in the navigation list.
    pub open spec fn spelled(self) -> Seq<char> {
        match self {
            Tab::Recipes => "recipes"@,
            Tab::Pantry => "pantry"@,
            Tab::Kb => "kb"@,
            Tab::Settings => "settings"@,
        }
    }

    /// Name of the page in the stack and in the navigation list.
    pub fn name(&self) -> (name: &'static str)
        ensures
            name@ == self.spelled(),
    {
        match self {
            Tab::Recipes => "recipes",
            Tab::Pantry => "pantry",
            Tab::Kb => "kb",
            Tab::Settings => "settings",
        }
    }

    /// Title of the page as the navigation list shows it.
    pub fn label(&self) -> (label: &'static str)
        ensures
            label@ == match *self {
                Tab::Recipes => "Recipes"@,
                Tab::Pantry => "Pantry"@,
                Tab::Kb => "Knowledge Base"@,
                Tab::Settings => "Settings"@,
            },
    {
        match self {
            Tab::Recipes => "Recipes",
            Tab::Pantry => "Pantry",
            Tab::Kb => "Knowledge Base",
            Tab::Settings => "Settings",
        }
    }

    /// Name of the icon beside the page's title.
    pub fn icon(&self) -> (icon: &'static str)
        ensures
            icon@ == match *self {
                Tab::Recipes => "emblem-documents-symbolic"@,
                Tab::Pantry => "view-list-symbolic"@,
                Tab::Kb => "system-help-symbolic"@,
                Tab::Settings => "preferences-system-symbolic"@,
            },
    {
        match self {
            Tab::Recipes => "emblem-documents-symbolic",
            Tab::Pantry => "view-list-symbolic",
            Tab::Kb => "system-help-symbolic",
            Tab::Settings => "preferences-system-symbolic",
        }
    }

    /// Reads a page from the name of a navigation row.
    pub fn from_name(name: &str) -> (tab: Tab)
        ensures
            tab == Tab::named(name@),
    {
        if same_text(name, "pantry") {
            Tab::Pantry
        } else if same_text(name, "kb") {
            Tab::Kb
        } else if same_text(name, "settings") {
            Tab::Settings
        } else {
            Tab::Recipes
        }
    }

    /// The pages in the order of the navigation list.
    pub fn all() -> (tabs: Vec<Tab>)
        ensures
            tabs@ == seq![Tab::Recipes, Tab::Pantry, Tab::Kb, Tab::Settings],
    {
        let mut tabs: Vec<Tab> = Vec::new();
        tabs.push(Tab::Recipes);
        tabs.push(Tab::Pantry);
        tabs.push(Tab::Kb);
        tabs.push(Tab::Settings);
        assert(tabs@ =~= seq![Tab::Recipes, Tab::Pantry, Tab::Kb, Tab::Settings]);
        tabs
    }
}

/// Every page is read back from its own name.
pub proof fn tab_name_round_trip(tab: Tab)
    ensures
        Tab::named(tab.spelled()) == tab,
{
    reveal_strlit("recipes");
    reveal_strlit("pantry");
    reveal_strlit("kb");
    reveal_strlit("settings");
    assert("kb"@.len() == 2);
    assert("pantry"@.len() == 6);
    assert("recipes"@.len() == 7);
    assert("settings"@.len() == 8);
}

/// An event: something the user did, or something the system reports.
#[derive(Debug, PartialEq)]
pub enum AppMsg {
    // Navigation
    SwitchTab(Tab),
    // Recipes
    SearchRecipes(String),
    SelectRecipe(Option<String>),
    AddRecipe,
    EditRecipe(String),
    DeleteRecipe(String),
    SaveRecipe { original: Option<String>, recipe: Recipe },
    // Pantry
    SearchIngredients(String),
    SelectIngredient(Option<String>),
    ToggleInStockOnly(bool),
    AddIngredient,
    EditIngredient(String),
    DeleteIngredient(String),
    SaveIngredient {
        original: Option<String>,
        ingredient: Ingredient,
        in_pantry: bool,
        qty: Option<String>,
        qty_type: String,
    },
    // Knowledge base
    SearchKb(String),
    SelectKb(Option<String>),
    // Settings
    SetDataDir(String),
    DataDirReady(String),
    SetTheme(String),
    // System
    ShowToast(String),
    ReloadAll,
}

/// Mathematical value of [`AppMsg`].
pub enum AppMsgView {
    SwitchTab(Tab),
    SearchRecipes(Seq<char>),
    SelectRecipe(Option<Seq<char>>),
    AddRecipe,
    EditRecipe(Seq<char>),
    DeleteRecipe(Seq<char>),
    SaveRecipe { original: Option<Seq<char>>, recipe: RecipeView },
    SearchIngredients(Seq<char>),
    SelectIngredient(Option<Seq<char>>),
    ToggleInStockOnly(bool),
    AddIngredient,
    EditIngredient(Seq<char>),
    DeleteIngredient(Seq<char>),
    SaveIngredient {
        original: Option<Seq<char>>,
        ingredient: IngredientView,
        in_pantry: bool,
        qty: Option<Seq<char>>,
        qty_type: Seq<char>,
    },
    SearchKb(Seq<char>),
    SelectKb(Option<Seq<char>>),
    SetDataDir(Seq<char>),
    DataDirReady(Seq<char>),
    SetTheme(Seq<char>),
    ShowToast(Seq<char>),
    ReloadAll,
}

impl View for AppMsg {
    type V = AppMsgView;

    open spec fn view(&self) -> AppMsgView {
        match *self {
            AppMsg::SwitchTab(tab) => AppMsgView::SwitchTab(tab),
            AppMsg::SearchRecipes(q) => AppMsgView::SearchRecipes(q@),
            AppMsg::SelectRecipe(title) => AppMsgView::SelectRecipe(title.deep_view()),
            AppMsg::AddRecipe => AppMsgView::AddRecipe,
            AppMsg::EditRecipe(title) => AppMsgView::EditRecipe(title@),
            AppMsg::DeleteRecipe(title) => AppMsgView::DeleteRecipe(title@),
            AppMsg::SaveRecipe { original, recipe } => AppMsgView::SaveRecipe {
                original: original.deep_view(),
                recipe: recipe@,
            },
            AppMsg::SearchIngredients(q) => AppMsgView::SearchIngredients(q@),
            AppMsg::SelectIngredient(name) => AppMsgView::SelectIngredient(name.deep_view()),
            AppMsg::ToggleInStockOnly(on) => AppMsgView::ToggleInStockOnly(on),
            AppMsg::AddIngredient => AppMsgView::AddIngredient,
            AppMsg::EditIngredient(name) => AppMsgView::EditIngredient(name@),
            AppMsg::DeleteIngredient(name) => AppMsgView::DeleteIngredient(name@),
            AppMsg::SaveIngredient { original, ingredient, in_pantry, qty, qty_type } => {
                AppMsgView::SaveIngredient {
                    original: original.deep_view(),
                    ingredient: ingredient@,
                    in_pantry,
                    qty: qty.deep_view(),
                    qty_type: qty_type@,
                }
            },
            AppMsg::SearchKb(q) => AppMsgView::SearchKb(q@),
            AppMsg::SelectKb(slug) => AppMsgView::SelectKb(slug.deep_view()),
            AppMsg::SetDataDir(dir) => AppMsgView::SetDataDir(dir@),
            AppMsg::DataDirReady(dir) => AppMsgView::DataDirReady(dir@),
            AppMsg::SetTheme(name) => AppMsgView::SetTheme(name@),
            AppMsg::ShowToast(text) => AppMsgView::ShowToast(text@),
            AppMsg::ReloadAll => AppMsgView::ReloadAll,
        }
    }
}

impl Clone for AppMsg {
    fn clone(&self) -> (copy: AppMsg)
        ensures
            copy@ == self@,
    {
        match self {
            AppMsg::SwitchTab(tab) => AppMsg::SwitchTab(*tab),
            AppMsg::SearchRecipes(q) => AppMsg::SearchRecipes(q.clone()),
            AppMsg::SelectRecipe(title) => AppMsg::SelectRecipe(title.clone()),
            AppMsg::AddRecipe => AppMsg::AddRecipe,
            AppMsg::EditRecipe(title) => AppMsg::EditRecipe(title.clone()),
            AppMsg::DeleteRecipe(title) => AppMsg::DeleteRecipe(title.clone()),
            AppMsg::SaveRecipe { original, recipe } => AppMsg::SaveRecipe {
                original: original.clone(),
                recipe: recipe.clone(),
            },
            AppMsg::SearchIngredients(q) => AppMsg::SearchIngredients(q.clone()),
            AppMsg::SelectIngredient(name) => AppMsg::SelectIngredient(name.clone()),
            AppMsg::ToggleInStockOnly(on) => AppMsg::ToggleInStockOnly(*on),
            AppMsg::AddIngredient => AppMsg::AddIngredient,
            AppMsg::EditIngredient(name) => AppMsg::EditIngredient(name.clone()),
            AppMsg::DeleteIngredient(name) => AppMsg::DeleteIngredient(name.clone()),
            AppMsg::SaveIngredient { original, ingredient, in_pantry, qty, qty_type } => {
                AppMsg::SaveIngredient {
                    original: original.clone(),
                    ingredient: ingredient.clone(),
                    in_pantry: *in_pantry,
                    qty: qty.clone(),
                    qty_type: qty_type.clone(),
                }
            },
            AppMsg::SearchKb(q) => AppMsg::SearchKb(q.clone()),
            AppMsg::SelectKb(slug) => AppMsg::SelectKb(slug.clone()),
            AppMsg::SetDataDir(dir) => AppMsg::SetDataDir(dir.clone()),
            AppMsg::DataDirReady(dir) => AppMsg::DataDirReady(dir.clone()),
            AppMsg::SetTheme(name) => AppMsg::SetTheme(name.clone()),
            AppMsg::ShowToast(text) => AppMsg::ShowToast(text.clone()),
            AppMsg::ReloadAll => AppMsg::ReloadAll,
        }
    }
}

/// The event that follows from the selection of a row of the navigation
/// list: the page of that name comes to the front.
pub fn nav_row_selected(name: &str) -> (msg: AppMsg)
    ensures
        msg@ == AppMsgView::SwitchTab(Tab::named(name@)),
{
    AppMsg::SwitchTab(Tab::from_name(name))
}

impl DeepView for AppMsg {
    type V = AppMsgView;

    open spec fn deep_view(&self) -> AppMsgView {
        self@
    }
}

/// One operation of the data engine that changes what it stores.
#[derive(Debug, PartialEq)]
pub enum EngineCall {
    DeleteRecipe { title: String },
    UpdateRecipe { original: String, recipe: Recipe },
    CreateRecipe { recipe: Recipe },
    DeleteIngredient { name: String },
    UpdateIngredientWithPantry {
        original: String,
        ingredient: Ingredient,
        quantity: Option<String>,
        quantity_type: Option<String>,
        remove_from_pantry: bool,
    },
    CreateIngredient { ingredient: Ingredient },
    UpdatePantryItem { name: String, quantity: Option<String>, quantity_type: Option<String> },
}

/// Mathematical value of [`EngineCall`].
pub enum EngineCallView {
    DeleteRecipe { title: Seq<char> },
    UpdateRecipe { original: Seq<char>, recipe: RecipeView },
    CreateRecipe { recipe: RecipeView },
    DeleteIngredient { name: Seq<char> },
    UpdateIngredientWithPantry {
        original: Seq<char>,
        ingredient: IngredientView,
        quantity: Option<Seq<char>>,
        quantity_type: Option<Seq<char>>,
        remove_from_pantry: bool,
    },
    CreateIngredient { ingredient: IngredientView },
    UpdatePantryItem {
        name: Seq<char>,
        quantity: Option<Seq<char>>,
        quantity_type: Option<Seq<char>>,
    },
}

impl View for EngineCall {
    type V = EngineCallView;

    open spec fn view(&self) -> EngineCallView {
        match *self {
            EngineCall::DeleteRecipe { title } => EngineCallView::DeleteRecipe { title: title@ },
            EngineCall::UpdateRecipe { original, recipe } => EngineCallView::UpdateRecipe {
                original: original@,
                recipe: recipe@,
            },
            EngineCall::CreateRecipe { recipe } => EngineCallView::CreateRecipe {
                recipe: recipe@,
            },
            EngineCall::DeleteIngredient { name } => EngineCallView::DeleteIngredient {
                name: name@,
            },
            EngineCall::UpdateIngredientWithPantry {
                original,
                ingredient,
                quantity,
                quantity_type,
                remove_from_pantry,
            } => EngineCallView::UpdateIngredientWithPantry {
                original: original@,
                ingredient: ingredient@,
                quantity: quantity.deep_view(),
                quantity_type: quantity_type.deep_view(),
                remove_from_pantry,
            },
            EngineCall::CreateIngredient { ingredient } => EngineCallView::CreateIngredient {
                ingredient: ingredient@,
            },
            EngineCall::UpdatePantryItem { name, quantity, quantity_type } => {
                EngineCallView::UpdatePantryItem {
                    name: name@,
                    quantity: quantity.deep_view(),
                    quantity_type: quantity_type.deep_view(),
                }
            },
        }
    }
}

/// The pantry entry that is written once a new ingredient has been created.
#[derive(Debug, PartialEq)]
pub struct StockEntry {
    pub quantity: Option<String>,
    pub quantity_type: Option<String>,
}

/// Mathematical value of [`StockEntry`].
pub struct StockEntryView {
    pub quantity: Option<Seq<char>>,
    pub quantity_type: Option<Seq<char>>,
}

impl View for StockEntry {
    type V = StockEntryView;

    open spec fn view(&self) -> StockEntryView {
        StockEntryView {
            quantity: self.quantity.deep_view(),
            quantity_type: self.quantity_type.deep_view(),
        }
    }
}

impl DeepView for StockEntry {
    type V = StockEntryView;

    open spec fn deep_view(&self) -> StockEntryView {
        self@
    }
}

/// What a handler that waits for the engine goes on with once the engine has
/// answered.
#[derive(Debug, PartialEq)]
pub enum Pending {
    DeleteRecipe { title: String },
    SaveRecipe { title: String },
    DeleteIngredient { name: String },
    SaveIngredient { name: String },
    CreateIngredient { name: String, stock: Option<StockEntry> },
}

/// Mathematical value of [`Pending`].
pub enum PendingView {
    DeleteRecipe { title: Seq<char> },
    SaveRecipe { title: Seq<char> },
    DeleteIngredient { name: Seq<char> },
    SaveIngredient { name: Seq<char> },
    CreateIngredient { name: Seq<char>, stock: Option<StockEntryView> },
}

impl View for Pending {
    type V = PendingView;

    open spec fn view(&self) -> PendingView {
        match *self {
            Pending::DeleteRecipe { title } => PendingView::DeleteRecipe { title: title@ },
            Pending::SaveRecipe { title } => PendingView::SaveRecipe { title: title@ },
            Pending::DeleteIngredient { name } => PendingView::DeleteIngredient { name: name@ },
            Pending::SaveIngredient { name } => PendingView::SaveIngredient { name: name@ },
            Pending::CreateIngredient { name, stock } => PendingView::CreateIngredient {
                name: name@,
                stock: stock.deep_view(),
            },
        }
    }
}

/// What the embedding program does for the application after a transition.
///
/// The transition function touches neither the engine nor the disk nor a
/// thread. Where a handler needs one of them it stops and says so here.
#[derive(Debug, PartialEq)]
pub enum Effect<L> {
    /// Nothing is left to do.
    Idle,
    /// Run `call` on the engine and hand its answer, with `then`, to
    /// `App::resume`.
    Call { call: EngineCall, then: Pending },
    /// Append the event to the end of the event queue.
    Enqueue(AppMsg),
    /// Store the settings, start a background load of `dir` and hand its
    /// receiving end to `App::load_started`.
    StartLoad { dir: String },
    /// Take the result out of `handle` and hand it, with `dir`, to
    /// `App::load_finished`.
    AwaitLoad { handle: L, dir: String },
    /// Open `dir` at once and hand the engine, if it opened, to
    /// `App::reloaded`.
    Reload { dir: String },
    /// Apply the theme to the window and store the settings.
    ApplyTheme { theme: Theme },
    /// Let the user know of the text.
    ShowToast(String),
}

/// Mathematical value of [`Effect`].
pub enum EffectView<L> {
    Idle,
    Call { call: EngineCallView, then: PendingView },
    Enqueue(AppMsgView),
    StartLoad { dir: Seq<char> },
    AwaitLoad { handle: L, dir: Seq<char> },
    Reload { dir: Seq<char> },
    ApplyTheme { theme: Theme },
    ShowToast(Seq<char>),
}

impl<L> View for Effect<L> {
    type V = EffectView<L>;

    open spec fn view(&self) -> EffectView<L> {
        match *self {
            Effect::Idle => EffectView::Idle,
            Effect::Call { call, then } => EffectView::Call { call: call@, then: then@ },
            Effect::Enqueue(msg) => EffectView::Enqueue(msg@),
            Effect::StartLoad { dir } => EffectView::StartLoad { dir: dir@ },
            Effect::AwaitLoad { handle, dir } => EffectView::AwaitLoad { handle, dir: dir@ },
            Effect::Reload { dir } => EffectView::Reload { dir: dir@ },
            Effect::ApplyTheme { theme } => EffectView::ApplyTheme { theme },
            Effect::ShowToast(text) => EffectView::ShowToast(text@),
        }
    }
}

/// How a background load ended.
#[derive(Debug, PartialEq)]
pub enum LoadOutcome<E> {
    /// The engine opened the directory.
    Loaded(E),
    /// The engine refused the directory, with its reason.
    Failed(String),
    /// The loader went away without an answer.
    Lost,
}

/// Mathematical value of [`LoadOutcome`].
pub enum LoadOutcomeView<E> {
    Loaded(E),
    Failed(Seq<char>),
    Lost,
}

impl<E> View for LoadOutcome<E> {
    type V = LoadOutcomeView<E>;

    open spec fn view(&self) -> LoadOutcomeView<E> {
        match *self {
            LoadOutcome::Loaded(engine) => LoadOutcomeView::Loaded(engine),
            LoadOutcome::Failed(reason) => LoadOutcomeView::Failed(reason@),
            LoadOutcome::Lost => LoadOutcomeView::Lost,
        }
    }
}

/// The characters of an engine's answer: nothing on success, the reason on
/// failure.
pub open spec fn reply_view(reply: Result<(), String>) -> Result<(), Seq<char>> {
    match reply {
        Ok(_) => Ok(()),
        Err(reason) => Err(reason@),
    }
}

} // verus!
