//! The reconciler: which regions of the window are rebuilt after an event.
//!
//! It runs once after every transition. A list is rebuilt where its flag is
//! set. A detail panel is rebuilt where its flag is set and also whenever its
//! page is the one in front, so that a page that was just opened never shows
//! what was computed for an earlier selection. Every flag is cleared, and the
//! dialog requests are taken out of their slots before any dialog opens.

use vstd::prelude::*;
use crate::app::{App, AppView};
use crate::messages::Tab;

verus! {

/// What becomes of a detail panel.
#[derive(Debug, PartialEq)]
pub enum DetailRender {
    /// The panel stays as it is.
    Keep,
    /// The panel shows its placeholder: nothing is selected.
    Placeholder,
    /// The panel shows the entity with this identifier.
    Show(String),
}

/// Mathematical value of [`DetailRender`].
pub enum DetailRenderView {
    Keep,
    Placeholder,
    Show(Seq<char>),
}

impl View for DetailRender {
    type V = DetailRenderView;

    open spec fn view(&self) -> DetailRenderView {
        match *self {
            DetailRender::Keep => DetailRenderView::Keep,
            DetailRender::Placeholder => DetailRenderView::Placeholder,
            DetailRender::Show(id) => DetailRenderView::Show(id@),
        }
    }
}

/// How the recipe list is rebuilt: from the search text, with the row of the
/// selected recipe marked again afterwards.
#[derive(Debug, PartialEq)]
pub struct RecipeListRender {
    pub search: String,
    pub reselect: Option<String>,
}

/// Mathematical value of [`RecipeListRender`].
pub struct RecipeListRenderView {
    pub search: Seq<char>,
    pub reselect: Option<Seq<char>>,
}

impl View for RecipeListRender {
    type V = RecipeListRenderView;

    open spec fn view(&self) -> RecipeListRenderView {
        RecipeListRenderView { search: self.search@, reselect: self.reselect.deep_view() }
    }
}

impl DeepView for RecipeListRender {
    type V = RecipeListRenderView;

    open spec fn deep_view(&self) -> RecipeListRenderView {
        self@
    }
}

/// How the pantry list is rebuilt: from the search text and the filters, with
/// the switch set to `in_stock_only` and the row of the selected ingredient
/// marked again afterwards.
#[derive(Debug, PartialEq)]
pub struct PantryListRender {
    pub search: String,
    pub categories: Vec<String>,
    pub in_stock_only: bool,
    pub reselect: Option<String>,
}

/// Mathematical value of [`PantryListRender`].
pub struct PantryListRenderView {
    pub search: Seq<char>,
    pub categories: Seq<Seq<char>>,
    pub in_stock_only: bool,
    pub reselect: Option<Seq<char>>,
}

impl View for PantryListRender {
    type V = PantryListRenderView;

    open spec fn view(&self) -> PantryListRenderView {
        PantryListRenderView {
            search: self.search@,
            categories: self.categories.deep_view(),
            in_stock_only: self.in_stock_only,
            reselect: self.reselect.deep_view(),
        }
    }
}

impl DeepView for PantryListRender {
    type V = PantryListRenderView;

    open spec fn deep_view(&self) -> PantryListRenderView {
        self@
    }
}

/// How the list of articles is rebuilt: from the search text, with the row of
/// the selected article marked again afterwards.
#[derive(Debug, PartialEq)]
pub struct KbListRender {
    pub search: String,
    pub reselect: Option<String>,
}

/// Mathematical value of [`KbListRender`].
pub struct KbListRenderView {
    pub search: Seq<char>,
    pub reselect: Option<Seq<char>>,
}

impl View for KbListRender {
    type V = KbListRenderView;

    open spec fn view(&self) -> KbListRenderView {
        KbListRenderView { search: self.search@, reselect: self.reselect.deep_view() }
    }
}

impl DeepView for KbListRender {
    type V = KbListRenderView;

    open spec fn deep_view(&self) -> KbListRenderView {
        self@
    }
}

/// Everything the window does after one event, in the order of the fields:
/// the page in front, the lists and details of the three pages, then the
/// dialogs.
#[derive(Debug, PartialEq)]
pub struct ViewUpdate {
    pub visible_tab: Tab,
    pub recipe_list: Option<RecipeListRender>,
    pub recipe_detail: DetailRender,
    pub pantry_list: Option<PantryListRender>,
    pub ingredient_detail: DetailRender,
    pub kb_list: Option<KbListRender>,
    pub kb_detail: DetailRender,
    pub add_recipe_dialog: bool,
    pub edit_recipe_dialog: Option<String>,
    pub add_ingredient_dialog: bool,
    pub edit_ingredient_dialog: Option<String>,
}

/// Mathematical value of [`ViewUpdate`].
pub struct ViewUpdateView {
    pub visible_tab: Tab,
    pub recipe_list: Option<RecipeListRenderView>,
    pub recipe_detail: DetailRenderView,
    pub pantry_list: Option<PantryListRenderView>,
    pub ingredient_detail: DetailRenderView,
    pub kb_list: Option<KbListRenderView>,
    pub kb_detail: DetailRenderView,
    pub add_recipe_dialog: bool,
    pub edit_recipe_dialog: Option<Seq<char>>,
    pub add_ingredient_dialog: bool,
    pub edit_ingredient_dialog: Option<Seq<char>>,
}

impl View for ViewUpdate {
    type V = ViewUpdateView;

    open spec fn view(&self) -> ViewUpdateView {
        ViewUpdateView {
            visible_tab: self.visible_tab,
            recipe_list: self.recipe_list.deep_view(),
            recipe_detail: self.recipe_detail@,
            pantry_list: self.pantry_list.deep_view(),
            ingredient_detail: self.ingredient_detail@,
            kb_list: self.kb_list.deep_view(),
            kb_detail: self.kb_detail@,
            add_recipe_dialog: self.add_recipe_dialog,
            edit_recipe_dialog: self.edit_recipe_dialog.deep_view(),
            add_ingredient_dialog: self.add_ingredient_dialog,
            edit_ingredient_dialog: self.edit_ingredient_dialog.deep_view(),
        }
    }
}

/// What becomes of a detail panel: it is rebuilt where it is stale or in
/// front, for the selected entity or with the placeholder where nothing is
/// selected; else it stays.
pub open spec fn detail_render(
    stale: bool,
    in_front: bool,
    selected: Option<Seq<char>>,
) -> DetailRenderView {
    if stale || in_front {
        match selected {
            Some(id) => DetailRenderView::Show(id),
            None => DetailRenderView::Placeholder,
        }
    } else {
        DetailRenderView::Keep
    }
}

/// What the window does for a state.
pub open spec fn rendering<E, L>(s: AppView<E, L>) -> ViewUpdateView {
    ViewUpdateView {
        visible_tab: s.tab,
        recipe_list: if s.recipes_dirty {
            Some(RecipeListRenderView { search: s.recipe_search, reselect: s.selected_recipe })
        } else {
            None
        },
        recipe_detail: detail_render(
            s.recipe_detail_dirty,
            s.tab == Tab::Recipes,
            s.selected_recipe,
        ),
        pantry_list: if s.pantry_dirty {
            Some(
                PantryListRenderView {
                    search: s.ingredient_search,
                    categories: s.category_filter,
                    in_stock_only: s.in_stock_only,
                    reselect: s.selected_ingredient,
                },
            )
        } else {
            None
        },
        ingredient_detail: detail_render(
            s.ingredient_detail_dirty,
            s.tab == Tab::Pantry,
            s.selected_ingredient,
        ),
        kb_list: if s.kb_dirty {
            Some(KbListRenderView { search: s.kb_search, reselect: s.selected_kb })
        } else {
            None
        },
        kb_detail: detail_render(s.kb_detail_dirty, s.tab == Tab::Kb, s.selected_kb),
        add_recipe_dialog: s.pending_add_recipe,
        edit_recipe_dialog: s.pending_edit_recipe,
        add_ingredient_dialog: s.pending_add_ingredient,
        edit_ingredient_dialog: s.pending_edit_ingredient,
    }
}

/// The state once the window has caught up with it: no region is stale and no
/// dialog is asked for. Nothing else changes.
pub open spec fn settled<E, L>(s: AppView<E, L>) -> AppView<E, L> {
    AppView {
        recipes_dirty: false,
        pantry_dirty: false,
        kb_dirty: false,
        recipe_detail_dirty: false,
        ingredient_detail_dirty: false,
        kb_detail_dirty: false,
        pending_add_recipe: false,
        pending_edit_recipe: None,
        pending_add_ingredient: false,
        pending_edit_ingredient: None,
        ..s
    }
}

/// Decides what a detail panel shows.
fn render_detail(stale: bool, in_front: bool, selected: &Option<String>) -> (out: DetailRender)
    ensures
        out@ == detail_render(stale, in_front, selected.deep_view()),
{
    if stale || in_front {
        match selected {
            Some(id) => DetailRender::Show(id.clone()),
            None => DetailRender::Placeholder,
        }
    } else {
        DetailRender::Keep
    }
}

impl<E, L> App<E, L> {
    /// How the recipe list is rebuilt, if it is stale.
    fn recipe_list_render(&self) -> (out: Option<RecipeListRender>)
        ensures
            out.deep_view() == rendering(self@).recipe_list,
    {
        if self.recipes_dirty {
            Some(
                RecipeListRender {
                    search: self.recipe_search.clone(),
                    reselect: self.selected_recipe.clone(),
                },
            )
        } else {
            None
        }
    }

    /// How the pantry list is rebuilt, if it is stale.
    fn pantry_list_render(&self) -> (out: Option<PantryListRender>)
        ensures
            out.deep_view() == rendering(self@).pantry_list,
    {
        if self.pantry_dirty {
            Some(
                PantryListRender {
                    search: self.ingredient_search.clone(),
                    categories: self.category_filter.clone(),
                    in_stock_only: self.in_stock_only,
                    reselect: self.selected_ingredient.clone(),
                },
            )
        } else {
            None
        }
    }

    /// How the list of articles is rebuilt, if it is stale.
    fn kb_list_render(&self) -> (out: Option<KbListRender>)
        ensures
            out.deep_view() == rendering(self@).kb_list,
    {
        if self.kb_dirty {
            Some(
                KbListRender {
                    search: self.kb_search.clone(),
                    reselect: self.selected_kb.clone(),
                },
            )
        } else {
            None
        }
    }

    /// Clears every flag and empties every dialog slot.
    fn settle(&mut self)
        ensures
            final(self)@ == settled(old(self)@),
    {
        self.recipes_dirty = false;
        self.pantry_dirty = false;
        self.kb_dirty = false;
        self.recipe_detail_dirty = false;
        self.ingredient_detail_dirty = false;
        self.kb_detail_dirty = false;
        self.pending_add_recipe = false;
        self.pending_edit_recipe = None;
        self.pending_add_ingredient = false;
        self.pending_edit_ingredient = None;
    }

    /// Says what the window does after an event, and marks it as done.
    pub fn update_view(&mut self) -> (todo: ViewUpdate)
        ensures
            todo@ == rendering(old(self)@),
            final(self)@ == settled(old(self)@),
    {
        let todo = ViewUpdate {
            visible_tab: self.tab,
            recipe_list: self.recipe_list_render(),
            recipe_detail: render_detail(
                self.recipe_detail_dirty,
                self.tab == Tab::Recipes,
                &self.selected_recipe,
            ),
            pantry_list: self.pantry_list_render(),
            ingredient_detail: render_detail(
                self.ingredient_detail_dirty,
                self.tab == Tab::Pantry,
                &self.selected_ingredient,
            ),
            kb_list: self.kb_list_render(),
            kb_detail: render_detail(self.kb_detail_dirty, self.tab == Tab::Kb, &self.selected_kb),
            add_recipe_dialog: self.pending_add_recipe,
            edit_recipe_dialog: self.pending_edit_recipe.clone(),
            add_ingredient_dialog: self.pending_add_ingredient,
            edit_ingredient_dialog: self.pending_edit_ingredient.clone(),
        };
        self.settle();
        todo
    }
}

} // verus!
