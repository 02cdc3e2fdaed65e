//! Why the flags suffice: after every reconciliation every list, and the
//! detail panel of the page in front, shows what the state and the engine
//! hold at that moment.
//!
//! The engine is seen from outside. All that matters here is when it
//! changes, so what it stores is stood for by one count of changes for each
//! kind of record. A call that fails is taken to change nothing.

use vstd::prelude::*;
use crate::app::{AppView, load_applied, reload_applied, resumed, step};
use crate::messages::{AppMsgView, EffectView, EngineCallView, LoadOutcomeView, Tab};
use crate::reconcile::{rendering, settled};

verus! {

/// How often each kind of record has changed: the recipes, the ingredients
/// with their pantry entries, and the articles of the knowledge base.
pub struct Stored {
    pub recipes: nat,
    pub pantry: nat,
    pub articles: nat,
}

/// What a region was drawn from: the texts, filters and selection that it
/// reads from the state, and the counts of the records that it reads from
/// the engine.
pub struct Drawn {
    pub search: Seq<char>,
    pub categories: Seq<Seq<char>>,
    pub in_stock_only: bool,
    pub selected: Option<Seq<char>>,
    pub recipes: nat,
    pub pantry: nat,
    pub articles: nat,
}

/// What each region of the window was last drawn from.
pub struct Screen {
    pub recipe_list: Drawn,
    pub recipe_detail: Drawn,
    pub pantry_list: Drawn,
    pub ingredient_detail: Drawn,
    pub kb_list: Drawn,
    pub kb_detail: Drawn,
}

/// What the recipe list reads: the search text, the recipes, and the pantry
/// for the marks of what can be cooked.
pub open spec fn recipe_list_reads<E, L>(s: AppView<E, L>, e: Stored) -> Drawn {
    Drawn {
        search: s.recipe_search,
        categories: Seq::empty(),
        in_stock_only: false,
        selected: None,
        recipes: e.recipes,
        pantry: e.pantry,
        articles: 0,
    }
}

/// What the pantry list reads: the search text, the filters, and the
/// ingredients with their pantry entries.
pub open spec fn pantry_list_reads<E, L>(s: AppView<E, L>, e: Stored) -> Drawn {
    Drawn {
        search: s.ingredient_search,
        categories: s.category_filter,
        in_stock_only: s.in_stock_only,
        selected: None,
        recipes: 0,
        pantry: e.pantry,
        articles: 0,
    }
}

/// What the list of articles reads: the search text and the articles.
pub open spec fn kb_list_reads<E, L>(s: AppView<E, L>, e: Stored) -> Drawn {
    Drawn {
        search: s.kb_search,
        categories: Seq::empty(),
        in_stock_only: false,
        selected: None,
        recipes: 0,
        pantry: 0,
        articles: e.articles,
    }
}

/// What the recipe detail reads: the selection, the recipes, and the pantry
/// for the marks of its ingredients.
pub open spec fn recipe_detail_reads<E, L>(s: AppView<E, L>, e: Stored) -> Drawn {
    Drawn {
        search: Seq::empty(),
        categories: Seq::empty(),
        in_stock_only: false,
        selected: s.selected_recipe,
        recipes: e.recipes,
        pantry: e.pantry,
        articles: 0,
    }
}

/// What the ingredient detail reads: the selection, the ingredients with
/// their pantry entries, the recipes that use the ingredient, and the
/// article that it refers to.
pub open spec fn ingredient_detail_reads<E, L>(s: AppView<E, L>, e: Stored) -> Drawn {
    Drawn {
        search: Seq::empty(),
        categories: Seq::empty(),
        in_stock_only: false,
        selected: s.selected_ingredient,
        recipes: e.recipes,
        pantry: e.pantry,
        articles: e.articles,
    }
}

/// What the article detail reads: the selection, the articles, and the
/// ingredients that refer to the article.
pub open spec fn kb_detail_reads<E, L>(s: AppView<E, L>, e: Stored) -> Drawn {
    Drawn {
        search: Seq::empty(),
        categories: Seq::empty(),
        in_stock_only: false,
        selected: s.selected_kb,
        recipes: 0,
        pantry: e.pantry,
        articles: e.articles,
    }
}

/// What the engine stores after it has answered a call: a call that
/// succeeded has changed the records of its kind.
pub open spec fn after_call(e: Stored, call: EngineCallView, reply: Result<(), Seq<char>>) -> Stored {
    if reply is Err {
        e
    } else if call is DeleteRecipe || call is UpdateRecipe || call is CreateRecipe {
        Stored { recipes: e.recipes + 1, ..e }
    } else {
        Stored { pantry: e.pantry + 1, ..e }
    }
}

/// What an engine that was just opened stores: everything may differ from
/// what the engine before it stored.
pub open spec fn after_install(e: Stored) -> Stored {
    Stored { recipes: e.recipes + 1, pantry: e.pantry + 1, articles: e.articles + 1 }
}

/// The state and what the engine stores after an event has been handled to
/// its end, where the engine answers the first call of the handler with
/// `first` and the second, if there is one, with `second`.
pub open spec fn handled_with_engine<E, L>(
    s: AppView<E, L>,
    e: Stored,
    m: AppMsgView,
    first: Result<(), Seq<char>>,
    second: Result<(), Seq<char>>,
) -> (AppView<E, L>, Stored) {
    let (s1, effect1) = step(s, m);
    match effect1 {
        EffectView::Call { call, then } => {
            let (s2, effect2) = resumed(s1, then, first);
            let e2 = after_call(e, call, first);
            match effect2 {
                EffectView::Call { call: next, then: after } => (
                    resumed(s2, after, second).0,
                    after_call(e2, next, second),
                ),
                _ => (s2, e2),
            }
        },
        _ => (s1, e),
    }
}

/// Whether a handler was left half done: its first call changed the engine
/// and its second call failed. The state then marks nothing, though the
/// engine has changed.
pub open spec fn left_half_done<E, L>(
    s: AppView<E, L>,
    m: AppMsgView,
    first: Result<(), Seq<char>>,
    second: Result<(), Seq<char>>,
) -> bool {
    let (s1, effect1) = step(s, m);
    match effect1 {
        EffectView::Call { call, then } => first is Ok && second is Err && resumed(
            s1,
            then,
            first,
        ).1 is Call,
        _ => false,
    }
}

/// The screen after a reconciliation: every region that is rebuilt is drawn
/// from what the state and the engine hold now, every other region stays.
pub open spec fn redrawn<E, L>(screen: Screen, s: AppView<E, L>, e: Stored) -> Screen {
    let todo = rendering(s);
    Screen {
        recipe_list: if todo.recipe_list is Some {
            recipe_list_reads(s, e)
        } else {
            screen.recipe_list
        },
        recipe_detail: if todo.recipe_detail is Keep {
            screen.recipe_detail
        } else {
            recipe_detail_reads(s, e)
        },
        pantry_list: if todo.pantry_list is Some {
            pantry_list_reads(s, e)
        } else {
            screen.pantry_list
        },
        ingredient_detail: if todo.ingredient_detail is Keep {
            screen.ingredient_detail
        } else {
            ingredient_detail_reads(s, e)
        },
        kb_list: if todo.kb_list is Some {
            kb_list_reads(s, e)
        } else {
            screen.kb_list
        },
        kb_detail: if todo.kb_detail is Keep {
            screen.kb_detail
        } else {
            kb_detail_reads(s, e)
        },
    }
}

/// Whether every list whose flag is clear shows what the state and the
/// engine hold.
pub open spec fn clean_lists_are_fresh<E, L>(screen: Screen, s: AppView<E, L>, e: Stored) -> bool {
    &&& !s.recipes_dirty ==> screen.recipe_list == recipe_list_reads(s, e)
    &&& !s.pantry_dirty ==> screen.pantry_list == pantry_list_reads(s, e)
    &&& !s.kb_dirty ==> screen.kb_list == kb_list_reads(s, e)
}

/// Whether every list, and the detail panel of the page in front, shows what
/// the state and the engine hold.
pub open spec fn in_sync<E, L>(screen: Screen, s: AppView<E, L>, e: Stored) -> bool {
    &&& screen.recipe_list == recipe_list_reads(s, e)
    &&& screen.pantry_list == pantry_list_reads(s, e)
    &&& screen.kb_list == kb_list_reads(s, e)
    &&& s.tab == Tab::Recipes ==> screen.recipe_detail == recipe_detail_reads(s, e)
    &&& s.tab == Tab::Pantry ==> screen.ingredient_detail == ingredient_detail_reads(s, e)
    &&& s.tab == Tab::Kb ==> screen.kb_detail == kb_detail_reads(s, e)
}

/// A reconciliation brings the window in sync, provided that every list
/// whose flag is clear was fresh before.
pub proof fn reconciliation_brings_in_sync<E, L>(screen: Screen, s: AppView<E, L>, e: Stored)
    requires
        clean_lists_are_fresh(screen, s, e),
    ensures
        in_sync(redrawn(screen, s, e), settled(s), e),
        clean_lists_are_fresh(redrawn(screen, s, e), settled(s), e),
{
}

/// No event leaves a list stale with its flag clear: whatever the engine
/// answers, a list that the event has made stale is marked. The one
/// exception is a handler that is left half done.
pub proof fn events_mark_what_they_make_stale<E, L>(
    screen: Screen,
    s: AppView<E, L>,
    e: Stored,
    m: AppMsgView,
    first: Result<(), Seq<char>>,
    second: Result<(), Seq<char>>,
)
    requires
        clean_lists_are_fresh(screen, s, e),
        !left_half_done(s, m, first, second),
    ensures
        ({
            let (after, stored) = handled_with_engine(s, e, m, first, second);
            clean_lists_are_fresh(screen, after, stored)
        }),
{
}

/// From a window in sync, an event and the reconciliation that follows it
/// give a window in sync again, whatever the event is and whatever the
/// engine answers, unless the handler is left half done.
pub proof fn window_stays_in_sync<E, L>(
    screen: Screen,
    s: AppView<E, L>,
    e: Stored,
    m: AppMsgView,
    first: Result<(), Seq<char>>,
    second: Result<(), Seq<char>>,
)
    requires
        in_sync(screen, s, e),
        !left_half_done(s, m, first, second),
    ensures
        ({
            let (after, stored) = handled_with_engine(s, e, m, first, second);
            in_sync(redrawn(screen, after, stored), settled(after), stored)
        }),
{
    let (after, stored) = handled_with_engine(s, e, m, first, second);
    events_mark_what_they_make_stale(screen, s, e, m, first, second);
    reconciliation_brings_in_sync(screen, after, stored);
}

/// From a window in sync, the end of a load, with the engine that it may
/// install, and the reconciliation that follows it give a window in sync
/// again: where the load counts, every list is marked before the engine
/// changes; where it does not count, nothing changes.
pub proof fn window_in_sync_after_load<E, L>(
    screen: Screen,
    s: AppView<E, L>,
    e: Stored,
    dir: Seq<char>,
    outcome: LoadOutcomeView<E>,
)
    requires
        in_sync(screen, s, e),
    ensures
        ({
            let (ended, effect) = step(s, AppMsgView::DataDirReady(dir));
            let (after, stored) = if effect is AwaitLoad {
                (
                    load_applied(ended, dir, outcome).0,
                    if outcome is Loaded {
                        after_install(e)
                    } else {
                        e
                    },
                )
            } else {
                (ended, e)
            };
            in_sync(redrawn(screen, after, stored), settled(after), stored)
        }),
{
}

/// A reload, with the engine that it may install, and the reconciliation
/// that follows it give a window in sync.
pub proof fn window_in_sync_after_reload<E, L>(
    screen: Screen,
    s: AppView<E, L>,
    e: Stored,
    opened: Option<E>,
)
    ensures
        ({
            let marked = step(s, AppMsgView::ReloadAll).0;
            let after = reload_applied(marked, opened);
            let stored = if opened is Some {
                after_install(e)
            } else {
                e
            };
            in_sync(redrawn(screen, after, stored), settled(after), stored)
        }),
{
}

} // verus!
