// Tests for what the three lists show.
use pantryman_linux::blocks::{
    empty_state_row, select_row_by_name, ListContent, Style, EMPTY_ROW_NAME, NO_DATA_DIR,
};
use pantryman_linux::kb::{
    build_kb_tab, kb_query, kb_row_selected, matches_query, populate_kb_list,
    populate_kb_list_filtered, KbRow, NO_ARTICLES,
};
use pantryman_linux::messages::AppMsg;
use pantryman_linux::order::{identity_order, stable_order};
use pantryman_linux::pantry::{
    build_ingredient_row, build_pantry_tab, ingredient_row_selected, populate_pantry_list,
    IngredientEntry, IngredientRow, LIST_LANGUAGE, NO_INGREDIENTS,
};
use pantryman_linux::recipes::{
    build_recipe_row, build_recipes_tab, populate_recipe_list, recipe_query, recipe_row_selected,
    RecipeEntry, RecipeQuery, RecipeRow, NO_RECIPES,
};
use pantryman_linux::records::KbEntry;

fn recipe(title: &str, all_in_stock: bool) -> RecipeEntry {
    RecipeEntry { title: title.to_string(), all_in_stock }
}

fn ingredient(name: &str, category: &str, in_pantry: bool) -> IngredientEntry {
    IngredientEntry { name: name.to_string(), category: category.to_string(), in_pantry }
}

fn article(slug: &str, title: &str) -> KbEntry {
    KbEntry { slug: slug.to_string(), title: title.to_string(), content: String::new() }
}

fn titles(content: &ListContent<RecipeRow>) -> Vec<String> {
    match content {
        ListContent::Rows(rows) => rows.iter().map(|r| r.title.clone()).collect(),
        ListContent::Empty { .. } => panic!("no rows"),
    }
}

fn kb_rows(content: ListContent<KbRow>) -> Vec<(String, String)> {
    match content {
        ListContent::Rows(rows) => rows.into_iter().map(|r| (r.name, r.title)).collect(),
        ListContent::Empty { .. } => panic!("no rows"),
    }
}

#[test]
fn empty_state_row_is_named_empty() {
    assert_eq!(EMPTY_ROW_NAME, "__empty__");
    assert_eq!(NO_DATA_DIR, "No data directory set");
    let row: ListContent<RecipeRow> = empty_state_row("Nothing here");
    assert_eq!(
        row,
        ListContent::Empty { name: "__empty__".to_string(), text: "Nothing here".to_string() }
    );
}

#[test]
fn stable_order_sorts_and_keeps_ties() {
    let keys: Vec<String> =
        ["b", "a", "B", "a", "", "ab"].iter().map(|k| k.to_string()).collect();
    assert_eq!(stable_order(&keys), vec![4, 2, 1, 3, 5, 0]);
    assert_eq!(stable_order(&Vec::new()), Vec::<usize>::new());
    assert_eq!(stable_order(&vec!["x".to_string()]), vec![0]);
    let same: Vec<String> = vec!["k".to_string(); 4];
    assert_eq!(stable_order(&same), vec![0, 1, 2, 3]);
}

#[test]
fn stable_order_agrees_with_std_sort() {
    let keys: Vec<String> = [
        "Soup", "lasagna", "Lasagna", "été", "Zucchini", "apple pie", "Apple", "soup", "Soup", "",
        "🍕", "zz", "a", "A", "aa",
    ]
    .iter()
    .map(|k| k.to_string())
    .collect();
    let mut expected: Vec<usize> = (0..keys.len()).collect();
    expected.sort_by(|a, b| keys[*a].cmp(&keys[*b]));
    assert_eq!(stable_order(&keys), expected);
}

#[test]
fn identity_order_counts_up() {
    assert_eq!(identity_order(0), Vec::<usize>::new());
    assert_eq!(identity_order(4), vec![0, 1, 2, 3]);
}

#[test]
fn recipe_query_depends_on_search_text() {
    assert_eq!(recipe_query(""), RecipeQuery::All);
    assert_eq!(recipe_query("las"), RecipeQuery::Search("las".to_string()));
    assert_eq!(recipe_query(" "), RecipeQuery::Search(" ".to_string()));
}

#[test]
fn recipe_list_without_engine_says_no_data_directory() {
    for search in ["", "las"] {
        assert_eq!(
            populate_recipe_list(None, search),
            ListContent::Empty {
                name: "__empty__".to_string(),
                text: "No data directory set".to_string(),
            }
        );
    }
}

#[test]
fn recipe_list_without_results_says_none_found() {
    assert_eq!(NO_RECIPES, "No recipes found");
    for search in ["", "las"] {
        assert_eq!(
            populate_recipe_list(Some(vec![]), search),
            ListContent::Empty {
                name: "__empty__".to_string(),
                text: "No recipes found".to_string(),
            }
        );
    }
}

#[test]
fn recipe_list_is_sorted_when_nothing_is_searched() {
    let found = vec![recipe("Soup", false), recipe("Lasagna", true), recipe("Apple pie", false)];
    let content = populate_recipe_list(Some(found), "");
    assert_eq!(
        content,
        ListContent::Rows(vec![
            RecipeRow {
                name: "Apple pie".to_string(),
                filled: false,
                mark_style: Style::Dim,
                tooltip: "Some ingredients missing from pantry".to_string(),
                title: "Apple pie".to_string(),
            },
            RecipeRow {
                name: "Lasagna".to_string(),
                filled: true,
                mark_style: Style::Success,
                tooltip: "All ingredients available".to_string(),
                title: "Lasagna".to_string(),
            },
            RecipeRow {
                name: "Soup".to_string(),
                filled: false,
                mark_style: Style::Dim,
                tooltip: "Some ingredients missing from pantry".to_string(),
                title: "Soup".to_string(),
            },
        ])
    );
}

#[test]
fn recipe_list_keeps_engine_order_for_a_search() {
    let found = vec![recipe("Soup", false), recipe("Lasagna", true), recipe("Apple pie", false)];
    let content = populate_recipe_list(Some(found), "p");
    assert_eq!(titles(&content), vec!["Soup", "Lasagna", "Apple pie"]);
}

#[test]
fn recipe_list_matches_a_direct_sort() {
    let names = ["b", "a", "C", "aa", "B", "a"];
    let found: Vec<RecipeEntry> =
        names.iter().enumerate().map(|(i, n)| recipe(n, i % 2 == 0)).collect();
    let mut expected: Vec<&RecipeEntry> = found.iter().collect();
    expected.sort_by(|a, b| a.title.cmp(&b.title));
    let expected_rows: Vec<RecipeRow> = expected.into_iter().map(build_recipe_row).collect();
    let found_again: Vec<RecipeEntry> =
        names.iter().enumerate().map(|(i, n)| recipe(n, i % 2 == 0)).collect();
    assert_eq!(populate_recipe_list(Some(found_again), ""), ListContent::Rows(expected_rows));
}

#[test]
fn recipe_row_selection_skips_the_empty_row() {
    assert_eq!(
        recipe_row_selected("Lasagna"),
        Some(AppMsg::SelectRecipe(Some("Lasagna".to_string())))
    );
    assert_eq!(recipe_row_selected(""), None);
    assert_eq!(recipe_row_selected("__empty__"), None);
}

#[test]
fn recipes_tab_starts_with_placeholder() {
    let tab = build_recipes_tab(None);
    assert_eq!(tab.search_hint, "Search recipes…");
    assert_eq!(tab.add_label, "Add Recipe");
    assert_eq!(
        tab.list,
        ListContent::Empty { name: "__empty__".to_string(), text: NO_DATA_DIR.to_string() }
    );
    assert_eq!(tab.detail.title, "Recipes");
    let filled = build_recipes_tab(Some(vec![recipe("b", true), recipe("a", true)]));
    assert_eq!(titles(&filled.list), vec!["a", "b"]);
}

#[test]
fn pantry_list_placeholders() {
    assert_eq!(NO_INGREDIENTS, "No ingredients found");
    assert_eq!(LIST_LANGUAGE, "en");
    assert_eq!(
        populate_pantry_list(None),
        ListContent::Empty {
            name: "__empty__".to_string(),
            text: "No data directory set".to_string(),
        }
    );
    assert_eq!(
        populate_pantry_list(Some(vec![])),
        ListContent::Empty {
            name: "__empty__".to_string(),
            text: "No ingredients found".to_string(),
        }
    );
}

#[test]
fn pantry_list_is_sorted_by_name() {
    let found = vec![
        ingredient("salt", "spice", true),
        ingredient("flour", "baking", false),
        ingredient("Sugar", "baking", true),
    ];
    assert_eq!(
        populate_pantry_list(Some(found)),
        ListContent::Rows(vec![
            IngredientRow {
                name: "Sugar".to_string(),
                filled: true,
                mark_style: Style::Success,
                label: "Sugar".to_string(),
                category: "baking".to_string(),
                category_style: Style::DimCaption,
            },
            IngredientRow {
                name: "flour".to_string(),
                filled: false,
                mark_style: Style::Dim,
                label: "flour".to_string(),
                category: "baking".to_string(),
                category_style: Style::DimCaption,
            },
            IngredientRow {
                name: "salt".to_string(),
                filled: true,
                mark_style: Style::Success,
                label: "salt".to_string(),
                category: "spice".to_string(),
                category_style: Style::DimCaption,
            },
        ])
    );
    assert_eq!(
        build_ingredient_row(&ingredient("salt", "spice", false)).mark_style,
        Style::Dim
    );
}

#[test]
fn pantry_row_selection_and_tab() {
    assert_eq!(
        ingredient_row_selected("salt"),
        Some(AppMsg::SelectIngredient(Some("salt".to_string())))
    );
    assert_eq!(ingredient_row_selected(""), None);
    assert_eq!(ingredient_row_selected("__empty__"), None);
    let tab = build_pantry_tab(None, true);
    assert_eq!(tab.search_hint, "Search ingredients…");
    assert_eq!(tab.filter_label, "In stock only");
    assert!(tab.in_stock_only);
    assert_eq!(tab.add_label, "Add Ingredient");
    assert_eq!(
        tab.list,
        ListContent::Empty { name: "__empty__".to_string(), text: NO_DATA_DIR.to_string() }
    );
    assert_eq!(tab.detail.title, "Pantry");
}

#[test]
fn kb_list_placeholders_bear_no_name() {
    assert_eq!(NO_ARTICLES, "No articles found");
    assert_eq!(
        populate_kb_list(None, ""),
        ListContent::Empty { name: String::new(), text: "No data directory set".to_string() }
    );
    assert_eq!(
        populate_kb_list(Some(vec![]), ""),
        ListContent::Empty { name: String::new(), text: "No articles found".to_string() }
    );
    assert_eq!(
        populate_kb_list_filtered(Some(vec![article("umami", "Umami")]), "zzz"),
        ListContent::Empty { name: String::new(), text: "No articles found".to_string() }
    );
}

#[test]
fn kb_list_is_sorted_by_title() {
    let found = vec![
        article("umami", "Umami"),
        article("maillard", "Maillard reaction"),
        article("acid", "Acidity"),
    ];
    assert_eq!(
        kb_rows(populate_kb_list(Some(found), "")),
        vec![
            ("acid".to_string(), "Acidity".to_string()),
            ("maillard".to_string(), "Maillard reaction".to_string()),
            ("umami".to_string(), "Umami".to_string()),
        ]
    );
}

#[test]
fn kb_list_filters_by_title_or_slug_in_lower_case() {
    let found = || {
        vec![
            article("umami", "The Fifth Taste"),
            article("maillard", "Maillard Reaction"),
            article("acid", "Acidity"),
        ]
    };
    // the title matches in lower case
    assert_eq!(
        kb_rows(populate_kb_list_filtered(Some(found()), "reaction")),
        vec![("maillard".to_string(), "Maillard Reaction".to_string())]
    );
    // the slug matches
    assert_eq!(
        kb_rows(populate_kb_list_filtered(Some(found()), "uma")),
        vec![("umami".to_string(), "The Fifth Taste".to_string())]
    );
    // several match, in the order of their titles
    assert_eq!(
        kb_rows(populate_kb_list_filtered(Some(found()), "ac")),
        vec![
            ("acid".to_string(), "Acidity".to_string()),
            ("maillard".to_string(), "Maillard Reaction".to_string()),
        ]
    );
    // a query in capital letters matches nothing: a search text is lowered first
    assert_eq!(
        populate_kb_list_filtered(Some(found()), "ACID"),
        ListContent::Empty { name: String::new(), text: "No articles found".to_string() }
    );
    assert_eq!(
        kb_rows(populate_kb_list_filtered(Some(found()), &kb_query("ACID"))),
        vec![("acid".to_string(), "Acidity".to_string())]
    );
    assert_eq!(
        kb_rows(populate_kb_list(Some(found()), "ACID")),
        vec![("acid".to_string(), "Acidity".to_string())]
    );
    assert_eq!(
        kb_rows(populate_kb_list(Some(found()), "Fifth T")),
        vec![("umami".to_string(), "The Fifth Taste".to_string())]
    );
    assert_eq!(
        populate_kb_list(Some(found()), "sweet"),
        ListContent::Empty { name: String::new(), text: "No articles found".to_string() }
    );
    assert_eq!(
        populate_kb_list(None, "acid"),
        ListContent::Empty { name: String::new(), text: "No data directory set".to_string() }
    );
}

#[test]
fn kb_search_text_is_lowered() {
    assert_eq!(kb_query("UMAMI"), "umami");
    assert_eq!(kb_query("Été"), "été");
    assert_eq!(kb_query(""), "");
    assert_eq!(kb_query("ΑΒΓ"), "ΑΒΓ".to_lowercase());
}

#[test]
fn kb_matching() {
    let entry = article("maillard", "Maillard Reaction");
    assert!(matches_query(&entry, ""));
    assert!(matches_query(&entry, "mail"));
    assert!(matches_query(&entry, "d r"));
    assert!(!matches_query(&entry, "Mail"));
    assert!(!matches_query(&entry, "umami"));
    let slug_only = article("fifth-taste", "Umami");
    assert!(matches_query(&slug_only, "fifth"));
}

#[test]
fn kb_row_selection_and_tab() {
    assert_eq!(kb_row_selected("umami"), Some(AppMsg::SelectKb(Some("umami".to_string()))));
    assert_eq!(kb_row_selected(""), None);
    assert_eq!(
        kb_row_selected("__empty__"),
        Some(AppMsg::SelectKb(Some("__empty__".to_string())))
    );
    let tab = build_kb_tab(None);
    assert_eq!(tab.search_hint, "Search articles…");
    assert_eq!(tab.detail.title, "Knowledge Base");
    assert_eq!(
        tab.list,
        ListContent::Empty { name: String::new(), text: NO_DATA_DIR.to_string() }
    );
}

#[test]
fn selection_is_found_again_by_name() {
    let names: Vec<String> =
        ["Apple pie", "Lasagna", "Soup", "Lasagna"].iter().map(|n| n.to_string()).collect();
    assert_eq!(select_row_by_name(&names, "Lasagna"), Some(1));
    assert_eq!(select_row_by_name(&names, "Apple pie"), Some(0));
    assert_eq!(select_row_by_name(&names, "Soup"), Some(2));
    assert_eq!(select_row_by_name(&names, "lasagna"), None);
    assert_eq!(select_row_by_name(&Vec::new(), "Lasagna"), None);
}
