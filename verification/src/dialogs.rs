//! The forms in which a recipe or an ingredient is entered or changed: what
//! they show when they open, and the event that follows when the user saves.
//!
//! A number field that holds no number counts as left empty; it never keeps
//! the user from saving.

use vstd::prelude::*;
use vstd::string::StringExecFns;
use crate::blocks::Lookup;
use crate::messages::{AppMsg, AppMsgView};
use crate::numbers::{decimal_text, is_amount, is_amount_text, parse_u32, parsed_u32, to_decimal};
use crate::records::{
    Ingredient, IngredientView, PantryItem, PantryItemView, Recipe, RecipeIngredient,
    RecipeIngredientView, RecipeView,
};
use crate::text::{
    blank, is_blank, join, joined, lowercase, prefixed, replace_blanks, split, split_on,
    split_whitespace, to_lowercase, trim, trimmed, underscored, words,
};

verus! {

/// The texts of the fields of the recipe form.
#[derive(Debug, PartialEq)]
pub struct RecipeFields {
    pub title: String,
    pub prep_time: String,
    pub downtime: String,
    pub servings: String,
    pub tags: String,
    pub ingredients: String,
    pub instructions: String,
}

/// Mathematical value of [`RecipeFields`].
pub struct RecipeFieldsView {
    pub title: Seq<char>,
    pub prep_time: Seq<char>,
    pub downtime: Seq<char>,
    pub servings: Seq<char>,
    pub tags: Seq<char>,
    pub ingredients: Seq<char>,
    pub instructions: Seq<char>,
}

impl View for RecipeFields {
    type V = RecipeFieldsView;

    open spec fn view(&self) -> RecipeFieldsView {
        RecipeFieldsView {
            title: self.title@,
            prep_time: self.prep_time@,
            downtime: self.downtime@,
            servings: self.servings@,
            tags: self.tags@,
            ingredients: self.ingredients@,
            instructions: self.instructions@,
        }
    }
}

/// The recipe form as it opens. `original` is the title under which the
/// recipe is stored, if it is stored; `ingredient_names` are the names that
/// the engine knows.
#[derive(Debug, PartialEq)]
pub struct RecipeForm {
    pub window_title: String,
    pub save_label: String,
    pub original: Option<String>,
    pub fields: RecipeFields,
    pub ingredient_names: Vec<String>,
}

/// Mathematical value of [`RecipeForm`].
pub struct RecipeFormView {
    pub window_title: Seq<char>,
    pub save_label: Seq<char>,
    pub original: Option<Seq<char>>,
    pub fields: RecipeFieldsView,
    pub ingredient_names: Seq<Seq<char>>,
}

impl View for RecipeForm {
    type V = RecipeFormView;

    open spec fn view(&self) -> RecipeFormView {
        RecipeFormView {
            window_title: self.window_title@,
            save_label: self.save_label@,
            original: self.original.deep_view(),
            fields: self.fields@,
            ingredient_names: self.ingredient_names.deep_view(),
        }
    }
}

impl DeepView for RecipeForm {
    type V = RecipeFormView;

    open spec fn deep_view(&self) -> RecipeFormView {
        self@
    }
}

/// The text of a number field: the number in decimal notation, or nothing.
pub open spec fn number_field(n: Option<u32>) -> Seq<char> {
    match n {
        Some(v) => decimal_text(v as nat),
        None => Seq::empty(),
    }
}

/// The text of the tags field: the tags with a comma and a blank between.
pub open spec fn tags_field(tags: Option<Seq<Seq<char>>>) -> Seq<char> {
    match tags {
        Some(names) => joined(names, ", "@),
        None => Seq::empty(),
    }
}

/// One line of the ingredients field: the name, then the amount, then a
/// unit that is not empty, with a blank between.
pub open spec fn ingredient_line(line: RecipeIngredientView) -> Seq<char> {
    match line.quantity {
        Some(amount) => match line.quantity_type {
            Some(unit) => if unit.len() > 0 {
                line.ingredient + " "@ + amount + " "@ + unit
            } else {
                line.ingredient + " "@ + amount
            },
            None => line.ingredient + " "@ + amount,
        },
        None => line.ingredient,
    }
}

/// The fields of the form for a stored recipe.
pub open spec fn recipe_fields(r: RecipeView) -> RecipeFieldsView {
    RecipeFieldsView {
        title: r.title,
        prep_time: number_field(r.prep_time),
        downtime: number_field(r.downtime),
        servings: number_field(r.servings),
        tags: tags_field(r.tags),
        ingredients: joined(
            r.ingredients.map_values(|line: RecipeIngredientView| ingredient_line(line)),
            "\n"@,
        ),
        instructions: r.instructions,
    }
}

/// The fields of the form for a new recipe: all empty.
pub open spec fn empty_recipe_fields() -> RecipeFieldsView {
    RecipeFieldsView {
        title: Seq::empty(),
        prep_time: Seq::empty(),
        downtime: Seq::empty(),
        servings: Seq::empty(),
        tags: Seq::empty(),
        ingredients: Seq::empty(),
        instructions: Seq::empty(),
    }
}

/// The recipe form as it opens, for a stored recipe or for a new one.
pub open spec fn recipe_form(
    ingredient_names: Seq<Seq<char>>,
    existing: Option<RecipeView>,
) -> RecipeFormView {
    match existing {
        Some(r) => RecipeFormView {
            window_title: "Edit Recipe"@,
            save_label: "Save"@,
            original: Some(r.title),
            fields: recipe_fields(r),
            ingredient_names,
        },
        None => RecipeFormView {
            window_title: "Add Recipe"@,
            save_label: "Add"@,
            original: None,
            fields: empty_recipe_fields(),
            ingredient_names,
        },
    }
}

/// The tags that a text lists: none for the empty text, else the pieces
/// between the commas, trimmed, without the empty ones.
pub open spec fn tags_of(text: Seq<char>) -> Option<Seq<Seq<char>>> {
    if text.len() == 0 {
        None
    } else {
        Some(
            split_on(text, ',').map_values(|piece: Seq<char>| trimmed(piece)).filter(
                |piece: Seq<char>| piece.len() > 0,
            ),
        )
    }
}

/// The amount that a word stands for: the word itself where it is written
/// as an amount, none where it is not.
pub open spec fn amount_of(word: Seq<char>) -> Option<Seq<char>> {
    if is_amount(word) {
        Some(word)
    } else {
        None
    }
}

/// The ingredient that a line of the form stands for: its first word is the
/// name, its second the amount, its third the unit; further words are left
/// out.
pub open spec fn line_entry(line: Seq<char>) -> RecipeIngredientView {
    let w = words(line);
    if w.len() == 0 {
        RecipeIngredientView { ingredient: trimmed(line), quantity: None, quantity_type: None }
    } else if w.len() == 1 {
        RecipeIngredientView { ingredient: w[0], quantity: None, quantity_type: None }
    } else if w.len() == 2 {
        RecipeIngredientView { ingredient: w[0], quantity: amount_of(w[1]), quantity_type: None }
    } else {
        RecipeIngredientView {
            ingredient: w[0],
            quantity: amount_of(w[1]),
            quantity_type: Some(w[2]),
        }
    }
}

/// The ingredients that a text lists: one for each of its lines that is not
/// blank.
pub open spec fn entries_of(text: Seq<char>) -> Seq<RecipeIngredientView> {
    split_on(text, '\n').filter(|line: Seq<char>| !blank(line)).map_values(
        |line: Seq<char>| line_entry(line),
    )
}

/// The recipe that the fields of the form stand for.
pub open spec fn recipe_of(f: RecipeFieldsView) -> RecipeView {
    RecipeView {
        title: trimmed(f.title),
        ingredients: entries_of(f.ingredients),
        prep_time: parsed_u32(f.prep_time),
        downtime: parsed_u32(f.downtime),
        servings: parsed_u32(f.servings),
        tags: tags_of(f.tags),
        image: None,
        instructions: f.instructions,
    }
}

/// The event that follows when the user saves the recipe form: none while
/// the title is blank, else the request to save the recipe under its
/// original title.
pub open spec fn recipe_submission(
    original: Option<Seq<char>>,
    f: RecipeFieldsView,
) -> Option<AppMsgView> {
    if blank(f.title) {
        None
    } else {
        Some(AppMsgView::SaveRecipe { original, recipe: recipe_of(f) })
    }
}

/// The text of a number field.
fn number_field_text(n: Option<u32>) -> (text: String)
    ensures
        text@ == number_field(n),
{
    match n {
        Some(v) => to_decimal(v),
        None => String::new(),
    }
}

/// The text of the tags field.
fn tags_field_text(tags: &Option<Vec<String>>) -> (text: String)
    ensures
        text@ == tags_field(tags.deep_view()),
{
    match tags {
        Some(names) => join(names, ", "),
        None => String::new(),
    }
}

/// One line of the ingredients field.
fn ingredient_line_text(line: &RecipeIngredient) -> (text: String)
    ensures
        text@ == ingredient_line(line@),
{
    match &line.quantity {
        Some(amount) => {
            let with_amount = line.ingredient.clone().concat(" ").concat(amount.as_str());
            match &line.quantity_type {
                Some(unit) => {
                    if !unit.as_str().is_empty() {
                        with_amount.concat(" ").concat(unit.as_str())
                    } else {
                        with_amount
                    }
                },
                None => with_amount,
            }
        },
        None => line.ingredient.clone(),
    }
}

/// The text of the ingredients field.
fn ingredients_field_text(lines: &Vec<RecipeIngredient>) -> (text: String)
    ensures
        text@ == joined(
            lines.deep_view().map_values(|line: RecipeIngredientView| ingredient_line(line)),
            "\n"@,
        ),
{
    let mut texts: Vec<String> = Vec::new();
    let mut i: usize = 0;
    while i < lines.len()
        invariant
            i <= lines.len(),
            texts.len() == i,
            forall|k: int| 0 <= k < i ==> texts[k]@ == ingredient_line(lines[k]@),
        decreases lines.len() - i,
    {
        texts.push(ingredient_line_text(&lines[i]));
        i += 1;
    }
    assert(texts.deep_view() =~= lines.deep_view().map_values(
        |line: RecipeIngredientView| ingredient_line(line),
    ));
    join(&texts, "\n")
}

/// The recipe form as it opens, for a stored recipe or for a new one.
pub fn show_recipe_dialog(ingredient_names: Vec<String>, existing: Option<&Recipe>) -> (form:
    RecipeForm)
    ensures
        form@ == recipe_form(ingredient_names.deep_view(), existing.deep_view()),
{
    match existing {
        Some(r) => RecipeForm {
            window_title: "Edit Recipe".to_owned(),
            save_label: "Save".to_owned(),
            original: Some(r.title.clone()),
            fields: RecipeFields {
                title: r.title.clone(),
                prep_time: number_field_text(r.prep_time),
                downtime: number_field_text(r.downtime),
                servings: number_field_text(r.servings),
                tags: tags_field_text(&r.tags),
                ingredients: ingredients_field_text(&r.ingredients),
                instructions: r.instructions.clone(),
            },
            ingredient_names,
        },
        None => RecipeForm {
            window_title: "Add Recipe".to_owned(),
            save_label: "Add".to_owned(),
            original: None,
            fields: RecipeFields {
                title: String::new(),
                prep_time: String::new(),
                downtime: String::new(),
                servings: String::new(),
                tags: String::new(),
                ingredients: String::new(),
                instructions: String::new(),
            },
            ingredient_names,
        },
    }
}

/// The tags that a text lists.
pub fn parse_tags(text: &str) -> (tags: Option<Vec<String>>)
    ensures
        tags.deep_view() == tags_of(text@),
{
    if text.is_empty() {
        return None;
    }
    let pieces = split(text, ',');
    let ghost trimmed_all = pieces.deep_view().map_values(|piece: Seq<char>| trimmed(piece));
    let ghost kept = |piece: Seq<char>| piece.len() > 0;
    let mut tags: Vec<String> = Vec::new();
    let mut i: usize = 0;
    proof {
        reveal(Seq::filter);
        assert(trimmed_all.take(0) =~= Seq::<Seq<char>>::empty());
        assert(tags.deep_view() =~= trimmed_all.take(0).filter(kept));
    }
    while i < pieces.len()
        invariant
            i <= pieces.len(),
            trimmed_all == pieces.deep_view().map_values(|piece: Seq<char>| trimmed(piece)),
            kept == (|piece: Seq<char>| piece.len() > 0),
            tags.deep_view() == trimmed_all.take(i as int).filter(kept),
        decreases pieces.len() - i,
    {
        let piece = trim(pieces[i].as_str());
        proof {
            reveal(Seq::filter);
            assert(trimmed_all.take(i + 1).drop_last() =~= trimmed_all.take(i as int));
            assert(trimmed_all.take(i + 1).last() == piece@);
        }
        if piece.unicode_len() > 0 {
            let ghost before = tags.deep_view();
            tags.push(piece.to_owned());
            proof {
                assert(tags.deep_view() =~= before.push(piece@));
            }
        }
        i += 1;
    }
    proof {
        assert(trimmed_all.take(pieces.len() as int) =~= trimmed_all);
    }
    Some(tags)
}

/// The amount that a word stands for.
pub fn parse_amount(word: &str) -> (amount: Option<String>)
    ensures
        amount.deep_view() == amount_of(word@),
{
    if is_amount_text(word) {
        Some(word.to_owned())
    } else {
        None
    }
}

/// The ingredient that a line of the form stands for.
pub fn parse_ingredient_line(line: &str) -> (entry: RecipeIngredient)
    ensures
        entry@ == line_entry(line@),
{
    let w = split_whitespace(line);
    proof {
        assert(w.deep_view().len() == w.len());
        assert(forall|k: int| 0 <= k < w.len() ==> w.deep_view()[k] == w[k]@);
    }
    if w.len() == 0 {
        RecipeIngredient { ingredient: trim(line).to_owned(), quantity: None, quantity_type: None }
    } else if w.len() == 1 {
        RecipeIngredient { ingredient: w[0].clone(), quantity: None, quantity_type: None }
    } else if w.len() == 2 {
        RecipeIngredient {
            ingredient: w[0].clone(),
            quantity: parse_amount(w[1].as_str()),
            quantity_type: None,
        }
    } else {
        RecipeIngredient {
            ingredient: w[0].clone(),
            quantity: parse_amount(w[1].as_str()),
            quantity_type: Some(w[2].clone()),
        }
    }
}

/// The ingredients that a text lists.
pub fn parse_ingredients(text: &str) -> (entries: Vec<RecipeIngredient>)
    ensures
        entries.deep_view() == entries_of(text@),
{
    let lines = split(text, '\n');
    let ghost all = lines.deep_view();
    let ghost kept = |line: Seq<char>| !blank(line);
    let ghost entry = |line: Seq<char>| line_entry(line);
    let mut entries: Vec<RecipeIngredient> = Vec::new();
    let mut i: usize = 0;
    proof {
        reveal(Seq::filter);
        assert(all.take(0) =~= Seq::<Seq<char>>::empty());
        assert(entries.deep_view() =~= all.take(0).filter(kept).map_values(entry));
    }
    while i < lines.len()
        invariant
            i <= lines.len(),
            all == lines.deep_view(),
            kept == (|line: Seq<char>| !blank(line)),
            entry == (|line: Seq<char>| line_entry(line)),
            entries.deep_view() == all.take(i as int).filter(kept).map_values(entry),
        decreases lines.len() - i,
    {
        let line = lines[i].as_str();
        proof {
            reveal(Seq::filter);
            assert(all.take(i + 1).drop_last() =~= all.take(i as int));
            assert(all.take(i + 1).last() == line@);
        }
        if !is_blank(line) {
            let ghost before = entries.deep_view();
            entries.push(parse_ingredient_line(line));
            proof {
                assert(entries.deep_view() =~= before.push(line_entry(line@)));
                assert(all.take(i + 1).filter(kept).map_values(entry) =~= before.push(
                    line_entry(line@),
                ));
            }
        }
        i += 1;
    }
    proof {
        assert(all.take(lines.len() as int) =~= all);
    }
    entries
}

/// The event that follows when the user saves the recipe form.
pub fn submit_recipe(original: Option<String>, fields: &RecipeFields) -> (msg: Option<AppMsg>)
    ensures
        msg.deep_view() == recipe_submission(original.deep_view(), fields@),
{
    if is_blank(fields.title.as_str()) {
        return None;
    }
    let recipe = Recipe {
        title: trim(fields.title.as_str()).to_owned(),
        ingredients: parse_ingredients(fields.ingredients.as_str()),
        prep_time: parse_u32(fields.prep_time.as_str()),
        downtime: parse_u32(fields.downtime.as_str()),
        servings: parse_u32(fields.servings.as_str()),
        tags: parse_tags(fields.tags.as_str()),
        image: None,
        instructions: fields.instructions.clone(),
    };
    Some(AppMsg::SaveRecipe { original, recipe })
}

/// The values of the fields of the ingredient form.
#[derive(Debug, PartialEq)]
pub struct IngredientFields {
    pub name: String,
    pub category: String,
    pub tags: String,
    pub in_pantry: bool,
    pub quantity: String,
    pub unit: String,
}

/// Mathematical value of [`IngredientFields`].
pub struct IngredientFieldsView {
    pub name: Seq<char>,
    pub category: Seq<char>,
    pub tags: Seq<char>,
    pub in_pantry: bool,
    pub quantity: Seq<char>,
    pub unit: Seq<char>,
}

impl View for IngredientFields {
    type V = IngredientFieldsView;

    open spec fn view(&self) -> IngredientFieldsView {
        IngredientFieldsView {
            name: self.name@,
            category: self.category@,
            tags: self.tags@,
            in_pantry: self.in_pantry,
            quantity: self.quantity@,
            unit: self.unit@,
        }
    }
}

/// The ingredient form as it opens. The fields of the amount and the unit
/// can be written to while `fields.in_pantry` is set.
#[derive(Debug, PartialEq)]
pub struct IngredientForm {
    pub window_title: String,
    pub save_label: String,
    pub original: Option<String>,
    pub category_title: String,
    pub fields: IngredientFields,
}

/// Mathematical value of [`IngredientForm`].
pub struct IngredientFormView {
    pub window_title: Seq<char>,
    pub save_label: Seq<char>,
    pub original: Option<Seq<char>>,
    pub category_title: Seq<char>,
    pub fields: IngredientFieldsView,
}

impl View for IngredientForm {
    type V = IngredientFormView;

    open spec fn view(&self) -> IngredientFormView {
        IngredientFormView {
            window_title: self.window_title@,
            save_label: self.save_label@,
            original: self.original.deep_view(),
            category_title: self.category_title@,
            fields: self.fields@,
        }
    }
}

impl DeepView for IngredientForm {
    type V = IngredientFormView;

    open spec fn deep_view(&self) -> IngredientFormView {
        self@
    }
}

/// The title of the category field: it names the first category that the
/// engine knows as an example.
pub open spec fn category_title(categories: Seq<Seq<char>>) -> Seq<char> {
    if categories.len() > 0 {
        "Category (e.g. "@ + categories[0] + ")"@
    } else {
        "Category"@
    }
}

/// The fields of the ingredient form, for a stored ingredient or a new one,
/// with or without an entry in the pantry.
pub open spec fn ingredient_fields(
    existing: Option<IngredientView>,
    pantry_item: Option<PantryItemView>,
) -> IngredientFieldsView {
    IngredientFieldsView {
        name: match existing {
            Some(ing) => ing.name,
            None => Seq::empty(),
        },
        category: match existing {
            Some(ing) => ing.category,
            None => Seq::empty(),
        },
        tags: match existing {
            Some(ing) => tags_field(ing.tags),
            None => Seq::empty(),
        },
        in_pantry: pantry_item is Some,
        quantity: match pantry_item {
            Some(item) => match item.quantity {
                Some(amount) => amount,
                None => Seq::empty(),
            },
            None => Seq::empty(),
        },
        unit: match pantry_item {
            Some(item) => item.quantity_type,
            None => Seq::empty(),
        },
    }
}

/// The ingredient form as it opens.
pub open spec fn ingredient_form(
    categories: Seq<Seq<char>>,
    existing: Option<IngredientView>,
    pantry_item: Option<PantryItemView>,
) -> IngredientFormView {
    IngredientFormView {
        window_title: if existing is Some {
            "Edit Ingredient"@
        } else {
            "Add Ingredient"@
        },
        save_label: if existing is Some {
            "Save"@
        } else {
            "Add"@
        },
        original: match existing {
            Some(ing) => Some(ing.name),
            None => None,
        },
        category_title: category_title(categories),
        fields: ingredient_fields(existing, pantry_item),
    }
}

/// The slug of an ingredient: its name in lower case, with an underscore for
/// every blank.
pub open spec fn slug_of(name: Seq<char>) -> Seq<char> {
    underscored(lowercase(name))
}

/// The ingredient that the fields of the form stand for.
pub open spec fn ingredient_of(f: IngredientFieldsView) -> IngredientView {
    IngredientView {
        name: trimmed(f.name),
        slug: slug_of(trimmed(f.name)),
        category: trimmed(f.category),
        kb: None,
        tags: tags_of(f.tags),
    }
}

/// The event that follows when the user saves the ingredient form: none
/// while the name is blank, else the request to save the ingredient under
/// its original name, with the amount if the field holds one.
pub open spec fn ingredient_submission(
    original: Option<Seq<char>>,
    f: IngredientFieldsView,
) -> Option<AppMsgView> {
    if blank(f.name) {
        None
    } else {
        Some(
            AppMsgView::SaveIngredient {
                original,
                ingredient: ingredient_of(f),
                in_pantry: f.in_pantry,
                qty: amount_of(f.quantity),
                qty_type: f.unit,
            },
        )
    }
}

/// The title of the category field.
fn category_title_text(categories: &Vec<String>) -> (title: String)
    ensures
        title@ == category_title(categories.deep_view()),
{
    if categories.len() > 0 {
        prefixed("Category (e.g. ", categories[0].as_str()).concat(")")
    } else {
        "Category".to_owned()
    }
}

/// The ingredient form as it opens, for a stored ingredient or for a new
/// one.
pub fn show_ingredient_dialog(
    categories: Vec<String>,
    existing: Option<&Ingredient>,
    pantry_item: Option<&PantryItem>,
) -> (form: IngredientForm)
    ensures
        form@ == ingredient_form(
            categories.deep_view(),
            existing.deep_view(),
            pantry_item.deep_view(),
        ),
{
    let (name, category, tags) = match existing {
        Some(ing) => (ing.name.clone(), ing.category.clone(), tags_field_text(&ing.tags)),
        None => (String::new(), String::new(), String::new()),
    };
    let (quantity, unit) = match pantry_item {
        Some(item) => (
            match &item.quantity {
                Some(amount) => amount.clone(),
                None => String::new(),
            },
            item.quantity_type.clone(),
        ),
        None => (String::new(), String::new()),
    };
    IngredientForm {
        window_title: if existing.is_some() {
            "Edit Ingredient".to_owned()
        } else {
            "Add Ingredient".to_owned()
        },
        save_label: if existing.is_some() {
            "Save".to_owned()
        } else {
            "Add".to_owned()
        },
        original: match existing {
            Some(ing) => Some(ing.name.clone()),
            None => None,
        },
        category_title: category_title_text(&categories),
        fields: IngredientFields {
            name,
            category,
            tags,
            in_pantry: pantry_item.is_some(),
            quantity,
            unit,
        },
    }
}

/// The event that follows when the user saves the ingredient form.
pub fn submit_ingredient(original: Option<String>, fields: &IngredientFields) -> (msg: Option<
    AppMsg,
>)
    ensures
        msg.deep_view() == ingredient_submission(original.deep_view(), fields@),
{
    if is_blank(fields.name.as_str()) {
        return None;
    }
    let name = trim(fields.name.as_str());
    let ingredient = Ingredient {
        name: name.to_owned(),
        slug: replace_blanks(to_lowercase(name).as_str()),
        category: trim(fields.category.as_str()).to_owned(),
        kb: None,
        tags: parse_tags(fields.tags.as_str()),
    };
    Some(
        AppMsg::SaveIngredient {
            original,
            ingredient,
            in_pantry: fields.in_pantry,
            qty: parse_amount(fields.quantity.as_str()),
            qty_type: fields.unit.clone(),
        },
    )
}

/// A notice with one button that closes it.
#[derive(Debug, PartialEq)]
pub struct MessageDialog {
    pub heading: String,
    pub body: String,
    pub response: String,
    pub response_label: String,
}

/// The notice that tells of an error.
pub fn show_error_toast(message: &str) -> (dialog: MessageDialog)
    ensures
        dialog.heading@ == "Error"@,
        dialog.body@ == message@,
        dialog.response@ == "ok"@,
        dialog.response_label@ == "OK"@,
{
    MessageDialog {
        heading: "Error".to_owned(),
        body: message.to_owned(),
        response: "ok".to_owned(),
        response_label: "OK".to_owned(),
    }
}

/// The names that a form offers: those of the engine, none without an
/// engine.
pub open spec fn offered(names: Option<Seq<Seq<char>>>) -> Seq<Seq<char>> {
    match names {
        Some(known) => known,
        None => Seq::empty(),
    }
}

/// The names that a form offers.
fn offered_names(names: Option<Vec<String>>) -> (out: Vec<String>)
    ensures
        out.deep_view() == offered(names.deep_view()),
{
    match names {
        Some(known) => known,
        None => {
            let out: Vec<String> = Vec::new();
            assert(out.deep_view() =~= Seq::<Seq<char>>::empty());
            out
        },
    }
}

/// The form for a new recipe. `ingredient_names` are the names that the
/// engine knows at this moment, or `None` where no engine is loaded.
pub fn open_add_recipe_dialog(ingredient_names: Option<Vec<String>>) -> (form: RecipeForm)
    ensures
        form@ == recipe_form(offered(ingredient_names.deep_view()), None),
{
    show_recipe_dialog(offered_names(ingredient_names), None)
}

/// The form for a stored recipe, or nothing where the recipe is gone or no
/// engine is loaded: the request is then dropped without a word.
pub fn open_edit_recipe_dialog(found: Lookup<Recipe>, ingredient_names: Vec<String>) -> (form:
    Option<RecipeForm>)
    ensures
        form.deep_view() == match found.record() {
            Some(recipe) => Some(recipe_form(ingredient_names.deep_view(), Some(recipe))),
            None => None,
        },
{
    match found {
        Lookup::Found(recipe) => Some(show_recipe_dialog(ingredient_names, Some(&recipe))),
        _ => None,
    }
}

/// The form for a new ingredient. `categories` are the categories that the
/// engine knows at this moment, or `None` where no engine is loaded.
pub fn open_add_ingredient_dialog(categories: Option<Vec<String>>) -> (form: IngredientForm)
    ensures
        form@ == ingredient_form(offered(categories.deep_view()), None, None),
{
    show_ingredient_dialog(offered_names(categories), None, None)
}

/// The form for a stored ingredient with its pantry entry, or nothing where
/// the ingredient is gone or no engine is loaded.
pub fn open_edit_ingredient_dialog(
    found: Lookup<Ingredient>,
    pantry_item: Option<PantryItem>,
    categories: Vec<String>,
) -> (form: Option<IngredientForm>)
    ensures
        form.deep_view() == match found.record() {
            Some(ingredient) => Some(
                ingredient_form(
                    categories.deep_view(),
                    Some(ingredient),
                    pantry_item.deep_view(),
                ),
            ),
            None => None,
        },
{
    match found {
        Lookup::Found(ingredient) => Some(
            show_ingredient_dialog(categories, Some(&ingredient), pantry_item.as_ref()),
        ),
        _ => None,
    }
}

} // verus!
