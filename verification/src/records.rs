//! The records that the data engine stores, as plain values.
//!
//! An amount is kept as the decimal text that stands for it, so that no
//! record depends on how a machine rounds.

use vstd::prelude::*;

verus! {

/// One line of a recipe's ingredient list.
#[derive(Debug, PartialEq)]
pub struct RecipeIngredient {
    pub ingredient: String,
    pub quantity: Option<String>,
    pub quantity_type: Option<String>,
}

/// Mathematical value of [`RecipeIngredient`].
pub struct RecipeIngredientView {
    pub ingredient: Seq<char>,
    pub quantity: Option<Seq<char>>,
    pub quantity_type: Option<Seq<char>>,
}

impl View for RecipeIngredient {
    type V = RecipeIngredientView;

    open spec fn view(&self) -> RecipeIngredientView {
        RecipeIngredientView {
            ingredient: self.ingredient@,
            quantity: self.quantity.deep_view(),
            quantity_type: self.quantity_type.deep_view(),
        }
    }
}

impl DeepView for RecipeIngredient {
    type V = RecipeIngredientView;

    open spec fn deep_view(&self) -> RecipeIngredientView {
        self@
    }
}

impl Clone for RecipeIngredient {
    fn clone(&self) -> (copy: RecipeIngredient)
        ensures
            copy@ == self@,
    {
        RecipeIngredient {
            ingredient: self.ingredient.clone(),
            quantity: self.quantity.clone(),
            quantity_type: self.quantity_type.clone(),
        }
    }
}

/// A recipe.
#[derive(Debug, PartialEq)]
pub struct Recipe {
    pub title: String,
    pub ingredients: Vec<RecipeIngredient>,
    pub prep_time: Option<u32>,
    pub downtime: Option<u32>,
    pub servings: Option<u32>,
    pub tags: Option<Vec<String>>,
    pub image: Option<String>,
    pub instructions: String,
}

/// Mathematical value of [`Recipe`].
pub struct RecipeView {
    pub title: Seq<char>,
    pub ingredients: Seq<RecipeIngredientView>,
    pub prep_time: Option<u32>,
    pub downtime: Option<u32>,
    pub servings: Option<u32>,
    pub tags: Option<Seq<Seq<char>>>,
    pub image: Option<Seq<char>>,
    pub instructions: Seq<char>,
}

impl View for Recipe {
    type V = RecipeView;

    open spec fn view(&self) -> RecipeView {
        RecipeView {
            title: self.title@,
            ingredients: self.ingredients.deep_view(),
            prep_time: self.prep_time,
            downtime: self.downtime,
            servings: self.servings,
            tags: self.tags.deep_view(),
            image: self.image.deep_view(),
            instructions: self.instructions@,
        }
    }
}

impl DeepView for Recipe {
    type V = RecipeView;

    open spec fn deep_view(&self) -> RecipeView {
        self@
    }
}

/// Copies a list of ingredient lines.
fn clone_lines(lines: &Vec<RecipeIngredient>) -> (copy: Vec<RecipeIngredient>)
    ensures
        copy.deep_view() == lines.deep_view(),
{
    let mut copy: Vec<RecipeIngredient> = Vec::new();
    let mut i: usize = 0;
    while i < lines.len()
        invariant
            i <= lines.len(),
            copy.len() == i,
            forall|k: int| 0 <= k < i ==> copy[k]@ == lines[k]@,
        decreases lines.len() - i,
    {
        copy.push(lines[i].clone());
        i += 1;
    }
    assert(copy.deep_view() =~= lines.deep_view());
    copy
}

impl Clone for Recipe {
    fn clone(&self) -> (copy: Recipe)
        ensures
            copy@ == self@,
    {
        Recipe {
            title: self.title.clone(),
            ingredients: clone_lines(&self.ingredients),
            prep_time: self.prep_time,
            downtime: self.downtime,
            servings: self.servings,
            tags: self.tags.clone(),
            image: self.image.clone(),
            instructions: self.instructions.clone(),
        }
    }
}

/// An ingredient.
#[derive(Debug, PartialEq)]
pub struct Ingredient {
    pub name: String,
    pub slug: String,
    pub category: String,
    pub kb: Option<String>,
    pub tags: Option<Vec<String>>,
}

/// Mathematical value of [`Ingredient`].
pub struct IngredientView {
    pub name: Seq<char>,
    pub slug: Seq<char>,
    pub category: Seq<char>,
    pub kb: Option<Seq<char>>,
    pub tags: Option<Seq<Seq<char>>>,
}

impl View for Ingredient {
    type V = IngredientView;

    open spec fn view(&self) -> IngredientView {
        IngredientView {
            name: self.name@,
            slug: self.slug@,
            category: self.category@,
            kb: self.kb.deep_view(),
            tags: self.tags.deep_view(),
        }
    }
}

impl DeepView for Ingredient {
    type V = IngredientView;

    open spec fn deep_view(&self) -> IngredientView {
        self@
    }
}

impl Clone for Ingredient {
    fn clone(&self) -> (copy: Ingredient)
        ensures
            copy@ == self@,
    {
        Ingredient {
            name: self.name.clone(),
            slug: self.slug.clone(),
            category: self.category.clone(),
            kb: self.kb.clone(),
            tags: self.tags.clone(),
        }
    }
}

/// What the pantry holds of one ingredient.
#[derive(Debug, PartialEq)]
pub struct PantryItem {
    pub quantity: Option<String>,
    pub quantity_type: String,
    pub last_updated: String,
}

/// Mathematical value of [`PantryItem`].
pub struct PantryItemView {
    pub quantity: Option<Seq<char>>,
    pub quantity_type: Seq<char>,
    pub last_updated: Seq<char>,
}

impl View for PantryItem {
    type V = PantryItemView;

    open spec fn view(&self) -> PantryItemView {
        PantryItemView {
            quantity: self.quantity.deep_view(),
            quantity_type: self.quantity_type@,
            last_updated: self.last_updated@,
        }
    }
}

impl DeepView for PantryItem {
    type V = PantryItemView;

    open spec fn deep_view(&self) -> PantryItemView {
        self@
    }
}

impl Clone for PantryItem {
    fn clone(&self) -> (copy: PantryItem)
        ensures
            copy@ == self@,
    {
        PantryItem {
            quantity: self.quantity.clone(),
            quantity_type: self.quantity_type.clone(),
            last_updated: self.last_updated.clone(),
        }
    }
}

/// An article of the knowledge base.
#[derive(Debug, PartialEq)]
pub struct KbEntry {
    pub slug: String,
    pub title: String,
    pub content: String,
}

/// Mathematical value of [`KbEntry`].
pub struct KbEntryView {
    pub slug: Seq<char>,
    pub title: Seq<char>,
    pub content: Seq<char>,
}

impl View for KbEntry {
    type V = KbEntryView;

    open spec fn view(&self) -> KbEntryView {
        KbEntryView { slug: self.slug@, title: self.title@, content: self.content@ }
    }
}

impl DeepView for KbEntry {
    type V = KbEntryView;

    open spec fn deep_view(&self) -> KbEntryView {
        self@
    }
}

impl Clone for KbEntry {
    fn clone(&self) -> (copy: KbEntry)
        ensures
            copy@ == self@,
    {
        KbEntry {
            slug: self.slug.clone(),
            title: self.title.clone(),
            content: self.content.clone(),
        }
    }
}

} // verus!
