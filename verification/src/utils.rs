//! What a data directory must hold before the engine can open it.

use vstd::prelude::*;

verus! {

/// Directory of the ingredient files, below the data directory.
pub const INGREDIENTS_DIR: &'static str = "ingredients";

/// Directory of the recipe files, below the data directory.
pub const RECIPES_DIR: &'static str = "recipes";

/// Directory of the recipe pictures, below the data directory.
pub const RECIPE_IMAGES_DIR: &'static str = "recipes/img";

/// File of the pantry, below the data directory.
pub const PANTRY_FILE: &'static str = "pantry.yaml";

/// What a pantry file holds when it is made: no items.
pub const EMPTY_PANTRY: &'static str = "version: 1\nitems: []\n";

/// Which parts of a data directory are there.
#[derive(Debug, Clone, Copy, PartialEq, Eq, Structural)]
pub struct DataDirState {
    pub ingredients: bool,
    pub recipes: bool,
    pub recipe_images: bool,
    pub pantry_file: bool,
}

/// One step that makes a missing part. Paths are relative to the data
/// directory.
#[derive(Debug, PartialEq)]
pub enum FsAction {
    /// Make the directory and every directory above it that is missing.
    CreateDirAll { path: String },
    /// Write the file with this content.
    WriteFile { path: String, content: String },
}

/// Mathematical value of [`FsAction`].
pub enum FsActionView {
    CreateDirAll { path: Seq<char> },
    WriteFile { path: Seq<char>, content: Seq<char> },
}

impl View for FsAction {
    type V = FsActionView;

    open spec fn view(&self) -> FsActionView {
        match *self {
            FsAction::CreateDirAll { path } => FsActionView::CreateDirAll { path: path@ },
            FsAction::WriteFile { path, content } => FsActionView::WriteFile {
                path: path@,
                content: content@,
            },
        }
    }
}

impl DeepView for FsAction {
    type V = FsActionView;

    open spec fn deep_view(&self) -> FsActionView {
        self@
    }
}

/// The step that makes a directory, unless it is there.
pub open spec fn make_dir_unless(there: bool, path: Seq<char>) -> Seq<FsActionView> {
    if there {
        seq![]
    } else {
        seq![FsActionView::CreateDirAll { path }]
    }
}

/// The steps that complete a data directory: a step for each directory that
/// is missing, then one for the pantry file if it is missing. What is there
/// is never touched.
pub open spec fn missing_parts(state: DataDirState) -> Seq<FsActionView> {
    make_dir_unless(state.ingredients, INGREDIENTS_DIR@) + make_dir_unless(
        state.recipes,
        RECIPES_DIR@,
    ) + make_dir_unless(state.recipe_images, RECIPE_IMAGES_DIR@) + (if state.pantry_file {
        seq![]
    } else {
        seq![FsActionView::WriteFile { path: PANTRY_FILE@, content: EMPTY_PANTRY@ }]
    })
}

/// A data directory in which every part is there.
pub open spec fn complete() -> DataDirState {
    DataDirState { ingredients: true, recipes: true, recipe_images: true, pantry_file: true }
}

/// A complete data directory needs no step, so completing a directory twice
/// changes nothing the second time; and only a complete one needs none.
pub proof fn complete_needs_nothing(state: DataDirState)
    ensures
        missing_parts(complete()).len() == 0,
        missing_parts(state).len() == 0 ==> state == complete(),
{
}

/// Puts one more step at the end.
fn push_action(actions: &mut Vec<FsAction>, action: FsAction)
    ensures
        final(actions).deep_view() == old(actions).deep_view().push(action@),
{
    let ghost before = actions.deep_view();
    actions.push(action);
    assert(actions.deep_view() =~= before.push(action@));
}

/// Puts the step that makes a directory at the end, unless the directory is
/// there.
fn push_dir_unless(actions: &mut Vec<FsAction>, there: bool, path: &str)
    ensures
        final(actions).deep_view() == old(actions).deep_view() + make_dir_unless(there, path@),
{
    let ghost before = actions.deep_view();
    if !there {
        push_action(actions, FsAction::CreateDirAll { path: path.to_owned() });
    }
    assert(actions.deep_view() =~= before + make_dir_unless(there, path@));
}

/// The steps that complete a data directory of which `state` says what is
/// there.
pub fn validate_and_create_data_dir(state: DataDirState) -> (actions: Vec<FsAction>)
    ensures
        actions.deep_view() == missing_parts(state),
{
    let mut actions: Vec<FsAction> = Vec::new();
    assert(actions.deep_view() =~= Seq::<FsActionView>::empty());
    push_dir_unless(&mut actions, state.ingredients, INGREDIENTS_DIR);
    push_dir_unless(&mut actions, state.recipes, RECIPES_DIR);
    push_dir_unless(&mut actions, state.recipe_images, RECIPE_IMAGES_DIR);
    if !state.pantry_file {
        push_action(
            &mut actions,
            FsAction::WriteFile { path: PANTRY_FILE.to_owned(), content: EMPTY_PANTRY.to_owned() },
        );
    }
    assert(actions.deep_view() =~= missing_parts(state));
    actions
}

} // verus!
