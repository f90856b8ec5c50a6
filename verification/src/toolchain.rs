//! Artifacts that the executor brings along: toolchains and root file
//! systems that it builds by recipes of its own.

use vstd::prelude::*;
use crate::plan::{Method, MethodView};
use crate::platform::Platform;
use crate::recipe::{
    lemma_authoring_lists_variants, lemma_on_all_lists_variants, RecipeSpec, RecipeView, Variant,
    VariantView,
};

verus! {

/// The version tag of what the executor brings along.
pub const LATEST: &'static str = "latest";

/// The recipe of the executor's own artifact called `name`: no sources and
/// no script, on every platform.
pub open spec fn spec_provided(name: Seq<char>) -> RecipeView {
    RecipeView::new(name, LATEST@).with_method(MethodView::Provided).on_all(VariantView::new(""@))
}

/// The recipe of one of the executor's own artifacts is well formed.
pub proof fn law_provided_is_well_formed(name: Seq<char>)
    ensures
        spec_provided(name).wf(),
{
    let bare = RecipeView::new(name, LATEST@);
    let variant = VariantView::new(""@);
    lemma_authoring_lists_variants(bare, Platform::Aarch64Darwin, variant);
    assert(bare.with_method(MethodView::Provided).lists_its_variants());
    lemma_on_all_lists_variants(bare.with_method(MethodView::Provided), variant);
}

/// The recipe of the executor's own artifact called `name`: no sources and
/// no script, on every platform.
pub fn provided(name: &str) -> (recipe: RecipeSpec)
    ensures
        recipe@ == spec_provided(name@),
{
    RecipeSpec::new(name, LATEST).with_method(Method::Provided).on_all(Variant::new(""))
}

} // verus!
