//! The development environment of a project: the toolchains that working on
//! it takes, gathered into one artifact.

use vstd::prelude::*;
use vstd::string::*;
use crate::error::BuildErrorView;
use crate::model;
use crate::model::OutcomeView;
use crate::plan::{Method, MethodView};
use crate::platform::Platform;
use crate::recipe::{
    lemma_authoring_lists_variants, lemma_on_each_appends, lemma_on_each_keeps_the_rest,
    RecipeSpec, RecipeView, Share, Slot, SlotView, Variant, VariantView,
};
use crate::resolver;
use crate::resolver::Outcome;
use crate::session::ResolutionSession;
use crate::toolchain;

verus! {

/// The name of the protocol buffer compiler among the executor's toolchains.
pub const PROTOC: &'static str = "protoc";

/// The name of the Rust toolchain among the executor's toolchains.
pub const RUST_TOOLCHAIN: &'static str = "rust-toolchain";

/// The recipe of the environment called `name` for the platforms in
/// `systems`, listed as they are given: it rests on the protocol buffer
/// compiler and the Rust toolchain, in this order, and the executor
/// assembles it from the two.
pub open spec fn spec_recipe(name: Seq<char>, systems: Seq<Platform>) -> RecipeView {
    RecipeView::new(name, Seq::empty()).with_slot(
        SlotView::new("protoc"@, None, toolchain::spec_provided(PROTOC@)),
    ).with_slot(
        SlotView::new("rust_toolchain"@, None, toolchain::spec_provided(RUST_TOOLCHAIN@)),
    ).with_method(MethodView::Environment).on_each(systems, VariantView::new(Seq::empty()))
}

/// The environment's recipe lists the platforms exactly as they are given,
/// in that order and with every repetition, and has a variant for each of
/// them and for no other. So its submission lists them so.
pub proof fn law_platforms_are_listed_as_given(
    name: Seq<char>,
    systems: Seq<Platform>,
    platform: Platform,
)
    ensures
        spec_recipe(name, systems).systems == systems,
        spec_recipe(name, systems).name == name,
        spec_recipe(name, systems).variants.get(platform) is Some <==> systems.contains(platform),
{
    let bare = RecipeView::new(name, Seq::empty()).with_slot(
        SlotView::new("protoc"@, None, toolchain::spec_provided(PROTOC@)),
    ).with_slot(
        SlotView::new("rust_toolchain"@, None, toolchain::spec_provided(RUST_TOOLCHAIN@)),
    ).with_method(MethodView::Environment);
    let variant = VariantView::new(Seq::empty());
    lemma_on_each_appends(bare, systems, variant);
    lemma_authoring_lists_variants(bare, platform, variant);
    assert(bare.systems + systems =~= systems);
    assert(bare.lists_its_variants());
    lemma_on_each_keeps_the_rest(bare, systems, variant);
}

/// The environment's recipe is well formed: its two prerequisites have names
/// of their own and well-formed fallback recipes, and its list of platforms
/// is in step with its variants.
pub proof fn law_is_well_formed(name: Seq<char>, systems: Seq<Platform>)
    ensures
        spec_recipe(name, systems).wf(),
{
    let bare = RecipeView::new(name, Seq::empty()).with_slot(
        SlotView::new("protoc"@, None, toolchain::spec_provided(PROTOC@)),
    ).with_slot(
        SlotView::new("rust_toolchain"@, None, toolchain::spec_provided(RUST_TOOLCHAIN@)),
    ).with_method(MethodView::Environment);
    let variant = VariantView::new(Seq::empty());
    lemma_authoring_lists_variants(bare, Platform::Aarch64Darwin, variant);
    assert(bare.lists_its_variants());
    lemma_on_each_appends(bare, systems, variant);
    lemma_on_each_keeps_the_rest(bare, systems, variant);
    let recipe = spec_recipe(name, systems);
    assert(recipe.slots.len() == 2);
    assert(recipe.inputs =~= seq![0usize, 1usize]);
    toolchain::law_provided_is_well_formed(PROTOC@);
    toolchain::law_provided_is_well_formed(RUST_TOOLCHAIN@);
    assert(recipe.slots[0].fallback.wf());
    assert(recipe.slots[1].fallback.wf());
    assert(recipe.slots[0].shares =~= Seq::<Share>::empty());
    assert(recipe.slots[1].shares =~= Seq::<Share>::empty());
    reveal_strlit("protoc");
    reveal_strlit("rust_toolchain");
    assert(recipe.slots[0].name.len() != recipe.slots[1].name.len());
}

/// The recipe of the environment called `name` for the platforms in
/// `systems`.
pub fn recipe(name: &str, systems: &Vec<Platform>) -> (recipe: RecipeSpec)
    ensures
        recipe@ == spec_recipe(name@, systems@),
{
    proof {
        reveal_strlit("");
        assert(""@ =~= Seq::<char>::empty());
    }
    RecipeSpec::new(name, "").with_slot(
        Slot::new("protoc", None, toolchain::provided(PROTOC)),
    ).with_slot(Slot::new("rust_toolchain", None, toolchain::provided(RUST_TOOLCHAIN))).with_method(
        Method::Environment,
    ).on_each(systems, &Variant::new(""))
}

/// The development environment of a project.
pub struct ProjectEnvironment {
    pub name: String,
    pub systems: Vec<Platform>,
}

impl ProjectEnvironment {
    /// The environment called `name` for the platforms in `systems`.
    pub fn new(name: &str, systems: Vec<Platform>) -> (environment: Self)
        ensures
            environment.name@ == name@,
            environment.systems@ == systems@,
    {
        ProjectEnvironment { name: String::from_str(name), systems }
    }

    /// Resolves the environment in `session`: the artifact where it is
    /// assembled, the submission that the executor has to perform next where
    /// it is not, or the failure that stops it.
    ///
    /// Where the session's platform is not among the environment's, this
    /// fails with `UnsupportedPlatform` and asks for nothing.
    pub fn build(self, session: &ResolutionSession) -> (outcome: Outcome)
        ensures
            outcome@ == model::build(spec_recipe(self.name@, self.systems@), session@),
            !self.systems@.contains(session@.platform) ==> outcome@ == OutcomeView::Failed(
                BuildErrorView::UnsupportedPlatform {
                    recipe: self.name@,
                    platform: session@.platform,
                },
            ),
    {
        proof {
            law_platforms_are_listed_as_given(self.name@, self.systems@, session@.platform);
        }
        resolver::build(&recipe(self.name.as_str(), &self.systems), session)
    }
}

} // verus!
