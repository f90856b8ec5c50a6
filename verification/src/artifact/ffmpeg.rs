//! FFmpeg, built from source.

use vstd::prelude::*;
use crate::error::BuildErrorView;
use crate::model;
use crate::model::{Binding, OutcomeView};
use crate::plan::{Source, SourceView};
use crate::platform::Platform;
use crate::recipe::{
    OWN_NAME, RecipeSpec, RecipeView, VERSIONED_ALIAS, Variant, VariantView,
    lemma_authoring_lists_variants, lemma_on_all_lists_variants,
};
use crate::resolver;
use crate::resolver::Outcome;
use crate::session::{ResolutionSession, SessionView};

verus! {

/// The name of the artifact.
pub const NAME: &'static str = "ffmpeg";

/// The version that is built.
pub const VERSION: &'static str = "7.1.3";

/// Where the source archive is fetched from.
pub const SOURCE: &'static str = "https://ffmpeg.org/releases/ffmpeg-{version}.tar.xz";

/// The build step.
pub const SCRIPT: &'static str = "mkdir -pv \"$VORPAL_OUTPUT\"\n\
    \n\
    pushd ./source/{name}/ffmpeg-{version}\n\
    \n\
    ./configure --prefix=\"$VORPAL_OUTPUT\" --disable-doc --disable-debug --enable-gpl\n\
    \n\
    make -j$(nproc 2>/dev/null || sysctl -n hw.ncpu)\n\
    make install";

/// What is built on every platform.
pub open spec fn spec_variant() -> VariantView {
    VariantView::new(SCRIPT@).with_source(SourceView::new(OWN_NAME@, SOURCE@))
}

/// What is built on every platform.
pub fn variant() -> (variant: Variant)
    ensures
        variant@ == spec_variant(),
{
    Variant::new(SCRIPT).with_source(Source::new(OWN_NAME, SOURCE))
}

/// The recipe.
pub open spec fn spec_recipe() -> RecipeView {
    RecipeView::new(NAME@, VERSION@)
        .with_alias(VERSIONED_ALIAS@)
        .on_all(spec_variant())
}

/// The recipe.
pub fn recipe() -> (recipe: RecipeSpec)
    ensures
        recipe@ == spec_recipe(),
{
    RecipeSpec::new(NAME, VERSION)
        .with_alias(VERSIONED_ALIAS)
        .on_all(variant())
}

/// The recipe is well formed: its list of platforms is in step with its
/// variants.
pub proof fn law_is_well_formed()
    ensures
        spec_recipe().wf(),
{
    let bare = RecipeView::new(NAME@, VERSION@).with_alias(VERSIONED_ALIAS@);
    lemma_authoring_lists_variants(bare, Platform::Aarch64Darwin, spec_variant());
    assert(bare.lists_its_variants());
    lemma_on_all_lists_variants(bare, spec_variant());
    let recipe = spec_recipe();
    assert(recipe.lists_its_variants());
}

/// Whatever the session, the recipe builds what is authored for the
/// session's platform and nothing of another's, and declares no input.
pub proof fn law_builds_what_is_authored(session: SessionView)
    ensures
        ({
            let recipe = spec_recipe();
            let bound = Seq::<Seq<char>>::empty();
            &&& recipe.select(session.platform) == Ok::<VariantView, BuildErrorView>(
                spec_variant(),
            )
            &&& model::bind(recipe, Seq::empty(), session, 0) == Binding::Bound(bound)
            &&& model::build(recipe, session) == model::conclude(
                recipe,
                spec_variant(),
                bound,
                session,
            )
            &&& model::declared(recipe.inputs, bound) == Seq::<Seq<char>>::empty()
        }),
{
    let recipe = spec_recipe();
    let none = Seq::<Option<Seq<char>>>::empty();
    let bound = Seq::<Seq<char>>::empty();
    assert(recipe.slots.len() == 0);
    assert(model::bind(recipe, none, session, 0) == Binding::Bound(Seq::empty()));
    assert(recipe.inputs =~= Seq::<usize>::empty());
    assert(model::declared(Seq::<usize>::empty(), bound) =~= Seq::<Seq<char>>::empty());
}

/// The recipe.
pub struct Ffmpeg;

impl Ffmpeg {
    /// The recipe with nothing supplied: it has no prerequisites.
    pub fn new() -> (recipe: Self)
        ensures
            recipe == Ffmpeg,
    {
        Ffmpeg
    }

    /// Resolves the recipe in `session`: the artifact where it is assembled, the
    /// submission that the executor has to perform next where it is not, or
    /// the failure that stops it.
    pub fn build(self, session: &ResolutionSession) -> (outcome: Outcome)
        ensures
            outcome@ == model::build(spec_recipe(), session@),
    {
        resolver::build(&recipe(), session)
    }
}

} // verus!
