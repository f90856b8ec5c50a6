//! The CMake build system, taken from its release archives.

use vstd::prelude::*;
use crate::error::BuildErrorView;
use crate::model;
use crate::model::{Binding, OutcomeView};
use crate::plan::{Source, SourceView};
use crate::platform::Platform;
use crate::recipe::{
    OWN_NAME, RecipeSpec, RecipeView, SYSTEM_KEY, VERSIONED_ALIAS, Variant, VariantView,
    lemma_authoring_lists_variants,
};
use crate::resolver;
use crate::resolver::Outcome;
use crate::session::{ResolutionSession, SessionView};

verus! {

/// The name of the artifact.
pub const NAME: &'static str = "cmake";

/// The version that is built.
pub const VERSION: &'static str = "4.2.3";

/// Where the release archive is fetched from.
pub const SOURCE: &'static str = "https://github.com/Kitware/CMake/releases/download/v{version}/cmake-{version}-{system}.tar.gz";

/// The build step on Darwin: it copies the tools out of the application bundle.
pub const SCRIPT_DARWIN: &'static str = "mkdir -pv \"$VORPAL_OUTPUT/bin\"\n\
    cp -v ./source/{name}/{name}-{version}-{system}/CMake.app/Contents/bin/* \"$VORPAL_OUTPUT/bin/\"\n\
    cp -rv ./source/{name}/{name}-{version}-{system}/CMake.app/Contents/share \"$VORPAL_OUTPUT/share\"";

/// The build step on Linux: it copies the tools out of the archive.
pub const SCRIPT_LINUX: &'static str = "mkdir -pv \"$VORPAL_OUTPUT/bin\"\n\
    cp -v ./source/{name}/{name}-{version}-{system}/bin/* \"$VORPAL_OUTPUT/bin/\"\n\
    cp -rv ./source/{name}/{name}-{version}-{system}/share \"$VORPAL_OUTPUT/share\"";

/// How the release names `platform`.
pub open spec fn spec_system(platform: Platform) -> Seq<char> {
    match platform {
        Platform::Aarch64Darwin | Platform::X8664Darwin => "macos-universal"@,
        Platform::Aarch64Linux => "linux-aarch64"@,
        Platform::X8664Linux => "linux-x86_64"@,
    }
}

/// How the release names `platform`.
pub fn system(platform: Platform) -> (tag: &'static str)
    ensures
        tag@ == spec_system(platform),
{
    match platform {
        Platform::Aarch64Darwin | Platform::X8664Darwin => "macos-universal",
        Platform::Aarch64Linux => "linux-aarch64",
        Platform::X8664Linux => "linux-x86_64",
    }
}

/// What is built on `platform`.
pub open spec fn spec_variant(platform: Platform) -> VariantView {
    match platform {
        Platform::Aarch64Darwin | Platform::X8664Darwin => {
            VariantView::new(SCRIPT_DARWIN@)
                .with_param(SYSTEM_KEY@, spec_system(platform))
                .with_source(SourceView::new(OWN_NAME@, SOURCE@))
        },
        Platform::Aarch64Linux | Platform::X8664Linux => {
            VariantView::new(SCRIPT_LINUX@)
                .with_param(SYSTEM_KEY@, spec_system(platform))
                .with_source(SourceView::new(OWN_NAME@, SOURCE@))
        },
    }
}

/// What is built on `platform`.
pub fn variant(platform: Platform) -> (variant: Variant)
    ensures
        variant@ == spec_variant(platform),
{
    match platform {
        Platform::Aarch64Darwin | Platform::X8664Darwin => {
            Variant::new(SCRIPT_DARWIN)
                .with_param(SYSTEM_KEY, system(platform))
                .with_source(Source::new(OWN_NAME, SOURCE))
        },
        Platform::Aarch64Linux | Platform::X8664Linux => {
            Variant::new(SCRIPT_LINUX)
                .with_param(SYSTEM_KEY, system(platform))
                .with_source(Source::new(OWN_NAME, SOURCE))
        },
    }
}

/// The recipe.
pub open spec fn spec_recipe() -> RecipeView {
    RecipeView::new(NAME@, VERSION@)
        .with_alias(VERSIONED_ALIAS@)
        .on(Platform::Aarch64Darwin, spec_variant(Platform::Aarch64Darwin))
        .on(Platform::Aarch64Linux, spec_variant(Platform::Aarch64Linux))
        .on(Platform::X8664Darwin, spec_variant(Platform::X8664Darwin))
        .on(Platform::X8664Linux, spec_variant(Platform::X8664Linux))
}

/// The recipe.
pub fn recipe() -> (recipe: RecipeSpec)
    ensures
        recipe@ == spec_recipe(),
{
    RecipeSpec::new(NAME, VERSION)
        .with_alias(VERSIONED_ALIAS)
        .on(Platform::Aarch64Darwin, variant(Platform::Aarch64Darwin))
        .on(Platform::Aarch64Linux, variant(Platform::Aarch64Linux))
        .on(Platform::X8664Darwin, variant(Platform::X8664Darwin))
        .on(Platform::X8664Linux, variant(Platform::X8664Linux))
}

/// The recipe is well formed: its list of platforms is in step with its
/// variants.
pub proof fn law_is_well_formed()
    ensures
        spec_recipe().wf(),
{
    let bare = RecipeView::new(NAME@, VERSION@).with_alias(VERSIONED_ALIAS@);
    lemma_authoring_lists_variants(
        bare,
        Platform::Aarch64Darwin,
        spec_variant(Platform::Aarch64Darwin),
    );
    assert(bare.lists_its_variants());
    let first = bare.on(Platform::Aarch64Darwin, spec_variant(Platform::Aarch64Darwin));
    lemma_authoring_lists_variants(
        first,
        Platform::Aarch64Linux,
        spec_variant(Platform::Aarch64Linux),
    );
    let second = first.on(Platform::Aarch64Linux, spec_variant(Platform::Aarch64Linux));
    lemma_authoring_lists_variants(
        second,
        Platform::X8664Darwin,
        spec_variant(Platform::X8664Darwin),
    );
    let third = second.on(Platform::X8664Darwin, spec_variant(Platform::X8664Darwin));
    lemma_authoring_lists_variants(
        third,
        Platform::X8664Linux,
        spec_variant(Platform::X8664Linux),
    );
    let recipe = spec_recipe();
    assert(recipe.lists_its_variants());
}

/// Whatever the session, the recipe builds what is authored for the
/// session's platform and nothing of another's, and declares no input.
pub proof fn law_builds_what_is_authored(session: SessionView)
    ensures
        ({
            let recipe = spec_recipe();
            let bound = Seq::<Seq<char>>::empty();
            &&& recipe.select(session.platform) == Ok::<VariantView, BuildErrorView>(
                spec_variant(session.platform),
            )
            &&& model::bind(recipe, Seq::empty(), session, 0) == Binding::Bound(bound)
            &&& model::build(recipe, session) == model::conclude(
                recipe,
                spec_variant(session.platform),
                bound,
                session,
            )
            &&& model::declared(recipe.inputs, bound) == Seq::<Seq<char>>::empty()
        }),
{
    let recipe = spec_recipe();
    let none = Seq::<Option<Seq<char>>>::empty();
    let bound = Seq::<Seq<char>>::empty();
    assert(recipe.slots.len() == 0);
    assert(model::bind(recipe, none, session, 0) == Binding::Bound(Seq::empty()));
    assert(recipe.inputs =~= Seq::<usize>::empty());
    assert(model::declared(Seq::<usize>::empty(), bound) =~= Seq::<Seq<char>>::empty());
}

/// The recipe.
pub struct Cmake;

impl Cmake {
    /// The recipe with nothing supplied: it has no prerequisites.
    pub fn new() -> (recipe: Self)
        ensures
            recipe == Cmake,
    {
        Cmake
    }

    /// Resolves the recipe in `session`: the artifact where it is assembled, the
    /// submission that the executor has to perform next where it is not, or
    /// the failure that stops it.
    pub fn build(self, session: &ResolutionSession) -> (outcome: Outcome)
        ensures
            outcome@ == model::build(spec_recipe(), session@),
    {
        resolver::build(&recipe(), session)
    }
}

} // verus!
