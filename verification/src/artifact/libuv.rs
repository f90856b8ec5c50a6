//! The libuv asynchronous I/O library, built from source with CMake.

use vstd::prelude::*;
use crate::artifact::cmake;
use crate::error::BuildErrorView;
use crate::model;
use crate::model::{Binding, OutcomeView};
use crate::plain::Plain;
use crate::plan::{ArtifactRef, Source, SourceView};
use crate::platform::Platform;
use crate::recipe::{
    OWN_NAME, RecipeSpec, RecipeView, Share, Slot, SlotView, VERSIONED_ALIAS, Variant, VariantView,
    lemma_authoring_lists_variants, lemma_on_all_lists_variants,
};
use crate::resolver;
use crate::resolver::Outcome;
use crate::session::{ResolutionSession, SessionView};

verus! {

/// The name of the artifact.
pub const NAME: &'static str = "libuv";

/// The version that is built.
pub const VERSION: &'static str = "1.52.0";

/// Where the source archive is fetched from.
pub const SOURCE: &'static str = "https://github.com/libuv/libuv/archive/refs/tags/v{version}.tar.gz";

/// The build step.
pub const SCRIPT: &'static str = "mkdir -pv \"$VORPAL_OUTPUT\"\n\
    \n\
    BUILD_DIR=\"$(pwd)/build\"\n\
    mkdir -p \"$BUILD_DIR\"\n\
    \n\
    pushd \"$BUILD_DIR\"\n\
    {cmake}/bin/cmake -DCMAKE_BUILD_TYPE=RELEASE -DCMAKE_INSTALL_PREFIX=\"$VORPAL_OUTPUT\" -DCMAKE_C_FLAGS=\"-fPIC\" -DBUILD_TESTING=OFF -DLIBUV_BUILD_SHARED=OFF \"$(pwd)/../source/{name}/{name}-{version}\"\n\
    make -j$(sysctl -n hw.ncpu) install\n\
    popd";

/// What is built on every platform that the recipe supports.
pub open spec fn spec_variant() -> VariantView {
    VariantView::new(SCRIPT@).with_source(SourceView::new(OWN_NAME@, SOURCE@))
}

/// What is built on every platform that the recipe supports.
pub fn variant() -> (variant: Variant)
    ensures
        variant@ == spec_variant(),
{
    Variant::new(SCRIPT).with_source(Source::new(OWN_NAME, SOURCE))
}

/// The recipe, with the artifacts that the caller supplies for its prerequisites.
pub open spec fn spec_recipe(cmake: Option<Seq<char>>) -> RecipeView {
    RecipeView::new(NAME@, VERSION@)
        .with_alias(VERSIONED_ALIAS@)
        .with_slot(SlotView::new("cmake"@, cmake, cmake::spec_recipe()))
        .on_darwin(spec_variant())
}

/// The recipe, with the artifacts that the caller supplies for its prerequisites.
pub fn recipe(cmake: Option<ArtifactRef>) -> (recipe: RecipeSpec)
    ensures
        recipe@ == spec_recipe(cmake.deep_view()),
{
    RecipeSpec::new(NAME, VERSION)
        .with_alias(VERSIONED_ALIAS)
        .with_slot(Slot::new("cmake", cmake, cmake::recipe()))
        .on_darwin(variant())
}

/// The recipe is well formed, whatever is supplied: its prerequisites have
/// names of their own, what it shares and declares is in range, its list
/// of platforms is in step with its variants, and so it is with the
/// fallback recipes.
pub proof fn law_is_well_formed(cmake: Option<Seq<char>>)
    ensures
        spec_recipe(cmake).wf(),
{
    let bare = RecipeView::new(NAME@, VERSION@)
        .with_alias(VERSIONED_ALIAS@)
        .with_slot(SlotView::new("cmake"@, cmake, cmake::spec_recipe()));
    lemma_authoring_lists_variants(bare, Platform::Aarch64Darwin, spec_variant());
    assert(bare.lists_its_variants());
    lemma_on_all_lists_variants(bare, spec_variant());
    let recipe = spec_recipe(cmake);
    assert(recipe.lists_its_variants());
    assert(recipe.slots.len() == 1);
    assert(recipe.inputs =~= seq![0usize]);
    cmake::law_is_well_formed();
    assert(recipe.slots[0].fallback.wf());
    assert(recipe.slots[0].shares =~= Seq::<Share>::empty());
}

/// Whatever the session, the recipe builds what is authored for the
/// session's platform and nothing of another's. The artifacts supplied for
/// its prerequisites are bound as they are, with no fallback recipe
/// resolved, and are declared as the build's inputs in the recipe's order.
/// On Linux it fails, and nothing is asked of the executor.
pub proof fn law_builds_what_is_authored(cmake: Seq<char>, session: SessionView)
    ensures
        ({
            let recipe = spec_recipe(Some(cmake));
            let bound = seq![cmake];
            if session.platform == Platform::Aarch64Darwin || session.platform
                == Platform::X8664Darwin {
                &&& recipe.select(session.platform) == Ok::<VariantView, BuildErrorView>(
                    spec_variant(),
                )
                &&& model::bind(recipe, Seq::empty(), session, 1) == Binding::Bound(bound)
                &&& model::build(recipe, session) == model::conclude(
                    recipe,
                    spec_variant(),
                    bound,
                    session,
                )
                &&& model::declared(recipe.inputs, bound) == seq![cmake]
            } else {
                model::build(recipe, session) == OutcomeView::Failed(
                    BuildErrorView::UnsupportedPlatform {
                        recipe: NAME@,
                        platform: session.platform,
                    },
                )
            }
        }),
{
    let recipe = spec_recipe(Some(cmake));
    let none = Seq::<Option<Seq<char>>>::empty();
    let bound = seq![cmake];
    assert(recipe.slots.len() == 1);
    assert(model::given(recipe, none, 0) == Some(cmake));
    assert(model::bind(recipe, none, session, 0) == Binding::Bound(Seq::empty()));
    assert(Seq::<Seq<char>>::empty().push(cmake) =~= seq![cmake]);
    assert(model::bind(recipe, none, session, 1) == Binding::Bound(seq![cmake]));
    assert(recipe.inputs =~= seq![0usize]);
    assert(seq![0usize].drop_last() =~= Seq::<usize>::empty());
    assert(model::declared(Seq::<usize>::empty(), bound) =~= Seq::<Seq<char>>::empty());
    assert(model::declared(seq![0usize], bound) =~= seq![cmake]);
}

/// Where the fallback recipe of each prerequisite, resolved with what the
/// recipe hands down to it, is built in the session already, the recipe is
/// built with those artifacts and asks for no submission on their behalf;
/// it then comes out as if they had been supplied.
pub proof fn law_reuses_what_is_built(cmake: Seq<char>, session: SessionView)
    requires
        model::resolve(
            spec_recipe(None).slots[0].fallback,
            model::handed_down(
                spec_recipe(None).slots[0].shares,
                Seq::<Seq<char>>::empty(),
                spec_recipe(None).slots[0].fallback.slots.len(),
            ),
            session,
        ) == OutcomeView::Built(cmake),
    ensures
        ({
            let recipe = spec_recipe(None);
            let bound = seq![cmake];
            if session.platform == Platform::Aarch64Darwin || session.platform
                == Platform::X8664Darwin {
                &&& recipe.select(session.platform) == Ok::<VariantView, BuildErrorView>(
                    spec_variant(),
                )
                &&& model::bind(recipe, Seq::empty(), session, 1) == Binding::Bound(bound)
                &&& model::build(recipe, session) == model::conclude(
                    recipe,
                    spec_variant(),
                    bound,
                    session,
                )
                &&& model::declared(recipe.inputs, bound) == seq![cmake]
                &&& model::conclude(recipe, spec_variant(), bound, session) == model::conclude(
                    spec_recipe(Some(cmake)),
                    spec_variant(),
                    bound,
                    session,
                )
            } else {
                model::build(recipe, session) == OutcomeView::Failed(
                    BuildErrorView::UnsupportedPlatform {
                        recipe: NAME@,
                        platform: session.platform,
                    },
                )
            }
        }),
{
    let recipe = spec_recipe(None);
    let none = Seq::<Option<Seq<char>>>::empty();
    let bound = seq![cmake];
    assert(recipe.slots.len() == 1);
    assert(model::given(recipe, none, 0) is None);
    assert(model::bind(recipe, none, session, 0) == Binding::Bound(Seq::empty()));
    assert(Seq::<Seq<char>>::empty().push(cmake) =~= seq![cmake]);
    assert(model::bind(recipe, none, session, 1) == Binding::Bound(seq![cmake]));
    assert(recipe.inputs =~= seq![0usize]);
    assert(seq![0usize].drop_last() =~= Seq::<usize>::empty());
    assert(model::declared(Seq::<usize>::empty(), bound) =~= Seq::<Seq<char>>::empty());
    assert(model::declared(seq![0usize], bound) =~= seq![cmake]);
    let supplied = spec_recipe(Some(cmake));
    assert(model::slot_scope(recipe.slots, bound) =~= model::slot_scope(
        supplied.slots,
        bound,
    ));
}

/// The recipe and what the caller supplies for its prerequisites.
pub struct Libuv {
    pub cmake: Option<ArtifactRef>,
}

impl Libuv {
    /// The recipe with nothing supplied.
    pub fn new() -> (recipe: Self)
        ensures
            recipe.cmake is None,
    {
        Libuv { cmake: None }
    }

    /// Supplies `cmake` for the `cmake` prerequisite, so that none is built.
    pub fn with_cmake(self, cmake: &ArtifactRef) -> (recipe: Self)
        ensures
            recipe.cmake.deep_view() == Some(cmake@),
    {
        Libuv { cmake: Some(cmake.duplicate()) }
    }

    /// Resolves the recipe in `session`: the artifact where it is assembled, the
    /// submission that the executor has to perform next where it is not, or
    /// the failure that stops it.
    pub fn build(self, session: &ResolutionSession) -> (outcome: Outcome)
        ensures
            outcome@ == model::build(spec_recipe(self.cmake.deep_view()), session@),
    {
        resolver::build(&recipe(self.cmake), session)
    }
}

} // verus!
