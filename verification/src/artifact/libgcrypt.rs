//! The libgcrypt cryptographic library, built from source against libgpg-error.

use vstd::prelude::*;
use crate::artifact::libgpg_error;
use crate::error::BuildErrorView;
use crate::model;
use crate::model::{Binding, OutcomeView};
use crate::plain::Plain;
use crate::plan::{ArtifactRef, Source, SourceView};
use crate::platform::Platform;
use crate::recipe::{
    OWN_NAME, RecipeSpec, RecipeView, Share, Slot, SlotView, VERSIONED_ALIAS, Variant, VariantView,
    lemma_authoring_lists_variants, lemma_on_all_lists_variants,
};
use crate::resolver;
use crate::resolver::Outcome;
use crate::session::{ResolutionSession, SessionView};

verus! {

/// The name of the artifact.
pub const NAME: &'static str = "libgcrypt";

/// The version that is built.
pub const VERSION: &'static str = "1.11.0";

/// Where the source archive is fetched from.
pub const SOURCE: &'static str = "https://gnupg.org/ftp/gcrypt/libgcrypt/libgcrypt-{version}.tar.bz2";

/// The build step.
pub const SCRIPT: &'static str = "mkdir -pv \"$VORPAL_OUTPUT\"\n\
    \n\
    pushd ./source/{name}/libgcrypt-{version}\n\
    \n\
    export PATH=\"{libgpg_error}/bin:$PATH\"\n\
    export CPPFLAGS=\"-I{libgpg_error}/include\"\n\
    export LDFLAGS=\"-L{libgpg_error}/lib -Wl,-rpath,{libgpg_error}/lib\"\n\
    \n\
    ./configure --prefix=\"$VORPAL_OUTPUT\" --with-libgpg-error-prefix={libgpg_error} --disable-doc\n\
    \n\
    make\n\
    make install";

/// What is built on every platform.
pub open spec fn spec_variant() -> VariantView {
    VariantView::new(SCRIPT@).with_source(SourceView::new(OWN_NAME@, SOURCE@))
}

/// What is built on every platform.
pub fn variant() -> (variant: Variant)
    ensures
        variant@ == spec_variant(),
{
    Variant::new(SCRIPT).with_source(Source::new(OWN_NAME, SOURCE))
}

/// The recipe, with the artifacts that the caller supplies for its prerequisites.
pub open spec fn spec_recipe(libgpg_error: Option<Seq<char>>) -> RecipeView {
    RecipeView::new(NAME@, VERSION@)
        .with_alias(VERSIONED_ALIAS@)
        .with_slot(SlotView::new("libgpg_error"@, libgpg_error, libgpg_error::spec_recipe()))
        .on_all(spec_variant())
}

/// The recipe, with the artifacts that the caller supplies for its prerequisites.
pub fn recipe(libgpg_error: Option<ArtifactRef>) -> (recipe: RecipeSpec)
    ensures
        recipe@ == spec_recipe(libgpg_error.deep_view()),
{
    RecipeSpec::new(NAME, VERSION)
        .with_alias(VERSIONED_ALIAS)
        .with_slot(Slot::new("libgpg_error", libgpg_error, libgpg_error::recipe()))
        .on_all(variant())
}

/// The recipe is well formed, whatever is supplied: its prerequisites have
/// names of their own, what it shares and declares is in range, its list
/// of platforms is in step with its variants, and so it is with the
/// fallback recipes.
pub proof fn law_is_well_formed(libgpg_error: Option<Seq<char>>)
    ensures
        spec_recipe(libgpg_error).wf(),
{
    let bare = RecipeView::new(NAME@, VERSION@)
        .with_alias(VERSIONED_ALIAS@)
        .with_slot(SlotView::new("libgpg_error"@, libgpg_error, libgpg_error::spec_recipe()));
    lemma_authoring_lists_variants(bare, Platform::Aarch64Darwin, spec_variant());
    assert(bare.lists_its_variants());
    lemma_on_all_lists_variants(bare, spec_variant());
    let recipe = spec_recipe(libgpg_error);
    assert(recipe.lists_its_variants());
    assert(recipe.slots.len() == 1);
    assert(recipe.inputs =~= seq![0usize]);
    libgpg_error::law_is_well_formed();
    assert(recipe.slots[0].fallback.wf());
    assert(recipe.slots[0].shares =~= Seq::<Share>::empty());
}

/// Whatever the session, the recipe builds what is authored for the
/// session's platform and nothing of another's. The artifacts supplied for
/// its prerequisites are bound as they are, with no fallback recipe
/// resolved, and are declared as the build's inputs in the recipe's order.
pub proof fn law_builds_what_is_authored(libgpg_error: Seq<char>, session: SessionView)
    ensures
        ({
            let recipe = spec_recipe(Some(libgpg_error));
            let bound = seq![libgpg_error];
            &&& recipe.select(session.platform) == Ok::<VariantView, BuildErrorView>(
                spec_variant(),
            )
            &&& model::bind(recipe, Seq::empty(), session, 1) == Binding::Bound(bound)
            &&& model::build(recipe, session) == model::conclude(
                recipe,
                spec_variant(),
                bound,
                session,
            )
            &&& model::declared(recipe.inputs, bound) == seq![libgpg_error]
        }),
{
    let recipe = spec_recipe(Some(libgpg_error));
    let none = Seq::<Option<Seq<char>>>::empty();
    let bound = seq![libgpg_error];
    assert(recipe.slots.len() == 1);
    assert(model::given(recipe, none, 0) == Some(libgpg_error));
    assert(model::bind(recipe, none, session, 0) == Binding::Bound(Seq::empty()));
    assert(Seq::<Seq<char>>::empty().push(libgpg_error) =~= seq![libgpg_error]);
    assert(model::bind(recipe, none, session, 1) == Binding::Bound(seq![libgpg_error]));
    assert(recipe.inputs =~= seq![0usize]);
    assert(seq![0usize].drop_last() =~= Seq::<usize>::empty());
    assert(model::declared(Seq::<usize>::empty(), bound) =~= Seq::<Seq<char>>::empty());
    assert(model::declared(seq![0usize], bound) =~= seq![libgpg_error]);
}

/// Where the fallback recipe of each prerequisite, resolved with what the
/// recipe hands down to it, is built in the session already, the recipe is
/// built with those artifacts and asks for no submission on their behalf;
/// it then comes out as if they had been supplied.
pub proof fn law_reuses_what_is_built(libgpg_error: Seq<char>, session: SessionView)
    requires
        model::resolve(
            spec_recipe(None).slots[0].fallback,
            model::handed_down(
                spec_recipe(None).slots[0].shares,
                Seq::<Seq<char>>::empty(),
                spec_recipe(None).slots[0].fallback.slots.len(),
            ),
            session,
        ) == OutcomeView::Built(libgpg_error),
    ensures
        ({
            let recipe = spec_recipe(None);
            let bound = seq![libgpg_error];
            &&& recipe.select(session.platform) == Ok::<VariantView, BuildErrorView>(
                spec_variant(),
            )
            &&& model::bind(recipe, Seq::empty(), session, 1) == Binding::Bound(bound)
            &&& model::build(recipe, session) == model::conclude(
                recipe,
                spec_variant(),
                bound,
                session,
            )
            &&& model::declared(recipe.inputs, bound) == seq![libgpg_error]
            &&& model::conclude(recipe, spec_variant(), bound, session) == model::conclude(
                spec_recipe(Some(libgpg_error)),
                spec_variant(),
                bound,
                session,
            )
        }),
{
    let recipe = spec_recipe(None);
    let none = Seq::<Option<Seq<char>>>::empty();
    let bound = seq![libgpg_error];
    assert(recipe.slots.len() == 1);
    assert(model::given(recipe, none, 0) is None);
    assert(model::bind(recipe, none, session, 0) == Binding::Bound(Seq::empty()));
    assert(Seq::<Seq<char>>::empty().push(libgpg_error) =~= seq![libgpg_error]);
    assert(model::bind(recipe, none, session, 1) == Binding::Bound(seq![libgpg_error]));
    assert(recipe.inputs =~= seq![0usize]);
    assert(seq![0usize].drop_last() =~= Seq::<usize>::empty());
    assert(model::declared(Seq::<usize>::empty(), bound) =~= Seq::<Seq<char>>::empty());
    assert(model::declared(seq![0usize], bound) =~= seq![libgpg_error]);
    let supplied = spec_recipe(Some(libgpg_error));
    assert(model::slot_scope(recipe.slots, bound) =~= model::slot_scope(
        supplied.slots,
        bound,
    ));
}

/// The recipe and what the caller supplies for its prerequisites.
pub struct Libgcrypt {
    pub libgpg_error: Option<ArtifactRef>,
}

impl Libgcrypt {
    /// The recipe with nothing supplied.
    pub fn new() -> (recipe: Self)
        ensures
            recipe.libgpg_error is None,
    {
        Libgcrypt { libgpg_error: None }
    }

    /// Supplies `libgpg_error` for the `libgpg_error` prerequisite, so that none is built.
    pub fn with_libgpg_error(self, libgpg_error: &ArtifactRef) -> (recipe: Self)
        ensures
            recipe.libgpg_error.deep_view() == Some(libgpg_error@),
    {
        Libgcrypt { libgpg_error: Some(libgpg_error.duplicate()) }
    }

    /// Resolves the recipe in `session`: the artifact where it is assembled, the
    /// submission that the executor has to perform next where it is not, or
    /// the failure that stops it.
    pub fn build(self, session: &ResolutionSession) -> (outcome: Outcome)
        ensures
            outcome@ == model::build(spec_recipe(self.libgpg_error.deep_view()), session@),
    {
        resolver::build(&recipe(self.libgpg_error), session)
    }
}

} // verus!
