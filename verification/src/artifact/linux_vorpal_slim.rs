//! A slimmed copy of the executor's Linux root file system.

use vstd::prelude::*;
use crate::error::BuildErrorView;
use crate::model;
use crate::model::{Binding, OutcomeView};
use crate::plain::Plain;
use crate::plan::{ArtifactRef, Source, SourceView};
use crate::platform::Platform;
use crate::recipe::{
    OWN_NAME, RecipeSpec, RecipeView, Share, Slot, SlotView, VERSIONED_ALIAS, Variant, VariantView,
    lemma_authoring_lists_variants, lemma_on_all_lists_variants,
};
use crate::resolver;
use crate::resolver::Outcome;
use crate::session::{ResolutionSession, SessionView};
use crate::toolchain;

verus! {

/// The name of the artifact.
pub const NAME: &'static str = "linux-vorpal-slim";

/// The version that is built.
pub const VERSION: &'static str = "latest";

/// The project itself is the source.
pub const SOURCE: &'static str = ".";

/// The one file taken from the project: the script that slims a root file system.
pub const SLIM_SCRIPT: &'static str = "script/linux-vorpal-slim.sh";

/// The build step: it copies the root file system and runs the slimming script on the copy.
pub const SCRIPT: &'static str = "mkdir -p ./source/linux-vorpal\n\
    \n\
    {rsync}/bin/rsync -aPW {linux_vorpal}/ ./source/linux-vorpal\n\
    \n\
    pushd ./source\n\
    \n\
    ./{name}/script/linux-vorpal-slim.sh --dry-run ./linux-vorpal";

/// The name of the executor's own artifact that the `linux_vorpal` prerequisite falls back on.
pub const LINUX_VORPAL: &'static str = "linux-vorpal";

/// The name of the executor's own artifact that the `rsync` prerequisite falls back on.
pub const RSYNC: &'static str = "rsync";

/// What is built on every platform.
pub open spec fn spec_variant() -> VariantView {
    VariantView::new(SCRIPT@)
        .with_source(SourceView::new(OWN_NAME@, SOURCE@).with_include(SLIM_SCRIPT@))
}

/// What is built on every platform.
pub fn variant() -> (variant: Variant)
    ensures
        variant@ == spec_variant(),
{
    Variant::new(SCRIPT).with_source(Source::new(OWN_NAME, SOURCE).with_include(SLIM_SCRIPT))
}

/// The recipe, with the artifacts that the caller supplies for its prerequisites.
pub open spec fn spec_recipe(linux_vorpal: Option<Seq<char>>) -> RecipeView {
    RecipeView::new(NAME@, VERSION@)
        .with_alias(VERSIONED_ALIAS@)
        .with_slot(SlotView::new("linux_vorpal"@, linux_vorpal, toolchain::spec_provided(LINUX_VORPAL@)))
        .with_slot(SlotView::new("rsync"@, None, toolchain::spec_provided(RSYNC@)))
        .on_all(spec_variant())
}

/// The recipe, with the artifacts that the caller supplies for its prerequisites.
pub fn recipe(linux_vorpal: Option<ArtifactRef>) -> (recipe: RecipeSpec)
    ensures
        recipe@ == spec_recipe(linux_vorpal.deep_view()),
{
    RecipeSpec::new(NAME, VERSION)
        .with_alias(VERSIONED_ALIAS)
        .with_slot(Slot::new("linux_vorpal", linux_vorpal, toolchain::provided(LINUX_VORPAL)))
        .with_slot(Slot::new("rsync", None, toolchain::provided(RSYNC)))
        .on_all(variant())
}

/// The recipe is well formed, whatever is supplied: its prerequisites have
/// names of their own, what it shares and declares is in range, its list
/// of platforms is in step with its variants, and so it is with the
/// fallback recipes.
pub proof fn law_is_well_formed(linux_vorpal: Option<Seq<char>>)
    ensures
        spec_recipe(linux_vorpal).wf(),
{
    let bare = RecipeView::new(NAME@, VERSION@)
        .with_alias(VERSIONED_ALIAS@)
        .with_slot(SlotView::new("linux_vorpal"@, linux_vorpal, toolchain::spec_provided(LINUX_VORPAL@)))
        .with_slot(SlotView::new("rsync"@, None, toolchain::spec_provided(RSYNC@)));
    lemma_authoring_lists_variants(bare, Platform::Aarch64Darwin, spec_variant());
    assert(bare.lists_its_variants());
    lemma_on_all_lists_variants(bare, spec_variant());
    let recipe = spec_recipe(linux_vorpal);
    assert(recipe.lists_its_variants());
    assert(recipe.slots.len() == 2);
    assert(recipe.inputs =~= seq![0usize, 1usize]);
    toolchain::law_provided_is_well_formed(LINUX_VORPAL@);
    assert(recipe.slots[0].fallback.wf());
    assert(recipe.slots[0].shares =~= Seq::<Share>::empty());
    toolchain::law_provided_is_well_formed(RSYNC@);
    assert(recipe.slots[1].fallback.wf());
    assert(recipe.slots[1].shares =~= Seq::<Share>::empty());
    reveal_strlit("linux_vorpal");
    reveal_strlit("rsync");
    assert(recipe.slots[0].name.len() != recipe.slots[1].name.len());
}

/// Where the fallback recipe of each prerequisite, resolved with what the
/// recipe hands down to it, is built in the session already, the recipe is
/// built with those artifacts and asks for no submission on their behalf;
/// it then comes out as if they had been supplied.
pub proof fn law_reuses_what_is_built(
    linux_vorpal: Seq<char>,
    rsync: Seq<char>,
    session: SessionView,
)
    requires
        model::resolve(
            spec_recipe(None).slots[0].fallback,
            model::handed_down(
                spec_recipe(None).slots[0].shares,
                Seq::<Seq<char>>::empty(),
                spec_recipe(None).slots[0].fallback.slots.len(),
            ),
            session,
        ) == OutcomeView::Built(linux_vorpal),
        model::resolve(
            spec_recipe(None).slots[1].fallback,
            model::handed_down(
                spec_recipe(None).slots[1].shares,
                seq![linux_vorpal],
                spec_recipe(None).slots[1].fallback.slots.len(),
            ),
            session,
        ) == OutcomeView::Built(rsync),
    ensures
        ({
            let recipe = spec_recipe(None);
            let bound = seq![linux_vorpal, rsync];
            &&& recipe.select(session.platform) == Ok::<VariantView, BuildErrorView>(
                spec_variant(),
            )
            &&& model::bind(recipe, Seq::empty(), session, 2) == Binding::Bound(bound)
            &&& model::build(recipe, session) == model::conclude(
                recipe,
                spec_variant(),
                bound,
                session,
            )
            &&& model::declared(recipe.inputs, bound) == seq![linux_vorpal, rsync]
            &&& model::conclude(recipe, spec_variant(), bound, session) == model::conclude(
                spec_recipe(Some(linux_vorpal)),
                spec_variant(),
                bound,
                session,
            )
        }),
{
    let recipe = spec_recipe(None);
    let none = Seq::<Option<Seq<char>>>::empty();
    let bound = seq![linux_vorpal, rsync];
    assert(recipe.slots.len() == 2);
    assert(model::given(recipe, none, 0) is None);
    assert(model::given(recipe, none, 1) is None);
    assert(model::bind(recipe, none, session, 0) == Binding::Bound(Seq::empty()));
    assert(Seq::<Seq<char>>::empty().push(linux_vorpal) =~= seq![linux_vorpal]);
    assert(model::bind(recipe, none, session, 1) == Binding::Bound(seq![linux_vorpal]));
    assert(seq![linux_vorpal].push(rsync) =~= seq![linux_vorpal, rsync]);
    assert(model::bind(recipe, none, session, 2) == Binding::Bound(seq![linux_vorpal, rsync]));
    assert(recipe.inputs =~= seq![0usize, 1usize]);
    assert(seq![0usize, 1usize].drop_last() =~= seq![0usize]);
    assert(seq![0usize].drop_last() =~= Seq::<usize>::empty());
    assert(model::declared(Seq::<usize>::empty(), bound) =~= Seq::<Seq<char>>::empty());
    assert(model::declared(seq![0usize], bound) =~= seq![linux_vorpal]);
    assert(model::declared(seq![0usize, 1usize], bound) =~= seq![linux_vorpal, rsync]);
    let supplied = spec_recipe(Some(linux_vorpal));
    assert(model::slot_scope(recipe.slots, bound) =~= model::slot_scope(
        supplied.slots,
        bound,
    ));
}

/// The recipe and what the caller supplies for its prerequisites.
pub struct LinuxVorpalSlim {
    pub linux_vorpal: Option<ArtifactRef>,
}

impl LinuxVorpalSlim {
    /// The recipe with nothing supplied.
    pub fn new() -> (recipe: Self)
        ensures
            recipe.linux_vorpal is None,
    {
        LinuxVorpalSlim { linux_vorpal: None }
    }

    /// Supplies `linux_vorpal` for the `linux_vorpal` prerequisite, so that none is built.
    pub fn with_linux_vorpal(self, linux_vorpal: &ArtifactRef) -> (recipe: Self)
        ensures
            recipe.linux_vorpal.deep_view() == Some(linux_vorpal@),
    {
        LinuxVorpalSlim { linux_vorpal: Some(linux_vorpal.duplicate()) }
    }

    /// Resolves the recipe in `session`: the artifact where it is assembled, the
    /// submission that the executor has to perform next where it is not, or
    /// the failure that stops it.
    pub fn build(self, session: &ResolutionSession) -> (outcome: Outcome)
        ensures
            outcome@ == model::build(spec_recipe(self.linux_vorpal.deep_view()), session@),
    {
        resolver::build(&recipe(self.linux_vorpal), session)
    }
}

} // verus!
