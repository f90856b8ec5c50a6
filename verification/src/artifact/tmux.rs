//! `tmux`, a terminal multiplexer, built from source against libevent and ncurses.

use vstd::prelude::*;
use crate::artifact::{libevent, ncurses};
use crate::error::BuildErrorView;
use crate::model;
use crate::model::{Binding, OutcomeView};
use crate::plan::{ArtifactRef, Source, SourceView};
use crate::platform::Platform;
use crate::recipe::{
    OWN_NAME, RecipeSpec, RecipeView, Share, Slot, SlotView, VERSIONED_ALIAS, Variant, VariantView,
    lemma_authoring_lists_variants, lemma_on_all_lists_variants,
};
use crate::resolver;
use crate::resolver::Outcome;
use crate::session::{ResolutionSession, SessionView};

verus! {

/// The name of the artifact.
pub const NAME: &'static str = "tmux";

/// The version that is built.
pub const VERSION: &'static str = "3.5a";

/// Where the source archive is fetched from.
pub const SOURCE: &'static str = "https://github.com/tmux/tmux/releases/download/{version}/tmux-{version}.tar.gz";

/// The build step.
pub const SCRIPT: &'static str = "mkdir -pv \"$VORPAL_OUTPUT\"\n\
    \n\
    pushd ./source/{name}/tmux-{version}\n\
    \n\
    export CPPFLAGS=\"-I{libevent}/include -I{ncurses}/include -I{ncurses}/include/ncursesw\"\n\
    export LDFLAGS=\"-L{libevent}/lib -L{ncurses}/lib -Wl,-rpath,{libevent}/lib -Wl,-rpath,{ncurses}/lib\"\n\
    \n\
    ./configure --disable-utf8proc --prefix=\"$VORPAL_OUTPUT\"\n\
    \n\
    make\n\
    make install";

/// What is built on every platform.
pub open spec fn spec_variant() -> VariantView {
    VariantView::new(SCRIPT@).with_source(SourceView::new(OWN_NAME@, SOURCE@))
}

/// What is built on every platform.
pub fn variant() -> (variant: Variant)
    ensures
        variant@ == spec_variant(),
{
    Variant::new(SCRIPT).with_source(Source::new(OWN_NAME, SOURCE))
}

/// The recipe.
pub open spec fn spec_recipe() -> RecipeView {
    RecipeView::new(NAME@, VERSION@)
        .with_alias(VERSIONED_ALIAS@)
        .with_slot(SlotView::new("libevent"@, None, libevent::spec_recipe()))
        .with_slot(SlotView::new("ncurses"@, None, ncurses::spec_recipe()))
        .on_all(spec_variant())
}

/// The recipe.
pub fn recipe() -> (recipe: RecipeSpec)
    ensures
        recipe@ == spec_recipe(),
{
    RecipeSpec::new(NAME, VERSION)
        .with_alias(VERSIONED_ALIAS)
        .with_slot(Slot::new("libevent", None, libevent::recipe()))
        .with_slot(Slot::new("ncurses", None, ncurses::recipe()))
        .on_all(variant())
}

/// The recipe is well formed, whatever is supplied: its prerequisites have
/// names of their own, what it shares and declares is in range, its list
/// of platforms is in step with its variants, and so it is with the
/// fallback recipes.
pub proof fn law_is_well_formed()
    ensures
        spec_recipe().wf(),
{
    let bare = RecipeView::new(NAME@, VERSION@)
        .with_alias(VERSIONED_ALIAS@)
        .with_slot(SlotView::new("libevent"@, None, libevent::spec_recipe()))
        .with_slot(SlotView::new("ncurses"@, None, ncurses::spec_recipe()));
    lemma_authoring_lists_variants(bare, Platform::Aarch64Darwin, spec_variant());
    assert(bare.lists_its_variants());
    lemma_on_all_lists_variants(bare, spec_variant());
    let recipe = spec_recipe();
    assert(recipe.lists_its_variants());
    assert(recipe.slots.len() == 2);
    assert(recipe.inputs =~= seq![0usize, 1usize]);
    libevent::law_is_well_formed();
    assert(recipe.slots[0].fallback.wf());
    assert(recipe.slots[0].shares =~= Seq::<Share>::empty());
    ncurses::law_is_well_formed();
    assert(recipe.slots[1].fallback.wf());
    assert(recipe.slots[1].shares =~= Seq::<Share>::empty());
    reveal_strlit("libevent");
    reveal_strlit("ncurses");
    assert(recipe.slots[0].name.len() != recipe.slots[1].name.len());
}

/// Where the fallback recipe of each prerequisite, resolved with what the
/// recipe hands down to it, is built in the session already, the recipe is
/// built with those artifacts and asks for no submission on their behalf.
pub proof fn law_reuses_what_is_built(libevent: Seq<char>, ncurses: Seq<char>, session: SessionView)
    requires
        model::resolve(
            spec_recipe().slots[0].fallback,
            model::handed_down(
                spec_recipe().slots[0].shares,
                Seq::<Seq<char>>::empty(),
                spec_recipe().slots[0].fallback.slots.len(),
            ),
            session,
        ) == OutcomeView::Built(libevent),
        model::resolve(
            spec_recipe().slots[1].fallback,
            model::handed_down(
                spec_recipe().slots[1].shares,
                seq![libevent],
                spec_recipe().slots[1].fallback.slots.len(),
            ),
            session,
        ) == OutcomeView::Built(ncurses),
    ensures
        ({
            let recipe = spec_recipe();
            let bound = seq![libevent, ncurses];
            &&& recipe.select(session.platform) == Ok::<VariantView, BuildErrorView>(
                spec_variant(),
            )
            &&& model::bind(recipe, Seq::empty(), session, 2) == Binding::Bound(bound)
            &&& model::build(recipe, session) == model::conclude(
                recipe,
                spec_variant(),
                bound,
                session,
            )
            &&& model::declared(recipe.inputs, bound) == seq![libevent, ncurses]
        }),
{
    let recipe = spec_recipe();
    let none = Seq::<Option<Seq<char>>>::empty();
    let bound = seq![libevent, ncurses];
    assert(recipe.slots.len() == 2);
    assert(model::given(recipe, none, 0) is None);
    assert(model::given(recipe, none, 1) is None);
    assert(model::bind(recipe, none, session, 0) == Binding::Bound(Seq::empty()));
    assert(Seq::<Seq<char>>::empty().push(libevent) =~= seq![libevent]);
    assert(model::bind(recipe, none, session, 1) == Binding::Bound(seq![libevent]));
    assert(seq![libevent].push(ncurses) =~= seq![libevent, ncurses]);
    assert(model::bind(recipe, none, session, 2) == Binding::Bound(seq![libevent, ncurses]));
    assert(recipe.inputs =~= seq![0usize, 1usize]);
    assert(seq![0usize, 1usize].drop_last() =~= seq![0usize]);
    assert(seq![0usize].drop_last() =~= Seq::<usize>::empty());
    assert(model::declared(Seq::<usize>::empty(), bound) =~= Seq::<Seq<char>>::empty());
    assert(model::declared(seq![0usize], bound) =~= seq![libevent]);
    assert(model::declared(seq![0usize, 1usize], bound) =~= seq![libevent, ncurses]);
}

/// Resolves the recipe in `session`: the artifact where it is assembled, the
/// submission that the executor has to perform next where it is not, or
/// the failure that stops it.
pub fn build(session: &ResolutionSession) -> (outcome: Outcome)
    ensures
        outcome@ == model::build(spec_recipe(), session@),
{
    resolver::build(&recipe(), session)
}

} // verus!
