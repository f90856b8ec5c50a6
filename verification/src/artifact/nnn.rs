//! `nnn`, a terminal file manager, built from source against ncurses and readline.

use vstd::prelude::*;
use crate::artifact::{ncurses, pkg_config, readline};
use crate::error::BuildErrorView;
use crate::model;
use crate::model::{Binding, OutcomeView};
use crate::plain::Plain;
use crate::plan::{ArtifactRef, Source, SourceView};
use crate::platform::Platform;
use crate::recipe::{
    OWN_NAME, RecipeSpec, RecipeView, Share, Slot, SlotView, VERSIONED_ALIAS, Variant, VariantView,
    lemma_authoring_lists_variants, lemma_on_all_lists_variants,
};
use crate::resolver;
use crate::resolver::Outcome;
use crate::session::{ResolutionSession, SessionView};

verus! {

/// The name of the artifact.
pub const NAME: &'static str = "nnn";

/// The version that is built.
pub const VERSION: &'static str = "5.1";

/// Where the source archive is fetched from.
pub const SOURCE: &'static str = "https://github.com/jarun/nnn/archive/refs/tags/v{version}.tar.gz";

/// The build step.
pub const SCRIPT: &'static str = "mkdir -pv \"$VORPAL_OUTPUT\"\n\
    \n\
    pushd ./source/{name}/nnn-{version}\n\
    \n\
    export PATH=\"{pkg_config}/bin:$PATH\"\n\
    export CPPFLAGS=\"-I{ncurses}/include -I{ncurses}/include/ncursesw -I{readline}/include\"\n\
    export LDFLAGS=\"-L{ncurses}/lib -L{readline}/lib -Wl,-rpath,{ncurses}/lib -Wl,-rpath,{readline}/lib\"\n\
    export PKG_CONFIG_PATH=\"{ncurses}/lib/pkgconfig:{readline}/lib/pkgconfig\"\n\
    \n\
    make PREFIX=\"$VORPAL_OUTPUT\"\n\
    make PREFIX=\"$VORPAL_OUTPUT\" install";

/// What is built on every platform.
pub open spec fn spec_variant() -> VariantView {
    VariantView::new(SCRIPT@).with_source(SourceView::new(OWN_NAME@, SOURCE@))
}

/// What is built on every platform.
pub fn variant() -> (variant: Variant)
    ensures
        variant@ == spec_variant(),
{
    Variant::new(SCRIPT).with_source(Source::new(OWN_NAME, SOURCE))
}

/// The recipe, with the artifacts that the caller supplies for its prerequisites.
pub open spec fn spec_recipe(
    ncurses: Option<Seq<char>>,
    pkg_config: Option<Seq<char>>,
    readline: Option<Seq<char>>,
) -> RecipeView {
    RecipeView::new(NAME@, VERSION@)
        .with_alias(VERSIONED_ALIAS@)
        .with_slot(SlotView::new("ncurses"@, ncurses, ncurses::spec_recipe()))
        .with_slot(SlotView::new("pkg_config"@, pkg_config, pkg_config::spec_recipe()))
        .with_slot(SlotView::new("readline"@, readline, readline::spec_recipe(None)).sharing(0, 0))
        .on_all(spec_variant())
}

/// The recipe, with the artifacts that the caller supplies for its prerequisites.
pub fn recipe(
    ncurses: Option<ArtifactRef>,
    pkg_config: Option<ArtifactRef>,
    readline: Option<ArtifactRef>,
) -> (recipe: RecipeSpec)
    ensures
        recipe@ == spec_recipe(ncurses.deep_view(), pkg_config.deep_view(), readline.deep_view()),
{
    RecipeSpec::new(NAME, VERSION)
        .with_alias(VERSIONED_ALIAS)
        .with_slot(Slot::new("ncurses", ncurses, ncurses::recipe()))
        .with_slot(Slot::new("pkg_config", pkg_config, pkg_config::recipe()))
        .with_slot(Slot::new("readline", readline, readline::recipe(None)).sharing(0, 0))
        .on_all(variant())
}

/// The recipe is well formed, whatever is supplied: its prerequisites have
/// names of their own, what it shares and declares is in range, its list
/// of platforms is in step with its variants, and so it is with the
/// fallback recipes.
pub proof fn law_is_well_formed(
    ncurses: Option<Seq<char>>,
    pkg_config: Option<Seq<char>>,
    readline: Option<Seq<char>>,
)
    ensures
        spec_recipe(ncurses, pkg_config, readline).wf(),
{
    let bare = RecipeView::new(NAME@, VERSION@)
        .with_alias(VERSIONED_ALIAS@)
        .with_slot(SlotView::new("ncurses"@, ncurses, ncurses::spec_recipe()))
        .with_slot(SlotView::new("pkg_config"@, pkg_config, pkg_config::spec_recipe()))
        .with_slot(SlotView::new("readline"@, readline, readline::spec_recipe(None)).sharing(0, 0));
    lemma_authoring_lists_variants(bare, Platform::Aarch64Darwin, spec_variant());
    assert(bare.lists_its_variants());
    lemma_on_all_lists_variants(bare, spec_variant());
    let recipe = spec_recipe(ncurses, pkg_config, readline);
    assert(recipe.lists_its_variants());
    assert(recipe.slots.len() == 3);
    assert(recipe.inputs =~= seq![0usize, 1usize, 2usize]);
    ncurses::law_is_well_formed();
    assert(recipe.slots[0].fallback.wf());
    assert(recipe.slots[0].shares =~= Seq::<Share>::empty());
    pkg_config::law_is_well_formed();
    assert(recipe.slots[1].fallback.wf());
    assert(recipe.slots[1].shares =~= Seq::<Share>::empty());
    readline::law_is_well_formed(None);
    assert(recipe.slots[2].fallback.wf());
    assert(recipe.slots[2].shares =~= seq![Share { sibling: 0, slot: 0 }]);
    assert(recipe.slots[2].fallback.slots.len() == 1);
    reveal_strlit("ncurses");
    reveal_strlit("pkg_config");
    reveal_strlit("readline");
    assert(recipe.slots[0].name.len() != recipe.slots[1].name.len());
    assert(recipe.slots[0].name.len() != recipe.slots[2].name.len());
    assert(recipe.slots[1].name.len() != recipe.slots[2].name.len());
}

/// Whatever the session, the recipe builds what is authored for the
/// session's platform and nothing of another's. The artifacts supplied for
/// its prerequisites are bound as they are, with no fallback recipe
/// resolved, and are declared as the build's inputs in the recipe's order.
pub proof fn law_builds_what_is_authored(
    ncurses: Seq<char>,
    pkg_config: Seq<char>,
    readline: Seq<char>,
    session: SessionView,
)
    ensures
        ({
            let recipe = spec_recipe(Some(ncurses), Some(pkg_config), Some(readline));
            let bound = seq![ncurses, pkg_config, readline];
            &&& recipe.select(session.platform) == Ok::<VariantView, BuildErrorView>(
                spec_variant(),
            )
            &&& model::bind(recipe, Seq::empty(), session, 3) == Binding::Bound(bound)
            &&& model::build(recipe, session) == model::conclude(
                recipe,
                spec_variant(),
                bound,
                session,
            )
            &&& model::declared(recipe.inputs, bound) == seq![ncurses, pkg_config, readline]
        }),
{
    let recipe = spec_recipe(Some(ncurses), Some(pkg_config), Some(readline));
    let none = Seq::<Option<Seq<char>>>::empty();
    let bound = seq![ncurses, pkg_config, readline];
    assert(recipe.slots.len() == 3);
    assert(model::given(recipe, none, 0) == Some(ncurses));
    assert(model::given(recipe, none, 1) == Some(pkg_config));
    assert(model::given(recipe, none, 2) == Some(readline));
    assert(model::bind(recipe, none, session, 0) == Binding::Bound(Seq::empty()));
    assert(Seq::<Seq<char>>::empty().push(ncurses) =~= seq![ncurses]);
    assert(model::bind(recipe, none, session, 1) == Binding::Bound(seq![ncurses]));
    assert(seq![ncurses].push(pkg_config) =~= seq![ncurses, pkg_config]);
    assert(model::bind(recipe, none, session, 2) == Binding::Bound(seq![ncurses, pkg_config]));
    assert(seq![ncurses, pkg_config].push(readline) =~= seq![ncurses, pkg_config, readline]);
    assert(model::bind(recipe, none, session, 3) == Binding::Bound(seq![ncurses, pkg_config, readline]));
    assert(recipe.inputs =~= seq![0usize, 1usize, 2usize]);
    assert(seq![0usize, 1usize, 2usize].drop_last() =~= seq![0usize, 1usize]);
    assert(seq![0usize, 1usize].drop_last() =~= seq![0usize]);
    assert(seq![0usize].drop_last() =~= Seq::<usize>::empty());
    assert(model::declared(Seq::<usize>::empty(), bound) =~= Seq::<Seq<char>>::empty());
    assert(model::declared(seq![0usize], bound) =~= seq![ncurses]);
    assert(model::declared(seq![0usize, 1usize], bound) =~= seq![ncurses, pkg_config]);
    assert(model::declared(seq![0usize, 1usize, 2usize], bound) =~= seq![ncurses, pkg_config, readline]);
}

/// Where the fallback recipe of each prerequisite, resolved with what the
/// recipe hands down to it, is built in the session already, the recipe is
/// built with those artifacts and asks for no submission on their behalf;
/// it then comes out as if they had been supplied.
pub proof fn law_reuses_what_is_built(
    ncurses: Seq<char>,
    pkg_config: Seq<char>,
    readline: Seq<char>,
    session: SessionView,
)
    requires
        model::resolve(
            spec_recipe(None, None, None).slots[0].fallback,
            model::handed_down(
                spec_recipe(None, None, None).slots[0].shares,
                Seq::<Seq<char>>::empty(),
                spec_recipe(None, None, None).slots[0].fallback.slots.len(),
            ),
            session,
        ) == OutcomeView::Built(ncurses),
        model::resolve(
            spec_recipe(None, None, None).slots[1].fallback,
            model::handed_down(
                spec_recipe(None, None, None).slots[1].shares,
                seq![ncurses],
                spec_recipe(None, None, None).slots[1].fallback.slots.len(),
            ),
            session,
        ) == OutcomeView::Built(pkg_config),
        model::resolve(
            spec_recipe(None, None, None).slots[2].fallback,
            model::handed_down(
                spec_recipe(None, None, None).slots[2].shares,
                seq![ncurses, pkg_config],
                spec_recipe(None, None, None).slots[2].fallback.slots.len(),
            ),
            session,
        ) == OutcomeView::Built(readline),
    ensures
        ({
            let recipe = spec_recipe(None, None, None);
            let bound = seq![ncurses, pkg_config, readline];
            &&& recipe.select(session.platform) == Ok::<VariantView, BuildErrorView>(
                spec_variant(),
            )
            &&& model::bind(recipe, Seq::empty(), session, 3) == Binding::Bound(bound)
            &&& model::build(recipe, session) == model::conclude(
                recipe,
                spec_variant(),
                bound,
                session,
            )
            &&& model::declared(recipe.inputs, bound) == seq![ncurses, pkg_config, readline]
            &&& model::conclude(recipe, spec_variant(), bound, session) == model::conclude(
                spec_recipe(Some(ncurses), Some(pkg_config), Some(readline)),
                spec_variant(),
                bound,
                session,
            )
        }),
{
    let recipe = spec_recipe(None, None, None);
    let none = Seq::<Option<Seq<char>>>::empty();
    let bound = seq![ncurses, pkg_config, readline];
    assert(recipe.slots.len() == 3);
    assert(model::given(recipe, none, 0) is None);
    assert(model::given(recipe, none, 1) is None);
    assert(model::given(recipe, none, 2) is None);
    assert(model::bind(recipe, none, session, 0) == Binding::Bound(Seq::empty()));
    assert(Seq::<Seq<char>>::empty().push(ncurses) =~= seq![ncurses]);
    assert(model::bind(recipe, none, session, 1) == Binding::Bound(seq![ncurses]));
    assert(seq![ncurses].push(pkg_config) =~= seq![ncurses, pkg_config]);
    assert(model::bind(recipe, none, session, 2) == Binding::Bound(seq![ncurses, pkg_config]));
    assert(seq![ncurses, pkg_config].push(readline) =~= seq![ncurses, pkg_config, readline]);
    assert(model::bind(recipe, none, session, 3) == Binding::Bound(seq![ncurses, pkg_config, readline]));
    assert(recipe.inputs =~= seq![0usize, 1usize, 2usize]);
    assert(seq![0usize, 1usize, 2usize].drop_last() =~= seq![0usize, 1usize]);
    assert(seq![0usize, 1usize].drop_last() =~= seq![0usize]);
    assert(seq![0usize].drop_last() =~= Seq::<usize>::empty());
    assert(model::declared(Seq::<usize>::empty(), bound) =~= Seq::<Seq<char>>::empty());
    assert(model::declared(seq![0usize], bound) =~= seq![ncurses]);
    assert(model::declared(seq![0usize, 1usize], bound) =~= seq![ncurses, pkg_config]);
    assert(model::declared(seq![0usize, 1usize, 2usize], bound) =~= seq![ncurses, pkg_config, readline]);
    let supplied = spec_recipe(Some(ncurses), Some(pkg_config), Some(readline));
    assert(model::slot_scope(recipe.slots, bound) =~= model::slot_scope(
        supplied.slots,
        bound,
    ));
}

/// The recipe and what the caller supplies for its prerequisites.
pub struct Nnn {
    pub ncurses: Option<ArtifactRef>,
    pub pkg_config: Option<ArtifactRef>,
    pub readline: Option<ArtifactRef>,
}

impl Nnn {
    /// The recipe with nothing supplied.
    pub fn new() -> (recipe: Self)
        ensures
            recipe.ncurses is None,
            recipe.pkg_config is None,
            recipe.readline is None,
    {
        Nnn { ncurses: None, pkg_config: None, readline: None }
    }

    /// Supplies `ncurses` for the `ncurses` prerequisite, so that none is built.
    pub fn with_ncurses(self, ncurses: &ArtifactRef) -> (recipe: Self)
        ensures
            recipe.ncurses.deep_view() == Some(ncurses@),
            recipe.pkg_config == self.pkg_config,
            recipe.readline == self.readline,
    {
        Nnn { ncurses: Some(ncurses.duplicate()), ..self }
    }

    /// Supplies `pkg_config` for the `pkg_config` prerequisite, so that none is built.
    pub fn with_pkg_config(self, pkg_config: &ArtifactRef) -> (recipe: Self)
        ensures
            recipe.pkg_config.deep_view() == Some(pkg_config@),
            recipe.ncurses == self.ncurses,
            recipe.readline == self.readline,
    {
        Nnn { pkg_config: Some(pkg_config.duplicate()), ..self }
    }

    /// Supplies `readline` for the `readline` prerequisite, so that none is built.
    pub fn with_readline(self, readline: &ArtifactRef) -> (recipe: Self)
        ensures
            recipe.readline.deep_view() == Some(readline@),
            recipe.ncurses == self.ncurses,
            recipe.pkg_config == self.pkg_config,
    {
        Nnn { readline: Some(readline.duplicate()), ..self }
    }

    /// Resolves the recipe in `session`: the artifact where it is assembled, the
    /// submission that the executor has to perform next where it is not, or
    /// the failure that stops it.
    pub fn build(self, session: &ResolutionSession) -> (outcome: Outcome)
        ensures
            outcome@ == model::build(
                spec_recipe(
                    self.ncurses.deep_view(),
                    self.pkg_config.deep_view(),
                    self.readline.deep_view(),
                ),
                session@,
            ),
    {
        resolver::build(&recipe(self.ncurses, self.pkg_config, self.readline), session)
    }
}

} // verus!
