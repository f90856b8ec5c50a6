//! GnuPG, built from source against the libraries it rests on.

use vstd::prelude::*;
use crate::artifact::{libassuan, libgcrypt, libgpg_error, libksba, npth};
use crate::error::BuildErrorView;
use crate::model;
use crate::model::{Binding, OutcomeView};
use crate::plain::Plain;
use crate::plan::{ArtifactRef, Source, SourceView};
use crate::platform::Platform;
use crate::recipe::{
    OWN_NAME, RecipeSpec, RecipeView, Share, Slot, SlotView, VERSIONED_ALIAS, Variant, VariantView,
    lemma_authoring_lists_variants, lemma_on_all_lists_variants,
};
use crate::resolver;
use crate::resolver::Outcome;
use crate::session::{ResolutionSession, SessionView};

verus! {

/// The name of the artifact.
pub const NAME: &'static str = "gpg";

/// The version that is built.
pub const VERSION: &'static str = "2.5.16";

/// Where the source archive is fetched from.
pub const SOURCE: &'static str = "https://gnupg.org/ftp/gcrypt/gnupg/gnupg-{version}.tar.bz2";

/// The build step.
pub const SCRIPT: &'static str = "mkdir -pv \"$VORPAL_OUTPUT\"\n\
    \n\
    pushd ./source/{name}/gnupg-{version}\n\
    \n\
    export PATH=\"{libgpg_error}/bin:{npth}/bin:{libgcrypt}/bin:{libassuan}/bin:{libksba}/bin:$PATH\"\n\
    export PKG_CONFIG_PATH=\"{libgpg_error}/lib/pkgconfig:{npth}/lib/pkgconfig:{libgcrypt}/lib/pkgconfig:{libassuan}/lib/pkgconfig:{libksba}/lib/pkgconfig\"\n\
    export CPPFLAGS=\"-I{libgpg_error}/include -I{npth}/include -I{libgcrypt}/include -I{libassuan}/include -I{libksba}/include\"\n\
    export LDFLAGS=\"-L{libgpg_error}/lib -L{npth}/lib -L{libgcrypt}/lib -L{libassuan}/lib -L{libksba}/lib -Wl,-rpath,{libgpg_error}/lib -Wl,-rpath,{npth}/lib -Wl,-rpath,{libgcrypt}/lib -Wl,-rpath,{libassuan}/lib -Wl,-rpath,{libksba}/lib\"\n\
    \n\
    ./configure --prefix=\"$VORPAL_OUTPUT\" --with-libgpg-error-prefix={libgpg_error} --with-npth-prefix={npth} --with-libgcrypt-prefix={libgcrypt} --with-libassuan-prefix={libassuan} --with-ksba-prefix={libksba} --disable-doc\n\
    \n\
    make\n\
    make install";

/// What is built on every platform.
pub open spec fn spec_variant() -> VariantView {
    VariantView::new(SCRIPT@).with_source(SourceView::new(OWN_NAME@, SOURCE@))
}

/// What is built on every platform.
pub fn variant() -> (variant: Variant)
    ensures
        variant@ == spec_variant(),
{
    Variant::new(SCRIPT).with_source(Source::new(OWN_NAME, SOURCE))
}

/// The recipe, with the artifacts that the caller supplies for its prerequisites.
pub open spec fn spec_recipe(
    libgpg_error: Option<Seq<char>>,
    libassuan: Option<Seq<char>>,
    libgcrypt: Option<Seq<char>>,
    libksba: Option<Seq<char>>,
    npth: Option<Seq<char>>,
) -> RecipeView {
    RecipeView::new(NAME@, VERSION@)
        .with_alias(VERSIONED_ALIAS@)
        .with_slot(SlotView::new("libgpg_error"@, libgpg_error, libgpg_error::spec_recipe()))
        .with_slot(SlotView::new("libassuan"@, libassuan, libassuan::spec_recipe(None)).sharing(0, 0))
        .with_slot(SlotView::new("libgcrypt"@, libgcrypt, libgcrypt::spec_recipe(None)).sharing(0, 0))
        .with_slot(SlotView::new("libksba"@, libksba, libksba::spec_recipe()).sharing(0, 0))
        .with_slot(SlotView::new("npth"@, npth, npth::spec_recipe()))
        .with_inputs(seq![1usize, 2usize, 0usize, 3usize, 4usize])
        .on_all(spec_variant())
}

/// The recipe, with the artifacts that the caller supplies for its prerequisites.
pub fn recipe(
    libgpg_error: Option<ArtifactRef>,
    libassuan: Option<ArtifactRef>,
    libgcrypt: Option<ArtifactRef>,
    libksba: Option<ArtifactRef>,
    npth: Option<ArtifactRef>,
) -> (recipe: RecipeSpec)
    ensures
        recipe@ == spec_recipe(
            libgpg_error.deep_view(),
            libassuan.deep_view(),
            libgcrypt.deep_view(),
            libksba.deep_view(),
            npth.deep_view(),
        ),
{
    RecipeSpec::new(NAME, VERSION)
        .with_alias(VERSIONED_ALIAS)
        .with_slot(Slot::new("libgpg_error", libgpg_error, libgpg_error::recipe()))
        .with_slot(Slot::new("libassuan", libassuan, libassuan::recipe(None)).sharing(0, 0))
        .with_slot(Slot::new("libgcrypt", libgcrypt, libgcrypt::recipe(None)).sharing(0, 0))
        .with_slot(Slot::new("libksba", libksba, libksba::recipe()).sharing(0, 0))
        .with_slot(Slot::new("npth", npth, npth::recipe()))
        .with_inputs(vec![1usize, 2usize, 0usize, 3usize, 4usize])
        .on_all(variant())
}

/// The recipe is well formed, whatever is supplied: its prerequisites have
/// names of their own, what it shares and declares is in range, its list
/// of platforms is in step with its variants, and so it is with the
/// fallback recipes.
pub proof fn law_is_well_formed(
    libgpg_error: Option<Seq<char>>,
    libassuan: Option<Seq<char>>,
    libgcrypt: Option<Seq<char>>,
    libksba: Option<Seq<char>>,
    npth: Option<Seq<char>>,
)
    ensures
        spec_recipe(libgpg_error, libassuan, libgcrypt, libksba, npth).wf(),
{
    let bare = RecipeView::new(NAME@, VERSION@)
        .with_alias(VERSIONED_ALIAS@)
        .with_slot(SlotView::new("libgpg_error"@, libgpg_error, libgpg_error::spec_recipe()))
        .with_slot(SlotView::new("libassuan"@, libassuan, libassuan::spec_recipe(None)).sharing(0, 0))
        .with_slot(SlotView::new("libgcrypt"@, libgcrypt, libgcrypt::spec_recipe(None)).sharing(0, 0))
        .with_slot(SlotView::new("libksba"@, libksba, libksba::spec_recipe()).sharing(0, 0))
        .with_slot(SlotView::new("npth"@, npth, npth::spec_recipe()))
        .with_inputs(seq![1usize, 2usize, 0usize, 3usize, 4usize]);
    lemma_authoring_lists_variants(bare, Platform::Aarch64Darwin, spec_variant());
    assert(bare.lists_its_variants());
    lemma_on_all_lists_variants(bare, spec_variant());
    let recipe = spec_recipe(libgpg_error, libassuan, libgcrypt, libksba, npth);
    assert(recipe.lists_its_variants());
    assert(recipe.slots.len() == 5);
    assert(recipe.inputs =~= seq![1usize, 2usize, 0usize, 3usize, 4usize]);
    libgpg_error::law_is_well_formed();
    assert(recipe.slots[0].fallback.wf());
    assert(recipe.slots[0].shares =~= Seq::<Share>::empty());
    libassuan::law_is_well_formed(None);
    assert(recipe.slots[1].fallback.wf());
    assert(recipe.slots[1].shares =~= seq![Share { sibling: 0, slot: 0 }]);
    assert(recipe.slots[1].fallback.slots.len() == 1);
    libgcrypt::law_is_well_formed(None);
    assert(recipe.slots[2].fallback.wf());
    assert(recipe.slots[2].shares =~= seq![Share { sibling: 0, slot: 0 }]);
    assert(recipe.slots[2].fallback.slots.len() == 1);
    libksba::law_is_well_formed();
    assert(recipe.slots[3].fallback.wf());
    assert(recipe.slots[3].shares =~= seq![Share { sibling: 0, slot: 0 }]);
    assert(recipe.slots[3].fallback.slots.len() == 1);
    npth::law_is_well_formed();
    assert(recipe.slots[4].fallback.wf());
    assert(recipe.slots[4].shares =~= Seq::<Share>::empty());
    reveal_strlit("libgpg_error");
    reveal_strlit("libassuan");
    reveal_strlit("libgcrypt");
    reveal_strlit("libksba");
    reveal_strlit("npth");
    assert(recipe.slots[0].name.len() != recipe.slots[1].name.len());
    assert(recipe.slots[0].name.len() != recipe.slots[2].name.len());
    assert(recipe.slots[0].name.len() != recipe.slots[3].name.len());
    assert(recipe.slots[0].name.len() != recipe.slots[4].name.len());
    assert(recipe.slots[1].name[3] != recipe.slots[2].name[3]);
    assert(recipe.slots[1].name.len() != recipe.slots[3].name.len());
    assert(recipe.slots[1].name.len() != recipe.slots[4].name.len());
    assert(recipe.slots[2].name.len() != recipe.slots[3].name.len());
    assert(recipe.slots[2].name.len() != recipe.slots[4].name.len());
    assert(recipe.slots[3].name.len() != recipe.slots[4].name.len());
}

/// Whatever the session, the recipe builds what is authored for the
/// session's platform and nothing of another's. The artifacts supplied for
/// its prerequisites are bound as they are, with no fallback recipe
/// resolved, and are declared as the build's inputs in the recipe's order.
pub proof fn law_builds_what_is_authored(
    libgpg_error: Seq<char>,
    libassuan: Seq<char>,
    libgcrypt: Seq<char>,
    libksba: Seq<char>,
    npth: Seq<char>,
    session: SessionView,
)
    ensures
        ({
            let recipe = spec_recipe(Some(libgpg_error), Some(libassuan), Some(libgcrypt), Some(libksba), Some(npth));
            let bound = seq![libgpg_error, libassuan, libgcrypt, libksba, npth];
            &&& recipe.select(session.platform) == Ok::<VariantView, BuildErrorView>(
                spec_variant(),
            )
            &&& model::bind(recipe, Seq::empty(), session, 5) == Binding::Bound(bound)
            &&& model::build(recipe, session) == model::conclude(
                recipe,
                spec_variant(),
                bound,
                session,
            )
            &&& model::declared(recipe.inputs, bound) == seq![libassuan, libgcrypt, libgpg_error, libksba, npth]
        }),
{
    let recipe = spec_recipe(Some(libgpg_error), Some(libassuan), Some(libgcrypt), Some(libksba), Some(npth));
    let none = Seq::<Option<Seq<char>>>::empty();
    let bound = seq![libgpg_error, libassuan, libgcrypt, libksba, npth];
    assert(recipe.slots.len() == 5);
    assert(model::given(recipe, none, 0) == Some(libgpg_error));
    assert(model::given(recipe, none, 1) == Some(libassuan));
    assert(model::given(recipe, none, 2) == Some(libgcrypt));
    assert(model::given(recipe, none, 3) == Some(libksba));
    assert(model::given(recipe, none, 4) == Some(npth));
    assert(model::bind(recipe, none, session, 0) == Binding::Bound(Seq::empty()));
    assert(Seq::<Seq<char>>::empty().push(libgpg_error) =~= seq![libgpg_error]);
    assert(model::bind(recipe, none, session, 1) == Binding::Bound(seq![libgpg_error]));
    assert(seq![libgpg_error].push(libassuan) =~= seq![libgpg_error, libassuan]);
    assert(model::bind(recipe, none, session, 2) == Binding::Bound(seq![libgpg_error, libassuan]));
    assert(seq![libgpg_error, libassuan].push(libgcrypt) =~= seq![libgpg_error, libassuan, libgcrypt]);
    assert(model::bind(recipe, none, session, 3) == Binding::Bound(seq![libgpg_error, libassuan, libgcrypt]));
    assert(seq![libgpg_error, libassuan, libgcrypt].push(libksba) =~= seq![libgpg_error, libassuan, libgcrypt, libksba]);
    assert(model::bind(recipe, none, session, 4) == Binding::Bound(seq![libgpg_error, libassuan, libgcrypt, libksba]));
    assert(seq![libgpg_error, libassuan, libgcrypt, libksba].push(npth) =~= seq![libgpg_error, libassuan, libgcrypt, libksba, npth]);
    assert(model::bind(recipe, none, session, 5) == Binding::Bound(seq![libgpg_error, libassuan, libgcrypt, libksba, npth]));
    assert(recipe.inputs =~= seq![1usize, 2usize, 0usize, 3usize, 4usize]);
    assert(seq![1usize, 2usize, 0usize, 3usize, 4usize].drop_last() =~= seq![1usize, 2usize, 0usize, 3usize]);
    assert(seq![1usize, 2usize, 0usize, 3usize].drop_last() =~= seq![1usize, 2usize, 0usize]);
    assert(seq![1usize, 2usize, 0usize].drop_last() =~= seq![1usize, 2usize]);
    assert(seq![1usize, 2usize].drop_last() =~= seq![1usize]);
    assert(seq![1usize].drop_last() =~= Seq::<usize>::empty());
    assert(model::declared(Seq::<usize>::empty(), bound) =~= Seq::<Seq<char>>::empty());
    assert(model::declared(seq![1usize], bound) =~= seq![libassuan]);
    assert(model::declared(seq![1usize, 2usize], bound) =~= seq![libassuan, libgcrypt]);
    assert(model::declared(seq![1usize, 2usize, 0usize], bound) =~= seq![libassuan, libgcrypt, libgpg_error]);
    assert(model::declared(seq![1usize, 2usize, 0usize, 3usize], bound) =~= seq![libassuan, libgcrypt, libgpg_error, libksba]);
    assert(model::declared(seq![1usize, 2usize, 0usize, 3usize, 4usize], bound) =~= seq![libassuan, libgcrypt, libgpg_error, libksba, npth]);
}

/// Where the fallback recipe of each prerequisite, resolved with what the
/// recipe hands down to it, is built in the session already, the recipe is
/// built with those artifacts and asks for no submission on their behalf;
/// it then comes out as if they had been supplied.
pub proof fn law_reuses_what_is_built(
    libgpg_error: Seq<char>,
    libassuan: Seq<char>,
    libgcrypt: Seq<char>,
    libksba: Seq<char>,
    npth: Seq<char>,
    session: SessionView,
)
    requires
        model::resolve(
            spec_recipe(None, None, None, None, None).slots[0].fallback,
            model::handed_down(
                spec_recipe(None, None, None, None, None).slots[0].shares,
                Seq::<Seq<char>>::empty(),
                spec_recipe(None, None, None, None, None).slots[0].fallback.slots.len(),
            ),
            session,
        ) == OutcomeView::Built(libgpg_error),
        model::resolve(
            spec_recipe(None, None, None, None, None).slots[1].fallback,
            model::handed_down(
                spec_recipe(None, None, None, None, None).slots[1].shares,
                seq![libgpg_error],
                spec_recipe(None, None, None, None, None).slots[1].fallback.slots.len(),
            ),
            session,
        ) == OutcomeView::Built(libassuan),
        model::resolve(
            spec_recipe(None, None, None, None, None).slots[2].fallback,
            model::handed_down(
                spec_recipe(None, None, None, None, None).slots[2].shares,
                seq![libgpg_error, libassuan],
                spec_recipe(None, None, None, None, None).slots[2].fallback.slots.len(),
            ),
            session,
        ) == OutcomeView::Built(libgcrypt),
        model::resolve(
            spec_recipe(None, None, None, None, None).slots[3].fallback,
            model::handed_down(
                spec_recipe(None, None, None, None, None).slots[3].shares,
                seq![libgpg_error, libassuan, libgcrypt],
                spec_recipe(None, None, None, None, None).slots[3].fallback.slots.len(),
            ),
            session,
        ) == OutcomeView::Built(libksba),
        model::resolve(
            spec_recipe(None, None, None, None, None).slots[4].fallback,
            model::handed_down(
                spec_recipe(None, None, None, None, None).slots[4].shares,
                seq![libgpg_error, libassuan, libgcrypt, libksba],
                spec_recipe(None, None, None, None, None).slots[4].fallback.slots.len(),
            ),
            session,
        ) == OutcomeView::Built(npth),
    ensures
        ({
            let recipe = spec_recipe(None, None, None, None, None);
            let bound = seq![libgpg_error, libassuan, libgcrypt, libksba, npth];
            &&& recipe.select(session.platform) == Ok::<VariantView, BuildErrorView>(
                spec_variant(),
            )
            &&& model::bind(recipe, Seq::empty(), session, 5) == Binding::Bound(bound)
            &&& model::build(recipe, session) == model::conclude(
                recipe,
                spec_variant(),
                bound,
                session,
            )
            &&& model::declared(recipe.inputs, bound) == seq![libassuan, libgcrypt, libgpg_error, libksba, npth]
            &&& model::conclude(recipe, spec_variant(), bound, session) == model::conclude(
                spec_recipe(Some(libgpg_error), Some(libassuan), Some(libgcrypt), Some(libksba), Some(npth)),
                spec_variant(),
                bound,
                session,
            )
        }),
{
    let recipe = spec_recipe(None, None, None, None, None);
    let none = Seq::<Option<Seq<char>>>::empty();
    let bound = seq![libgpg_error, libassuan, libgcrypt, libksba, npth];
    assert(recipe.slots.len() == 5);
    assert(model::given(recipe, none, 0) is None);
    assert(model::given(recipe, none, 1) is None);
    assert(model::given(recipe, none, 2) is None);
    assert(model::given(recipe, none, 3) is None);
    assert(model::given(recipe, none, 4) is None);
    assert(model::bind(recipe, none, session, 0) == Binding::Bound(Seq::empty()));
    assert(Seq::<Seq<char>>::empty().push(libgpg_error) =~= seq![libgpg_error]);
    assert(model::bind(recipe, none, session, 1) == Binding::Bound(seq![libgpg_error]));
    assert(seq![libgpg_error].push(libassuan) =~= seq![libgpg_error, libassuan]);
    assert(model::bind(recipe, none, session, 2) == Binding::Bound(seq![libgpg_error, libassuan]));
    assert(seq![libgpg_error, libassuan].push(libgcrypt) =~= seq![libgpg_error, libassuan, libgcrypt]);
    assert(model::bind(recipe, none, session, 3) == Binding::Bound(seq![libgpg_error, libassuan, libgcrypt]));
    assert(seq![libgpg_error, libassuan, libgcrypt].push(libksba) =~= seq![libgpg_error, libassuan, libgcrypt, libksba]);
    assert(model::bind(recipe, none, session, 4) == Binding::Bound(seq![libgpg_error, libassuan, libgcrypt, libksba]));
    assert(seq![libgpg_error, libassuan, libgcrypt, libksba].push(npth) =~= seq![libgpg_error, libassuan, libgcrypt, libksba, npth]);
    assert(model::bind(recipe, none, session, 5) == Binding::Bound(seq![libgpg_error, libassuan, libgcrypt, libksba, npth]));
    assert(recipe.inputs =~= seq![1usize, 2usize, 0usize, 3usize, 4usize]);
    assert(seq![1usize, 2usize, 0usize, 3usize, 4usize].drop_last() =~= seq![1usize, 2usize, 0usize, 3usize]);
    assert(seq![1usize, 2usize, 0usize, 3usize].drop_last() =~= seq![1usize, 2usize, 0usize]);
    assert(seq![1usize, 2usize, 0usize].drop_last() =~= seq![1usize, 2usize]);
    assert(seq![1usize, 2usize].drop_last() =~= seq![1usize]);
    assert(seq![1usize].drop_last() =~= Seq::<usize>::empty());
    assert(model::declared(Seq::<usize>::empty(), bound) =~= Seq::<Seq<char>>::empty());
    assert(model::declared(seq![1usize], bound) =~= seq![libassuan]);
    assert(model::declared(seq![1usize, 2usize], bound) =~= seq![libassuan, libgcrypt]);
    assert(model::declared(seq![1usize, 2usize, 0usize], bound) =~= seq![libassuan, libgcrypt, libgpg_error]);
    assert(model::declared(seq![1usize, 2usize, 0usize, 3usize], bound) =~= seq![libassuan, libgcrypt, libgpg_error, libksba]);
    assert(model::declared(seq![1usize, 2usize, 0usize, 3usize, 4usize], bound) =~= seq![libassuan, libgcrypt, libgpg_error, libksba, npth]);
    let supplied = spec_recipe(Some(libgpg_error), Some(libassuan), Some(libgcrypt), Some(libksba), Some(npth));
    assert(model::slot_scope(recipe.slots, bound) =~= model::slot_scope(
        supplied.slots,
        bound,
    ));
}

/// The recipe and what the caller supplies for its prerequisites.
pub struct Gpg {
    pub libgpg_error: Option<ArtifactRef>,
    pub libassuan: Option<ArtifactRef>,
    pub libgcrypt: Option<ArtifactRef>,
    pub libksba: Option<ArtifactRef>,
    pub npth: Option<ArtifactRef>,
}

impl Gpg {
    /// The recipe with nothing supplied.
    pub fn new() -> (recipe: Self)
        ensures
            recipe.libgpg_error is None,
            recipe.libassuan is None,
            recipe.libgcrypt is None,
            recipe.libksba is None,
            recipe.npth is None,
    {
        Gpg { libgpg_error: None, libassuan: None, libgcrypt: None, libksba: None, npth: None }
    }

    /// Supplies `libgpg_error` for the `libgpg_error` prerequisite, so that none is built.
    pub fn with_libgpg_error(self, libgpg_error: &ArtifactRef) -> (recipe: Self)
        ensures
            recipe.libgpg_error.deep_view() == Some(libgpg_error@),
            recipe.libassuan == self.libassuan,
            recipe.libgcrypt == self.libgcrypt,
            recipe.libksba == self.libksba,
            recipe.npth == self.npth,
    {
        Gpg { libgpg_error: Some(libgpg_error.duplicate()), ..self }
    }

    /// Supplies `libassuan` for the `libassuan` prerequisite, so that none is built.
    pub fn with_libassuan(self, libassuan: &ArtifactRef) -> (recipe: Self)
        ensures
            recipe.libassuan.deep_view() == Some(libassuan@),
            recipe.libgpg_error == self.libgpg_error,
            recipe.libgcrypt == self.libgcrypt,
            recipe.libksba == self.libksba,
            recipe.npth == self.npth,
    {
        Gpg { libassuan: Some(libassuan.duplicate()), ..self }
    }

    /// Supplies `libgcrypt` for the `libgcrypt` prerequisite, so that none is built.
    pub fn with_libgcrypt(self, libgcrypt: &ArtifactRef) -> (recipe: Self)
        ensures
            recipe.libgcrypt.deep_view() == Some(libgcrypt@),
            recipe.libgpg_error == self.libgpg_error,
            recipe.libassuan == self.libassuan,
            recipe.libksba == self.libksba,
            recipe.npth == self.npth,
    {
        Gpg { libgcrypt: Some(libgcrypt.duplicate()), ..self }
    }

    /// Supplies `libksba` for the `libksba` prerequisite, so that none is built.
    pub fn with_libksba(self, libksba: &ArtifactRef) -> (recipe: Self)
        ensures
            recipe.libksba.deep_view() == Some(libksba@),
            recipe.libgpg_error == self.libgpg_error,
            recipe.libassuan == self.libassuan,
            recipe.libgcrypt == self.libgcrypt,
            recipe.npth == self.npth,
    {
        Gpg { libksba: Some(libksba.duplicate()), ..self }
    }

    /// Supplies `npth` for the `npth` prerequisite, so that none is built.
    pub fn with_npth(self, npth: &ArtifactRef) -> (recipe: Self)
        ensures
            recipe.npth.deep_view() == Some(npth@),
            recipe.libgpg_error == self.libgpg_error,
            recipe.libassuan == self.libassuan,
            recipe.libgcrypt == self.libgcrypt,
            recipe.libksba == self.libksba,
    {
        Gpg { npth: Some(npth.duplicate()), ..self }
    }

    /// Resolves the recipe in `session`: the artifact where it is assembled, the
    /// submission that the executor has to perform next where it is not, or
    /// the failure that stops it.
    pub fn build(self, session: &ResolutionSession) -> (outcome: Outcome)
        ensures
            outcome@ == model::build(
                spec_recipe(
                    self.libgpg_error.deep_view(),
                    self.libassuan.deep_view(),
                    self.libgcrypt.deep_view(),
                    self.libksba.deep_view(),
                    self.npth.deep_view(),
                ),
                session@,
            ),
    {
        resolver::build(&recipe(self.libgpg_error, self.libassuan, self.libgcrypt, self.libksba, self.npth), session)
    }
}

} // verus!
