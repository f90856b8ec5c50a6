//! The libwebsockets library, built from source with CMake against zlib, libuv and Mbed TLS.

use vstd::prelude::*;
use crate::artifact::{cmake, libuv, mbedtls, zlib};
use crate::error::BuildErrorView;
use crate::model;
use crate::model::{Binding, OutcomeView};
use crate::plain::Plain;
use crate::plan::{ArtifactRef, Source, SourceView};
use crate::platform::Platform;
use crate::recipe::{
    OWN_NAME, RecipeSpec, RecipeView, Share, Slot, SlotView, VERSIONED_ALIAS, Variant, VariantView,
    lemma_authoring_lists_variants, lemma_on_all_lists_variants,
};
use crate::resolver;
use crate::resolver::Outcome;
use crate::session::{ResolutionSession, SessionView};

verus! {

/// The name of the artifact.
pub const NAME: &'static str = "libwebsockets";

/// The version that is built.
pub const VERSION: &'static str = "4.5.2";

/// Where the source archive is fetched from.
pub const SOURCE: &'static str = "https://github.com/warmcat/libwebsockets/archive/refs/tags/v{version}.tar.gz";

/// The build step.
pub const SCRIPT: &'static str = "mkdir -pv \"$VORPAL_OUTPUT\"\n\
    \n\
    LWS_SRC=\"$(pwd)/source/{name}/{name}-{version}\"\n\
    \n\
    sed 's/ websockets_shared//g' \"$LWS_SRC/cmake/libwebsockets-config.cmake.in\" > \"$LWS_SRC/cmake/libwebsockets-config.cmake.in.tmp\"\n\
    mv \"$LWS_SRC/cmake/libwebsockets-config.cmake.in.tmp\" \"$LWS_SRC/cmake/libwebsockets-config.cmake.in\"\n\
    \n\
    BUILD_DIR=\"$(pwd)/build\"\n\
    mkdir -p \"$BUILD_DIR\"\n\
    \n\
    pushd \"$BUILD_DIR\"\n\
    \n\
    {cmake}/bin/cmake -DCMAKE_BUILD_TYPE=RELEASE -DCMAKE_INSTALL_PREFIX=\"$VORPAL_OUTPUT\" -DCMAKE_FIND_LIBRARY_SUFFIXES=\".a\" -DCMAKE_PREFIX_PATH=\"{zlib};{libuv};{mbedtls}\" -DLWS_WITHOUT_TESTAPPS=ON -DLWS_WITH_MBEDTLS=ON -DLWS_WITH_LIBUV=ON -DLWS_STATIC_PIC=ON -DLWS_WITH_SHARED=OFF -DLWS_UNIX_SOCK=ON -DLWS_IPV6=ON -DLWS_ROLE_RAW_FILE=OFF -DLWS_WITH_HTTP2=ON -DLWS_WITH_HTTP_BASIC_AUTH=OFF -DLWS_WITH_UDP=OFF -DLWS_WITHOUT_CLIENT=ON -DLWS_WITHOUT_EXTENSIONS=OFF -DLWS_WITH_LEJP=OFF -DLWS_WITH_LEJP_CONF=OFF -DLWS_WITH_LWSAC=OFF -DLWS_WITH_SEQUENCER=OFF -DLWS_WITH_SYS_FAULT_INJECTION=OFF -DLWS_WITH_SYS_METRICS=OFF -DLWS_WITH_DLO=OFF \"$LWS_SRC\"\n\
    \n\
    make -j$(nproc 2>/dev/null || sysctl -n hw.ncpu) install\n\
    popd";

/// What is built on every platform.
pub open spec fn spec_variant() -> VariantView {
    VariantView::new(SCRIPT@).with_source(SourceView::new(OWN_NAME@, SOURCE@))
}

/// What is built on every platform.
pub fn variant() -> (variant: Variant)
    ensures
        variant@ == spec_variant(),
{
    Variant::new(SCRIPT).with_source(Source::new(OWN_NAME, SOURCE))
}

/// The recipe, with the artifacts that the caller supplies for its prerequisites.
pub open spec fn spec_recipe(
    cmake: Option<Seq<char>>,
    zlib: Option<Seq<char>>,
    libuv: Option<Seq<char>>,
    mbedtls: Option<Seq<char>>,
) -> RecipeView {
    RecipeView::new(NAME@, VERSION@)
        .with_alias(VERSIONED_ALIAS@)
        .with_slot(SlotView::new("cmake"@, cmake, cmake::spec_recipe()))
        .with_slot(SlotView::new("zlib"@, zlib, zlib::spec_recipe()))
        .with_slot(SlotView::new("libuv"@, libuv, libuv::spec_recipe(None)))
        .with_slot(SlotView::new("mbedtls"@, mbedtls, mbedtls::spec_recipe(None)))
        .on_all(spec_variant())
}

/// The recipe, with the artifacts that the caller supplies for its prerequisites.
pub fn recipe(
    cmake: Option<ArtifactRef>,
    zlib: Option<ArtifactRef>,
    libuv: Option<ArtifactRef>,
    mbedtls: Option<ArtifactRef>,
) -> (recipe: RecipeSpec)
    ensures
        recipe@ == spec_recipe(
            cmake.deep_view(),
            zlib.deep_view(),
            libuv.deep_view(),
            mbedtls.deep_view(),
        ),
{
    RecipeSpec::new(NAME, VERSION)
        .with_alias(VERSIONED_ALIAS)
        .with_slot(Slot::new("cmake", cmake, cmake::recipe()))
        .with_slot(Slot::new("zlib", zlib, zlib::recipe()))
        .with_slot(Slot::new("libuv", libuv, libuv::recipe(None)))
        .with_slot(Slot::new("mbedtls", mbedtls, mbedtls::recipe(None)))
        .on_all(variant())
}

/// The recipe is well formed, whatever is supplied: its prerequisites have
/// names of their own, what it shares and declares is in range, its list
/// of platforms is in step with its variants, and so it is with the
/// fallback recipes.
pub proof fn law_is_well_formed(
    cmake: Option<Seq<char>>,
    zlib: Option<Seq<char>>,
    libuv: Option<Seq<char>>,
    mbedtls: Option<Seq<char>>,
)
    ensures
        spec_recipe(cmake, zlib, libuv, mbedtls).wf(),
{
    let bare = RecipeView::new(NAME@, VERSION@)
        .with_alias(VERSIONED_ALIAS@)
        .with_slot(SlotView::new("cmake"@, cmake, cmake::spec_recipe()))
        .with_slot(SlotView::new("zlib"@, zlib, zlib::spec_recipe()))
        .with_slot(SlotView::new("libuv"@, libuv, libuv::spec_recipe(None)))
        .with_slot(SlotView::new("mbedtls"@, mbedtls, mbedtls::spec_recipe(None)));
    lemma_authoring_lists_variants(bare, Platform::Aarch64Darwin, spec_variant());
    assert(bare.lists_its_variants());
    lemma_on_all_lists_variants(bare, spec_variant());
    let recipe = spec_recipe(cmake, zlib, libuv, mbedtls);
    assert(recipe.lists_its_variants());
    assert(recipe.slots.len() == 4);
    assert(recipe.inputs =~= seq![0usize, 1usize, 2usize, 3usize]);
    cmake::law_is_well_formed();
    assert(recipe.slots[0].fallback.wf());
    assert(recipe.slots[0].shares =~= Seq::<Share>::empty());
    zlib::law_is_well_formed();
    assert(recipe.slots[1].fallback.wf());
    assert(recipe.slots[1].shares =~= Seq::<Share>::empty());
    libuv::law_is_well_formed(None);
    assert(recipe.slots[2].fallback.wf());
    assert(recipe.slots[2].shares =~= Seq::<Share>::empty());
    mbedtls::law_is_well_formed(None);
    assert(recipe.slots[3].fallback.wf());
    assert(recipe.slots[3].shares =~= Seq::<Share>::empty());
    reveal_strlit("cmake");
    reveal_strlit("zlib");
    reveal_strlit("libuv");
    reveal_strlit("mbedtls");
    assert(recipe.slots[0].name.len() != recipe.slots[1].name.len());
    assert(recipe.slots[0].name[0] != recipe.slots[2].name[0]);
    assert(recipe.slots[0].name.len() != recipe.slots[3].name.len());
    assert(recipe.slots[1].name.len() != recipe.slots[2].name.len());
    assert(recipe.slots[1].name.len() != recipe.slots[3].name.len());
    assert(recipe.slots[2].name.len() != recipe.slots[3].name.len());
}

/// Whatever the session, the recipe builds what is authored for the
/// session's platform and nothing of another's. The artifacts supplied for
/// its prerequisites are bound as they are, with no fallback recipe
/// resolved, and are declared as the build's inputs in the recipe's order.
pub proof fn law_builds_what_is_authored(
    cmake: Seq<char>,
    zlib: Seq<char>,
    libuv: Seq<char>,
    mbedtls: Seq<char>,
    session: SessionView,
)
    ensures
        ({
            let recipe = spec_recipe(Some(cmake), Some(zlib), Some(libuv), Some(mbedtls));
            let bound = seq![cmake, zlib, libuv, mbedtls];
            &&& recipe.select(session.platform) == Ok::<VariantView, BuildErrorView>(
                spec_variant(),
            )
            &&& model::bind(recipe, Seq::empty(), session, 4) == Binding::Bound(bound)
            &&& model::build(recipe, session) == model::conclude(
                recipe,
                spec_variant(),
                bound,
                session,
            )
            &&& model::declared(recipe.inputs, bound) == seq![cmake, zlib, libuv, mbedtls]
        }),
{
    let recipe = spec_recipe(Some(cmake), Some(zlib), Some(libuv), Some(mbedtls));
    let none = Seq::<Option<Seq<char>>>::empty();
    let bound = seq![cmake, zlib, libuv, mbedtls];
    assert(recipe.slots.len() == 4);
    assert(model::given(recipe, none, 0) == Some(cmake));
    assert(model::given(recipe, none, 1) == Some(zlib));
    assert(model::given(recipe, none, 2) == Some(libuv));
    assert(model::given(recipe, none, 3) == Some(mbedtls));
    assert(model::bind(recipe, none, session, 0) == Binding::Bound(Seq::empty()));
    assert(Seq::<Seq<char>>::empty().push(cmake) =~= seq![cmake]);
    assert(model::bind(recipe, none, session, 1) == Binding::Bound(seq![cmake]));
    assert(seq![cmake].push(zlib) =~= seq![cmake, zlib]);
    assert(model::bind(recipe, none, session, 2) == Binding::Bound(seq![cmake, zlib]));
    assert(seq![cmake, zlib].push(libuv) =~= seq![cmake, zlib, libuv]);
    assert(model::bind(recipe, none, session, 3) == Binding::Bound(seq![cmake, zlib, libuv]));
    assert(seq![cmake, zlib, libuv].push(mbedtls) =~= seq![cmake, zlib, libuv, mbedtls]);
    assert(model::bind(recipe, none, session, 4) == Binding::Bound(seq![cmake, zlib, libuv, mbedtls]));
    assert(recipe.inputs =~= seq![0usize, 1usize, 2usize, 3usize]);
    assert(seq![0usize, 1usize, 2usize, 3usize].drop_last() =~= seq![0usize, 1usize, 2usize]);
    assert(seq![0usize, 1usize, 2usize].drop_last() =~= seq![0usize, 1usize]);
    assert(seq![0usize, 1usize].drop_last() =~= seq![0usize]);
    assert(seq![0usize].drop_last() =~= Seq::<usize>::empty());
    assert(model::declared(Seq::<usize>::empty(), bound) =~= Seq::<Seq<char>>::empty());
    assert(model::declared(seq![0usize], bound) =~= seq![cmake]);
    assert(model::declared(seq![0usize, 1usize], bound) =~= seq![cmake, zlib]);
    assert(model::declared(seq![0usize, 1usize, 2usize], bound) =~= seq![cmake, zlib, libuv]);
    assert(model::declared(seq![0usize, 1usize, 2usize, 3usize], bound) =~= seq![cmake, zlib, libuv, mbedtls]);
}

/// Where the fallback recipe of each prerequisite, resolved with what the
/// recipe hands down to it, is built in the session already, the recipe is
/// built with those artifacts and asks for no submission on their behalf;
/// it then comes out as if they had been supplied.
pub proof fn law_reuses_what_is_built(
    cmake: Seq<char>,
    zlib: Seq<char>,
    libuv: Seq<char>,
    mbedtls: Seq<char>,
    session: SessionView,
)
    requires
        model::resolve(
            spec_recipe(None, None, None, None).slots[0].fallback,
            model::handed_down(
                spec_recipe(None, None, None, None).slots[0].shares,
                Seq::<Seq<char>>::empty(),
                spec_recipe(None, None, None, None).slots[0].fallback.slots.len(),
            ),
            session,
        ) == OutcomeView::Built(cmake),
        model::resolve(
            spec_recipe(None, None, None, None).slots[1].fallback,
            model::handed_down(
                spec_recipe(None, None, None, None).slots[1].shares,
                seq![cmake],
                spec_recipe(None, None, None, None).slots[1].fallback.slots.len(),
            ),
            session,
        ) == OutcomeView::Built(zlib),
        model::resolve(
            spec_recipe(None, None, None, None).slots[2].fallback,
            model::handed_down(
                spec_recipe(None, None, None, None).slots[2].shares,
                seq![cmake, zlib],
                spec_recipe(None, None, None, None).slots[2].fallback.slots.len(),
            ),
            session,
        ) == OutcomeView::Built(libuv),
        model::resolve(
            spec_recipe(None, None, None, None).slots[3].fallback,
            model::handed_down(
                spec_recipe(None, None, None, None).slots[3].shares,
                seq![cmake, zlib, libuv],
                spec_recipe(None, None, None, None).slots[3].fallback.slots.len(),
            ),
            session,
        ) == OutcomeView::Built(mbedtls),
    ensures
        ({
            let recipe = spec_recipe(None, None, None, None);
            let bound = seq![cmake, zlib, libuv, mbedtls];
            &&& recipe.select(session.platform) == Ok::<VariantView, BuildErrorView>(
                spec_variant(),
            )
            &&& model::bind(recipe, Seq::empty(), session, 4) == Binding::Bound(bound)
            &&& model::build(recipe, session) == model::conclude(
                recipe,
                spec_variant(),
                bound,
                session,
            )
            &&& model::declared(recipe.inputs, bound) == seq![cmake, zlib, libuv, mbedtls]
            &&& model::conclude(recipe, spec_variant(), bound, session) == model::conclude(
                spec_recipe(Some(cmake), Some(zlib), Some(libuv), Some(mbedtls)),
                spec_variant(),
                bound,
                session,
            )
        }),
{
    let recipe = spec_recipe(None, None, None, None);
    let none = Seq::<Option<Seq<char>>>::empty();
    let bound = seq![cmake, zlib, libuv, mbedtls];
    assert(recipe.slots.len() == 4);
    assert(model::given(recipe, none, 0) is None);
    assert(model::given(recipe, none, 1) is None);
    assert(model::given(recipe, none, 2) is None);
    assert(model::given(recipe, none, 3) is None);
    assert(model::bind(recipe, none, session, 0) == Binding::Bound(Seq::empty()));
    assert(Seq::<Seq<char>>::empty().push(cmake) =~= seq![cmake]);
    assert(model::bind(recipe, none, session, 1) == Binding::Bound(seq![cmake]));
    assert(seq![cmake].push(zlib) =~= seq![cmake, zlib]);
    assert(model::bind(recipe, none, session, 2) == Binding::Bound(seq![cmake, zlib]));
    assert(seq![cmake, zlib].push(libuv) =~= seq![cmake, zlib, libuv]);
    assert(model::bind(recipe, none, session, 3) == Binding::Bound(seq![cmake, zlib, libuv]));
    assert(seq![cmake, zlib, libuv].push(mbedtls) =~= seq![cmake, zlib, libuv, mbedtls]);
    assert(model::bind(recipe, none, session, 4) == Binding::Bound(seq![cmake, zlib, libuv, mbedtls]));
    assert(recipe.inputs =~= seq![0usize, 1usize, 2usize, 3usize]);
    assert(seq![0usize, 1usize, 2usize, 3usize].drop_last() =~= seq![0usize, 1usize, 2usize]);
    assert(seq![0usize, 1usize, 2usize].drop_last() =~= seq![0usize, 1usize]);
    assert(seq![0usize, 1usize].drop_last() =~= seq![0usize]);
    assert(seq![0usize].drop_last() =~= Seq::<usize>::empty());
    assert(model::declared(Seq::<usize>::empty(), bound) =~= Seq::<Seq<char>>::empty());
    assert(model::declared(seq![0usize], bound) =~= seq![cmake]);
    assert(model::declared(seq![0usize, 1usize], bound) =~= seq![cmake, zlib]);
    assert(model::declared(seq![0usize, 1usize, 2usize], bound) =~= seq![cmake, zlib, libuv]);
    assert(model::declared(seq![0usize, 1usize, 2usize, 3usize], bound) =~= seq![cmake, zlib, libuv, mbedtls]);
    let supplied = spec_recipe(Some(cmake), Some(zlib), Some(libuv), Some(mbedtls));
    assert(model::slot_scope(recipe.slots, bound) =~= model::slot_scope(
        supplied.slots,
        bound,
    ));
}

/// The recipe and what the caller supplies for its prerequisites.
pub struct Libwebsockets {
    pub cmake: Option<ArtifactRef>,
    pub zlib: Option<ArtifactRef>,
    pub libuv: Option<ArtifactRef>,
    pub mbedtls: Option<ArtifactRef>,
}

impl Libwebsockets {
    /// The recipe with nothing supplied.
    pub fn new() -> (recipe: Self)
        ensures
            recipe.cmake is None,
            recipe.zlib is None,
            recipe.libuv is None,
            recipe.mbedtls is None,
    {
        Libwebsockets { cmake: None, zlib: None, libuv: None, mbedtls: None }
    }

    /// Supplies `cmake` for the `cmake` prerequisite, so that none is built.
    pub fn with_cmake(self, cmake: &ArtifactRef) -> (recipe: Self)
        ensures
            recipe.cmake.deep_view() == Some(cmake@),
            recipe.zlib == self.zlib,
            recipe.libuv == self.libuv,
            recipe.mbedtls == self.mbedtls,
    {
        Libwebsockets { cmake: Some(cmake.duplicate()), ..self }
    }

    /// Supplies `zlib` for the `zlib` prerequisite, so that none is built.
    pub fn with_zlib(self, zlib: &ArtifactRef) -> (recipe: Self)
        ensures
            recipe.zlib.deep_view() == Some(zlib@),
            recipe.cmake == self.cmake,
            recipe.libuv == self.libuv,
            recipe.mbedtls == self.mbedtls,
    {
        Libwebsockets { zlib: Some(zlib.duplicate()), ..self }
    }

    /// Supplies `libuv` for the `libuv` prerequisite, so that none is built.
    pub fn with_libuv(self, libuv: &ArtifactRef) -> (recipe: Self)
        ensures
            recipe.libuv.deep_view() == Some(libuv@),
            recipe.cmake == self.cmake,
            recipe.zlib == self.zlib,
            recipe.mbedtls == self.mbedtls,
    {
        Libwebsockets { libuv: Some(libuv.duplicate()), ..self }
    }

    /// Supplies `mbedtls` for the `mbedtls` prerequisite, so that none is built.
    pub fn with_mbedtls(self, mbedtls: &ArtifactRef) -> (recipe: Self)
        ensures
            recipe.mbedtls.deep_view() == Some(mbedtls@),
            recipe.cmake == self.cmake,
            recipe.zlib == self.zlib,
            recipe.libuv == self.libuv,
    {
        Libwebsockets { mbedtls: Some(mbedtls.duplicate()), ..self }
    }

    /// Resolves the recipe in `session`: the artifact where it is assembled, the
    /// submission that the executor has to perform next where it is not, or
    /// the failure that stops it.
    pub fn build(self, session: &ResolutionSession) -> (outcome: Outcome)
        ensures
            outcome@ == model::build(
                spec_recipe(
                    self.cmake.deep_view(),
                    self.zlib.deep_view(),
                    self.libuv.deep_view(),
                    self.mbedtls.deep_view(),
                ),
                session@,
            ),
    {
        resolver::build(&recipe(self.cmake, self.zlib, self.libuv, self.mbedtls), session)
    }
}

} // verus!
