//! `ttyd`, which shares a terminal over the web: a release binary on Linux, built from source with its libraries on Darwin.

use vstd::prelude::*;
use crate::error::BuildErrorView;
use crate::model;
use crate::model::{Binding, OutcomeView};
use crate::plan::{Source, SourceView};
use crate::platform::Platform;
use crate::recipe::{
    OWN_NAME, RecipeSpec, RecipeView, SYSTEM_KEY, VERSIONED_ALIAS, Variant, VariantView,
    lemma_authoring_lists_variants,
};
use crate::resolver;
use crate::resolver::Outcome;
use crate::session::{ResolutionSession, SessionView};

verus! {

/// The name of the artifact.
pub const NAME: &'static str = "ttyd";

/// The version that is built.
pub const VERSION: &'static str = "1.7.7";

/// The version of cmake that is built along on Darwin.
pub const CMAKE_VERSION: &'static str = "3.31.6";

/// The version of zlib that is built along on Darwin.
pub const ZLIB_VERSION: &'static str = "1.3.1";

/// The version of json-c that is built along on Darwin.
pub const JSON_C_VERSION: &'static str = "0.17";

/// The version of libuv that is built along on Darwin.
pub const LIBUV_VERSION: &'static str = "1.44.2";

/// The version of mbedtls that is built along on Darwin.
pub const MBEDTLS_VERSION: &'static str = "2.28.5";

/// The version of libwebsockets that is built along on Darwin.
pub const LWS_VERSION: &'static str = "4.3.3";

/// Where the release binary for Linux is fetched from.
pub const SOURCE_LINUX: &'static str = "https://github.com/tsl0922/ttyd/releases/download/{version}/ttyd.{system}";

/// The build step on Linux: it installs the release binary.
pub const SCRIPT_LINUX: &'static str = "mkdir -pv \"$VORPAL_OUTPUT/bin\"\n\
    cp ./source/{name}/ttyd.{system} \"$VORPAL_OUTPUT/bin/ttyd\"\n\
    chmod +x \"$VORPAL_OUTPUT/bin/ttyd\"";

/// Where the source of ttyd is fetched from.
pub const SOURCE_DARWIN: &'static str = "https://github.com/tsl0922/ttyd/archive/refs/tags/{version}.tar.gz";

/// The directory that the source of cmake is unpacked under.
pub const SOURCE_CMAKE_NAME: &'static str = "ttyd-cmake";

/// Where the source of cmake is fetched from.
pub const SOURCE_CMAKE: &'static str = "https://github.com/Kitware/CMake/releases/download/v{cmake_version}/cmake-{cmake_version}-macos-universal.tar.gz";

/// The directory that the source of zlib is unpacked under.
pub const SOURCE_ZLIB_NAME: &'static str = "ttyd-zlib";

/// Where the source of zlib is fetched from.
pub const SOURCE_ZLIB: &'static str = "https://github.com/madler/zlib/releases/download/v{zlib_version}/zlib-{zlib_version}.tar.gz";

/// The directory that the source of json-c is unpacked under.
pub const SOURCE_JSON_C_NAME: &'static str = "ttyd-json-c";

/// Where the source of json-c is fetched from.
pub const SOURCE_JSON_C: &'static str = "https://s3.amazonaws.com/json-c_releases/releases/json-c-{json_c_version}.tar.gz";

/// The directory that the source of libuv is unpacked under.
pub const SOURCE_LIBUV_NAME: &'static str = "ttyd-libuv";

/// Where the source of libuv is fetched from.
pub const SOURCE_LIBUV: &'static str = "https://github.com/libuv/libuv/archive/refs/tags/v{libuv_version}.tar.gz";

/// The directory that the source of mbedtls is unpacked under.
pub const SOURCE_MBEDTLS_NAME: &'static str = "ttyd-mbedtls";

/// Where the source of mbedtls is fetched from.
pub const SOURCE_MBEDTLS: &'static str = "https://github.com/Mbed-TLS/mbedtls/archive/refs/tags/v{mbedtls_version}.tar.gz";

/// The directory that the source of libwebsockets is unpacked under.
pub const SOURCE_LWS_NAME: &'static str = "ttyd-lws";

/// Where the source of libwebsockets is fetched from.
pub const SOURCE_LWS: &'static str = "https://github.com/warmcat/libwebsockets/archive/refs/tags/v{lws_version}.tar.gz";

/// The build step on Darwin: it builds the libraries into a staging directory, then ttyd against them.
pub const SCRIPT_DARWIN: &'static str = "mkdir -pv \"$VORPAL_OUTPUT/bin\"\n\
    \n\
    STAGE_DIR=\"$(pwd)/stage\"\n\
    BUILD_DIR=\"$(pwd)/build\"\n\
    mkdir -p \"$STAGE_DIR\" \"$BUILD_DIR\"\n\
    export PKG_CONFIG_PATH=\"$STAGE_DIR/lib/pkgconfig\"\n\
    \n\
    CMAKE=\"$(pwd)/source/ttyd-cmake/cmake-{cmake_version}-macos-universal/CMake.app/Contents/bin/cmake\"\n\
    \n\
    echo \"=== Building zlib ===\"\n\
    pushd ./source/ttyd-zlib/zlib-{zlib_version}\n\
    ./configure --static --prefix=\"$STAGE_DIR\"\n\
    make -j$(sysctl -n hw.ncpu) install\n\
    popd\n\
    \n\
    echo \"=== Building json-c ===\"\n\
    mkdir -p \"$BUILD_DIR/json-c\" && pushd \"$BUILD_DIR/json-c\"\n\
    \"$CMAKE\" -DCMAKE_BUILD_TYPE=RELEASE -DCMAKE_INSTALL_PREFIX=\"$STAGE_DIR\" -DBUILD_SHARED_LIBS=OFF -DBUILD_TESTING=OFF -DDISABLE_THREAD_LOCAL_STORAGE=ON \"$(pwd)/../../source/ttyd-json-c/json-c-{json_c_version}\"\n\
    make -j$(sysctl -n hw.ncpu) install\n\
    popd\n\
    \n\
    echo \"=== Building libuv ===\"\n\
    mkdir -p \"$BUILD_DIR/libuv\" && pushd \"$BUILD_DIR/libuv\"\n\
    \"$CMAKE\" -DCMAKE_BUILD_TYPE=RELEASE -DCMAKE_INSTALL_PREFIX=\"$STAGE_DIR\" -DCMAKE_C_FLAGS=\"-fPIC\" -DBUILD_TESTING=OFF \"$(pwd)/../../source/ttyd-libuv/libuv-{libuv_version}\"\n\
    make -j$(sysctl -n hw.ncpu) install\n\
    popd\n\
    \n\
    # Remove shared libraries and create static lib symlink for libuv\n\
    find \"$STAGE_DIR/lib\" -name '*.dylib' -delete 2>/dev/null || true\n\
    ln -sf \"$STAGE_DIR/lib/libuv_a.a\" \"$STAGE_DIR/lib/libuv.a\"\n\
    \n\
    echo \"=== Building mbedtls ===\"\n\
    mkdir -p \"$BUILD_DIR/mbedtls\" && pushd \"$BUILD_DIR/mbedtls\"\n\
    \"$CMAKE\" -DCMAKE_BUILD_TYPE=RELEASE -DCMAKE_INSTALL_PREFIX=\"$STAGE_DIR\" -DENABLE_TESTING=OFF -DUSE_SHARED_MBEDTLS_LIBRARY=OFF \"$(pwd)/../../source/ttyd-mbedtls/mbedtls-{mbedtls_version}\"\n\
    make -j$(sysctl -n hw.ncpu) install\n\
    popd\n\
    \n\
    echo \"=== Building libwebsockets ===\"\n\
    LWS_SRC=\"$(pwd)/source/ttyd-lws/libwebsockets-{lws_version}\"\n\
    sed 's/ websockets_shared//g' \"$LWS_SRC/cmake/libwebsockets-config.cmake.in\" > \"$LWS_SRC/cmake/libwebsockets-config.cmake.in.tmp\"\n\
    mv \"$LWS_SRC/cmake/libwebsockets-config.cmake.in.tmp\" \"$LWS_SRC/cmake/libwebsockets-config.cmake.in\"\n\
    mkdir -p \"$BUILD_DIR/lws\" && pushd \"$BUILD_DIR/lws\"\n\
    \"$CMAKE\" -DCMAKE_BUILD_TYPE=RELEASE -DCMAKE_INSTALL_PREFIX=\"$STAGE_DIR\" -DCMAKE_FIND_LIBRARY_SUFFIXES=\".a\" -DLWS_WITHOUT_TESTAPPS=ON -DLWS_WITH_MBEDTLS=ON -DLWS_WITH_LIBUV=ON -DLWS_STATIC_PIC=ON -DLWS_WITH_SHARED=OFF -DLWS_UNIX_SOCK=ON -DLWS_IPV6=ON -DLWS_ROLE_RAW_FILE=OFF -DLWS_WITH_HTTP2=ON -DLWS_WITH_HTTP_BASIC_AUTH=OFF -DLWS_WITH_UDP=OFF -DLWS_WITHOUT_CLIENT=ON -DLWS_WITHOUT_EXTENSIONS=OFF -DLWS_WITH_LEJP=OFF -DLWS_WITH_LEJP_CONF=OFF -DLWS_WITH_LWSAC=OFF -DLWS_WITH_SEQUENCER=OFF \"$LWS_SRC\"\n\
    make -j$(sysctl -n hw.ncpu) install\n\
    popd\n\
    \n\
    echo \"=== Building ttyd ===\"\n\
    mkdir -p \"$BUILD_DIR/ttyd\" && pushd \"$BUILD_DIR/ttyd\"\n\
    \"$CMAKE\" -DCMAKE_INSTALL_PREFIX=\"$VORPAL_OUTPUT\" -DCMAKE_PREFIX_PATH=\"$STAGE_DIR\" -DCMAKE_BUILD_TYPE=RELEASE \"$(pwd)/../../source/{name}/ttyd-{version}\"\n\
    make install\n\
    popd\n\
    \n\
    chmod +x \"$VORPAL_OUTPUT/bin/ttyd\"";

/// How the release names `platform`; empty where the platform has no release of its own.
pub open spec fn spec_system(platform: Platform) -> Seq<char> {
    match platform {
        Platform::Aarch64Linux => "aarch64"@,
        Platform::X8664Linux => "x86_64"@,
        Platform::Aarch64Darwin | Platform::X8664Darwin => ""@,
    }
}

/// How the release names `platform`; empty where the platform has no release of its own.
pub fn system(platform: Platform) -> (tag: &'static str)
    ensures
        tag@ == spec_system(platform),
{
    match platform {
        Platform::Aarch64Linux => "aarch64",
        Platform::X8664Linux => "x86_64",
        Platform::Aarch64Darwin | Platform::X8664Darwin => "",
    }
}

/// What is built on `platform`.
pub open spec fn spec_variant(platform: Platform) -> VariantView {
    match platform {
        Platform::Aarch64Linux | Platform::X8664Linux => {
            VariantView::new(SCRIPT_LINUX@)
                .with_param(SYSTEM_KEY@, spec_system(platform))
                .with_source(SourceView::new(OWN_NAME@, SOURCE_LINUX@))
        },
        Platform::Aarch64Darwin | Platform::X8664Darwin => {
            VariantView::new(SCRIPT_DARWIN@)
                .with_source(SourceView::new(OWN_NAME@, SOURCE_DARWIN@))
                .with_source(SourceView::new(SOURCE_CMAKE_NAME@, SOURCE_CMAKE@))
                .with_source(SourceView::new(SOURCE_ZLIB_NAME@, SOURCE_ZLIB@))
                .with_source(SourceView::new(SOURCE_JSON_C_NAME@, SOURCE_JSON_C@))
                .with_source(SourceView::new(SOURCE_LIBUV_NAME@, SOURCE_LIBUV@))
                .with_source(SourceView::new(SOURCE_MBEDTLS_NAME@, SOURCE_MBEDTLS@))
                .with_source(SourceView::new(SOURCE_LWS_NAME@, SOURCE_LWS@))
        },
    }
}

/// What is built on `platform`.
pub fn variant(platform: Platform) -> (variant: Variant)
    ensures
        variant@ == spec_variant(platform),
{
    match platform {
        Platform::Aarch64Linux | Platform::X8664Linux => {
            Variant::new(SCRIPT_LINUX)
                .with_param(SYSTEM_KEY, system(platform))
                .with_source(Source::new(OWN_NAME, SOURCE_LINUX))
        },
        Platform::Aarch64Darwin | Platform::X8664Darwin => {
            Variant::new(SCRIPT_DARWIN)
                .with_source(Source::new(OWN_NAME, SOURCE_DARWIN))
                .with_source(Source::new(SOURCE_CMAKE_NAME, SOURCE_CMAKE))
                .with_source(Source::new(SOURCE_ZLIB_NAME, SOURCE_ZLIB))
                .with_source(Source::new(SOURCE_JSON_C_NAME, SOURCE_JSON_C))
                .with_source(Source::new(SOURCE_LIBUV_NAME, SOURCE_LIBUV))
                .with_source(Source::new(SOURCE_MBEDTLS_NAME, SOURCE_MBEDTLS))
                .with_source(Source::new(SOURCE_LWS_NAME, SOURCE_LWS))
        },
    }
}

/// The recipe.
pub open spec fn spec_recipe() -> RecipeView {
    RecipeView::new(NAME@, VERSION@)
        .with_alias(VERSIONED_ALIAS@)
        .with_param("cmake_version"@, CMAKE_VERSION@)
        .with_param("zlib_version"@, ZLIB_VERSION@)
        .with_param("json_c_version"@, JSON_C_VERSION@)
        .with_param("libuv_version"@, LIBUV_VERSION@)
        .with_param("mbedtls_version"@, MBEDTLS_VERSION@)
        .with_param("lws_version"@, LWS_VERSION@)
        .on(Platform::Aarch64Darwin, spec_variant(Platform::Aarch64Darwin))
        .on(Platform::Aarch64Linux, spec_variant(Platform::Aarch64Linux))
        .on(Platform::X8664Darwin, spec_variant(Platform::X8664Darwin))
        .on(Platform::X8664Linux, spec_variant(Platform::X8664Linux))
}

/// The recipe.
pub fn recipe() -> (recipe: RecipeSpec)
    ensures
        recipe@ == spec_recipe(),
{
    RecipeSpec::new(NAME, VERSION)
        .with_alias(VERSIONED_ALIAS)
        .with_param("cmake_version", CMAKE_VERSION)
        .with_param("zlib_version", ZLIB_VERSION)
        .with_param("json_c_version", JSON_C_VERSION)
        .with_param("libuv_version", LIBUV_VERSION)
        .with_param("mbedtls_version", MBEDTLS_VERSION)
        .with_param("lws_version", LWS_VERSION)
        .on(Platform::Aarch64Darwin, variant(Platform::Aarch64Darwin))
        .on(Platform::Aarch64Linux, variant(Platform::Aarch64Linux))
        .on(Platform::X8664Darwin, variant(Platform::X8664Darwin))
        .on(Platform::X8664Linux, variant(Platform::X8664Linux))
}

/// The recipe is well formed: its list of platforms is in step with its
/// variants.
pub proof fn law_is_well_formed()
    ensures
        spec_recipe().wf(),
{
    let bare = RecipeView::new(NAME@, VERSION@)
        .with_alias(VERSIONED_ALIAS@)
        .with_param("cmake_version"@, CMAKE_VERSION@)
        .with_param("zlib_version"@, ZLIB_VERSION@)
        .with_param("json_c_version"@, JSON_C_VERSION@)
        .with_param("libuv_version"@, LIBUV_VERSION@)
        .with_param("mbedtls_version"@, MBEDTLS_VERSION@)
        .with_param("lws_version"@, LWS_VERSION@);
    lemma_authoring_lists_variants(
        bare,
        Platform::Aarch64Darwin,
        spec_variant(Platform::Aarch64Darwin),
    );
    assert(bare.lists_its_variants());
    let first = bare.on(Platform::Aarch64Darwin, spec_variant(Platform::Aarch64Darwin));
    lemma_authoring_lists_variants(
        first,
        Platform::Aarch64Linux,
        spec_variant(Platform::Aarch64Linux),
    );
    let second = first.on(Platform::Aarch64Linux, spec_variant(Platform::Aarch64Linux));
    lemma_authoring_lists_variants(
        second,
        Platform::X8664Darwin,
        spec_variant(Platform::X8664Darwin),
    );
    let third = second.on(Platform::X8664Darwin, spec_variant(Platform::X8664Darwin));
    lemma_authoring_lists_variants(
        third,
        Platform::X8664Linux,
        spec_variant(Platform::X8664Linux),
    );
    let recipe = spec_recipe();
    assert(recipe.lists_its_variants());
}

/// Whatever the session, the recipe builds what is authored for the
/// session's platform and nothing of another's, and declares no input.
pub proof fn law_builds_what_is_authored(session: SessionView)
    ensures
        ({
            let recipe = spec_recipe();
            let bound = Seq::<Seq<char>>::empty();
            &&& recipe.select(session.platform) == Ok::<VariantView, BuildErrorView>(
                spec_variant(session.platform),
            )
            &&& model::bind(recipe, Seq::empty(), session, 0) == Binding::Bound(bound)
            &&& model::build(recipe, session) == model::conclude(
                recipe,
                spec_variant(session.platform),
                bound,
                session,
            )
            &&& model::declared(recipe.inputs, bound) == Seq::<Seq<char>>::empty()
        }),
{
    let recipe = spec_recipe();
    let none = Seq::<Option<Seq<char>>>::empty();
    let bound = Seq::<Seq<char>>::empty();
    assert(recipe.slots.len() == 0);
    assert(model::bind(recipe, none, session, 0) == Binding::Bound(Seq::empty()));
    assert(recipe.inputs =~= Seq::<usize>::empty());
    assert(model::declared(Seq::<usize>::empty(), bound) =~= Seq::<Seq<char>>::empty());
}

/// The recipe.
pub struct Ttyd;

impl Ttyd {
    /// The recipe with nothing supplied: it has no prerequisites.
    pub fn new() -> (recipe: Self)
        ensures
            recipe == Ttyd,
    {
        Ttyd
    }

    /// Resolves the recipe in `session`: the artifact where it is assembled, the
    /// submission that the executor has to perform next where it is not, or
    /// the failure that stops it.
    pub fn build(self, session: &ResolutionSession) -> (outcome: Outcome)
        ensures
            outcome@ == model::build(spec_recipe(), session@),
    {
        resolver::build(&recipe(), session)
    }
}

} // verus!
