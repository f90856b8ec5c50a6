//! The AWS command-line interface, installed from the vendor's bundles.

use vstd::prelude::*;
use crate::error::BuildErrorView;
use crate::model;
use crate::model::{Binding, OutcomeView};
use crate::plan::{Source, SourceView};
use crate::platform::Platform;
use crate::recipe::{
    OWN_NAME, RecipeSpec, RecipeView, SYSTEM_KEY, VERSIONED_ALIAS, Variant, VariantView,
    lemma_authoring_lists_variants,
};
use crate::resolver;
use crate::resolver::Outcome;
use crate::session::{ResolutionSession, SessionView};

verus! {

/// The name of the artifact.
pub const NAME: &'static str = "awscli2";

/// The version that is built.
pub const VERSION: &'static str = "2.33.1";

/// Where the installer bundle for Linux is fetched from.
pub const SOURCE_LINUX: &'static str = "https://awscli.amazonaws.com/awscli-exe-linux-{system}-{version}.zip";

/// Where the installer package for Darwin is fetched from.
pub const SOURCE_DARWIN: &'static str = "https://awscli.amazonaws.com/AWSCLIV2-{version}.pkg";

/// The build step on Linux: it runs the bundled installer.
pub const SCRIPT_LINUX: &'static str = "mkdir -pv \"$VORPAL_OUTPUT\"\n\
    pushd ./source/{name}\n\
    chmod +x ./aws/install\n\
    ./aws/install --install-dir \"$VORPAL_OUTPUT\" --bin-dir \"$VORPAL_OUTPUT/bin\"";

/// The build step on Darwin: it unpacks the package and links the commands.
pub const SCRIPT_DARWIN: &'static str = "mkdir -pv \"$VORPAL_OUTPUT/bin\"\n\
    pushd ./source/{name}\n\
    pkgutil --expand-full AWSCLIV2-{version}.pkg extracted\n\
    cp -Rv extracted/aws-cli.pkg/Payload/aws-cli/* \"$VORPAL_OUTPUT/.\"\n\
    \n\
    # Verify extracted files exist before creating symlinks\n\
    test -f \"$VORPAL_OUTPUT/aws\" || (echo 'ERROR: aws executable not found after extraction' && exit 1)\n\
    test -f \"$VORPAL_OUTPUT/aws_completer\" || (echo 'ERROR: aws_completer not found after extraction' && exit 1)\n\
    \n\
    ln -sf \"$VORPAL_OUTPUT/aws\" \"$VORPAL_OUTPUT/bin/aws\"\n\
    ln -sf \"$VORPAL_OUTPUT/aws_completer\" \"$VORPAL_OUTPUT/bin/aws_completer\"";

/// How the release names `platform`; empty where the platform has no release of its own.
pub open spec fn spec_system(platform: Platform) -> Seq<char> {
    match platform {
        Platform::Aarch64Linux => "aarch64"@,
        Platform::X8664Linux => "x86_64"@,
        Platform::Aarch64Darwin | Platform::X8664Darwin => ""@,
    }
}

/// How the release names `platform`; empty where the platform has no release of its own.
pub fn system(platform: Platform) -> (tag: &'static str)
    ensures
        tag@ == spec_system(platform),
{
    match platform {
        Platform::Aarch64Linux => "aarch64",
        Platform::X8664Linux => "x86_64",
        Platform::Aarch64Darwin | Platform::X8664Darwin => "",
    }
}

/// What is built on `platform`.
pub open spec fn spec_variant(platform: Platform) -> VariantView {
    match platform {
        Platform::Aarch64Linux | Platform::X8664Linux => {
            VariantView::new(SCRIPT_LINUX@)
                .with_param(SYSTEM_KEY@, spec_system(platform))
                .with_source(SourceView::new(OWN_NAME@, SOURCE_LINUX@))
        },
        Platform::Aarch64Darwin | Platform::X8664Darwin => {
            VariantView::new(SCRIPT_DARWIN@)
                .with_source(SourceView::new(OWN_NAME@, SOURCE_DARWIN@))
        },
    }
}

/// What is built on `platform`.
pub fn variant(platform: Platform) -> (variant: Variant)
    ensures
        variant@ == spec_variant(platform),
{
    match platform {
        Platform::Aarch64Linux | Platform::X8664Linux => {
            Variant::new(SCRIPT_LINUX)
                .with_param(SYSTEM_KEY, system(platform))
                .with_source(Source::new(OWN_NAME, SOURCE_LINUX))
        },
        Platform::Aarch64Darwin | Platform::X8664Darwin => Variant::new(SCRIPT_DARWIN).with_source(Source::new(OWN_NAME, SOURCE_DARWIN)),
    }
}

/// The recipe.
pub open spec fn spec_recipe() -> RecipeView {
    RecipeView::new(NAME@, VERSION@)
        .with_alias(VERSIONED_ALIAS@)
        .on(Platform::Aarch64Darwin, spec_variant(Platform::Aarch64Darwin))
        .on(Platform::Aarch64Linux, spec_variant(Platform::Aarch64Linux))
        .on(Platform::X8664Darwin, spec_variant(Platform::X8664Darwin))
        .on(Platform::X8664Linux, spec_variant(Platform::X8664Linux))
}

/// The recipe.
pub fn recipe() -> (recipe: RecipeSpec)
    ensures
        recipe@ == spec_recipe(),
{
    RecipeSpec::new(NAME, VERSION)
        .with_alias(VERSIONED_ALIAS)
        .on(Platform::Aarch64Darwin, variant(Platform::Aarch64Darwin))
        .on(Platform::Aarch64Linux, variant(Platform::Aarch64Linux))
        .on(Platform::X8664Darwin, variant(Platform::X8664Darwin))
        .on(Platform::X8664Linux, variant(Platform::X8664Linux))
}

/// The recipe is well formed: its list of platforms is in step with its
/// variants.
pub proof fn law_is_well_formed()
    ensures
        spec_recipe().wf(),
{
    let bare = RecipeView::new(NAME@, VERSION@).with_alias(VERSIONED_ALIAS@);
    lemma_authoring_lists_variants(
        bare,
        Platform::Aarch64Darwin,
        spec_variant(Platform::Aarch64Darwin),
    );
    assert(bare.lists_its_variants());
    let first = bare.on(Platform::Aarch64Darwin, spec_variant(Platform::Aarch64Darwin));
    lemma_authoring_lists_variants(
        first,
        Platform::Aarch64Linux,
        spec_variant(Platform::Aarch64Linux),
    );
    let second = first.on(Platform::Aarch64Linux, spec_variant(Platform::Aarch64Linux));
    lemma_authoring_lists_variants(
        second,
        Platform::X8664Darwin,
        spec_variant(Platform::X8664Darwin),
    );
    let third = second.on(Platform::X8664Darwin, spec_variant(Platform::X8664Darwin));
    lemma_authoring_lists_variants(
        third,
        Platform::X8664Linux,
        spec_variant(Platform::X8664Linux),
    );
    let recipe = spec_recipe();
    assert(recipe.lists_its_variants());
}

/// Whatever the session, the recipe builds what is authored for the
/// session's platform and nothing of another's, and declares no input.
pub proof fn law_builds_what_is_authored(session: SessionView)
    ensures
        ({
            let recipe = spec_recipe();
            let bound = Seq::<Seq<char>>::empty();
            &&& recipe.select(session.platform) == Ok::<VariantView, BuildErrorView>(
                spec_variant(session.platform),
            )
            &&& model::bind(recipe, Seq::empty(), session, 0) == Binding::Bound(bound)
            &&& model::build(recipe, session) == model::conclude(
                recipe,
                spec_variant(session.platform),
                bound,
                session,
            )
            &&& model::declared(recipe.inputs, bound) == Seq::<Seq<char>>::empty()
        }),
{
    let recipe = spec_recipe();
    let none = Seq::<Option<Seq<char>>>::empty();
    let bound = Seq::<Seq<char>>::empty();
    assert(recipe.slots.len() == 0);
    assert(model::bind(recipe, none, session, 0) == Binding::Bound(Seq::empty()));
    assert(recipe.inputs =~= Seq::<usize>::empty());
    assert(model::declared(Seq::<usize>::empty(), bound) =~= Seq::<Seq<char>>::empty());
}

/// Resolves the recipe in `session`: the artifact where it is assembled, the
/// submission that the executor has to perform next where it is not, or
/// the failure that stops it.
pub fn build(session: &ResolutionSession) -> (outcome: Outcome)
    ensures
        outcome@ == model::build(spec_recipe(), session@),
{
    resolver::build(&recipe(), session)
}

} // verus!
