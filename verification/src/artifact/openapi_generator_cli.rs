//! The OpenAPI generator, a jar with a launcher that runs it on a given OpenJDK.

use vstd::prelude::*;
use crate::artifact::openjdk;
use crate::error::BuildErrorView;
use crate::model;
use crate::model::{Binding, OutcomeView};
use crate::plan::{ArtifactRef, Source, SourceView};
use crate::platform::Platform;
use crate::recipe::{
    OWN_NAME, RecipeSpec, RecipeView, Share, Slot, SlotView, VERSIONED_ALIAS, Variant, VariantView,
    lemma_authoring_lists_variants, lemma_on_all_lists_variants,
};
use crate::resolver;
use crate::resolver::Outcome;
use crate::session::{ResolutionSession, SessionView};

verus! {

/// The name of the artifact.
pub const NAME: &'static str = "openapi-generator-cli";

/// The version that is built.
pub const VERSION: &'static str = "7.18.0";

/// The setting that points the build step to the OpenJDK.
pub const JAVA_HOME: &'static str = "JAVA_HOME={openjdk}/Contents/Home";

/// The setting that puts the OpenJDK's commands on the path.
pub const JAVA_PATH: &'static str = "PATH=$JAVA_HOME/bin:$PATH";

/// Where the jar is fetched from.
pub const SOURCE: &'static str = "https://repo1.maven.org/maven2/org/openapitools/openapi-generator-cli/{version}/openapi-generator-cli-{version}.jar";

/// The build step.
pub const SCRIPT: &'static str = "mkdir -p \"$VORPAL_OUTPUT/bin\"\n\
    \n\
    pushd ./source/{name}\n\
    \n\
    cp META-INF/MANIFEST.MF ../MANIFEST.MF\n\
    \n\
    jar cfm ../openapi-generator-cli.jar ../MANIFEST.MF .\n\
    \n\
    mv -v ../openapi-generator-cli.jar \"$VORPAL_OUTPUT/openapi-generator-cli.jar\"\n\
    \n\
    cat << 'EOF' > \"$VORPAL_OUTPUT/bin/openapi-generator-cli\"\n\
    #!/bin/sh\n\
    JAVA_HOME={openjdk}/Contents/Home\n\
    PATH=$JAVA_HOME/bin:$PATH\n\
    java -jar \"$VORPAL_OUTPUT/openapi-generator-cli.jar\" \"$@\"\n\
    EOF\n\
    \n\
    chmod +x \"$VORPAL_OUTPUT/bin/openapi-generator-cli\"";

/// What is built on every platform.
pub open spec fn spec_variant() -> VariantView {
    VariantView::new(SCRIPT@).with_source(SourceView::new(OWN_NAME@, SOURCE@))
}

/// What is built on every platform.
pub fn variant() -> (variant: Variant)
    ensures
        variant@ == spec_variant(),
{
    Variant::new(SCRIPT).with_source(Source::new(OWN_NAME, SOURCE))
}

/// The recipe, with the artifacts that the caller supplies for its prerequisites.
pub open spec fn spec_recipe(openjdk: Option<Seq<char>>) -> RecipeView {
    RecipeView::new(NAME@, VERSION@)
        .with_alias(VERSIONED_ALIAS@)
        .with_slot(SlotView::new("openjdk"@, openjdk, openjdk::spec_recipe()))
        .with_environment(JAVA_HOME@)
        .with_environment(JAVA_PATH@)
        .on_all(spec_variant())
}

/// The recipe, with the artifacts that the caller supplies for its prerequisites.
pub fn recipe(openjdk: Option<ArtifactRef>) -> (recipe: RecipeSpec)
    ensures
        recipe@ == spec_recipe(openjdk.deep_view()),
{
    RecipeSpec::new(NAME, VERSION)
        .with_alias(VERSIONED_ALIAS)
        .with_slot(Slot::new("openjdk", openjdk, openjdk::recipe()))
        .with_environment(JAVA_HOME)
        .with_environment(JAVA_PATH)
        .on_all(variant())
}

/// The recipe is well formed, whatever is supplied: its prerequisites have
/// names of their own, what it shares and declares is in range, its list
/// of platforms is in step with its variants, and so it is with the
/// fallback recipes.
pub proof fn law_is_well_formed(openjdk: Option<Seq<char>>)
    ensures
        spec_recipe(openjdk).wf(),
{
    let bare = RecipeView::new(NAME@, VERSION@)
        .with_alias(VERSIONED_ALIAS@)
        .with_slot(SlotView::new("openjdk"@, openjdk, openjdk::spec_recipe()))
        .with_environment(JAVA_HOME@)
        .with_environment(JAVA_PATH@);
    lemma_authoring_lists_variants(bare, Platform::Aarch64Darwin, spec_variant());
    assert(bare.lists_its_variants());
    lemma_on_all_lists_variants(bare, spec_variant());
    let recipe = spec_recipe(openjdk);
    assert(recipe.lists_its_variants());
    assert(recipe.slots.len() == 1);
    assert(recipe.inputs =~= seq![0usize]);
    openjdk::law_is_well_formed();
    assert(recipe.slots[0].fallback.wf());
    assert(recipe.slots[0].shares =~= Seq::<Share>::empty());
}

/// Whatever the session, the recipe builds what is authored for the
/// session's platform and nothing of another's. The artifacts supplied for
/// its prerequisites are bound as they are, with no fallback recipe
/// resolved, and are declared as the build's inputs in the recipe's order.
pub proof fn law_builds_what_is_authored(openjdk: Seq<char>, session: SessionView)
    ensures
        ({
            let recipe = spec_recipe(Some(openjdk));
            let bound = seq![openjdk];
            &&& recipe.select(session.platform) == Ok::<VariantView, BuildErrorView>(
                spec_variant(),
            )
            &&& model::bind(recipe, Seq::empty(), session, 1) == Binding::Bound(bound)
            &&& model::build(recipe, session) == model::conclude(
                recipe,
                spec_variant(),
                bound,
                session,
            )
            &&& model::declared(recipe.inputs, bound) == seq![openjdk]
        }),
{
    let recipe = spec_recipe(Some(openjdk));
    let none = Seq::<Option<Seq<char>>>::empty();
    let bound = seq![openjdk];
    assert(recipe.slots.len() == 1);
    assert(model::given(recipe, none, 0) == Some(openjdk));
    assert(model::bind(recipe, none, session, 0) == Binding::Bound(Seq::empty()));
    assert(Seq::<Seq<char>>::empty().push(openjdk) =~= seq![openjdk]);
    assert(model::bind(recipe, none, session, 1) == Binding::Bound(seq![openjdk]));
    assert(recipe.inputs =~= seq![0usize]);
    assert(seq![0usize].drop_last() =~= Seq::<usize>::empty());
    assert(model::declared(Seq::<usize>::empty(), bound) =~= Seq::<Seq<char>>::empty());
    assert(model::declared(seq![0usize], bound) =~= seq![openjdk]);
}

/// Where the fallback recipe of each prerequisite, resolved with what the
/// recipe hands down to it, is built in the session already, the recipe is
/// built with those artifacts and asks for no submission on their behalf;
/// it then comes out as if they had been supplied.
pub proof fn law_reuses_what_is_built(openjdk: Seq<char>, session: SessionView)
    requires
        model::resolve(
            spec_recipe(None).slots[0].fallback,
            model::handed_down(
                spec_recipe(None).slots[0].shares,
                Seq::<Seq<char>>::empty(),
                spec_recipe(None).slots[0].fallback.slots.len(),
            ),
            session,
        ) == OutcomeView::Built(openjdk),
    ensures
        ({
            let recipe = spec_recipe(None);
            let bound = seq![openjdk];
            &&& recipe.select(session.platform) == Ok::<VariantView, BuildErrorView>(
                spec_variant(),
            )
            &&& model::bind(recipe, Seq::empty(), session, 1) == Binding::Bound(bound)
            &&& model::build(recipe, session) == model::conclude(
                recipe,
                spec_variant(),
                bound,
                session,
            )
            &&& model::declared(recipe.inputs, bound) == seq![openjdk]
            &&& model::conclude(recipe, spec_variant(), bound, session) == model::conclude(
                spec_recipe(Some(openjdk)),
                spec_variant(),
                bound,
                session,
            )
        }),
{
    let recipe = spec_recipe(None);
    let none = Seq::<Option<Seq<char>>>::empty();
    let bound = seq![openjdk];
    assert(recipe.slots.len() == 1);
    assert(model::given(recipe, none, 0) is None);
    assert(model::bind(recipe, none, session, 0) == Binding::Bound(Seq::empty()));
    assert(Seq::<Seq<char>>::empty().push(openjdk) =~= seq![openjdk]);
    assert(model::bind(recipe, none, session, 1) == Binding::Bound(seq![openjdk]));
    assert(recipe.inputs =~= seq![0usize]);
    assert(seq![0usize].drop_last() =~= Seq::<usize>::empty());
    assert(model::declared(Seq::<usize>::empty(), bound) =~= Seq::<Seq<char>>::empty());
    assert(model::declared(seq![0usize], bound) =~= seq![openjdk]);
    let supplied = spec_recipe(Some(openjdk));
    assert(model::slot_scope(recipe.slots, bound) =~= model::slot_scope(
        supplied.slots,
        bound,
    ));
}

/// Resolves the recipe in `session`: the artifact where it is assembled, the
/// submission that the executor has to perform next where it is not, or
/// the failure that stops it.
pub fn build(session: &ResolutionSession, openjdk: ArtifactRef) -> (outcome: Outcome)
    ensures
        outcome@ == model::build(spec_recipe(Some(openjdk@)), session@),
{
    resolver::build(&recipe(Some(openjdk)), session)
}

} // verus!
