//! A single file with given content, written by a shell step.

use vstd::prelude::*;
use vstd::string::*;
use crate::error::BuildErrorView;
use crate::model;
use crate::model::OutcomeView;
use crate::platform::Platform;
use crate::recipe::{
    lemma_authoring_lists_variants, lemma_on_each_appends, lemma_on_each_keeps_the_rest,
    RecipeSpec, RecipeView, Variant, VariantView,
};
use crate::resolver;
use crate::resolver::Outcome;
use crate::session::ResolutionSession;

verus! {

/// The key under which the build step finds the content of the file.
pub const CONTENTS_KEY: &'static str = "contents";

/// The build step: it writes the content through a here-document and
/// makes the file readable.
pub const SCRIPT: &'static str = "#!/bin/bash\n\
    set -euo pipefail\n\
    \n\
    cat << 'EOF' > $VORPAL_OUTPUT/{name}\n\
    {contents}\n\
    EOF\n\
    \n\
    chmod 644 $VORPAL_OUTPUT/{name}\n";

/// The recipe of the file called `name` that holds `content`, for the
/// platforms in `systems`, listed as they are given. It has no version and
/// registers no alias.
pub open spec fn spec_recipe(content: Seq<char>, name: Seq<char>, systems: Seq<Platform>) -> RecipeView {
    RecipeView::new(name, Seq::empty()).with_param(CONTENTS_KEY@, content).on_each(
        systems,
        VariantView::new(SCRIPT@),
    )
}

/// The file's recipe lists the platforms exactly as they are given, in that
/// order and with every repetition, and has the build step for each of them
/// and for no other. So every submission assembled from it lists them so.
pub proof fn law_platforms_are_listed_as_given(
    content: Seq<char>,
    name: Seq<char>,
    systems: Seq<Platform>,
    platform: Platform,
)
    ensures
        spec_recipe(content, name, systems).systems == systems,
        spec_recipe(content, name, systems).name == name,
        spec_recipe(content, name, systems).slots.len() == 0,
        spec_recipe(content, name, systems).variants.get(platform) == if systems.contains(
            platform,
        ) {
            Some(VariantView::new(SCRIPT@))
        } else {
            None
        },
{
    let bare = RecipeView::new(name, Seq::empty()).with_param(CONTENTS_KEY@, content);
    lemma_on_each_appends(bare, systems, VariantView::new(SCRIPT@));
    lemma_authoring_lists_variants(bare, platform, VariantView::new(SCRIPT@));
    assert(bare.systems + systems =~= systems);
    assert(bare.lists_its_variants());
    lemma_on_each_keeps_the_rest(bare, systems, VariantView::new(SCRIPT@));
}

/// The file's recipe is well formed: it has no prerequisites, and its list
/// of platforms is in step with its variants.
pub proof fn law_is_well_formed(content: Seq<char>, name: Seq<char>, systems: Seq<Platform>)
    ensures
        spec_recipe(content, name, systems).wf(),
{
    let bare = RecipeView::new(name, Seq::empty()).with_param(CONTENTS_KEY@, content);
    let variant = VariantView::new(SCRIPT@);
    lemma_authoring_lists_variants(bare, Platform::Aarch64Darwin, variant);
    assert(bare.lists_its_variants());
    lemma_on_each_appends(bare, systems, variant);
    lemma_on_each_keeps_the_rest(bare, systems, variant);
}

/// The recipe of the file called `name` that holds `content`, for the
/// platforms in `systems`.
pub fn recipe(content: &str, name: &str, systems: &Vec<Platform>) -> (recipe: RecipeSpec)
    ensures
        recipe@ == spec_recipe(content@, name@, systems@),
{
    proof {
        reveal_strlit("");
        assert(""@ =~= Seq::<char>::empty());
    }
    RecipeSpec::new(name, "").with_param(CONTENTS_KEY, content).on_each(
        systems,
        &Variant::new(SCRIPT),
    )
}

/// The recipe of one file: its content, its name, and the platforms it is
/// meant for.
pub struct File {
    pub content: String,
    pub name: String,
    pub systems: Vec<Platform>,
}

impl File {
    /// The file called `name` that holds `content`, for the platforms in
    /// `systems`.
    pub fn new(content: &str, name: &str, systems: Vec<Platform>) -> (file: Self)
        ensures
            file.content@ == content@,
            file.name@ == name@,
            file.systems@ == systems@,
    {
        File { content: String::from_str(content), name: String::from_str(name), systems }
    }

    /// Resolves the recipe in `session`: the artifact where it is assembled, the
    /// submission that the executor has to perform next where it is not, or
    /// the failure that stops it.
    ///
    /// Where the session's platform is not among the file's, this fails with
    /// `UnsupportedPlatform`. Where it is, a submission that is asked for
    /// lists the file's platforms as they were given.
    pub fn build(self, session: &ResolutionSession) -> (outcome: Outcome)
        ensures
            outcome@ == model::build(spec_recipe(self.content@, self.name@, self.systems@), session@),
            !self.systems@.contains(session@.platform) ==> outcome@ == OutcomeView::Failed(
                BuildErrorView::UnsupportedPlatform {
                    recipe: self.name@,
                    platform: session@.platform,
                },
            ),
            outcome matches Outcome::Submit(submission) ==> {
                &&& submission@.systems == self.systems@
                &&& submission@.name == self.name@
                &&& submission@.target == session@.platform
            },
    {
        proof {
            law_platforms_are_listed_as_given(
                self.content@,
                self.name@,
                self.systems@,
                session@.platform,
            );
        }
        resolver::build(&recipe(self.content.as_str(), self.name.as_str(), &self.systems), session)
    }
}

} // verus!
