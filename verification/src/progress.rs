//! Resolution comes to an end: every answer entered in the session brings
//! a recipe closer to its artifact or its failure.

use vstd::prelude::*;
use crate::laws::{
    law_submissions_are_new, lemma_answer_entered, lemma_bind_is_stable,
    lemma_bind_stops_for_new,
};
use crate::model::{bind, handed_down, resolve, Binding, OutcomeView};
use crate::recipe::RecipeView;
use crate::session::{AnswerView, SessionView};

verus! {

/// The number of recipes in the tree of `recipe` and its fallback recipes.
pub open spec fn size(recipe: RecipeView) -> nat
    decreases recipe, recipe.slots.len() + 1,
{
    1 + size_of_fallbacks(recipe, recipe.slots.len())
}

/// The number of recipes in the trees of the first `n` fallback recipes of
/// `recipe`.
pub open spec fn size_of_fallbacks(recipe: RecipeView, n: nat) -> nat
    decreases recipe, n,
{
    if n == 0 || n > recipe.slots.len() {
        0
    } else {
        size_of_fallbacks(recipe, (n - 1) as nat) + size(recipe.slots[n - 1].fallback)
    }
}

/// A bound on the submissions that the first `n` prerequisites of `recipe`
/// still take: none where binding them has come to an end; else what the
/// prerequisite that waits for the executor still takes, and a build of
/// every recipe below the prerequisites behind it.
pub open spec fn owed(
    recipe: RecipeView,
    handed: Seq<Option<Seq<char>>>,
    session: SessionView,
    n: nat,
) -> nat
    decreases recipe, n,
{
    if n == 0 || n > recipe.slots.len() {
        0
    } else if !(bind(recipe, handed, session, n) matches Binding::Stopped(
        OutcomeView::Submit(_),
    )) {
        0
    } else {
        match bind(recipe, handed, session, (n - 1) as nat) {
            Binding::Stopped(_) => owed(recipe, handed, session, (n - 1) as nat) + size(
                recipe.slots[n - 1].fallback,
            ),
            Binding::Bound(bound) => pending(
                recipe.slots[n - 1].fallback,
                handed_down(
                    recipe.slots[n - 1].shares,
                    bound,
                    recipe.slots[n - 1].fallback.slots.len(),
                ),
                session,
            ),
        }
    }
}

/// A bound on the submissions that resolving `recipe` still takes in
/// `session`: none once it has its artifact or its failure.
pub open spec fn pending(
    recipe: RecipeView,
    handed: Seq<Option<Seq<char>>>,
    session: SessionView,
) -> nat
    decreases recipe, recipe.slots.len() + 1,
{
    if resolve(recipe, handed, session) is Submit {
        owed(recipe, handed, session, recipe.slots.len()) + 1
    } else {
        0
    }
}

/// What the prerequisites of a recipe still take is at least one submission
/// while binding waits for the executor, and never more than a build of
/// every recipe below them.
pub proof fn lemma_owed_bounds(
    recipe: RecipeView,
    handed: Seq<Option<Seq<char>>>,
    session: SessionView,
    n: nat,
)
    requires
        n <= recipe.slots.len(),
    ensures
        owed(recipe, handed, session, n) <= size_of_fallbacks(recipe, n),
        bind(recipe, handed, session, n) matches Binding::Stopped(OutcomeView::Submit(_))
            ==> owed(recipe, handed, session, n) >= 1,
    decreases recipe, n,
{
    if n > 0 {
        lemma_owed_bounds(recipe, handed, session, (n - 1) as nat);
        match bind(recipe, handed, session, (n - 1) as nat) {
            Binding::Stopped(_) => {},
            Binding::Bound(bound) => {
                let slot = recipe.slots[n - 1];
                law_resolving_takes_at_most_its_size(
                    slot.fallback,
                    handed_down(slot.shares, bound, slot.fallback.slots.len()),
                    session,
                );
            },
        }
    }
}

/// Resolving a recipe never takes more submissions than there are recipes
/// in its tree, and takes at least one exactly while it waits for the
/// executor.
pub proof fn law_resolving_takes_at_most_its_size(
    recipe: RecipeView,
    handed: Seq<Option<Seq<char>>>,
    session: SessionView,
)
    ensures
        pending(recipe, handed, session) <= size(recipe),
        pending(recipe, handed, session) >= 1 <==> resolve(recipe, handed, session) is Submit,
    decreases recipe, recipe.slots.len() + 1,
{
    lemma_owed_bounds(recipe, handed, session, recipe.slots.len());
}

/// Entering the answer to the submission that binding waits for leaves the
/// prerequisites owing less than before.
pub proof fn lemma_owed_decreases(
    recipe: RecipeView,
    handed: Seq<Option<Seq<char>>>,
    session: SessionView,
    answer: AnswerView,
    n: nat,
)
    requires
        n <= recipe.slots.len(),
        bind(recipe, handed, session, n) matches Binding::Stopped(OutcomeView::Submit(_)),
    ensures
        ({
            let submission = bind(recipe, handed, session, n)->Stopped_0->Submit_0;
            owed(recipe, handed, session.with_answer(submission, answer), n) < owed(
                recipe,
                handed,
                session,
                n,
            )
        }),
    decreases recipe, n,
{
    let submission = bind(recipe, handed, session, n)->Stopped_0->Submit_0;
    let later = session.with_answer(submission, answer);
    lemma_bind_stops_for_new(recipe, handed, session, n);
    lemma_answer_entered(session, submission, answer, submission);
    lemma_owed_bounds(recipe, handed, session, n);
    let slot = recipe.slots[n - 1];
    match bind(recipe, handed, session, (n - 1) as nat) {
        Binding::Stopped(_) => {
            lemma_owed_decreases(recipe, handed, session, answer, (n - 1) as nat);
            lemma_owed_bounds(recipe, handed, session, (n - 1) as nat);
            match bind(recipe, handed, later, (n - 1) as nat) {
                Binding::Stopped(_) => {},
                Binding::Bound(bound) => {
                    law_resolving_takes_at_most_its_size(
                        slot.fallback,
                        handed_down(slot.shares, bound, slot.fallback.slots.len()),
                        later,
                    );
                },
            }
        },
        Binding::Bound(bound) => {
            let down = handed_down(slot.shares, bound, slot.fallback.slots.len());
            lemma_bind_is_stable(recipe, handed, session, later, (n - 1) as nat);
            law_each_answer_brings_the_end_closer(slot.fallback, down, session, answer);
        },
    }
}

/// Progress: when resolving a recipe asks for a submission and the
/// executor's answer, whichever it is, is entered in the session, resolving
/// the recipe takes fewer submissions than before. So asking, answering and
/// resolving again ends with the artifact or the failure, after no more
/// submissions than the recipe's tree has recipes.
pub proof fn law_each_answer_brings_the_end_closer(
    recipe: RecipeView,
    handed: Seq<Option<Seq<char>>>,
    session: SessionView,
    answer: AnswerView,
)
    requires
        resolve(recipe, handed, session) is Submit,
    ensures
        pending(
            recipe,
            handed,
            session.with_answer(resolve(recipe, handed, session)->Submit_0, answer),
        ) < pending(recipe, handed, session),
    decreases recipe, recipe.slots.len() + 1,
{
    let submission = resolve(recipe, handed, session)->Submit_0;
    let later = session.with_answer(submission, answer);
    law_submissions_are_new(recipe, handed, session);
    lemma_answer_entered(session, submission, answer, submission);
    let n = recipe.slots.len();
    match bind(recipe, handed, session, n) {
        Binding::Stopped(_) => {
            lemma_owed_decreases(recipe, handed, session, answer, n);
            lemma_owed_bounds(recipe, handed, session, n);
            lemma_owed_bounds(recipe, handed, later, n);
        },
        Binding::Bound(bound) => {
            lemma_bind_is_stable(recipe, handed, session, later, n);
        },
    }
}

} // verus!
