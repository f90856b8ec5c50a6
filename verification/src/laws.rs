//! What holds of every resolution, whatever the recipe and the session.

use vstd::prelude::*;
use crate::error::BuildErrorView;
use crate::model::{
    assemble, bind, conclude, given, handed_down, leftover, lemma_bind_length, resolve, scope,
    settle, slot_scope, texts_of, unfilled, Binding, OutcomeView,
};
use crate::plan::{env_key, SubmissionView};
use crate::platform::Platform;
use crate::recipe::{RecipeView, SlotView, VariantView};
use crate::session::{
    answer_for, lemma_answer_for_grows, lemma_answer_for_none, times_issued, AnswerView,
    RecordView, SessionView,
};
use crate::template::{lemma_residue_is_unbound, lookup, residue, ParamView};

verus! {

impl RecipeView {
    /// The recipe with `fallback` and `shares` in place of what prerequisite
    /// `i` is built from.
    pub open spec fn with_fallback(
        self,
        i: int,
        fallback: RecipeView,
        shares: Seq<crate::recipe::Share>,
    ) -> RecipeView {
        RecipeView {
            slots: self.slots.update(i, SlotView { fallback, shares, ..self.slots[i] }),
            ..self
        }
    }
}

/// Platform selection is exact: where a recipe has a variant for a
/// platform, selection hands out that very variant, and whatever is
/// authored for another platform changes nothing about it.
pub proof fn law_selection_is_exact(
    recipe: RecipeView,
    platform: Platform,
    other: Platform,
    variant: VariantView,
)
    requires
        recipe.variants.get(platform) is Some,
    ensures
        recipe.select(platform) == Ok::<VariantView, BuildErrorView>(
            recipe.variants.get(platform)->0,
        ),
        other != platform ==> recipe.on(other, variant).select(platform) == recipe.select(
            platform,
        ),
{
}

/// A recipe without a variant for the session's platform fails with
/// `UnsupportedPlatform`, naming the recipe and the platform, and asks
/// nothing of the executor: the outcome is never a submission.
pub proof fn law_unsupported_platform_fails_unsubmitted(
    recipe: RecipeView,
    handed: Seq<Option<Seq<char>>>,
    session: SessionView,
)
    requires
        recipe.variants.get(session.platform) is None,
    ensures
        resolve(recipe, handed, session) == OutcomeView::Failed(
            BuildErrorView::UnsupportedPlatform {
                recipe: recipe.name,
                platform: session.platform,
            },
        ),
{
}

/// Binding that has come to an end, with artifacts or with a failure, comes
/// to the same end at any later time of the session.
pub proof fn lemma_bind_is_stable(
    recipe: RecipeView,
    handed: Seq<Option<Seq<char>>>,
    session: SessionView,
    later: SessionView,
    n: nat,
)
    requires
        session.grows_to(later),
        n <= recipe.slots.len(),
        !(bind(recipe, handed, session, n) matches Binding::Stopped(OutcomeView::Submit(_))),
    ensures
        bind(recipe, handed, later, n) == bind(recipe, handed, session, n),
    decreases recipe, n,
{
    if n > 0 {
        lemma_bind_is_stable(recipe, handed, session, later, (n - 1) as nat);
        match bind(recipe, handed, session, (n - 1) as nat) {
            Binding::Stopped(_) => {},
            Binding::Bound(bound) => {
                let slot = recipe.slots[n - 1];
                if given(recipe, handed, n - 1) is None {
                    law_resolution_is_stable(
                        slot.fallback,
                        handed_down(slot.shares, bound, slot.fallback.slots.len()),
                        session,
                        later,
                    );
                }
            },
        }
    }
}

/// Idempotence: once resolving a recipe has yielded an artifact or a
/// failure, resolving it again at any later time of the same session yields
/// the same, and so asks for no further submission.
pub proof fn law_resolution_is_stable(
    recipe: RecipeView,
    handed: Seq<Option<Seq<char>>>,
    session: SessionView,
    later: SessionView,
)
    requires
        session.grows_to(later),
        !(resolve(recipe, handed, session) is Submit),
    ensures
        resolve(recipe, handed, later) == resolve(recipe, handed, session),
    decreases recipe, recipe.slots.len() + 1,
{
    match recipe.select(session.platform) {
        Err(_) => {},
        Ok(variant) => {
            lemma_bind_is_stable(recipe, handed, session, later, recipe.slots.len());
            match bind(recipe, handed, session, recipe.slots.len()) {
                Binding::Stopped(_) => {},
                Binding::Bound(bound) => {
                    if unfilled(recipe, variant, bound).len() == 0 {
                        let submission = assemble(recipe, variant, session.platform, bound);
                        lemma_answer_for_grows(session.registry, later.registry, submission);
                    }
                },
            }
        },
    }
}

/// Binding stops for a submission only where the registry holds no answer
/// to it.
pub proof fn lemma_bind_stops_for_new(
    recipe: RecipeView,
    handed: Seq<Option<Seq<char>>>,
    session: SessionView,
    n: nat,
)
    requires
        n <= recipe.slots.len(),
        bind(recipe, handed, session, n) matches Binding::Stopped(OutcomeView::Submit(_)),
    ensures
        bind(recipe, handed, session, n) matches Binding::Stopped(OutcomeView::Submit(submission))
            && answer_for(session.registry, submission) is None,
    decreases recipe, n,
{
    if n > 0 {
        match bind(recipe, handed, session, (n - 1) as nat) {
            Binding::Stopped(_) => {
                lemma_bind_stops_for_new(recipe, handed, session, (n - 1) as nat);
            },
            Binding::Bound(bound) => {
                let slot = recipe.slots[n - 1];
                if given(recipe, handed, n - 1) is None {
                    law_submissions_are_new(
                        slot.fallback,
                        handed_down(slot.shares, bound, slot.fallback.slots.len()),
                        session,
                    );
                }
            },
        }
    }
}

/// At most one build: resolving asks only for submissions that were not
/// issued in the session before. A submission that has its answer, whichever
/// recipe it was first issued for, is never asked for again.
pub proof fn law_submissions_are_new(
    recipe: RecipeView,
    handed: Seq<Option<Seq<char>>>,
    session: SessionView,
)
    requires
        resolve(recipe, handed, session) is Submit,
    ensures
        answer_for(session.registry, resolve(recipe, handed, session)->Submit_0) is None,
    decreases recipe, recipe.slots.len() + 1,
{
    match recipe.select(session.platform) {
        Err(_) => {},
        Ok(variant) => match bind(recipe, handed, session, recipe.slots.len()) {
            Binding::Stopped(_) => {
                lemma_bind_stops_for_new(recipe, handed, session, recipe.slots.len());
            },
            Binding::Bound(_) => {},
        },
    }
}

/// The answer entered for a submission is what the registry then holds for
/// it, and no other submission's answer changes.
pub proof fn lemma_answer_entered(
    session: SessionView,
    submission: SubmissionView,
    answer: AnswerView,
    asked: SubmissionView,
)
    requires
        answer_for(session.registry, submission) is None,
    ensures
        session.grows_to(session.with_answer(submission, answer)),
        answer_for(session.with_answer(submission, answer).registry, submission) == Some(answer),
        asked != submission ==> answer_for(session.with_answer(submission, answer).registry, asked)
            == answer_for(session.registry, asked),
    decreases session.registry.len(),
{
    let next = session.with_answer(submission, answer);
    assert(next.registry.subrange(0, session.registry.len() as int) =~= session.registry);
    if session.registry.len() == 0 {
        assert(next.registry.drop_first() =~= Seq::<RecordView>::empty());
        assert(answer_for(next.registry.drop_first(), asked) is None);
        assert(next.registry[0].submission == submission);
    } else {
        assert(next.registry[0] == session.registry[0]);
        let rest = SessionView {
            platform: session.platform,
            registry: session.registry.drop_first(),
        };
        assert(rest.with_answer(submission, answer).registry =~= next.registry.drop_first());
        lemma_answer_entered(rest, submission, answer, asked);
    }
}

/// One submission per build: when a recipe with all prerequisites bound
/// asks for its submission and the executor accepts it, the recipe resolves
/// to the artifact the executor named, at once and at any later time.
pub proof fn law_accepted_submission_completes(
    recipe: RecipeView,
    handed: Seq<Option<Seq<char>>>,
    session: SessionView,
    artifact: Seq<char>,
)
    requires
        bind(recipe, handed, session, recipe.slots.len()) is Bound,
        resolve(recipe, handed, session) is Submit,
    ensures
        resolve(
            recipe,
            handed,
            session.with_answer(
                resolve(recipe, handed, session)->Submit_0,
                AnswerView::Accepted(artifact),
            ),
        ) == OutcomeView::Built(artifact),
{
    let submission = resolve(recipe, handed, session)->Submit_0;
    let next = session.with_answer(submission, AnswerView::Accepted(artifact));
    lemma_answer_entered(session, submission, AnswerView::Accepted(artifact), submission);
    lemma_bind_is_stable(recipe, handed, session, next, recipe.slots.len());
}

/// A registry in which no submission was issued twice counts each
/// submission at most once.
pub proof fn law_issued_at_most_once(session: SessionView, submission: SubmissionView)
    requires
        session.wf(),
    ensures
        times_issued(session.registry, submission) <= 1,
        times_issued(session.registry, submission) == 1 <==> answer_for(
            session.registry,
            submission,
        ) is Some,
    decreases session.registry.len(),
{
    lemma_answer_for_none(session.registry, submission);
    if session.registry.len() > 0 {
        let before = SessionView {
            platform: session.platform,
            registry: session.registry.drop_last(),
        };
        law_issued_at_most_once(before, submission);
        lemma_answer_for_none(before.registry, submission);
        if session.registry.last().submission == submission {
            assert forall|k: int| 0 <= k < before.registry.len() implies before.registry[k].submission
                != submission by {
                assert(before.registry[k] == session.registry[k]);
            }
        } else {
            if answer_for(session.registry, submission) is Some {
                let k = choose|k: int|
                    0 <= k < session.registry.len() && session.registry[k].submission
                        == submission;
                assert(before.registry[k] == session.registry[k]);
            } else {
                assert forall|k: int| 0 <= k < before.registry.len() implies before.registry[k].submission
                    != submission by {
                    assert(before.registry[k] == session.registry[k]);
                }
            }
        }
    }
}

/// Binding looks at a prerequisite's fallback recipe only where nothing is
/// given for it.
pub proof fn lemma_bind_skips_fallback(
    recipe: RecipeView,
    handed: Seq<Option<Seq<char>>>,
    session: SessionView,
    i: int,
    fallback: RecipeView,
    shares: Seq<crate::recipe::Share>,
    n: nat,
)
    requires
        0 <= i < recipe.slots.len(),
        given(recipe, handed, i) is Some,
        n <= recipe.slots.len(),
    ensures
        bind(recipe.with_fallback(i, fallback, shares), handed, session, n) == bind(
            recipe,
            handed,
            session,
            n,
        ),
    decreases n,
{
    if n > 0 {
        lemma_bind_skips_fallback(recipe, handed, session, i, fallback, shares, (n - 1) as nat);
        let other = recipe.with_fallback(i, fallback, shares);
        if n - 1 != i {
            assert(other.slots[n - 1] == recipe.slots[n - 1]);
        }
    }
}

/// Override short-circuit: where an artifact is given for a prerequisite,
/// resolving the recipe comes out the same whatever that prerequisite's
/// fallback recipe is. The fallback recipe is never resolved, so no
/// submission is ever asked for on its behalf.
pub proof fn law_given_prerequisite_skips_fallback(
    recipe: RecipeView,
    handed: Seq<Option<Seq<char>>>,
    session: SessionView,
    i: int,
    fallback: RecipeView,
    shares: Seq<crate::recipe::Share>,
)
    requires
        0 <= i < recipe.slots.len(),
        given(recipe, handed, i) is Some,
    ensures
        resolve(recipe.with_fallback(i, fallback, shares), handed, session) == resolve(
            recipe,
            handed,
            session,
        ),
{
    let other = recipe.with_fallback(i, fallback, shares);
    lemma_bind_skips_fallback(recipe, handed, session, i, fallback, shares, recipe.slots.len());
    match recipe.select(session.platform) {
        Err(_) => {},
        Ok(variant) => match bind(recipe, handed, session, recipe.slots.len()) {
            Binding::Stopped(_) => {},
            Binding::Bound(bound) => {
                assert(slot_scope(other.slots, bound) =~= slot_scope(recipe.slots, bound)) by {
                    assert forall|k: int| 0 <= k < bound.len() implies slot_scope(
                        other.slots,
                        bound,
                    )[k] == slot_scope(recipe.slots, bound)[k] by {
                        if k < recipe.slots.len() && k != i {
                            assert(other.slots[k] == recipe.slots[k]);
                        }
                    }
                }
            },
        },
    }
}

/// A recipe's submission lists the platforms that variants were authored
/// for, as they were authored: the same platforms in the same order. Where
/// the list is in step with the variants, as authoring keeps it, the
/// session's platform is among them, so the list is never empty.
pub proof fn law_submission_lists_its_target(
    recipe: RecipeView,
    target: Platform,
    bound: Seq<Seq<char>>,
)
    requires
        recipe.variants.get(target) is Some,
    ensures
        ({
            let submission = assemble(recipe, recipe.variants.get(target)->0, target, bound);
            &&& submission.target == target
            &&& submission.systems == recipe.systems
            &&& recipe.lists_its_variants() ==> submission.systems.contains(target)
        }),
{
}

/// A binding is found under its key where no binding before it has that
/// key.
pub proof fn lemma_lookup_at(scope: Seq<ParamView>, i: int)
    requires
        0 <= i < scope.len(),
        forall|j: int| 0 <= j < i ==> scope[j].key != scope[i].key,
    ensures
        lookup(scope, scope[i].key) == Some(scope[i].value),
    decreases i,
{
    if i > 0 {
        assert(scope.drop_first()[i - 1] == scope[i]);
        let rest = scope.drop_first();
        assert forall|j: int| 0 <= j < i - 1 implies (#[trigger] rest[j]).key != rest[i - 1].key by {
            assert(rest[j] == scope[j + 1]);
        }
        lemma_lookup_at(scope.drop_first(), i - 1);
    }
}

/// What the front part of a scope binds, the whole scope binds alike.
pub proof fn lemma_lookup_front(front: Seq<ParamView>, back: Seq<ParamView>, key: Seq<char>)
    requires
        lookup(front, key) is Some,
    ensures
        lookup(front + back, key) == lookup(front, key),
    decreases front.len(),
{
    assert((front + back)[0] == front[0]);
    if front[0].key != key {
        assert((front + back).drop_first() =~= front.drop_first() + back);
        lemma_lookup_front(front.drop_first(), back, key);
    }
}

/// A key that a scope has a binding for is bound.
pub proof fn lemma_lookup_some(scope: Seq<ParamView>, i: int)
    requires
        0 <= i < scope.len(),
    ensures
        lookup(scope, scope[i].key) is Some,
    decreases i,
{
    if i > 0 && scope[0].key != scope[i].key {
        assert(scope.drop_first()[i - 1] == scope[i]);
        lemma_lookup_some(scope.drop_first(), i - 1);
    }
}

/// Where no placeholder of a list of texts is left over, none is left over
/// in any one of them.
pub proof fn lemma_leftover_covers(texts: Seq<Seq<char>>, scope: Seq<ParamView>, i: int)
    requires
        0 <= i < texts.len(),
        leftover(texts, scope).len() == 0,
    ensures
        residue(texts[i], scope).len() == 0,
    decreases i,
{
    if i > 0 {
        assert(texts.drop_first()[i - 1] == texts[i]);
        lemma_leftover_covers(texts.drop_first(), scope, i - 1);
    }
}

/// Whether `submission` was assembled from a recipe with every placeholder
/// of its texts bound: its script, the names and locations of its sources,
/// its environment settings, its aliases and the texts of its method are
/// expansions that left no placeholder of their templates unfilled.
pub open spec fn filled_in(submission: SubmissionView) -> bool {
    exists|recipe: RecipeView, variant: VariantView, bound: Seq<Seq<char>>|
        #![trigger assemble(recipe, variant, submission.target, bound)]
        {
            &&& submission == assemble(recipe, variant, submission.target, bound)
            &&& unfilled(recipe, variant, bound).len() == 0
        }
}

/// Binding stops only for submissions that are filled in.
pub proof fn lemma_bind_stops_for_filled_in(
    recipe: RecipeView,
    handed: Seq<Option<Seq<char>>>,
    session: SessionView,
    n: nat,
)
    requires
        n <= recipe.slots.len(),
        bind(recipe, handed, session, n) matches Binding::Stopped(OutcomeView::Submit(_)),
    ensures
        bind(recipe, handed, session, n) matches Binding::Stopped(OutcomeView::Submit(submission))
            && filled_in(submission),
    decreases recipe, n,
{
    if n > 0 {
        match bind(recipe, handed, session, (n - 1) as nat) {
            Binding::Stopped(_) => {
                lemma_bind_stops_for_filled_in(recipe, handed, session, (n - 1) as nat);
            },
            Binding::Bound(bound) => {
                let slot = recipe.slots[n - 1];
                if given(recipe, handed, n - 1) is None {
                    law_nothing_unfilled_is_submitted(
                        slot.fallback,
                        handed_down(slot.shares, bound, slot.fallback.slots.len()),
                        session,
                    );
                }
            },
        }
    }
}

/// The executor receives no unresolved placeholder: whatever the recipe,
/// every submission that resolving asks for, be it the recipe's own or that
/// of a prerequisite at any depth, is filled in. A recipe with a placeholder
/// that nothing binds fails with `UnresolvedPlaceholder` instead.
pub proof fn law_nothing_unfilled_is_submitted(
    recipe: RecipeView,
    handed: Seq<Option<Seq<char>>>,
    session: SessionView,
)
    requires
        resolve(recipe, handed, session) is Submit,
    ensures
        filled_in(resolve(recipe, handed, session)->Submit_0),
    decreases recipe, recipe.slots.len() + 1,
{
    match recipe.select(session.platform) {
        Err(_) => {},
        Ok(variant) => match bind(recipe, handed, session, recipe.slots.len()) {
            Binding::Stopped(_) => {
                lemma_bind_stops_for_filled_in(recipe, handed, session, recipe.slots.len());
            },
            Binding::Bound(bound) => {
                let submission = assemble(recipe, variant, session.platform, bound);
                assert(submission == assemble(recipe, variant, submission.target, bound));
            },
        },
    }
}

/// What being filled in means for the texts of a recipe's own submission:
/// with the prerequisites bound, the recipe either fails for its first
/// unfilled placeholder, or each of its templates, the script first, expands
/// with no placeholder left over.
pub proof fn law_own_texts_are_filled_in(
    recipe: RecipeView,
    handed: Seq<Option<Seq<char>>>,
    session: SessionView,
    i: int,
)
    requires
        recipe.variants.get(session.platform) is Some,
        bind(recipe, handed, session, recipe.slots.len()) is Bound,
        0 <= i < texts_of(recipe, recipe.variants.get(session.platform)->0).len(),
    ensures
        ({
            let variant = recipe.variants.get(session.platform)->0;
            let bound = bind(recipe, handed, session, recipe.slots.len())->Bound_0;
            let scope = scope(recipe, variant, bound);
            if unfilled(recipe, variant, bound).len() > 0 {
                resolve(recipe, handed, session) == OutcomeView::Failed(
                    BuildErrorView::UnresolvedPlaceholder {
                        recipe: recipe.name,
                        key: unfilled(recipe, variant, bound)[0],
                    },
                )
            } else {
                &&& resolve(recipe, handed, session) == settle(
                    assemble(recipe, variant, session.platform, bound),
                    session,
                )
                &&& texts_of(recipe, variant)[0] == variant.script
                &&& residue(variant.script, scope).len() == 0
                &&& residue(texts_of(recipe, variant)[i], scope).len() == 0
            }
        }),
{
    let variant = recipe.variants.get(session.platform)->0;
    let bound = bind(recipe, handed, session, recipe.slots.len())->Bound_0;
    if unfilled(recipe, variant, bound).len() == 0 {
        lemma_leftover_covers(texts_of(recipe, variant), scope(recipe, variant, bound), i);
        lemma_leftover_covers(texts_of(recipe, variant), scope(recipe, variant, bound), 0);
    }
}

/// Ordering: a recipe's submission is assembled only with every
/// prerequisite bound. Then the build step's text is expanded with all of
/// them in scope, so none of its placeholders for a prerequisite is left
/// unfilled; and in a well-formed recipe each prerequisite's placeholder
/// stands for the shell variable of the very artifact bound to it.
pub proof fn law_submission_has_prerequisites_filled_in(
    recipe: RecipeView,
    handed: Seq<Option<Seq<char>>>,
    session: SessionView,
    i: int,
)
    requires
        recipe.variants.get(session.platform) is Some,
        bind(recipe, handed, session, recipe.slots.len()) is Bound,
        0 <= i < recipe.slots.len(),
    ensures
        ({
            let variant = recipe.variants.get(session.platform)->0;
            let bound = bind(recipe, handed, session, recipe.slots.len())->Bound_0;
            let submission = assemble(recipe, variant, session.platform, bound);
            &&& bound.len() == recipe.slots.len()
            &&& resolve(recipe, handed, session) == conclude(recipe, variant, bound, session)
            &&& submission.script == crate::template::expand(
                variant.script,
                scope(recipe, variant, bound),
            )
            &&& !residue(variant.script, scope(recipe, variant, bound)).contains(
                recipe.slots[i].name,
            )
            &&& recipe.wf() ==> lookup(scope(recipe, variant, bound), recipe.slots[i].name)
                == Some(env_key(bound[i]))
        }),
{
    let variant = recipe.variants.get(session.platform)->0;
    let bound = bind(recipe, handed, session, recipe.slots.len())->Bound_0;
    lemma_bind_length(recipe, handed, session, recipe.slots.len());
    let front = slot_scope(recipe.slots, bound);
    let back = crate::model::own_scope(recipe) + recipe.params + variant.params;
    let whole = scope(recipe, variant, bound);
    assert(whole =~= front + back);
    assert(front[i].key == recipe.slots[i].name);
    lemma_lookup_some(front, i);
    lemma_lookup_front(front, back, recipe.slots[i].name);
    if residue(variant.script, whole).contains(recipe.slots[i].name) {
        lemma_residue_is_unbound(variant.script, whole, recipe.slots[i].name);
    }
    if recipe.wf() {
        assert forall|j: int| 0 <= j < i implies front[j].key != front[i].key by {
            assert(front[j].key == recipe.slots[j].name);
        }
        lemma_lookup_at(front, i);
    }
}

} // verus!
