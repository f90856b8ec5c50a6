//! What resolving a recipe means, stated over mathematical values.
//!
//! Resolving a recipe first selects the variant for the session's platform,
//! then binds the prerequisites in their order, then makes sure that every
//! placeholder of its texts is bound, assembles the submission and looks it
//! up in the registry. Nothing here issues a
//! submission: where the executor's answer is missing, the outcome names the
//! submission that has to be issued next.

use vstd::prelude::*;
use crate::error::BuildErrorView;
use crate::plan::{env_key, MethodView, SourceView, SubmissionView};
use crate::platform::Platform;
use crate::recipe::{RecipeView, Share, SlotView, VariantView};
use crate::session::{answer_for, AnswerView, SessionView};
use crate::template::{expand, residue, ParamView};

verus! {

/// The key under which a recipe's texts find its name.
pub const NAME_KEY: &'static str = "name";

/// The key under which a recipe's texts find its version.
pub const VERSION_KEY: &'static str = "version";

/// Where resolving a recipe stands.
pub enum OutcomeView {
    /// The artifact is assembled.
    Built(Seq<char>),
    /// The executor has to perform this submission first.
    Submit(SubmissionView),
    /// The recipe cannot be built.
    Failed(BuildErrorView),
}

/// Where binding the prerequisites of a recipe stands.
pub enum Binding {
    /// The artifacts bound so far, in the order of the prerequisites.
    Bound(Seq<Seq<char>>),
    /// A prerequisite is not built yet, or failed.
    Stopped(OutcomeView),
}

/// The bindings of the first prerequisites to the artifacts in `bound`: each
/// prerequisite's name stands for the shell variable of its artifact.
pub open spec fn slot_scope(slots: Seq<SlotView>, bound: Seq<Seq<char>>) -> Seq<ParamView> {
    Seq::new(
        bound.len(),
        |i: int|
            ParamView {
                key: if i < slots.len() {
                    slots[i].name
                } else {
                    Seq::empty()
                },
                value: env_key(bound[i]),
            },
    )
}

/// The bindings of a recipe's own name and version.
pub open spec fn own_scope(recipe: RecipeView) -> Seq<ParamView> {
    seq![
        ParamView { key: NAME_KEY@, value: recipe.name },
        ParamView { key: VERSION_KEY@, value: recipe.version },
    ]
}

/// Everything the texts of `variant` can refer to once the prerequisites of
/// `recipe` are bound to `bound`. Where a key is bound twice, the first
/// binding counts: the prerequisites come first, then the recipe's name and
/// version, then its own values, then the variant's.
pub open spec fn scope(recipe: RecipeView, variant: VariantView, bound: Seq<Seq<char>>) -> Seq<
    ParamView,
> {
    slot_scope(recipe.slots, bound) + own_scope(recipe) + recipe.params + variant.params
}

/// Each text expanded under `scope`.
pub open spec fn expand_all(texts: Seq<Seq<char>>, scope: Seq<ParamView>) -> Seq<Seq<char>> {
    Seq::new(texts.len(), |i: int| expand(texts[i], scope))
}

/// The source with its name and location expanded under `scope`.
pub open spec fn expand_source(source: SourceView, scope: Seq<ParamView>) -> SourceView {
    SourceView {
        name: expand(source.name, scope),
        location: expand(source.location, scope),
        includes: source.includes,
    }
}

/// Each source expanded under `scope`.
pub open spec fn expand_sources(sources: Seq<SourceView>, scope: Seq<ParamView>) -> Seq<
    SourceView,
> {
    Seq::new(sources.len(), |i: int| expand_source(sources[i], scope))
}

/// The method with its texts expanded under `scope`.
pub open spec fn expand_method(method: MethodView, scope: Seq<ParamView>) -> MethodView {
    match method {
        MethodView::Go { directory, path, flags } => MethodView::Go {
            directory: expand(directory, scope),
            path: expand(path, scope),
            flags: expand(flags, scope),
        },
        _ => method,
    }
}

/// The artifacts that the build declares as its inputs: for each position in
/// `inputs` that names a bound prerequisite, its artifact.
pub open spec fn declared(inputs: Seq<usize>, bound: Seq<Seq<char>>) -> Seq<Seq<char>>
    decreases inputs.len(),
{
    if inputs.len() == 0 {
        Seq::empty()
    } else if inputs.last() < bound.len() {
        declared(inputs.drop_last(), bound).push(bound[inputs.last() as int])
    } else {
        declared(inputs.drop_last(), bound)
    }
}

/// Build plan assembly: the submission for `recipe` on `target`, built as
/// `variant` says from the artifacts in `bound`.
pub open spec fn assemble(
    recipe: RecipeView,
    variant: VariantView,
    target: Platform,
    bound: Seq<Seq<char>>,
) -> SubmissionView {
    let scope = scope(recipe, variant, bound);
    SubmissionView {
        name: recipe.name,
        version: recipe.version,
        target,
        systems: recipe.systems,
        prerequisites: declared(recipe.inputs, bound),
        sources: expand_sources(variant.sources, scope),
        environments: expand_all(recipe.environments, scope),
        script: expand(variant.script, scope),
        aliases: expand_all(recipe.aliases, scope),
        method: expand_method(recipe.method, scope),
    }
}

/// The name and the location of each source, in the order of the sources.
pub open spec fn source_texts(sources: Seq<SourceView>) -> Seq<Seq<char>>
    decreases sources.len(),
{
    if sources.len() == 0 {
        Seq::empty()
    } else {
        source_texts(sources.drop_last()).push(sources.last().name).push(sources.last().location)
    }
}

/// The texts of a method.
pub open spec fn method_texts(method: MethodView) -> Seq<Seq<char>> {
    match method {
        MethodView::Go { directory, path, flags } => seq![directory, path, flags],
        _ => Seq::empty(),
    }
}

/// Every template that is expanded for a submission of `recipe` built as
/// `variant` says: the script, then the names and locations of the sources,
/// the environment settings, the aliases and the texts of the method.
pub open spec fn texts_of(recipe: RecipeView, variant: VariantView) -> Seq<Seq<char>> {
    seq![variant.script] + source_texts(variant.sources) + recipe.environments + recipe.aliases
        + method_texts(recipe.method)
}

/// The keys of the placeholders in `texts` that `scope` leaves unbound, in
/// the order in which they occur.
pub open spec fn leftover(texts: Seq<Seq<char>>, scope: Seq<ParamView>) -> Seq<Seq<char>>
    decreases texts.len(),
{
    if texts.len() == 0 {
        Seq::empty()
    } else {
        residue(texts[0], scope) + leftover(texts.drop_first(), scope)
    }
}

/// The keys of the placeholders that stay unfilled when the texts of
/// `recipe` and `variant` are expanded with the prerequisites bound to
/// `bound`.
pub open spec fn unfilled(recipe: RecipeView, variant: VariantView, bound: Seq<Seq<char>>) -> Seq<
    Seq<char>,
> {
    leftover(texts_of(recipe, variant), scope(recipe, variant, bound))
}

/// What comes of a recipe whose prerequisites are bound to `bound`: the
/// failure that names its first unfilled placeholder, if it has one, so that
/// no text with a placeholder left in it is ever submitted; else what the
/// registry says of its submission.
pub open spec fn conclude(
    recipe: RecipeView,
    variant: VariantView,
    bound: Seq<Seq<char>>,
    session: SessionView,
) -> OutcomeView {
    if unfilled(recipe, variant, bound).len() > 0 {
        OutcomeView::Failed(
            BuildErrorView::UnresolvedPlaceholder {
                recipe: recipe.name,
                key: unfilled(recipe, variant, bound)[0],
            },
        )
    } else {
        settle(assemble(recipe, variant, session.platform, bound), session)
    }
}

/// What the registry says of a recipe's submission.
pub open spec fn settle(submission: SubmissionView, session: SessionView) -> OutcomeView {
    match answer_for(session.registry, submission) {
        None => OutcomeView::Submit(submission),
        Some(AnswerView::Accepted(artifact)) => OutcomeView::Built(artifact),
        Some(AnswerView::Rejected(reason)) => OutcomeView::Failed(
            BuildErrorView::SubmissionFailure { recipe: submission.name, reason },
        ),
    }
}

/// The artifact that the owning recipe hands down for place `slot` of a
/// fallback recipe: that of the first share for this place whose sibling is
/// bound.
pub open spec fn handed_at(shares: Seq<Share>, bound: Seq<Seq<char>>, slot: int) -> Option<
    Seq<char>,
>
    decreases shares.len(),
{
    if shares.len() == 0 {
        None
    } else if shares[0].slot == slot && shares[0].sibling < bound.len() {
        Some(bound[shares[0].sibling as int])
    } else {
        handed_at(shares.drop_first(), bound, slot)
    }
}

/// The artifacts that the owning recipe hands down to a fallback recipe with
/// `width` prerequisites.
pub open spec fn handed_down(shares: Seq<Share>, bound: Seq<Seq<char>>, width: nat) -> Seq<
    Option<Seq<char>>,
> {
    Seq::new(width, |slot: int| handed_at(shares, bound, slot))
}

/// The artifact that prerequisite `i` of `recipe` is bound to without a
/// build: the one handed down for it, or else the one the caller supplied.
pub open spec fn given(recipe: RecipeView, handed: Seq<Option<Seq<char>>>, i: int) -> Option<
    Seq<char>,
> {
    if 0 <= i < handed.len() && handed[i] is Some {
        handed[i]
    } else {
        recipe.slots[i].supplied
    }
}

/// Dependency resolution: binds the first `n` prerequisites of `recipe`, in
/// order. A prerequisite that is given is bound to that artifact and its
/// fallback recipe plays no part; any other is bound to what resolving its
/// fallback recipe yields.
pub open spec fn bind(
    recipe: RecipeView,
    handed: Seq<Option<Seq<char>>>,
    session: SessionView,
    n: nat,
) -> Binding
    decreases recipe, n,
{
    if n == 0 || n > recipe.slots.len() {
        Binding::Bound(Seq::empty())
    } else {
        match bind(recipe, handed, session, (n - 1) as nat) {
            Binding::Stopped(outcome) => Binding::Stopped(outcome),
            Binding::Bound(bound) => {
                let slot = recipe.slots[n - 1];
                match given(recipe, handed, n - 1) {
                    Some(artifact) => Binding::Bound(bound.push(artifact)),
                    None => match resolve(
                        slot.fallback,
                        handed_down(slot.shares, bound, slot.fallback.slots.len()),
                        session,
                    ) {
                        OutcomeView::Built(artifact) => Binding::Bound(bound.push(artifact)),
                        OutcomeView::Submit(submission) => Binding::Stopped(
                            OutcomeView::Submit(submission),
                        ),
                        OutcomeView::Failed(cause) => Binding::Stopped(
                            OutcomeView::Failed(
                                BuildErrorView::DependencyResolutionFailure {
                                    recipe: recipe.name,
                                    slot: slot.name,
                                    cause: Box::new(cause),
                                },
                            ),
                        ),
                    },
                }
            },
        }
    }
}

/// Where resolving `recipe` stands in `session`, with the artifacts in
/// `handed` given for its prerequisites.
pub open spec fn resolve(
    recipe: RecipeView,
    handed: Seq<Option<Seq<char>>>,
    session: SessionView,
) -> OutcomeView
    decreases recipe, recipe.slots.len() + 1,
{
    match recipe.select(session.platform) {
        Err(error) => OutcomeView::Failed(error),
        Ok(variant) => match bind(recipe, handed, session, recipe.slots.len()) {
            Binding::Stopped(outcome) => outcome,
            Binding::Bound(bound) => conclude(recipe, variant, bound, session),
        },
    }
}

/// Where building `recipe` stands in `session`.
pub open spec fn build(recipe: RecipeView, session: SessionView) -> OutcomeView {
    resolve(recipe, Seq::empty(), session)
}

/// Binding goes on from where it stopped: once a prerequisite stops it,
/// binding more of them stops in the same way.
pub proof fn lemma_bind_stays_stopped(
    recipe: RecipeView,
    handed: Seq<Option<Seq<char>>>,
    session: SessionView,
    k: nat,
    n: nat,
)
    requires
        k <= n <= recipe.slots.len(),
        bind(recipe, handed, session, k) is Stopped,
    ensures
        bind(recipe, handed, session, n) == bind(recipe, handed, session, k),
    decreases n - k,
{
    if k < n {
        lemma_bind_stays_stopped(recipe, handed, session, k, (n - 1) as nat);
    }
}

/// Binding `n` prerequisites binds exactly `n` artifacts.
pub proof fn lemma_bind_length(
    recipe: RecipeView,
    handed: Seq<Option<Seq<char>>>,
    session: SessionView,
    n: nat,
)
    requires
        n <= recipe.slots.len(),
        bind(recipe, handed, session, n) is Bound,
    ensures
        bind(recipe, handed, session, n)->Bound_0.len() == n,
    decreases n,
{
    if n > 0 {
        lemma_bind_length(recipe, handed, session, (n - 1) as nat);
    }
}

} // verus!
