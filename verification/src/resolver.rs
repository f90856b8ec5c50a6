//! Dependency resolution and build plan assembly.

use vstd::prelude::*;
use vstd::string::*;
use crate::error::BuildError;
use crate::model;
use crate::model::{Binding, OutcomeView};
use crate::plain::Plain;
use crate::plan::{ArtifactRef, Method, Source, Submission};
use crate::platform::Platform;
use crate::recipe::{RecipeSpec, Share, Variant};
use crate::session::{Answer, ResolutionSession};
use crate::template::{first_unbound, instantiate, Param};

verus! {

/// Where resolving a recipe stands.
#[derive(Debug, PartialEq, Eq)]
pub enum Outcome {
    /// The artifact is assembled.
    Built(ArtifactRef),
    /// The executor has to perform this submission first; once its answer
    /// is entered in the session, resolving again goes on from there.
    Submit(Submission),
    /// The recipe cannot be built.
    Failed(BuildError),
}

impl DeepView for Outcome {
    type V = OutcomeView;

    open spec fn deep_view(&self) -> OutcomeView {
        match self {
            Outcome::Built(artifact) => OutcomeView::Built(artifact@),
            Outcome::Submit(submission) => OutcomeView::Submit(submission@),
            Outcome::Failed(error) => OutcomeView::Failed(error@),
        }
    }
}

impl View for Outcome {
    type V = OutcomeView;

    open spec fn view(&self) -> OutcomeView {
        self.deep_view()
    }
}

/// Adds a copy of each value of `more` behind those of `list`.
fn extend<T: Plain>(list: &mut Vec<T>, more: &Vec<T>)
    ensures
        final(list).deep_view() == old(list).deep_view() + more.deep_view(),
{
    let ghost before = list.deep_view();
    let mut i: usize = 0;
    assert(more.deep_view().take(0) =~= Seq::empty());
    assert(before + Seq::empty() =~= before);
    while i < more.len()
        invariant
            i <= more.len(),
            list.deep_view() == before + more.deep_view().take(i as int),
        decreases more.len() - i,
    {
        let ghost so_far = list.deep_view();
        let value = more[i].duplicate();
        list.push(value);
        assert(list.deep_view() =~= so_far.push(more[i as int].deep_view()));
        assert(more.deep_view().take(i + 1) =~= more.deep_view().take(i as int).push(
            more[i as int].deep_view(),
        ));
        assert(before + more.deep_view().take(i + 1) =~= (before + more.deep_view().take(
            i as int,
        )).push(more[i as int].deep_view()));
        i = i + 1;
    }
    assert(more.deep_view().take(more.len() as int) =~= more.deep_view());
}

/// Everything the texts of `variant` can refer to once the prerequisites of
/// `recipe` are bound to `bound`.
pub fn scope_of(recipe: &RecipeSpec, variant: &Variant, bound: &Vec<ArtifactRef>) -> (scope: Vec<
    Param,
>)
    ensures
        scope.deep_view() == model::scope(recipe@, variant@, bound.deep_view()),
{
    let mut scope: Vec<Param> = Vec::new();
    let mut i: usize = 0;
    assert(scope.deep_view() =~= model::slot_scope(recipe@.slots, bound.deep_view().take(0)));
    while i < bound.len()
        invariant
            i <= bound.len(),
            scope.deep_view() == model::slot_scope(recipe@.slots, bound.deep_view().take(i as int)),
        decreases bound.len() - i,
    {
        let ghost so_far = scope.deep_view();
        let key = if i < recipe.slots.len() {
            assert(recipe@.slots[i as int] == recipe.slots@[i as int]@);
            recipe.slots[i].name.clone()
        } else {
            String::new()
        };
        let param = Param { key, value: bound[i].env_key() };
        scope.push(param);
        assert(scope.deep_view() =~= so_far.push(param@));
        assert(scope.deep_view() =~= model::slot_scope(
            recipe@.slots,
            bound.deep_view().take(i + 1),
        ));
        i = i + 1;
    }
    assert(bound.deep_view().take(bound.len() as int) =~= bound.deep_view());
    let ghost slots_part = scope.deep_view();
    let name = Param { key: String::from_str(model::NAME_KEY), value: recipe.name.clone() };
    let version = Param {
        key: String::from_str(model::VERSION_KEY),
        value: recipe.version.clone(),
    };
    scope.push(name);
    scope.push(version);
    assert(scope.deep_view() =~= slots_part + model::own_scope(recipe@));
    extend(&mut scope, &recipe.params);
    extend(&mut scope, &variant.params);
    scope
}

/// Each text expanded under `scope`.
pub fn instantiate_all(texts: &Vec<String>, scope: &Vec<Param>) -> (expanded: Vec<String>)
    ensures
        expanded.deep_view() == model::expand_all(texts.deep_view(), scope.deep_view()),
{
    let mut expanded: Vec<String> = Vec::new();
    let mut i: usize = 0;
    while i < texts.len()
        invariant
            i <= texts.len(),
            expanded.len() == i,
            forall|k: int|
                0 <= k < i ==> expanded[k]@ == crate::template::expand(
                    texts[k]@,
                    scope.deep_view(),
                ),
        decreases texts.len() - i,
    {
        expanded.push(instantiate(texts[i].as_str(), scope));
        i = i + 1;
    }
    assert(expanded.deep_view() =~= model::expand_all(texts.deep_view(), scope.deep_view()));
    expanded
}

/// Each source with its name and location expanded under `scope`.
pub fn instantiate_sources(sources: &Vec<Source>, scope: &Vec<Param>) -> (expanded: Vec<Source>)
    ensures
        expanded.deep_view() == model::expand_sources(sources.deep_view(), scope.deep_view()),
{
    let mut expanded: Vec<Source> = Vec::new();
    let mut i: usize = 0;
    while i < sources.len()
        invariant
            i <= sources.len(),
            expanded.len() == i,
            forall|k: int|
                0 <= k < i ==> expanded[k]@ == model::expand_source(
                    sources[k]@,
                    scope.deep_view(),
                ),
        decreases sources.len() - i,
    {
        let source = Source {
            name: instantiate(sources[i].name.as_str(), scope),
            location: instantiate(sources[i].location.as_str(), scope),
            includes: sources[i].includes.duplicate(),
        };
        expanded.push(source);
        i = i + 1;
    }
    assert(expanded.deep_view() =~= model::expand_sources(
        sources.deep_view(),
        scope.deep_view(),
    ));
    expanded
}

/// The method with its texts expanded under `scope`.
pub fn instantiate_method(method: &Method, scope: &Vec<Param>) -> (expanded: Method)
    ensures
        expanded@ == model::expand_method(method@, scope.deep_view()),
{
    match method {
        Method::Go { directory, path, flags } => Method::Go {
            directory: instantiate(directory.as_str(), scope),
            path: instantiate(path.as_str(), scope),
            flags: instantiate(flags.as_str(), scope),
        },
        Method::Shell => Method::Shell,
        Method::Environment => Method::Environment,
        Method::Provided => Method::Provided,
    }
}

/// The artifacts that the build declares as its inputs.
pub fn declared_inputs(inputs: &Vec<usize>, bound: &Vec<ArtifactRef>) -> (list: Vec<ArtifactRef>)
    ensures
        list.deep_view() == model::declared(inputs.deep_view(), bound.deep_view()),
{
    let mut list: Vec<ArtifactRef> = Vec::new();
    let mut i: usize = 0;
    assert(list.deep_view() =~= model::declared(inputs.deep_view().take(0), bound.deep_view()));
    while i < inputs.len()
        invariant
            i <= inputs.len(),
            list.deep_view() == model::declared(
                inputs.deep_view().take(i as int),
                bound.deep_view(),
            ),
        decreases inputs.len() - i,
    {
        let ghost so_far = list.deep_view();
        let ghost next = inputs.deep_view().take(i + 1);
        assert(next.drop_last() =~= inputs.deep_view().take(i as int));
        assert(next.last() == inputs[i as int]);
        if inputs[i] < bound.len() {
            let artifact = bound[inputs[i]].duplicate();
            list.push(artifact);
            assert(list.deep_view() =~= so_far.push(bound.deep_view()[inputs[i as int] as int]));
        }
        i = i + 1;
    }
    assert(inputs.deep_view().take(inputs.len() as int) =~= inputs.deep_view());
    list
}

/// Build plan assembly: the submission for `recipe` on `target`, built as
/// `variant` says from the artifacts in `bound`. Every text of the
/// submission is expanded with all of `bound` in scope.
pub fn assemble(recipe: &RecipeSpec, variant: &Variant, target: Platform, bound: &Vec<ArtifactRef>) -> (submission: Submission)
    ensures
        submission@ == model::assemble(recipe@, variant@, target, bound.deep_view()),
{
    let scope = scope_of(recipe, variant, bound);
    Submission {
        name: recipe.name.clone(),
        version: recipe.version.clone(),
        target,
        systems: recipe.systems.duplicate(),
        prerequisites: declared_inputs(&recipe.inputs, bound),
        sources: instantiate_sources(&variant.sources, &scope),
        environments: instantiate_all(&recipe.environments, &scope),
        script: instantiate(variant.script.as_str(), &scope),
        aliases: instantiate_all(&recipe.aliases, &scope),
        method: instantiate_method(&recipe.method, &scope),
    }
}

/// Every template that is expanded for a submission of `recipe` built as
/// `variant` says.
pub fn texts_of(recipe: &RecipeSpec, variant: &Variant) -> (texts: Vec<String>)
    ensures
        texts.deep_view() == model::texts_of(recipe@, variant@),
{
    let mut texts: Vec<String> = Vec::new();
    texts.push(variant.script.clone());
    assert(texts.deep_view() =~= seq![variant.script@]);
    let mut i: usize = 0;
    assert(variant.sources.deep_view().take(0) =~= Seq::empty());
    assert(texts.deep_view() =~= seq![variant.script@] + model::source_texts(
        variant.sources.deep_view().take(0),
    ));
    while i < variant.sources.len()
        invariant
            i <= variant.sources.len(),
            texts.deep_view() == seq![variant.script@] + model::source_texts(
                variant.sources.deep_view().take(i as int),
            ),
        decreases variant.sources.len() - i,
    {
        let ghost so_far = texts.deep_view();
        let ghost next = variant.sources.deep_view().take(i + 1);
        assert(next.drop_last() =~= variant.sources.deep_view().take(i as int));
        assert(next.last() == variant.sources[i as int]@);
        texts.push(variant.sources[i].name.clone());
        texts.push(variant.sources[i].location.clone());
        assert(texts.deep_view() =~= so_far.push(variant.sources[i as int].name@).push(
            variant.sources[i as int].location@,
        ));
        assert(texts.deep_view() =~= seq![variant.script@] + model::source_texts(next));
        i = i + 1;
    }
    assert(variant.sources.deep_view().take(variant.sources.len() as int)
        =~= variant.sources.deep_view());
    extend(&mut texts, &recipe.environments);
    extend(&mut texts, &recipe.aliases);
    let ghost so_far = texts.deep_view();
    match &recipe.method {
        Method::Go { directory, path, flags } => {
            texts.push(directory.clone());
            texts.push(path.clone());
            texts.push(flags.clone());
            assert(texts.deep_view() =~= so_far + seq![directory@, path@, flags@]);
        },
        _ => {
            assert(so_far + Seq::<Seq<char>>::empty() =~= so_far);
        },
    }
    texts
}

/// The key of the first placeholder in `texts` that `scope` leaves unbound,
/// if there is one.
pub fn first_unfilled(texts: &Vec<String>, scope: &Vec<Param>) -> (key: Option<String>)
    ensures
        match key {
            Some(key) => model::leftover(texts.deep_view(), scope.deep_view()).len() > 0 && key@
                == model::leftover(texts.deep_view(), scope.deep_view())[0],
            None => model::leftover(texts.deep_view(), scope.deep_view()).len() == 0,
        },
{
    let mut i: usize = 0;
    assert(texts.deep_view().skip(0) =~= texts.deep_view());
    while i < texts.len()
        invariant
            i <= texts.len(),
            model::leftover(texts.deep_view(), scope.deep_view()) == model::leftover(
                texts.deep_view().skip(i as int),
                scope.deep_view(),
            ),
        decreases texts.len() - i,
    {
        let ghost rest = texts.deep_view().skip(i as int);
        assert(rest[0] == texts[i as int]@);
        assert(rest.drop_first() =~= texts.deep_view().skip(i + 1));
        match first_unbound(texts[i].as_str(), scope) {
            Some(key) => {
                return Some(key);
            },
            None => {
                assert(crate::template::residue(rest[0], scope.deep_view()) + model::leftover(
                    rest.drop_first(),
                    scope.deep_view(),
                ) =~= model::leftover(rest.drop_first(), scope.deep_view()));
            },
        }
        i = i + 1;
    }
    None
}

/// What comes of a recipe whose prerequisites are bound to `bound`: the
/// failure that names its first unfilled placeholder, if it has one, so that
/// no text with a placeholder left in it is ever submitted; else what the
/// registry says of its submission.
pub fn conclude(
    recipe: &RecipeSpec,
    variant: &Variant,
    bound: &Vec<ArtifactRef>,
    session: &ResolutionSession,
) -> (outcome: Outcome)
    ensures
        outcome@ == model::conclude(recipe@, variant@, bound.deep_view(), session@),
{
    let scope = scope_of(recipe, variant, bound);
    let texts = texts_of(recipe, variant);
    match first_unfilled(&texts, &scope) {
        Some(key) => Outcome::Failed(
            BuildError::UnresolvedPlaceholder { recipe: recipe.name.clone(), key },
        ),
        None => settle(assemble(recipe, variant, session.platform(), bound), session),
    }
}

/// What the registry says of a recipe's submission: the artifact or the
/// failure that the executor answered with, or else that the submission has
/// to be issued.
pub fn settle(submission: Submission, session: &ResolutionSession) -> (outcome: Outcome)
    ensures
        outcome@ == model::settle(submission@, session@),
{
    match session.answer_for(&submission) {
        None => Outcome::Submit(submission),
        Some(Answer::Accepted(artifact)) => Outcome::Built(artifact.duplicate()),
        Some(Answer::Rejected(reason)) => Outcome::Failed(
            BuildError::SubmissionFailure { recipe: submission.name, reason: reason.clone() },
        ),
    }
}

/// The artifact that the owning recipe hands down for place `slot` of a
/// fallback recipe.
fn handed_at<'a>(shares: &Vec<Share>, bound: &'a Vec<ArtifactRef>, slot: usize) -> (artifact:
    Option<&'a ArtifactRef>)
    ensures
        artifact.deep_view() == model::handed_at(shares.deep_view(), bound.deep_view(), slot as int),
{
    let mut i: usize = 0;
    assert(shares.deep_view().skip(0) =~= shares.deep_view());
    while i < shares.len()
        invariant
            i <= shares.len(),
            model::handed_at(shares.deep_view(), bound.deep_view(), slot as int)
                == model::handed_at(
                shares.deep_view().skip(i as int),
                bound.deep_view(),
                slot as int,
            ),
        decreases shares.len() - i,
    {
        let ghost rest = shares.deep_view().skip(i as int);
        assert(rest[0] == shares[i as int]);
        assert(rest.drop_first() =~= shares.deep_view().skip(i + 1));
        if shares[i].slot == slot && shares[i].sibling < bound.len() {
            return Some(&bound[shares[i].sibling]);
        }
        i = i + 1;
    }
    None
}

/// The artifacts that the owning recipe hands down to a fallback recipe with
/// `width` prerequisites.
pub fn handed_down(shares: &Vec<Share>, bound: &Vec<ArtifactRef>, width: usize) -> (handed: Vec<
    Option<ArtifactRef>,
>)
    ensures
        handed.deep_view() == model::handed_down(
            shares.deep_view(),
            bound.deep_view(),
            width as nat,
        ),
{
    let mut handed: Vec<Option<ArtifactRef>> = Vec::new();
    let mut slot: usize = 0;
    while slot < width
        invariant
            slot <= width,
            handed.len() == slot,
            forall|k: int|
                0 <= k < slot ==> handed[k].deep_view() == model::handed_at(
                    shares.deep_view(),
                    bound.deep_view(),
                    k,
                ),
        decreases width - slot,
    {
        let artifact = match handed_at(shares, bound, slot) {
            Some(artifact) => Some(artifact.duplicate()),
            None => None,
        };
        handed.push(artifact);
        slot = slot + 1;
    }
    assert(handed.deep_view() =~= model::handed_down(
        shares.deep_view(),
        bound.deep_view(),
        width as nat,
    ));
    handed
}

/// The artifact that prerequisite `i` of `recipe` is bound to without a
/// build.
fn given<'a>(recipe: &'a RecipeSpec, handed: &'a Vec<Option<ArtifactRef>>, i: usize) -> (artifact:
    Option<&'a ArtifactRef>)
    requires
        i < recipe.slots.len(),
    ensures
        artifact.deep_view() == model::given(recipe@, handed.deep_view(), i as int),
{
    assert(recipe@.slots[i as int] == recipe.slots@[i as int]@);
    if i < handed.len() && handed[i].is_some() {
        handed[i].as_ref()
    } else {
        recipe.slots[i].supplied.as_ref()
    }
}

/// Resolves `recipe` in `session`, with the artifacts in `handed` given for
/// its prerequisites.
///
/// The recipe's variant for the session's platform is selected first, so a
/// recipe without one fails before anything is asked of the executor. Then
/// the prerequisites are bound in order; one that is given is bound as it
/// is, and its fallback recipe is not resolved. Only with all of them bound,
/// and with no placeholder of the recipe's texts left unbound, is the
/// submission assembled and looked up in the registry.
pub fn resolve(recipe: &RecipeSpec, handed: &Vec<Option<ArtifactRef>>, session: &ResolutionSession) -> (outcome: Outcome)
    ensures
        outcome@ == model::resolve(recipe@, handed.deep_view(), session@),
    decreases recipe,
{
    let variant = match recipe.select(session.platform()) {
        Ok(variant) => variant,
        Err(error) => {
            return Outcome::Failed(error);
        },
    };
    let mut bound: Vec<ArtifactRef> = Vec::new();
    let mut i: usize = 0;
    assert(bound.deep_view() =~= Seq::empty());
    while i < recipe.slots.len()
        invariant
            i <= recipe.slots.len(),
            recipe@.slots.len() == recipe.slots.len(),
            recipe@.select(session@.platform) == Ok::<_, crate::error::BuildErrorView>(variant@),
            model::bind(recipe@, handed.deep_view(), session@, i as nat) == Binding::Bound(
                bound.deep_view(),
            ),
        decreases recipe.slots.len() - i,
    {
        let ghost so_far = bound.deep_view();
        let slot = &recipe.slots[i];
        assert(recipe@.slots[i as int] == slot@);
        match given(recipe, handed, i) {
            Some(artifact) => {
                bound.push(artifact.duplicate());
                assert(bound.deep_view() =~= so_far.push(artifact@));
            },
            None => {
                let down = handed_down(&slot.shares, &bound, slot.fallback.slots.len());
                match resolve(&slot.fallback, &down, session) {
                    Outcome::Built(artifact) => {
                        bound.push(artifact);
                        assert(bound.deep_view() =~= so_far.push(artifact@));
                    },
                    Outcome::Submit(submission) => {
                        proof {
                            model::lemma_bind_stays_stopped(
                                recipe@,
                                handed.deep_view(),
                                session@,
                                (i + 1) as nat,
                                recipe@.slots.len(),
                            );
                        }
                        return Outcome::Submit(submission);
                    },
                    Outcome::Failed(cause) => {
                        proof {
                            model::lemma_bind_stays_stopped(
                                recipe@,
                                handed.deep_view(),
                                session@,
                                (i + 1) as nat,
                                recipe@.slots.len(),
                            );
                        }
                        return Outcome::Failed(
                            BuildError::DependencyResolutionFailure {
                                recipe: recipe.name.clone(),
                                slot: slot.name.clone(),
                                cause: Box::new(cause),
                            },
                        );
                    },
                }
            },
        }
        i = i + 1;
    }
    conclude(recipe, variant, &bound, session)
}

/// Builds `recipe` in `session`: resolves it with nothing given but what
/// the recipe itself says was supplied.
pub fn build(recipe: &RecipeSpec, session: &ResolutionSession) -> (outcome: Outcome)
    ensures
        outcome@ == model::build(recipe@, session@),
{
    let handed: Vec<Option<ArtifactRef>> = Vec::new();
    assert(handed.deep_view() =~= Seq::empty());
    resolve(recipe, &handed, session)
}

} // verus!
