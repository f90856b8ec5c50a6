//! Project composition: one session in which the development environment
//! and then each top-level recipe of a project is built, in order.
//!
//! The composer decides; it performs nothing. Each step either moves it on
//! by one phase or tells the caller what the executor has to do.

use vstd::prelude::*;
use crate::error::{BuildError, BuildErrorView};
use crate::model;
use crate::model::OutcomeView;
use crate::plain::Plain;
use crate::plan::{ArtifactRef, Submission, SubmissionView};
use crate::platform::Platform;
use crate::recipe::{RecipeSpec, RecipeView, Share};
use crate::resolver;
use crate::resolver::Outcome;
use crate::session::{answer_for, Answer, AnswerView, ResolutionSession, SessionView};

verus! {

/// How far the composition of a project has come.
#[derive(Debug, PartialEq, Eq)]
pub enum Phase {
    /// Nothing is built yet.
    Empty,
    /// The development environment is built.
    DevEnvBuilt,
    /// That many of the top-level recipes are built.
    ArtifactsQueued(usize),
    /// The plan is complete and handed to the executor to run.
    Submitted,
    /// A recipe failed; nothing more is queued.
    Failed(BuildError),
}

/// The mathematical value of a [`Phase`].
pub enum PhaseView {
    Empty,
    DevEnvBuilt,
    ArtifactsQueued(nat),
    Submitted,
    Failed(BuildErrorView),
}

impl DeepView for Phase {
    type V = PhaseView;

    open spec fn deep_view(&self) -> PhaseView {
        match self {
            Phase::Empty => PhaseView::Empty,
            Phase::DevEnvBuilt => PhaseView::DevEnvBuilt,
            Phase::ArtifactsQueued(n) => PhaseView::ArtifactsQueued(*n as nat),
            Phase::Submitted => PhaseView::Submitted,
            Phase::Failed(error) => PhaseView::Failed(error@),
        }
    }
}

impl View for Phase {
    type V = PhaseView;

    open spec fn view(&self) -> PhaseView {
        self.deep_view()
    }
}

/// What the caller has to do after a step.
#[derive(Debug, PartialEq, Eq)]
pub enum Action {
    /// Nothing: the composer moved on by one phase. Step again.
    Continue,
    /// Have the executor perform the submission and record its answer.
    Submit(Submission),
    /// Have the executor run the plan: every recipe is built.
    Run,
    /// Stop with this failure.
    Halt(BuildError),
}

/// The mathematical value of an [`Action`].
pub enum ActionView {
    Continue,
    Submit(SubmissionView),
    Run,
    Halt(BuildErrorView),
}

impl DeepView for Action {
    type V = ActionView;

    open spec fn deep_view(&self) -> ActionView {
        match self {
            Action::Continue => ActionView::Continue,
            Action::Submit(submission) => ActionView::Submit(submission@),
            Action::Run => ActionView::Run,
            Action::Halt(error) => ActionView::Halt(error@),
        }
    }
}

impl View for Action {
    type V = ActionView;

    open spec fn view(&self) -> ActionView {
        self.deep_view()
    }
}

/// A top-level recipe of a project, with the artifacts of earlier top-level
/// recipes that it is built with: a share hands the artifact of the entry at
/// `sibling` to this recipe's prerequisite at `slot`.
#[derive(Debug, PartialEq, Eq)]
pub struct Entry {
    pub recipe: RecipeSpec,
    pub shares: Vec<Share>,
}

/// The mathematical value of an [`Entry`].
pub struct EntryView {
    pub recipe: RecipeView,
    pub shares: Seq<Share>,
}

impl DeepView for Entry {
    type V = EntryView;

    open spec fn deep_view(&self) -> EntryView {
        EntryView { recipe: self.recipe@, shares: self.shares.deep_view() }
    }
}

impl View for Entry {
    type V = EntryView;

    open spec fn view(&self) -> EntryView {
        self.deep_view()
    }
}

impl EntryView {
    /// The entry that builds `recipe` with nothing handed to it.
    pub open spec fn new(recipe: RecipeView) -> EntryView {
        EntryView { recipe, shares: Seq::empty() }
    }

    /// The entry that is built with the artifact of the entry at `sibling`
    /// for its prerequisite at `slot`.
    pub open spec fn sharing(self, sibling: usize, slot: usize) -> EntryView {
        EntryView { shares: self.shares.push(Share { sibling, slot }), ..self }
    }
}

impl Entry {
    /// The entry that builds `recipe` with nothing handed to it.
    pub fn new(recipe: RecipeSpec) -> (entry: Entry)
        ensures
            entry@ == EntryView::new(recipe@),
    {
        let entry = Entry { recipe, shares: Vec::new() };
        assert(entry.shares.deep_view() =~= Seq::empty());
        entry
    }

    /// The entry that is built with the artifact of the entry at `sibling`
    /// for its prerequisite at `slot`.
    pub fn sharing(self, sibling: usize, slot: usize) -> (entry: Entry)
        ensures
            entry@ == self@.sharing(sibling, slot),
    {
        let mut entry = self;
        entry.shares.push(Share { sibling, slot });
        assert(entry.shares.deep_view() =~= self.shares.deep_view().push(Share { sibling, slot }));
        entry
    }
}

/// The mathematical value of a [`Composer`].
pub struct ComposerView {
    pub environment: RecipeView,
    pub entries: Seq<EntryView>,
    pub session: SessionView,
    pub phase: PhaseView,
    /// The artifact of the development environment, once it is built.
    pub workbench: Option<Seq<char>>,
    /// The artifacts of the top-level recipes built so far, in order.
    pub built: Seq<Seq<char>>,
}

impl ComposerView {
    /// The composer of a project before its first step.
    pub open spec fn start(
        platform: Platform,
        environment: RecipeView,
        entries: Seq<EntryView>,
    ) -> ComposerView {
        ComposerView {
            environment,
            entries,
            session: SessionView::fresh(platform),
            phase: PhaseView::Empty,
            workbench: None,
            built: Seq::empty(),
        }
    }

    /// The phase fits what is built: the environment's artifact is there from
    /// `DevEnvBuilt` on, and `ArtifactsQueued(n)` stands with exactly the first
    /// `n` entries built.
    pub open spec fn wf(self) -> bool {
        match self.phase {
            PhaseView::Empty => self.workbench is None && self.built.len() == 0,
            PhaseView::DevEnvBuilt => self.workbench is Some && self.built.len() == 0,
            PhaseView::ArtifactsQueued(n) => {
                &&& self.workbench is Some
                &&& self.built.len() == n
                &&& n <= self.entries.len()
            },
            PhaseView::Submitted => {
                &&& self.workbench is Some
                &&& self.built.len() == self.entries.len()
            },
            PhaseView::Failed(_) => self.built.len() <= self.entries.len(),
        }
    }

    /// Where resolving the entry at `n` stands, with the artifacts built so
    /// far handed to it as its shares say.
    pub open spec fn resolve_entry(self, n: int) -> OutcomeView {
        let entry = self.entries[n];
        model::resolve(
            entry.recipe,
            model::handed_down(entry.shares, self.built, entry.recipe.slots.len()),
            self.session,
        )
    }

    /// One step: the composer after it, and what the caller has to do.
    pub open spec fn step(self) -> (ComposerView, ActionView) {
        match self.phase {
            PhaseView::Empty => match model::build(self.environment, self.session) {
                OutcomeView::Built(artifact) => (
                    ComposerView {
                        phase: PhaseView::DevEnvBuilt,
                        workbench: Some(artifact),
                        ..self
                    },
                    ActionView::Continue,
                ),
                OutcomeView::Submit(submission) => (self, ActionView::Submit(submission)),
                OutcomeView::Failed(error) => (
                    ComposerView { phase: PhaseView::Failed(error), ..self },
                    ActionView::Halt(error),
                ),
            },
            PhaseView::DevEnvBuilt => (
                ComposerView { phase: PhaseView::ArtifactsQueued(0), ..self },
                ActionView::Continue,
            ),
            PhaseView::ArtifactsQueued(n) => if n >= self.entries.len() {
                (ComposerView { phase: PhaseView::Submitted, ..self }, ActionView::Run)
            } else {
                match self.resolve_entry(n as int) {
                    OutcomeView::Built(artifact) => (
                        ComposerView {
                            phase: PhaseView::ArtifactsQueued(n + 1),
                            built: self.built.push(artifact),
                            ..self
                        },
                        ActionView::Continue,
                    ),
                    OutcomeView::Submit(submission) => (self, ActionView::Submit(submission)),
                    OutcomeView::Failed(error) => (
                        ComposerView { phase: PhaseView::Failed(error), ..self },
                        ActionView::Halt(error),
                    ),
                }
            },
            PhaseView::Submitted => (self, ActionView::Run),
            PhaseView::Failed(error) => (self, ActionView::Halt(error)),
        }
    }

    /// The composer once the executor's `answer` to `submission` is entered,
    /// unless the submission had an answer before.
    pub open spec fn with_answer(self, submission: SubmissionView, answer: AnswerView) -> ComposerView {
        if answer_for(self.session.registry, submission) is None {
            ComposerView { session: self.session.with_answer(submission, answer), ..self }
        } else {
            self
        }
    }
}

/// Whether a step may lead from phase `from` to phase `to`: it stays, or it
/// moves on to the next phase in line, or it fails. Nothing leads out of
/// `Submitted` or `Failed`.
pub open spec fn may_follow(from: PhaseView, to: PhaseView) -> bool {
    ||| to == from
    ||| from is Empty && to is DevEnvBuilt
    ||| from is DevEnvBuilt && to == PhaseView::ArtifactsQueued(0)
    ||| from matches PhaseView::ArtifactsQueued(n) && to == PhaseView::ArtifactsQueued(n + 1)
    ||| from is ArtifactsQueued && to is Submitted
    ||| (from is Empty || from is ArtifactsQueued) && to is Failed
}

/// No phase is skipped: every step keeps a well-formed composer well
/// formed, leaves the project and the session as they are, and leads to a
/// phase that may follow. It asks to run the plan only once every entry is
/// built, and to halt only in the phase `Failed`.
pub proof fn law_steps_follow_in_line(composer: ComposerView)
    requires
        composer.wf(),
    ensures
        composer.step().0.wf(),
        may_follow(composer.phase, composer.step().0.phase),
        composer.step().0.environment == composer.environment,
        composer.step().0.entries == composer.entries,
        composer.step().0.session == composer.session,
        composer.step().1 is Run <==> composer.step().0.phase is Submitted,
        composer.step().1 is Halt <==> composer.step().0.phase is Failed,
        composer.step().1 is Run ==> composer.step().0.built.len() == composer.entries.len(),
        composer.step().1 is Submit ==> composer.step().0 == composer,
{
}

/// The composition of one project in one session.
pub struct Composer {
    environment: RecipeSpec,
    entries: Vec<Entry>,
    session: ResolutionSession,
    phase: Phase,
    workbench: Option<ArtifactRef>,
    built: Vec<ArtifactRef>,
}

impl View for Composer {
    type V = ComposerView;

    closed spec fn view(&self) -> ComposerView {
        ComposerView {
            environment: self.environment@,
            entries: self.entries.deep_view(),
            session: self.session@,
            phase: self.phase@,
            workbench: self.workbench.deep_view(),
            built: self.built.deep_view(),
        }
    }
}

impl Composer {
    /// The composer for `platform` of the project with that environment and
    /// those top-level recipes, before its first step.
    pub fn new(platform: Platform, environment: RecipeSpec, entries: Vec<Entry>) -> (composer:
        Composer)
        ensures
            composer@ == ComposerView::start(platform, environment@, entries.deep_view()),
            composer@.wf(),
    {
        let composer = Composer {
            environment,
            entries,
            session: ResolutionSession::new(platform),
            phase: Phase::Empty,
            workbench: None,
            built: Vec::new(),
        };
        assert(composer.built.deep_view() =~= Seq::empty());
        composer
    }

    /// The phase the composition is in.
    pub fn phase(&self) -> (phase: &Phase)
        ensures
            phase@ == self@.phase,
    {
        &self.phase
    }

    /// The session of the composition.
    pub fn session(&self) -> (session: &ResolutionSession)
        ensures
            session@ == self@.session,
    {
        &self.session
    }

    /// The artifact of the development environment, once it is built.
    pub fn workbench(&self) -> (artifact: Option<&ArtifactRef>)
        ensures
            artifact.deep_view() == self@.workbench,
    {
        self.workbench.as_ref()
    }

    /// The artifacts of the top-level recipes built so far, in order.
    pub fn artifacts(&self) -> (built: &Vec<ArtifactRef>)
        ensures
            built.deep_view() == self@.built,
    {
        &self.built
    }

    /// Enters the executor's `answer` to `submission` in the session, unless
    /// the submission was issued before; says whether it was entered.
    pub fn record(&mut self, submission: Submission, answer: Answer) -> (added: bool)
        ensures
            final(self)@ == old(self)@.with_answer(submission@, answer@),
            added == (answer_for(old(self)@.session.registry, submission@) is None),
            old(self)@.wf() ==> final(self)@.wf(),
    {
        self.session.record(submission, answer)
    }

    /// Takes one step: moves on by one phase where the session allows it, or
    /// says what the executor has to do first. A failure of the environment or
    /// of a top-level recipe ends the composition.
    pub fn step(&mut self) -> (action: Action)
        ensures
            final(self)@ == old(self)@.step().0,
            action@ == old(self)@.step().1,
    {
        match &self.phase {
            Phase::Empty => match resolver::build(&self.environment, &self.session) {
                Outcome::Built(artifact) => {
                    self.workbench = Some(artifact);
                    self.phase = Phase::DevEnvBuilt;
                    Action::Continue
                },
                Outcome::Submit(submission) => Action::Submit(submission),
                Outcome::Failed(error) => {
                    self.phase = Phase::Failed(error.duplicate());
                    Action::Halt(error)
                },
            },
            Phase::DevEnvBuilt => {
                self.phase = Phase::ArtifactsQueued(0);
                Action::Continue
            },
            Phase::ArtifactsQueued(n) => {
                let n = *n;
                if n >= self.entries.len() {
                    self.phase = Phase::Submitted;
                    Action::Run
                } else {
                    let entry = &self.entries[n];
                    let handed = resolver::handed_down(
                        &entry.shares,
                        &self.built,
                        entry.recipe.slots.len(),
                    );
                    match resolver::resolve(&entry.recipe, &handed, &self.session) {
                        Outcome::Built(artifact) => {
                            let ghost before = self.built.deep_view();
                            self.built.push(artifact);
                            assert(self.built.deep_view() =~= before.push(artifact@));
                            self.phase = Phase::ArtifactsQueued(n + 1);
                            Action::Continue
                        },
                        Outcome::Submit(submission) => Action::Submit(submission),
                        Outcome::Failed(error) => {
                            self.phase = Phase::Failed(error.duplicate());
                            Action::Halt(error)
                        },
                    }
                }
            },
            Phase::Submitted => Action::Run,
            Phase::Failed(error) => Action::Halt(error.duplicate()),
        }
    }
}

} // verus!
