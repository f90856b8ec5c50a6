//! The state of one resolution run: the target platform and the registry of
//! the submissions issued so far, each with the executor's answer.

use vstd::prelude::*;
use crate::plain::Plain;
use crate::plan::{ArtifactRef, Submission, SubmissionView};
use crate::platform::Platform;

verus! {

/// What the executor said to a submission.
#[derive(Debug, PartialEq, Eq)]
pub enum Answer {
    /// It took the submission and names the artifact.
    Accepted(ArtifactRef),
    /// It turned the submission down, for the given reason.
    Rejected(String),
}

/// The mathematical value of an [`Answer`].
pub enum AnswerView {
    Accepted(Seq<char>),
    Rejected(Seq<char>),
}

impl DeepView for Answer {
    type V = AnswerView;

    open spec fn deep_view(&self) -> AnswerView {
        match self {
            Answer::Accepted(artifact) => AnswerView::Accepted(artifact@),
            Answer::Rejected(reason) => AnswerView::Rejected(reason@),
        }
    }
}

impl View for Answer {
    type V = AnswerView;

    open spec fn view(&self) -> AnswerView {
        self.deep_view()
    }
}

/// One entry of the registry.
#[derive(Debug, PartialEq, Eq)]
pub struct Record {
    pub submission: Submission,
    pub answer: Answer,
}

/// The mathematical value of a [`Record`].
pub struct RecordView {
    pub submission: SubmissionView,
    pub answer: AnswerView,
}

impl DeepView for Record {
    type V = RecordView;

    open spec fn deep_view(&self) -> RecordView {
        RecordView { submission: self.submission@, answer: self.answer@ }
    }
}

impl View for Record {
    type V = RecordView;

    open spec fn view(&self) -> RecordView {
        self.deep_view()
    }
}

/// The mathematical value of a [`ResolutionSession`].
pub struct SessionView {
    pub platform: Platform,
    pub registry: Seq<RecordView>,
}

/// The answer that the first entry of `registry` for `submission` holds, if
/// there is such an entry.
pub open spec fn answer_for(registry: Seq<RecordView>, submission: SubmissionView) -> Option<
    AnswerView,
>
    decreases registry.len(),
{
    if registry.len() == 0 {
        None
    } else if registry[0].submission == submission {
        Some(registry[0].answer)
    } else {
        answer_for(registry.drop_first(), submission)
    }
}

/// The number of entries of `registry` for `submission`.
pub open spec fn times_issued(registry: Seq<RecordView>, submission: SubmissionView) -> nat
    decreases registry.len(),
{
    if registry.len() == 0 {
        0
    } else {
        times_issued(registry.drop_last(), submission) + if registry.last().submission
            == submission {
            1nat
        } else {
            0nat
        }
    }
}

impl SessionView {
    /// The session for `platform` in which nothing was issued yet.
    pub open spec fn fresh(platform: Platform) -> SessionView {
        SessionView { platform, registry: Seq::empty() }
    }

    /// The session after the executor's `answer` to `submission` came in.
    pub open spec fn with_answer(self, submission: SubmissionView, answer: AnswerView) -> SessionView {
        SessionView { registry: self.registry.push(RecordView { submission, answer }), ..self }
    }

    /// No submission was issued twice.
    pub open spec fn wf(self) -> bool {
        forall|i: int, j: int|
            0 <= i < j < self.registry.len() ==> self.registry[i].submission
                != self.registry[j].submission
    }

    /// `later` is this session at a later time: the same platform, and a
    /// registry that begins with this one's.
    pub open spec fn grows_to(self, later: SessionView) -> bool {
        &&& later.platform == self.platform
        &&& self.registry.len() <= later.registry.len()
        &&& later.registry.subrange(0, self.registry.len() as int) == self.registry
    }
}

/// An entry is found at the front of a registry as long as none before it
/// answers the same submission.
pub proof fn lemma_answer_for_skips(registry: Seq<RecordView>, submission: SubmissionView, n: int)
    requires
        0 <= n <= registry.len(),
        forall|k: int| 0 <= k < n ==> registry[k].submission != submission,
    ensures
        answer_for(registry, submission) == answer_for(registry.skip(n), submission),
    decreases n,
{
    if n == 0 {
        assert(registry.skip(0) =~= registry);
    } else {
        lemma_answer_for_skips(registry.drop_first(), submission, n - 1);
        assert(registry.drop_first().skip(n - 1) =~= registry.skip(n));
    }
}

/// A submission has an answer exactly if some entry of the registry is for
/// it.
pub proof fn lemma_answer_for_none(registry: Seq<RecordView>, submission: SubmissionView)
    ensures
        answer_for(registry, submission) is None <==> forall|k: int|
            0 <= k < registry.len() ==> registry[k].submission != submission,
    decreases registry.len(),
{
    if registry.len() > 0 {
        lemma_answer_for_none(registry.drop_first(), submission);
        if registry[0].submission != submission {
            if answer_for(registry, submission) is None {
                assert forall|k: int| 0 <= k < registry.len() implies registry[k].submission
                    != submission by {
                    if k > 0 {
                        assert(registry.drop_first()[k - 1] == registry[k]);
                    }
                }
            } else {
                let k = choose|k: int|
                    0 <= k < registry.drop_first().len() && registry.drop_first()[k].submission
                        == submission;
                assert(registry[k + 1].submission == submission);
            }
        }
    }
}

/// An answer that a registry holds stays the answer when entries are added
/// behind it.
pub proof fn lemma_answer_for_grows(
    registry: Seq<RecordView>,
    later: Seq<RecordView>,
    submission: SubmissionView,
)
    requires
        registry.len() <= later.len(),
        later.subrange(0, registry.len() as int) == registry,
        answer_for(registry, submission) is Some,
    ensures
        answer_for(later, submission) == answer_for(registry, submission),
    decreases registry.len(),
{
    assert(later[0] == later.subrange(0, registry.len() as int)[0]);
    if registry[0].submission != submission {
        assert(later.drop_first().subrange(0, registry.len() - 1) =~= registry.drop_first());
        lemma_answer_for_grows(registry.drop_first(), later.drop_first(), submission);
    }
}

/// The state of one resolution run.
pub struct ResolutionSession {
    platform: Platform,
    registry: Vec<Record>,
}

impl View for ResolutionSession {
    type V = SessionView;

    closed spec fn view(&self) -> SessionView {
        SessionView { platform: self.platform, registry: self.registry.deep_view() }
    }
}

impl ResolutionSession {
    /// The session for `platform` in which nothing was issued yet.
    pub fn new(platform: Platform) -> (session: ResolutionSession)
        ensures
            session@ == SessionView::fresh(platform),
            session@.wf(),
    {
        let session = ResolutionSession { platform, registry: Vec::new() };
        assert(session.registry.deep_view() =~= Seq::empty());
        session
    }

    /// The platform that the session builds for.
    pub fn platform(&self) -> (platform: Platform)
        ensures
            platform == self@.platform,
    {
        self.platform
    }

    /// The number of submissions issued so far.
    pub fn issued(&self) -> (n: usize)
        ensures
            n == self@.registry.len(),
    {
        self.registry.len()
    }

    /// The entry of the `i`-th submission issued.
    pub fn entry(&self, i: usize) -> (record: &Record)
        requires
            i < self@.registry.len(),
        ensures
            record@ == self@.registry[i as int],
    {
        &self.registry[i]
    }

    /// The executor's answer to `submission`, if it was issued.
    pub fn answer_for(&self, submission: &Submission) -> (answer: Option<&Answer>)
        ensures
            answer.deep_view() == answer_for(self@.registry, submission@),
    {
        let mut i: usize = 0;
        while i < self.registry.len()
            invariant
                i <= self.registry.len(),
                forall|k: int|
                    0 <= k < i ==> self.registry.deep_view()[k].submission != submission@,
            decreases self.registry.len() - i,
        {
            if self.registry[i].submission.same(submission) {
                proof {
                    lemma_answer_for_skips(self@.registry, submission@, i as int);
                }
                return Some(&self.registry[i].answer);
            }
            i = i + 1;
        }
        proof {
            lemma_answer_for_none(self@.registry, submission@);
        }
        None
    }

    /// Enters the executor's `answer` to `submission` in the registry, unless
    /// the submission was issued before: then nothing changes, and the answer
    /// is `false`.
    pub fn record(&mut self, submission: Submission, answer: Answer) -> (added: bool)
        ensures
            added == (answer_for(old(self)@.registry, submission@) is None),
            added ==> final(self)@ == old(self)@.with_answer(submission@, answer@),
            !added ==> final(self)@ == old(self)@,
            old(self)@.wf() ==> final(self)@.wf(),
    {
        if self.answer_for(&submission).is_some() {
            return false;
        }
        proof {
            lemma_answer_for_none(self@.registry, submission@);
        }
        let ghost before = self.registry.deep_view();
        let ghost record = RecordView { submission: submission@, answer: answer@ };
        self.registry.push(Record { submission, answer });
        assert(self.registry.deep_view() =~= before.push(record));
        true
    }
}

} // verus!
