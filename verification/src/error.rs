//! Why a recipe could not be built.

use vstd::prelude::*;
use vstd::string::*;
use crate::plain::Plain;
use crate::platform::Platform;

verus! {

/// The failure of one recipe's build.
#[derive(Debug, PartialEq, Eq)]
pub enum BuildError {
    /// The recipe has no variant for the session's platform.
    UnsupportedPlatform { recipe: String, platform: Platform },
    /// The build of a prerequisite failed; `cause` is that failure.
    DependencyResolutionFailure { recipe: String, slot: String, cause: Box<BuildError> },
    /// The executor turned the recipe's submission down.
    SubmissionFailure { recipe: String, reason: String },
    /// A text of the recipe holds a placeholder that nothing binds, so no
    /// submission was assembled; `key` is the first such placeholder's.
    UnresolvedPlaceholder { recipe: String, key: String },
}

/// The mathematical value of a [`BuildError`].
pub enum BuildErrorView {
    UnsupportedPlatform { recipe: Seq<char>, platform: Platform },
    DependencyResolutionFailure { recipe: Seq<char>, slot: Seq<char>, cause: Box<BuildErrorView> },
    SubmissionFailure { recipe: Seq<char>, reason: Seq<char> },
    UnresolvedPlaceholder { recipe: Seq<char>, key: Seq<char> },
}

impl DeepView for BuildError {
    type V = BuildErrorView;

    open spec fn deep_view(&self) -> BuildErrorView
        decreases self,
    {
        match self {
            BuildError::UnsupportedPlatform { recipe, platform } => {
                BuildErrorView::UnsupportedPlatform { recipe: recipe@, platform: *platform }
            },
            BuildError::DependencyResolutionFailure { recipe, slot, cause } => {
                BuildErrorView::DependencyResolutionFailure {
                    recipe: recipe@,
                    slot: slot@,
                    cause: Box::new((**cause).deep_view()),
                }
            },
            BuildError::SubmissionFailure { recipe, reason } => {
                BuildErrorView::SubmissionFailure { recipe: recipe@, reason: reason@ }
            },
            BuildError::UnresolvedPlaceholder { recipe, key } => {
                BuildErrorView::UnresolvedPlaceholder { recipe: recipe@, key: key@ }
            },
        }
    }
}

impl View for BuildError {
    type V = BuildErrorView;

    open spec fn view(&self) -> BuildErrorView {
        self.deep_view()
    }
}

impl BuildErrorView {
    /// The failure that started the chain: the error itself, or the cause at
    /// the bottom of the failed prerequisites.
    pub open spec fn origin(self) -> BuildErrorView
        decreases self,
    {
        match self {
            BuildErrorView::DependencyResolutionFailure { cause, .. } => cause.origin(),
            _ => self,
        }
    }

    /// The description shown to the user.
    pub open spec fn message(self) -> Seq<char>
        decreases self,
    {
        match self {
            BuildErrorView::UnsupportedPlatform { recipe, platform } => {
                "Unsupported system for "@ + recipe + " artifact: "@ + platform.spec_name()
            },
            BuildErrorView::DependencyResolutionFailure { recipe, slot, cause } => {
                recipe + ": prerequisite "@ + slot + " failed: "@ + cause.message()
            },
            BuildErrorView::SubmissionFailure { recipe, reason } => {
                recipe + ": submission failed: "@ + reason
            },
            BuildErrorView::UnresolvedPlaceholder { recipe, key } => {
                recipe + ": nothing is bound to placeholder "@ + key
            },
        }
    }
}

impl BuildError {
    /// The failure that started the chain.
    pub fn origin(&self) -> (e: &BuildError)
        ensures
            e@ == self@.origin(),
            !(e@ is DependencyResolutionFailure),
        decreases self,
    {
        match self {
            BuildError::DependencyResolutionFailure { cause, .. } => cause.origin(),
            _ => self,
        }
    }

    /// The description shown to the user: the recipe, the platform or the
    /// prerequisite, and the underlying cause.
    pub fn describe(&self) -> (text: String)
        ensures
            text@ == self@.message(),
        decreases self,
    {
        match self {
            BuildError::UnsupportedPlatform { recipe, platform } => {
                String::from_str("Unsupported system for ").concat(recipe.as_str()).concat(
                    " artifact: ",
                ).concat(platform.name())
            },
            BuildError::DependencyResolutionFailure { recipe, slot, cause } => {
                let inner = cause.describe();
                recipe.clone().concat(": prerequisite ").concat(slot.as_str()).concat(
                    " failed: ",
                ).concat(inner.as_str())
            },
            BuildError::SubmissionFailure { recipe, reason } => {
                recipe.clone().concat(": submission failed: ").concat(reason.as_str())
            },
            BuildError::UnresolvedPlaceholder { recipe, key } => {
                recipe.clone().concat(": nothing is bound to placeholder ").concat(key.as_str())
            },
        }
    }
}

impl Plain for BuildError {
    fn same(&self, other: &Self) -> (equal: bool)
        decreases self,
    {
        match (self, other) {
            (
                BuildError::UnsupportedPlatform { recipe: r1, platform: p1 },
                BuildError::UnsupportedPlatform { recipe: r2, platform: p2 },
            ) => *r1 == *r2 && p1.same(p2),
            (
                BuildError::DependencyResolutionFailure { recipe: r1, slot: s1, cause: c1 },
                BuildError::DependencyResolutionFailure { recipe: r2, slot: s2, cause: c2 },
            ) => *r1 == *r2 && *s1 == *s2 && c1.same(c2),
            (
                BuildError::SubmissionFailure { recipe: r1, reason: s1 },
                BuildError::SubmissionFailure { recipe: r2, reason: s2 },
            ) => *r1 == *r2 && *s1 == *s2,
            (
                BuildError::UnresolvedPlaceholder { recipe: r1, key: k1 },
                BuildError::UnresolvedPlaceholder { recipe: r2, key: k2 },
            ) => *r1 == *r2 && *k1 == *k2,
            _ => false,
        }
    }

    fn duplicate(&self) -> (copy: Self)
        decreases self,
    {
        match self {
            BuildError::UnsupportedPlatform { recipe, platform } => {
                BuildError::UnsupportedPlatform { recipe: recipe.clone(), platform: *platform }
            },
            BuildError::DependencyResolutionFailure { recipe, slot, cause } => {
                BuildError::DependencyResolutionFailure {
                    recipe: recipe.clone(),
                    slot: slot.clone(),
                    cause: Box::new(cause.duplicate()),
                }
            },
            BuildError::SubmissionFailure { recipe, reason } => {
                BuildError::SubmissionFailure { recipe: recipe.clone(), reason: reason.clone() }
            },
            BuildError::UnresolvedPlaceholder { recipe, key } => {
                BuildError::UnresolvedPlaceholder { recipe: recipe.clone(), key: key.clone() }
            },
        }
    }
}

} // verus!
