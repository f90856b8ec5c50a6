//! What is handed to the build executor, and what it hands back.

use vstd::prelude::*;
use vstd::string::*;
use crate::plain::Plain;
use crate::platform::Platform;

verus! {

/// The prefix of the shell variable under which a build step finds the
/// output directory of an artifact.
pub const ENV_KEY_PREFIX: &'static str = "$VORPAL_ARTIFACT_";

/// The handle of an assembled artifact: it stands for the directory the
/// artifact's build will leave its output in.
#[derive(Debug, PartialEq, Eq)]
pub struct ArtifactRef {
    pub digest: String,
}

impl DeepView for ArtifactRef {
    type V = Seq<char>;

    open spec fn deep_view(&self) -> Seq<char> {
        self.digest@
    }
}

impl View for ArtifactRef {
    type V = Seq<char>;

    open spec fn view(&self) -> Seq<char> {
        self.deep_view()
    }
}

impl Plain for ArtifactRef {
    fn same(&self, other: &Self) -> (equal: bool) {
        self.digest == other.digest
    }

    fn duplicate(&self) -> (copy: Self) {
        ArtifactRef { digest: self.digest.clone() }
    }
}

/// The shell variable reference under which a build step finds the output
/// directory of the artifact with the given digest.
pub open spec fn env_key(digest: Seq<char>) -> Seq<char> {
    ENV_KEY_PREFIX@ + digest
}

impl ArtifactRef {
    /// The handle with the given digest.
    pub fn new(digest: &str) -> (r: ArtifactRef)
        ensures
            r@ == digest@,
    {
        ArtifactRef { digest: String::from_str(digest) }
    }

    /// The digest of the artifact.
    pub fn as_str(&self) -> (s: &str)
        ensures
            s@ == self@,
    {
        self.digest.as_str()
    }

    /// The shell variable reference under which a build step finds the
    /// artifact's output directory.
    pub fn env_key(&self) -> (key: String)
        ensures
            key@ == env_key(self@),
    {
        String::from_str(ENV_KEY_PREFIX).concat(self.digest.as_str())
    }
}

/// Where the executor fetches one source from.
#[derive(Debug, PartialEq, Eq)]
pub struct Source {
    /// The name of the directory the source is unpacked under.
    pub name: String,
    /// A URI, or a path below the project.
    pub location: String,
    /// The files to take; all of them where the list is empty.
    pub includes: Vec<String>,
}

/// The mathematical value of a [`Source`].
pub struct SourceView {
    pub name: Seq<char>,
    pub location: Seq<char>,
    pub includes: Seq<Seq<char>>,
}

impl DeepView for Source {
    type V = SourceView;

    open spec fn deep_view(&self) -> SourceView {
        SourceView {
            name: self.name@,
            location: self.location@,
            includes: self.includes.deep_view(),
        }
    }
}

impl View for Source {
    type V = SourceView;

    open spec fn view(&self) -> SourceView {
        self.deep_view()
    }
}

impl SourceView {
    /// The source called `name` at `location`, all of its files taken.
    pub open spec fn new(name: Seq<char>, location: Seq<char>) -> SourceView {
        SourceView { name, location, includes: Seq::empty() }
    }

    /// The source with `path` added to the files to take.
    pub open spec fn with_include(self, path: Seq<char>) -> SourceView {
        SourceView { includes: self.includes.push(path), ..self }
    }
}

impl Source {
    /// The source called `name` at `location`, all of its files taken.
    pub fn new(name: &str, location: &str) -> (source: Source)
        ensures
            source@ == SourceView::new(name@, location@),
    {
        let source = Source {
            name: String::from_str(name),
            location: String::from_str(location),
            includes: Vec::new(),
        };
        assert(source.includes.deep_view() =~= Seq::empty());
        source
    }

    /// The source with `path` added to the files to take.
    pub fn with_include(self, path: &str) -> (source: Source)
        ensures
            source@ == self@.with_include(path@),
    {
        let mut source = self;
        source.includes.push(String::from_str(path));
        assert(source.includes.deep_view() =~= self.includes.deep_view().push(path@));
        source
    }
}

impl Plain for Source {
    fn same(&self, other: &Self) -> (equal: bool) {
        self.name == other.name && self.location == other.location && self.includes.same(
            &other.includes,
        )
    }

    fn duplicate(&self) -> (copy: Self) {
        Source {
            name: self.name.clone(),
            location: self.location.clone(),
            includes: self.includes.duplicate(),
        }
    }
}

/// How the executor turns a submission into an artifact.
#[derive(Debug, PartialEq, Eq)]
pub enum Method {
    /// It runs the submission's script in a shell.
    Shell,
    /// It compiles a Go program found in the submission's source.
    Go { directory: String, path: String, flags: String },
    /// It assembles a development environment from the prerequisites.
    Environment,
    /// It takes the artifact of that name from its own stock of toolchains.
    Provided,
}

/// The mathematical value of a [`Method`].
pub enum MethodView {
    Shell,
    Go { directory: Seq<char>, path: Seq<char>, flags: Seq<char> },
    Environment,
    Provided,
}

impl DeepView for Method {
    type V = MethodView;

    open spec fn deep_view(&self) -> MethodView {
        match self {
            Method::Shell => MethodView::Shell,
            Method::Go { directory, path, flags } => MethodView::Go {
                directory: directory@,
                path: path@,
                flags: flags@,
            },
            Method::Environment => MethodView::Environment,
            Method::Provided => MethodView::Provided,
        }
    }
}

impl View for Method {
    type V = MethodView;

    open spec fn view(&self) -> MethodView {
        self.deep_view()
    }
}

impl Plain for Method {
    fn same(&self, other: &Self) -> (equal: bool) {
        match (self, other) {
            (Method::Shell, Method::Shell) => true,
            (
                Method::Go { directory: d1, path: p1, flags: f1 },
                Method::Go { directory: d2, path: p2, flags: f2 },
            ) => *d1 == *d2 && *p1 == *p2 && *f1 == *f2,
            (Method::Environment, Method::Environment) => true,
            (Method::Provided, Method::Provided) => true,
            _ => false,
        }
    }

    fn duplicate(&self) -> (copy: Self) {
        match self {
            Method::Shell => Method::Shell,
            Method::Go { directory, path, flags } => Method::Go {
                directory: directory.clone(),
                path: path.clone(),
                flags: flags.clone(),
            },
            Method::Environment => Method::Environment,
            Method::Provided => Method::Provided,
        }
    }
}

/// One build request to the executor.
#[derive(Debug, PartialEq, Eq)]
pub struct Submission {
    /// The name of the artifact.
    pub name: String,
    /// Its version tag.
    pub version: String,
    /// The platform the artifact is built for.
    pub target: Platform,
    /// The platforms the recipe has a variant for.
    pub systems: Vec<Platform>,
    /// The artifacts the build declares as its inputs, in order.
    pub prerequisites: Vec<ArtifactRef>,
    /// The sources to fetch.
    pub sources: Vec<Source>,
    /// Environment settings of the build step, each written `KEY=value`.
    pub environments: Vec<String>,
    /// The body of the build step, with every placeholder filled in.
    pub script: String,
    /// Further names to register the artifact under.
    pub aliases: Vec<String>,
    /// How the executor builds the artifact.
    pub method: Method,
}

/// The mathematical value of a [`Submission`].
pub struct SubmissionView {
    pub name: Seq<char>,
    pub version: Seq<char>,
    pub target: Platform,
    pub systems: Seq<Platform>,
    pub prerequisites: Seq<Seq<char>>,
    pub sources: Seq<SourceView>,
    pub environments: Seq<Seq<char>>,
    pub script: Seq<char>,
    pub aliases: Seq<Seq<char>>,
    pub method: MethodView,
}

impl DeepView for Submission {
    type V = SubmissionView;

    open spec fn deep_view(&self) -> SubmissionView {
        SubmissionView {
            name: self.name@,
            version: self.version@,
            target: self.target,
            systems: self.systems.deep_view(),
            prerequisites: self.prerequisites.deep_view(),
            sources: self.sources.deep_view(),
            environments: self.environments.deep_view(),
            script: self.script@,
            aliases: self.aliases.deep_view(),
            method: self.method@,
        }
    }
}

impl View for Submission {
    type V = SubmissionView;

    open spec fn view(&self) -> SubmissionView {
        self.deep_view()
    }
}

impl Plain for Submission {
    fn same(&self, other: &Self) -> (equal: bool) {
        self.name == other.name && self.version == other.version && self.target.same(
            &other.target,
        ) && self.systems.same(&other.systems) && self.prerequisites.same(&other.prerequisites)
            && self.sources.same(&other.sources) && self.environments.same(&other.environments)
            && self.script == other.script && self.aliases.same(&other.aliases)
            && self.method.same(&other.method)
    }

    fn duplicate(&self) -> (copy: Self) {
        Submission {
            name: self.name.clone(),
            version: self.version.clone(),
            target: self.target,
            systems: self.systems.duplicate(),
            prerequisites: self.prerequisites.duplicate(),
            sources: self.sources.duplicate(),
            environments: self.environments.duplicate(),
            script: self.script.clone(),
            aliases: self.aliases.duplicate(),
            method: self.method.duplicate(),
        }
    }
}

} // verus!
