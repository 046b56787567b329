//! The values that forge operations take and give back, and their errors.
use vstd::prelude::*;

verus! {

/// The kinds of forge. Their wire numbers are those of the declaration order.
#[derive(Clone, Copy, Debug, PartialEq, Eq, Structural)]
pub enum ForgeKind {
    Unspecified,
    Github,
    Gitlab,
}

impl ForgeKind {
    /// The wire number of a kind.
    pub open spec fn wire(self) -> i32 {
        match self {
            ForgeKind::Unspecified => 0,
            ForgeKind::Github => 1,
            ForgeKind::Gitlab => 2,
        }
    }

    /// The kind with the given wire number; a number without one stands for no kind.
    pub fn from_wire(number: i32) -> (kind: ForgeKind)
        ensures
            kind.wire() == number || (kind == ForgeKind::Unspecified && forall|k: ForgeKind|
                k.wire() != number),
    {
        if number == 1 {
            ForgeKind::Github
        } else if number == 2 {
            ForgeKind::Gitlab
        } else {
            ForgeKind::Unspecified
        }
    }
}

/// How the pipeline of a change stands. Wire numbers are those of the declaration order.
#[derive(Clone, Copy, Debug, PartialEq, Eq, Structural)]
pub enum CiStatus {
    Unspecified,
    /// The change has no pipeline.
    NoPipeline,
    Pending,
    Running,
    Success,
    Failed,
    Canceled,
}

impl CiStatus {
    /// The wire number of a status.
    pub open spec fn wire(self) -> i32 {
        match self {
            CiStatus::Unspecified => 0,
            CiStatus::NoPipeline => 1,
            CiStatus::Pending => 2,
            CiStatus::Running => 3,
            CiStatus::Success => 4,
            CiStatus::Failed => 5,
            CiStatus::Canceled => 6,
        }
    }

    /// The wire number of this status.
    pub fn to_wire(self) -> (number: i32)
        ensures
            number == self.wire(),
    {
        match self {
            CiStatus::Unspecified => 0,
            CiStatus::NoPipeline => 1,
            CiStatus::Pending => 2,
            CiStatus::Running => 3,
            CiStatus::Success => 4,
            CiStatus::Failed => 5,
            CiStatus::Canceled => 6,
        }
    }
}

/// How a change stands. Wire numbers are those of the declaration order.
#[derive(Clone, Copy, Debug, PartialEq, Eq, Structural)]
pub enum ChangeState {
    Unspecified,
    Open,
    Merged,
    Closed,
}

impl ChangeState {
    /// The wire number of a state.
    pub open spec fn wire(self) -> i32 {
        match self {
            ChangeState::Unspecified => 0,
            ChangeState::Open => 1,
            ChangeState::Merged => 2,
            ChangeState::Closed => 3,
        }
    }

    /// The wire number of this state.
    pub fn to_wire(self) -> (number: i32)
        ensures
            number == self.wire(),
    {
        match self {
            ChangeState::Unspecified => 0,
            ChangeState::Open => 1,
            ChangeState::Merged => 2,
            ChangeState::Closed => 3,
        }
    }
}

/// A repository on a forge.
#[derive(Clone, Debug, PartialEq, Eq)]
pub struct RepoRef {
    /// Wire number of the [`ForgeKind`].
    pub forge: i32,
    /// Host of the instance; empty when it is left to the caller's credentials.
    pub host: String,
    /// Owner, with all groups of a nested group.
    pub owner: String,
    pub name: String,
}

impl RepoRef {
    /// The full name of the repository: owner and name.
    pub open spec fn slug(&self) -> Seq<char> {
        self.owner@ + "/"@ + self.name@
    }
}

/// `owner/name`.
pub fn repo_slug(repo: &RepoRef) -> (slug: String)
    ensures
        slug@ == repo.slug(),
{
    let mut slug = repo.owner.clone();
    slug.append("/");
    slug.append(repo.name.as_str());
    slug
}

/// A change: a pull request or a merge request.
#[derive(Clone, Debug, PartialEq, Eq)]
pub struct ChangeRef {
    pub number: u64,
    pub url: String,
    pub branch: String,
}

/// A file at some revision.
#[derive(Clone, Debug, PartialEq, Eq)]
pub struct FileBlob {
    pub path: String,
    pub content: String,
    pub blob_sha: String,
}

/// What came of creating a branch.
#[derive(Clone, Copy, Debug, PartialEq, Eq, Structural)]
pub struct BranchOutcome {
    pub created: bool,
    pub already_existed: bool,
}

/// A change that is open now.
#[derive(Clone, Debug, PartialEq, Eq)]
pub struct OpenedChange {
    pub change: ChangeRef,
    pub already_existed: bool,
}

/// The latest pipeline of a change.
#[derive(Clone, Debug, PartialEq, Eq)]
pub struct PipelineStatus {
    pub status: CiStatus,
    pub pipeline_id: String,
    pub url: String,
}

/// Why a forge operation failed: its cause in words.
#[derive(Clone, Debug, PartialEq, Eq)]
pub struct ForgeError {
    pub message: String,
}

/// The outcome of a forge operation.
pub type ForgeResult<T> = Result<T, ForgeError>;

impl View for ForgeError {
    type V = Seq<char>;

    open spec fn view(&self) -> Seq<char> {
        self.message@
    }
}

impl ForgeError {
    /// The error with the given message.
    pub fn msg(message: String) -> (e: ForgeError)
        ensures
            e.message == message,
    {
        ForgeError { message }
    }

    /// The error's message.
    pub fn to_text(&self) -> (text: String)
        ensures
            text == self.message,
    {
        self.message.clone()
    }
}

} // verus!
