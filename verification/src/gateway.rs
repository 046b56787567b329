//! The dispatch layer of the forge gateway: which operation a request asks for, on behalf of whom,
//! and what is answered.
//!
//! The gateway holds no credential of its own. The caller's identity travels in the request's
//! metadata, so every operation runs as the caller.
use tonic::metadata::MetadataMap;
use vstd::prelude::*;

use crate::gitlab::{host_or_public, GitLabForge, USER_AGENT};
use crate::model::{
    BranchOutcome, ChangeRef, ChangeState, FileBlob, ForgeError, ForgeKind, ForgeResult,
    OpenedChange, PipelineStatus, RepoRef,
};
use crate::outside::{client_built, entry_text, metadata_entries, metadata_text};
use crate::text::owned;

verus! {

/// Metadata key carrying the caller's self-hosted GitLab token.
pub const GITLAB_TOKEN_META: &'static str = "x-fastverk-gitlab-token";

/// Metadata key carrying the caller's GitLab instance host (self-hosted, so the host travels with
/// the token). Falls back to `RepoRef.host` when absent.
pub const GITLAB_HOST_META: &'static str = "x-fastverk-gitlab-host";

/// Metadata key carrying the caller's GitHub token.
pub const GITHUB_TOKEN_META: &'static str = "x-fastverk-github-token";

/// The gRPC codes that the gateway refuses a request with.
#[derive(Clone, Copy, Debug, PartialEq, Eq, Structural)]
pub enum Code {
    InvalidArgument,
    Unauthenticated,
    Internal,
}

/// Why a request is refused.
#[derive(Clone, Debug, PartialEq, Eq)]
pub struct Status {
    pub code: Code,
    pub message: String,
}

/// The model of a [`Status`].
pub struct StatusView {
    pub code: Code,
    pub message: Seq<char>,
}

impl View for Status {
    type V = StatusView;

    open spec fn view(&self) -> StatusView {
        StatusView { code: self.code, message: self.message@ }
    }
}

impl Status {
    /// The request itself is at fault.
    pub fn invalid_argument(message: &str) -> (status: Status)
        ensures
            status@ == (StatusView { code: Code::InvalidArgument, message: message@ }),
    {
        Status { code: Code::InvalidArgument, message: owned(message) }
    }

    /// The caller did not say who they are.
    pub fn unauthenticated(message: &str) -> (status: Status)
        ensures
            status@ == (StatusView { code: Code::Unauthenticated, message: message@ }),
    {
        Status { code: Code::Unauthenticated, message: owned(message) }
    }

    /// The operation failed.
    pub fn internal(message: &str) -> (status: Status)
        ensures
            status@ == (StatusView { code: Code::Internal, message: message@ }),
    {
        Status { code: Code::Internal, message: owned(message) }
    }
}

/// The refusal for a request at fault.
pub open spec fn bad_request(message: Seq<char>) -> StatusView {
    StatusView { code: Code::InvalidArgument, message }
}

/// The refusal for a caller without credentials.
pub open spec fn no_credentials(message: Seq<char>) -> StatusView {
    StatusView { code: Code::Unauthenticated, message }
}

/// The refusal for an operation that failed.
pub open spec fn failed(message: Seq<char>) -> StatusView {
    StatusView { code: Code::Internal, message }
}

/// An outcome, a refusal taken by its model.
pub open spec fn status_viewed<T>(r: Result<T, Status>) -> Result<T, StatusView> {
    match r {
        Ok(v) => Ok(v),
        Err(s) => Err(s@),
    }
}

/// The refusal for a failed operation: its message is the operation's cause in words.
pub fn to_status(e: ForgeError) -> (status: Status)
    ensures
        status@ == failed(e@),
{
    Status::internal(e.message.as_str())
}

/// A text by its characters, if there is one.
pub open spec fn text_view(text: Option<String>) -> Option<Seq<char>> {
    match text {
        Some(t) => Some(t@),
        None => None,
    }
}

/// A text, unless it is empty.
pub open spec fn present(text: Option<Seq<char>>) -> Option<Seq<char>> {
    match text {
        Some(t) => if t.len() == 0 {
            None
        } else {
            Some(t)
        },
        None => None,
    }
}

/// The metadata value under `key`, if it is there, is text and is not empty.
pub open spec fn metadata_value(meta: MetadataMap, key: Seq<char>) -> Option<Seq<char>> {
    present(entry_text(metadata_entries(meta), key))
}

/// A text, unless it is empty.
pub fn non_empty(text: Option<String>) -> (r: Option<String>)
    ensures
        text_view(r) == present(text_view(text)),
{
    match text {
        Some(t) => if t.as_str().is_empty() {
            None
        } else {
            Some(t)
        },
        None => None,
    }
}

/// Read a metadata value as text, if present and not empty.
pub fn meta_str(meta: &MetadataMap, key: &str) -> (value: Option<String>)
    ensures
        text_view(value) == metadata_value(*meta, key@),
{
    non_empty(metadata_text(meta, key))
}

/// What a caller brings along: tokens, and the host that a token is for.
#[derive(Clone, PartialEq, Eq)]
pub struct Credentials {
    pub gitlab_token: Option<String>,
    pub gitlab_host: Option<String>,
    pub github_token: Option<String>,
}

/// The model of [`Credentials`].
pub struct CredentialsView {
    pub gitlab_token: Option<Seq<char>>,
    pub gitlab_host: Option<Seq<char>>,
    pub github_token: Option<Seq<char>>,
}

impl View for Credentials {
    type V = CredentialsView;

    open spec fn view(&self) -> CredentialsView {
        CredentialsView {
            gitlab_token: text_view(self.gitlab_token),
            gitlab_host: text_view(self.gitlab_host),
            github_token: text_view(self.github_token),
        }
    }
}

/// What the metadata of a call says of the caller.
pub open spec fn credentials_in(meta: MetadataMap) -> CredentialsView {
    CredentialsView {
        gitlab_token: metadata_value(meta, GITLAB_TOKEN_META@),
        gitlab_host: metadata_value(meta, GITLAB_HOST_META@),
        github_token: metadata_value(meta, GITHUB_TOKEN_META@),
    }
}

/// The credentials in the metadata of a call.
pub fn read_credentials(meta: &MetadataMap) -> (caller: Credentials)
    ensures
        caller@ == credentials_in(*meta),
{
    Credentials {
        gitlab_token: meta_str(meta, GITLAB_TOKEN_META),
        gitlab_host: meta_str(meta, GITLAB_HOST_META),
        github_token: meta_str(meta, GITHUB_TOKEN_META),
    }
}

/// Which adapter a request needs.
#[derive(Clone, PartialEq, Eq)]
pub enum AdapterPlan {
    Gitlab { host: String, token: String },
    Github { token: String },
}

/// The model of an [`AdapterPlan`].
pub enum AdapterPlanView {
    Gitlab { host: Seq<char>, token: Seq<char> },
    Github { token: Seq<char> },
}

impl View for AdapterPlan {
    type V = AdapterPlanView;

    open spec fn view(&self) -> AdapterPlanView {
        match self {
            AdapterPlan::Gitlab { host, token } => AdapterPlanView::Gitlab {
                host: host@,
                token: token@,
            },
            AdapterPlan::Github { token } => AdapterPlanView::Github { token: token@ },
        }
    }
}

/// The outcome of planning an adapter, by its model.
pub open spec fn plan_viewed(r: Result<AdapterPlan, Status>) -> Result<AdapterPlanView, StatusView> {
    match r {
        Ok(plan) => Ok(plan@),
        Err(s) => Err(s@),
    }
}

/// The host of the caller's GitLab instance: the one that travels with the token, else the one
/// that the repository names, which may be empty.
pub open spec fn gitlab_host(repo: RepoRef, caller: CredentialsView) -> Seq<char> {
    match present(caller.gitlab_host) {
        Some(host) => host,
        None => repo.host@,
    }
}

/// The adapter that a repository needs, with the caller's credentials, or why there is none.
pub open spec fn planned(repo: RepoRef, caller: CredentialsView) -> Result<
    AdapterPlanView,
    StatusView,
> {
    if repo.forge == ForgeKind::Gitlab.wire() {
        match present(caller.gitlab_token) {
            None => Err(no_credentials("missing gitlab token"@)),
            Some(token) => if gitlab_host(repo, caller).len() == 0 {
                Err(bad_request("gitlab host required (repo.host or metadata)"@))
            } else {
                Ok(AdapterPlanView::Gitlab { host: gitlab_host(repo, caller), token })
            },
        }
    } else if repo.forge == ForgeKind::Github.wire() {
        match present(caller.github_token) {
            None => Err(no_credentials("missing github token"@)),
            Some(token) => Ok(AdapterPlanView::Github { token }),
        }
    } else {
        Err(bad_request("repo.forge must be FORGE_GITLAB or FORGE_GITHUB"@))
    }
}

/// The adapter that `repo` needs, with the caller's credentials.
pub fn plan_adapter(repo: &RepoRef, caller: Credentials) -> (r: Result<AdapterPlan, Status>)
    ensures
        plan_viewed(r) == planned(*repo, caller@),
{
    match ForgeKind::from_wire(repo.forge) {
        ForgeKind::Gitlab => match non_empty(caller.gitlab_token) {
            None => Err(Status::unauthenticated("missing gitlab token")),
            Some(token) => {
                let host = match non_empty(caller.gitlab_host) {
                    Some(host) => host,
                    None => repo.host.clone(),
                };
                if host.as_str().is_empty() {
                    return Err(
                        Status::invalid_argument("gitlab host required (repo.host or metadata)"),
                    );
                }
                Ok(AdapterPlan::Gitlab { host, token })
            },
        },
        ForgeKind::Github => match non_empty(caller.github_token) {
            None => Err(Status::unauthenticated("missing github token")),
            Some(token) => Ok(AdapterPlan::Github { token }),
        },
        ForgeKind::Unspecified => Err(
            Status::invalid_argument("repo.forge must be FORGE_GITLAB or FORGE_GITHUB"),
        ),
    }
}

/// An adapter for the forge of one request.
pub enum ForgeAdapter {
    Gitlab(GitLabForge),
    /// GitHub, to be reached with the caller's token.
    Github { token: String },
}

/// A seam for building the per-request forge adapter from a repository and the metadata of the
/// call. Implement this trait to put another adapter in its place.
///
/// The production implementation is [`DefaultForgeFactory`].
pub trait ForgeFactory: Send + Sync {
    /// What the factory builds.
    type Adapter;

    /// Build the adapter for `repo`, with whatever credentials it needs from `meta`. It is refused
    /// when a required credential is absent or the kind of forge is unsupported.
    fn build(&self, repo: &RepoRef, meta: &MetadataMap) -> (r: Result<Self::Adapter, Status>);
}

/// The production [`ForgeFactory`]: builds the adapter from the caller's request metadata.
pub struct DefaultForgeFactory;

impl ForgeAdapter {
    /// The kind of forge that an adapter is for.
    pub open spec fn kind(&self) -> ForgeKind {
        match self {
            ForgeAdapter::Gitlab(_) => ForgeKind::Gitlab,
            ForgeAdapter::Github { .. } => ForgeKind::Github,
        }
    }
}

/// Whether `r` is the GitLab adapter for the caller's host and token, pinned to that host, which
/// sends with the HTTP client that was built, or says that none was.
pub open spec fn gitlab_built(
    host: Seq<char>,
    token: Seq<char>,
    built: Result<reqwest::Client, reqwest::Error>,
    r: Result<ForgeAdapter, Status>,
) -> bool {
    match built {
        Ok(http) => r matches Ok(ForgeAdapter::Gitlab(forge)) && forge.connection() == http
            && forge.bearer() == token && forge.default_host() == host && forge.is_pinned(),
        Err(_) => r matches Err(s) && s@ == failed("build gitlab http client"@),
    }
}

/// Whether an outcome of building is right for a plan: the adapter that was planned, as far as an
/// HTTP client was built for it, or why none was planned.
pub open spec fn builds(
    plan: Result<AdapterPlanView, StatusView>,
    r: Result<ForgeAdapter, Status>,
) -> bool {
    match plan {
        Err(refusal) => r matches Err(s) && s@ == refusal,
        Ok(AdapterPlanView::Gitlab { host, token }) => exists|
            built: Result<reqwest::Client, reqwest::Error>,
        | #[trigger]
            client_built(USER_AGENT, built) && gitlab_built(host_or_public(host), token, built, r),
        Ok(AdapterPlanView::Github { token }) => r matches Ok(ForgeAdapter::Github { token: t })
            && t@ == token,
    }
}

/// Build the adapter that was planned.
pub fn build_planned(plan: Result<AdapterPlan, Status>) -> (r: Result<ForgeAdapter, Status>)
    ensures
        builds(plan_viewed(plan), r),
{
    match plan {
        Err(s) => Err(s),
        Ok(AdapterPlan::Gitlab { host, token }) => match GitLabForge::new(host, token) {
            Ok(forge) => Ok(ForgeAdapter::Gitlab(forge.pin())),
            Err(e) => Err(to_status(e)),
        },
        Ok(AdapterPlan::Github { token }) => Ok(ForgeAdapter::Github { token }),
    }
}

impl ForgeFactory for DefaultForgeFactory {
    type Adapter = ForgeAdapter;

    fn build(&self, repo: &RepoRef, meta: &MetadataMap) -> (r: Result<ForgeAdapter, Status>)
        ensures
            builds(planned(*repo, credentials_in(*meta)), r),
    {
        build_planned(plan_adapter(repo, read_credentials(meta)))
    }
}

/// The operations of a forge, with their arguments.
#[derive(Clone, Debug, PartialEq, Eq)]
pub enum ForgeCall {
    DefaultBranch,
    ReadFile { path: String, reference: String },
    CreateBranch { name: String, from_sha: String },
    CommitFile {
        branch: String,
        path: String,
        content: String,
        blob_sha: String,
        message: String,
    },
    OpenChange {
        head: String,
        base: String,
        title: String,
        body: String,
        remove_source_branch: bool,
    },
    EnableAutoMerge { change: ChangeRef },
    PipelineStatus { change: ChangeRef },
    Merge { change: ChangeRef },
    ChangeState { change: ChangeRef },
    ListTriggers,
    EnsureTrigger { url: String, events: Vec<String>, secret: String },
}

/// An operation to run: on which adapter, for which repository.
pub struct Dispatch<A> {
    pub forge: A,
    pub repo: RepoRef,
    pub call: ForgeCall,
}

/// The operation that a request comes to, once its adapter is built.
pub open spec fn assembled<A>(
    repo: RepoRef,
    built: Result<A, StatusView>,
    call: Result<ForgeCall, StatusView>,
) -> Result<Dispatch<A>, StatusView> {
    match built {
        Err(refusal) => Err(refusal),
        Ok(forge) => match call {
            Err(refusal) => Err(refusal),
            Ok(call) => Ok(Dispatch { forge, repo, call }),
        },
    }
}

/// The operation that a request comes to, once its adapter is built. A refused adapter counts
/// before a request that is at fault.
pub fn assemble<A>(repo: RepoRef, built: Result<A, Status>, call: Result<ForgeCall, Status>) -> (r:
    Result<Dispatch<A>, Status>)
    ensures
        status_viewed(r) == assembled(repo, status_viewed(built), status_viewed(call)),
{
    match built {
        Err(s) => Err(s),
        Ok(forge) => match call {
            Err(s) => Err(s),
            Ok(call) => Ok(Dispatch { forge, repo, call }),
        },
    }
}

/// The change that a request names.
pub open spec fn required_change(change: Option<ChangeRef>) -> Result<ChangeRef, StatusView> {
    match change {
        Some(change) => Ok(change),
        None => Err(bad_request("change is required"@)),
    }
}

/// The change that a request names.
pub fn require_change(change: Option<ChangeRef>) -> (r: Result<ChangeRef, Status>)
    ensures
        status_viewed(r) == required_change(change),
{
    match change {
        Some(change) => Ok(change),
        None => Err(Status::invalid_argument("change is required")),
    }
}

/// The forge gateway.
pub struct ForgeGateway<F: ForgeFactory> {
    factory: F,
}

impl ForgeGateway<DefaultForgeFactory> {
    /// Create a gateway backed by the production [`DefaultForgeFactory`].
    pub fn new() -> (gateway: Self)
        ensures
            gateway.source() == DefaultForgeFactory,
    {
        ForgeGateway { factory: DefaultForgeFactory }
    }
}

impl Default for ForgeGateway<DefaultForgeFactory> {
    fn default() -> (gateway: Self)
        ensures
            gateway.source() == DefaultForgeFactory,
    {
        Self::new()
    }
}

impl<F: ForgeFactory> ForgeGateway<F> {
    /// The factory that builds this gateway's adapters.
    pub closed spec fn source(&self) -> F {
        self.factory
    }

    /// Create a gateway backed by a custom factory.
    pub fn with_factory(factory: F) -> (gateway: Self)
        ensures
            gateway.source() == factory,
    {
        ForgeGateway { factory }
    }

    /// Build the adapter for `repo` from the metadata of a call.
    pub fn adapter(&self, repo: &RepoRef, meta: &MetadataMap) -> (r: Result<F::Adapter, Status>)
        ensures
            call_ensures(F::build, (&self.source(), repo, meta), r),
    {
        self.factory.build(repo, meta)
    }

    /// Whether `r` is what a request comes to: it must name a repository; the factory builds the
    /// adapter for it; then `call` counts.
    pub open spec fn dispatches(
        &self,
        repo: Option<RepoRef>,
        meta: &MetadataMap,
        call: Result<ForgeCall, StatusView>,
        r: Result<Dispatch<F::Adapter>, Status>,
    ) -> bool {
        match repo {
            None => r matches Err(s) && s@ == bad_request("repo is required"@),
            Some(repo) => exists|built: Result<F::Adapter, Status>|
                #[trigger] call_ensures(F::build, (&self.source(), &repo, meta), built)
                    && status_viewed(r) == assembled(repo, status_viewed(built), call),
        }
    }

    fn dispatch(&self, repo: Option<RepoRef>, meta: &MetadataMap, call: Result<ForgeCall, Status>) -> (r:
        Result<Dispatch<F::Adapter>, Status>)
        ensures
            self.dispatches(repo, meta, status_viewed(call), r),
    {
        match repo {
            None => Err(Status::invalid_argument("repo is required")),
            Some(repo) => {
                let built = self.adapter(&repo, meta);
                assemble(repo, built, call)
            },
        }
    }
}

/// Which branch is the default one?
#[derive(Clone, Debug, PartialEq, Eq)]
pub struct GetDefaultBranchRequest {
    pub repo: Option<RepoRef>,
}

/// What does a file hold at some revision?
#[derive(Clone, Debug, PartialEq, Eq)]
pub struct ReadFileRequest {
    pub repo: Option<RepoRef>,
    pub path: String,
    pub reference: String,
}

/// Create a branch.
#[derive(Clone, Debug, PartialEq, Eq)]
pub struct CreateBranchRequest {
    pub repo: Option<RepoRef>,
    pub name: String,
    pub from_sha: String,
}

/// Commit a file.
#[derive(Clone, Debug, PartialEq, Eq)]
pub struct CommitFileRequest {
    pub repo: Option<RepoRef>,
    pub branch: String,
    pub path: String,
    pub content: String,
    pub blob_sha: String,
    pub message: String,
}

/// Open a change.
#[derive(Clone, Debug, PartialEq, Eq)]
pub struct OpenChangeRequest {
    pub repo: Option<RepoRef>,
    pub head: String,
    pub base: String,
    pub title: String,
    pub body: String,
    pub remove_source_branch: bool,
}

/// Have a change merged once its pipeline succeeds.
#[derive(Clone, Debug, PartialEq, Eq)]
pub struct EnableAutoMergeRequest {
    pub repo: Option<RepoRef>,
    pub change: Option<ChangeRef>,
}

/// How does the pipeline of a change stand?
#[derive(Clone, Debug, PartialEq, Eq)]
pub struct PipelineStatusRequest {
    pub repo: Option<RepoRef>,
    pub change: Option<ChangeRef>,
}

/// Merge a change.
#[derive(Clone, Debug, PartialEq, Eq)]
pub struct MergeRequest {
    pub repo: Option<RepoRef>,
    pub change: Option<ChangeRef>,
}

/// How does a change stand?
#[derive(Clone, Debug, PartialEq, Eq)]
pub struct GetChangeStateRequest {
    pub repo: Option<RepoRef>,
    pub change: Option<ChangeRef>,
}

/// Which triggers are there?
#[derive(Clone, Debug, PartialEq, Eq)]
pub struct ListTriggersRequest {
    pub repo: Option<RepoRef>,
}

/// Have a trigger.
#[derive(Clone, Debug, PartialEq, Eq)]
pub struct EnsureTriggerRequest {
    pub repo: Option<RepoRef>,
    pub url: String,
    pub events: Vec<String>,
    pub secret: String,
}

impl<F: ForgeFactory> ForgeGateway<F> {
    /// Read the default branch; answered by [`default_branch_response`].
    pub fn get_default_branch(&self, msg: GetDefaultBranchRequest, meta: &MetadataMap) -> (r: Result<
        Dispatch<F::Adapter>,
        Status,
    >)
        ensures
            self.dispatches(msg.repo, meta, Ok(ForgeCall::DefaultBranch), r),
    {
        self.dispatch(msg.repo, meta, Ok(ForgeCall::DefaultBranch))
    }

    /// Read a file; answered by [`read_file_response`].
    pub fn read_file(&self, msg: ReadFileRequest, meta: &MetadataMap) -> (r: Result<
        Dispatch<F::Adapter>,
        Status,
    >)
        ensures
            self.dispatches(
                msg.repo,
                meta,
                Ok(
                    ForgeCall::ReadFile {
                        path: msg.path,
                        reference: msg.reference,
                    },
                ),
                r,
            ),
    {
        self.dispatch(
            msg.repo,
            meta,
            Ok(ForgeCall::ReadFile { path: msg.path, reference: msg.reference }),
        )
    }

    /// Create a branch; answered by [`create_branch_response`].
    pub fn create_branch(&self, msg: CreateBranchRequest, meta: &MetadataMap) -> (r: Result<
        Dispatch<F::Adapter>,
        Status,
    >)
        ensures
            self.dispatches(
                msg.repo,
                meta,
                Ok(
                    ForgeCall::CreateBranch {
                        name: msg.name,
                        from_sha: msg.from_sha,
                    },
                ),
                r,
            ),
    {
        self.dispatch(
            msg.repo,
            meta,
            Ok(ForgeCall::CreateBranch { name: msg.name, from_sha: msg.from_sha }),
        )
    }

    /// Commit a file; answered by [`commit_file_response`].
    pub fn commit_file(&self, msg: CommitFileRequest, meta: &MetadataMap) -> (r: Result<
        Dispatch<F::Adapter>,
        Status,
    >)
        ensures
            self.dispatches(
                msg.repo,
                meta,
                Ok(
                    ForgeCall::CommitFile {
                        branch: msg.branch,
                        path: msg.path,
                        content: msg.content,
                        blob_sha: msg.blob_sha,
                        message: msg.message,
                    },
                ),
                r,
            ),
    {
        self.dispatch(
            msg.repo,
            meta,
            Ok(
                ForgeCall::CommitFile {
                    branch: msg.branch,
                    path: msg.path,
                    content: msg.content,
                    blob_sha: msg.blob_sha,
                    message: msg.message,
                },
            ),
        )
    }

    /// Open a change; answered by [`open_change_response`].
    pub fn open_change(&self, msg: OpenChangeRequest, meta: &MetadataMap) -> (r: Result<
        Dispatch<F::Adapter>,
        Status,
    >)
        ensures
            self.dispatches(
                msg.repo,
                meta,
                Ok(
                    ForgeCall::OpenChange {
                        head: msg.head,
                        base: msg.base,
                        title: msg.title,
                        body: msg.body,
                        remove_source_branch: msg.remove_source_branch,
                    },
                ),
                r,
            ),
    {
        self.dispatch(
            msg.repo,
            meta,
            Ok(
                ForgeCall::OpenChange {
                    head: msg.head,
                    base: msg.base,
                    title: msg.title,
                    body: msg.body,
                    remove_source_branch: msg.remove_source_branch,
                },
            ),
        )
    }

    /// Have a change merged once its pipeline succeeds; answered by
    /// [`enable_auto_merge_response`]. The request must name the change.
    pub fn enable_auto_merge(&self, msg: EnableAutoMergeRequest, meta: &MetadataMap) -> (r: Result<
        Dispatch<F::Adapter>,
        Status,
    >)
        ensures
            self.dispatches(
                msg.repo,
                meta,
                match required_change(msg.change) {
                    Ok(change) => Ok(ForgeCall::EnableAutoMerge { change }),
                    Err(refusal) => Err(refusal),
                },
                r,
            ),
    {
        let call = match require_change(msg.change) {
            Ok(change) => Ok(ForgeCall::EnableAutoMerge { change }),
            Err(s) => Err(s),
        };
        self.dispatch(msg.repo, meta, call)
    }

    /// See how the pipeline of a change stands; answered by [`pipeline_status_response`]. The request
    /// must name the change.
    pub fn pipeline_status(&self, msg: PipelineStatusRequest, meta: &MetadataMap) -> (r: Result<
        Dispatch<F::Adapter>,
        Status,
    >)
        ensures
            self.dispatches(
                msg.repo,
                meta,
                match required_change(msg.change) {
                    Ok(change) => Ok(ForgeCall::PipelineStatus { change }),
                    Err(refusal) => Err(refusal),
                },
                r,
            ),
    {
        let call = match require_change(msg.change) {
            Ok(change) => Ok(ForgeCall::PipelineStatus { change }),
            Err(s) => Err(s),
        };
        self.dispatch(msg.repo, meta, call)
    }

    /// Merge a change; answered by [`merge_response`]. The request
    /// must name the change.
    pub fn merge(&self, msg: MergeRequest, meta: &MetadataMap) -> (r: Result<
        Dispatch<F::Adapter>,
        Status,
    >)
        ensures
            self.dispatches(
                msg.repo,
                meta,
                match required_change(msg.change) {
                    Ok(change) => Ok(ForgeCall::Merge { change }),
                    Err(refusal) => Err(refusal),
                },
                r,
            ),
    {
        let call = match require_change(msg.change) {
            Ok(change) => Ok(ForgeCall::Merge { change }),
            Err(s) => Err(s),
        };
        self.dispatch(msg.repo, meta, call)
    }

    /// See how a change stands; answered by [`change_state_response`]. The request
    /// must name the change.
    pub fn get_change_state(&self, msg: GetChangeStateRequest, meta: &MetadataMap) -> (r: Result<
        Dispatch<F::Adapter>,
        Status,
    >)
        ensures
            self.dispatches(
                msg.repo,
                meta,
                match required_change(msg.change) {
                    Ok(change) => Ok(ForgeCall::ChangeState { change }),
                    Err(refusal) => Err(refusal),
                },
                r,
            ),
    {
        let call = match require_change(msg.change) {
            Ok(change) => Ok(ForgeCall::ChangeState { change }),
            Err(s) => Err(s),
        };
        self.dispatch(msg.repo, meta, call)
    }

    /// List the triggers; answered by [`list_triggers_response`].
    pub fn list_triggers(&self, msg: ListTriggersRequest, meta: &MetadataMap) -> (r: Result<
        Dispatch<F::Adapter>,
        Status,
    >)
        ensures
            self.dispatches(msg.repo, meta, Ok(ForgeCall::ListTriggers), r),
    {
        self.dispatch(msg.repo, meta, Ok(ForgeCall::ListTriggers))
    }

    /// Have a trigger; answered by [`ensure_trigger_response`].
    pub fn ensure_trigger(&self, msg: EnsureTriggerRequest, meta: &MetadataMap) -> (r: Result<
        Dispatch<F::Adapter>,
        Status,
    >)
        ensures
            self.dispatches(
                msg.repo,
                meta,
                Ok(
                    ForgeCall::EnsureTrigger {
                        url: msg.url,
                        events: msg.events,
                        secret: msg.secret,
                    },
                ),
                r,
            ),
    {
        self.dispatch(
            msg.repo,
            meta,
            Ok(ForgeCall::EnsureTrigger { url: msg.url, events: msg.events, secret: msg.secret }),
        )
    }
}

/// Whether a trigger was created or was there.
pub struct EnsuredTrigger<T> {
    pub trigger: T,
    pub created: bool,
}

/// The default branch.
#[derive(Clone, Debug, PartialEq, Eq)]
pub struct GetDefaultBranchResponse {
    pub branch: String,
}

/// What is answered once the operation is over; a failure is passed on with its message.
pub fn default_branch_response(
    outcome: ForgeResult<String>,
) -> (r: Result<GetDefaultBranchResponse, Status>)
    ensures
        match outcome {
            Ok(branch) => r matches Ok(answer) && answer.branch == branch,
            Err(e) => r matches Err(s) && s@ == failed(e@),
        },
{
    match outcome {
        Ok(branch) => Ok(GetDefaultBranchResponse { branch }),
        Err(e) => Err(to_status(e)),
    }
}

/// A file, if there is one.
#[derive(Clone, Debug, PartialEq, Eq)]
pub struct ReadFileResponse {
    pub found: bool,
    pub blob: Option<FileBlob>,
}

/// What is answered once the operation is over; a failure is passed on with its message.
pub fn read_file_response(
    outcome: ForgeResult<Option<FileBlob>>,
) -> (r: Result<ReadFileResponse, Status>)
    ensures
        match outcome {
            Ok(blob) => r matches Ok(answer) && answer.blob == blob && answer.found == (blob is Some),
            Err(e) => r matches Err(s) && s@ == failed(e@),
        },
{
    match outcome {
        Ok(blob) => Ok(ReadFileResponse { found: blob.is_some(), blob }),
        Err(e) => Err(to_status(e)),
    }
}

/// Whether a branch is new or was there.
#[derive(Clone, Debug, PartialEq, Eq)]
pub struct CreateBranchResponse {
    pub created: bool,
    pub already_existed: bool,
}

/// What is answered once the operation is over; a failure is passed on with its message.
pub fn create_branch_response(
    outcome: ForgeResult<BranchOutcome>,
) -> (r: Result<CreateBranchResponse, Status>)
    ensures
        match outcome {
            Ok(out) => r matches Ok(answer) && answer.created == out.created && answer.already_existed
                == out.already_existed,
            Err(e) => r matches Err(s) && s@ == failed(e@),
        },
{
    match outcome {
        Ok(out) => Ok(
            CreateBranchResponse {
                created: out.created,
                already_existed: out.already_existed,
            },
        ),
        Err(e) => Err(to_status(e)),
    }
}

/// The commit of a file.
#[derive(Clone, Debug, PartialEq, Eq)]
pub struct CommitFileResponse {
    pub commit_sha: String,
}

/// What is answered once the operation is over; a failure is passed on with its message.
pub fn commit_file_response(
    outcome: ForgeResult<String>,
) -> (r: Result<CommitFileResponse, Status>)
    ensures
        match outcome {
            Ok(commit_sha) => r matches Ok(answer) && answer.commit_sha == commit_sha,
            Err(e) => r matches Err(s) && s@ == failed(e@),
        },
{
    match outcome {
        Ok(commit_sha) => Ok(CommitFileResponse { commit_sha }),
        Err(e) => Err(to_status(e)),
    }
}

/// A change that is open now.
#[derive(Clone, Debug, PartialEq, Eq)]
pub struct OpenChangeResponse {
    pub change: Option<ChangeRef>,
    pub already_existed: bool,
}

/// What is answered once the operation is over; a failure is passed on with its message.
pub fn open_change_response(
    outcome: ForgeResult<OpenedChange>,
) -> (r: Result<OpenChangeResponse, Status>)
    ensures
        match outcome {
            Ok(out) => r matches Ok(answer) && answer.change == Some(out.change) && answer.already_existed
                == out.already_existed,
            Err(e) => r matches Err(s) && s@ == failed(e@),
        },
{
    match outcome {
        Ok(out) => Ok(
            OpenChangeResponse {
                change: Some(out.change),
                already_existed: out.already_existed,
            },
        ),
        Err(e) => Err(to_status(e)),
    }
}

/// Whether auto-merge is on.
#[derive(Clone, Debug, PartialEq, Eq)]
pub struct EnableAutoMergeResponse {
    pub enabled: bool,
}

/// What is answered once the operation is over; a failure is passed on with its message.
pub fn enable_auto_merge_response(
    outcome: ForgeResult<bool>,
) -> (r: Result<EnableAutoMergeResponse, Status>)
    ensures
        match outcome {
            Ok(enabled) => r matches Ok(answer) && answer.enabled == enabled,
            Err(e) => r matches Err(s) && s@ == failed(e@),
        },
{
    match outcome {
        Ok(enabled) => Ok(EnableAutoMergeResponse { enabled }),
        Err(e) => Err(to_status(e)),
    }
}

/// How a pipeline stands; the status is a wire number.
#[derive(Clone, Debug, PartialEq, Eq)]
pub struct PipelineStatusResponse {
    pub status: i32,
    pub pipeline_id: String,
    pub pipeline_url: String,
}

/// What is answered once the operation is over; a failure is passed on with its message.
pub fn pipeline_status_response(
    outcome: ForgeResult<PipelineStatus>,
) -> (r: Result<PipelineStatusResponse, Status>)
    ensures
        match outcome {
            Ok(ps) => r matches Ok(answer) && answer.status == ps.status.wire() && answer.pipeline_id
                == ps.pipeline_id && answer.pipeline_url == ps.url,
            Err(e) => r matches Err(s) && s@ == failed(e@),
        },
{
    match outcome {
        Ok(ps) => Ok(
            PipelineStatusResponse {
                status: ps.status.to_wire(),
                pipeline_id: ps.pipeline_id,
                pipeline_url: ps.url,
            },
        ),
        Err(e) => Err(to_status(e)),
    }
}

/// The merge commit.
#[derive(Clone, Debug, PartialEq, Eq)]
pub struct MergeResponse {
    pub merge_commit_sha: String,
}

/// What is answered once the operation is over; a failure is passed on with its message.
pub fn merge_response(
    outcome: ForgeResult<String>,
) -> (r: Result<MergeResponse, Status>)
    ensures
        match outcome {
            Ok(merge_commit_sha) => r matches Ok(answer) && answer.merge_commit_sha == merge_commit_sha,
            Err(e) => r matches Err(s) && s@ == failed(e@),
        },
{
    match outcome {
        Ok(merge_commit_sha) => Ok(MergeResponse { merge_commit_sha }),
        Err(e) => Err(to_status(e)),
    }
}

/// How a change stands, as a wire number. The merge commit is always empty here: merging gives it.
#[derive(Clone, Debug, PartialEq, Eq)]
pub struct GetChangeStateResponse {
    pub state: i32,
    pub merge_commit_sha: String,
}

/// What is answered once the operation is over; a failure is passed on with its message.
pub fn change_state_response(
    outcome: ForgeResult<ChangeState>,
) -> (r: Result<GetChangeStateResponse, Status>)
    ensures
        match outcome {
            Ok(state) => r matches Ok(answer) && answer.state == state.wire() && answer.merge_commit_sha@
                == Seq::<char>::empty(),
            Err(e) => r matches Err(s) && s@ == failed(e@),
        },
{
    match outcome {
        Ok(state) => Ok(
            GetChangeStateResponse {
                state: state.to_wire(),
                merge_commit_sha: String::new(),
            },
        ),
        Err(e) => Err(to_status(e)),
    }
}

/// The triggers, which the gateway passes on unread.
pub struct ListTriggersResponse<T> {
    pub triggers: Vec<T>,
}

/// What is answered once the operation is over; a failure is passed on with its message.
pub fn list_triggers_response<T>(
    outcome: ForgeResult<Vec<T>>,
) -> (r: Result<ListTriggersResponse<T>, Status>)
    ensures
        match outcome {
            Ok(triggers) => r matches Ok(answer) && answer.triggers == triggers,
            Err(e) => r matches Err(s) && s@ == failed(e@),
        },
{
    match outcome {
        Ok(triggers) => Ok(ListTriggersResponse { triggers }),
        Err(e) => Err(to_status(e)),
    }
}

/// A trigger that is there now.
pub struct EnsureTriggerResponse<T> {
    pub trigger: Option<T>,
    pub created: bool,
}

/// What is answered once the operation is over; a failure is passed on with its message.
pub fn ensure_trigger_response<T>(
    outcome: ForgeResult<EnsuredTrigger<T>>,
) -> (r: Result<EnsureTriggerResponse<T>, Status>)
    ensures
        match outcome {
            Ok(out) => r matches Ok(answer) && answer.trigger == Some(out.trigger) && answer.created
                == out.created,
            Err(e) => r matches Err(s) && s@ == failed(e@),
        },
{
    match outcome {
        Ok(out) => Ok(EnsureTriggerResponse { trigger: Some(out.trigger), created: out.created }),
        Err(e) => Err(to_status(e)),
    }
}

/// Every operation runs as the caller: whatever the production gateway dispatches goes to the
/// repository of the request, on an adapter that holds the caller's own token.
pub proof fn law_operations_run_as_the_caller(
    gateway: &ForgeGateway<DefaultForgeFactory>,
    repo: Option<RepoRef>,
    meta: &MetadataMap,
    call: Result<ForgeCall, StatusView>,
    r: Result<Dispatch<ForgeAdapter>, Status>,
)
    requires
        gateway.dispatches(repo, meta, call, r),
    ensures
        r matches Ok(d) ==> repo == Some(d.repo) && call == Ok::<ForgeCall, StatusView>(d.call)
            && match d.forge {
            ForgeAdapter::Gitlab(forge) => d.repo.forge == ForgeKind::Gitlab.wire()
                && metadata_value(*meta, GITLAB_TOKEN_META@) == Some(forge.bearer()),
            ForgeAdapter::Github { token } => d.repo.forge == ForgeKind::Github.wire()
                && metadata_value(*meta, GITHUB_TOKEN_META@) == Some(token@),
        },
{
}

/// A GitLab request goes to the host that travels with the caller's token, else to the one that
/// the repository names; the production gateway dispatches none without a host.
pub proof fn law_gitlab_host_is_known(
    gateway: &ForgeGateway<DefaultForgeFactory>,
    repo: RepoRef,
    meta: &MetadataMap,
    call: Result<ForgeCall, StatusView>,
    r: Result<Dispatch<ForgeAdapter>, Status>,
)
    requires
        gateway.dispatches(Some(repo), meta, call, r),
    ensures
        r matches Ok(d) ==> (d.forge matches ForgeAdapter::Gitlab(forge) ==> forge.host_of(&repo)
            == gitlab_host(repo, credentials_in(*meta)) && forge.host_of(&repo).len() > 0),
{
}

/// A request without a repository is refused as such, whatever else it lacks.
pub proof fn law_repo_is_asked_for_first<F: ForgeFactory>(
    gateway: &ForgeGateway<F>,
    meta: &MetadataMap,
    call: Result<ForgeCall, StatusView>,
    r: Result<Dispatch<F::Adapter>, Status>,
)
    requires
        gateway.dispatches(None, meta, call, r),
    ensures
        r matches Err(s) && s@ == bad_request("repo is required"@),
{
}

/// A caller whose credentials or forge the production gateway refuses gets that refusal, even
/// where the request names no change.
pub proof fn law_refused_caller_is_told_so(
    gateway: &ForgeGateway<DefaultForgeFactory>,
    repo: RepoRef,
    meta: &MetadataMap,
    call: Result<ForgeCall, StatusView>,
    r: Result<Dispatch<ForgeAdapter>, Status>,
)
    requires
        gateway.dispatches(Some(repo), meta, call, r),
        planned(repo, credentials_in(*meta)) is Err,
    ensures
        r matches Err(s) && planned(repo, credentials_in(*meta)) == Err::<
            AdapterPlanView,
            StatusView,
        >(s@),
{
}

/// A caller whose credentials suffice is served: what the request asks for is dispatched. For
/// GitLab it is, with the HTTP client that was built, just when one could be built.
pub proof fn law_admitted_caller_is_served(
    gateway: &ForgeGateway<DefaultForgeFactory>,
    repo: RepoRef,
    meta: &MetadataMap,
    call: ForgeCall,
    r: Result<Dispatch<ForgeAdapter>, Status>,
)
    requires
        gateway.dispatches(Some(repo), meta, Ok(call), r),
        planned(repo, credentials_in(*meta)) is Ok,
    ensures
        repo.forge == ForgeKind::Github.wire() ==> (r matches Ok(d) && d.repo == repo && d.call
            == call && d.forge is Github),
        repo.forge == ForgeKind::Gitlab.wire() ==> exists|
            built: Result<reqwest::Client, reqwest::Error>,
        | #[trigger]
            client_built(USER_AGENT, built) && match built {
                Ok(http) => r matches Ok(d) && d.repo == repo && d.call == call && (
                d.forge matches ForgeAdapter::Gitlab(forge) && forge.connection() == http),
                Err(_) => r matches Err(s) && s@ == failed("build gitlab http client"@),
            },
{
}

/// Where an HTTP client can be built, the production factory refuses a caller just for a missing
/// token, an unsupported forge or an unknown GitLab host, in this order of precedence for GitLab:
/// token, then host. Anyone else gets an adapter for the repository's kind of forge.
pub proof fn law_refusals_are_exact(
    repo: RepoRef,
    meta: &MetadataMap,
    r: Result<ForgeAdapter, Status>,
)
    requires
        call_ensures(DefaultForgeFactory::build, (&DefaultForgeFactory, &repo, meta), r),
        forall|built: Result<reqwest::Client, reqwest::Error>| #[trigger]
            client_built(USER_AGENT, built) ==> built is Ok,
    ensures
        (r matches Err(s) && s.code == Code::Unauthenticated) <==> {
            ||| repo.forge == ForgeKind::Gitlab.wire() && metadata_value(
                *meta,
                GITLAB_TOKEN_META@,
            ) is None
            ||| repo.forge == ForgeKind::Github.wire() && metadata_value(
                *meta,
                GITHUB_TOKEN_META@,
            ) is None
        },
        (r matches Err(s) && s.code == Code::InvalidArgument) <==> {
            ||| repo.forge != ForgeKind::Gitlab.wire() && repo.forge != ForgeKind::Github.wire()
            ||| repo.forge == ForgeKind::Gitlab.wire() && metadata_value(
                *meta,
                GITLAB_TOKEN_META@,
            ) is Some && repo.host@.len() == 0 && metadata_value(*meta, GITLAB_HOST_META@) is None
        },
        match r {
            Ok(forge) => forge.kind().wire() == repo.forge,
            Err(s) => s.code == Code::Unauthenticated || s.code == Code::InvalidArgument,
        },
{
}

/// A request, as far as the gateway goes by it: the repository that it names, the metadata that it
/// came with, and the operation that it asks for.
pub struct Asked {
    pub repo: Option<RepoRef>,
    pub meta: MetadataMap,
    pub call: Result<ForgeCall, StatusView>,
}

/// Whatever requests a gateway serves, each runs on an adapter that the factory built for that
/// request's own repository and metadata; nothing of another request is carried over. A request
/// without a repository gets no adapter.
pub proof fn law_each_request_has_its_own_adapter<F: ForgeFactory>(
    gateway: &ForgeGateway<F>,
    asked: Seq<Asked>,
    outcomes: Seq<Result<Dispatch<F::Adapter>, Status>>,
)
    requires
        asked.len() == outcomes.len(),
        forall|i: int|
            0 <= i < asked.len() ==> gateway.dispatches(
                (#[trigger] asked[i]).repo,
                &asked[i].meta,
                asked[i].call,
                outcomes[i],
            ),
    ensures
        forall|i: int|
            0 <= i < asked.len() ==> match #[trigger] outcomes[i] {
                Ok(d) => asked[i].repo == Some(d.repo) && asked[i].call == Ok::<
                    ForgeCall,
                    StatusView,
                >(d.call) && call_ensures(
                    F::build,
                    (&gateway.source(), &d.repo, &asked[i].meta),
                    Ok(d.forge),
                ),
                Err(s) => asked[i].repo is None ==> s@ == bad_request("repo is required"@),
            },
{
    assert forall|i: int| 0 <= i < asked.len() implies match #[trigger] outcomes[i] {
        Ok(d) => asked[i].repo == Some(d.repo) && asked[i].call == Ok::<ForgeCall, StatusView>(
            d.call,
        ) && call_ensures(F::build, (&gateway.source(), &d.repo, &asked[i].meta), Ok(d.forge)),
        Err(s) => asked[i].repo is None ==> s@ == bad_request("repo is required"@),
    } by {
        let ask = asked[i];
        assert(gateway.dispatches(ask.repo, &ask.meta, ask.call, outcomes[i]));
    }
}

/// A request about a change that names none is refused as such, once there is an adapter for it.
pub proof fn law_change_is_asked_for<F: ForgeFactory>(
    gateway: &ForgeGateway<F>,
    repo: RepoRef,
    meta: &MetadataMap,
    merge: Result<Dispatch<F::Adapter>, Status>,
    auto_merge: Result<Dispatch<F::Adapter>, Status>,
    pipeline: Result<Dispatch<F::Adapter>, Status>,
    state: Result<Dispatch<F::Adapter>, Status>,
)
    requires
        forall|built: Result<F::Adapter, Status>| #[trigger]
            call_ensures(F::build, (&gateway.source(), &repo, meta), built) ==> built is Ok,
        call_ensures(
            ForgeGateway::<F>::merge,
            (gateway, MergeRequest { repo: Some(repo), change: None }, meta),
            merge,
        ),
        call_ensures(
            ForgeGateway::<F>::enable_auto_merge,
            (gateway, EnableAutoMergeRequest { repo: Some(repo), change: None }, meta),
            auto_merge,
        ),
        call_ensures(
            ForgeGateway::<F>::pipeline_status,
            (gateway, PipelineStatusRequest { repo: Some(repo), change: None }, meta),
            pipeline,
        ),
        call_ensures(
            ForgeGateway::<F>::get_change_state,
            (gateway, GetChangeStateRequest { repo: Some(repo), change: None }, meta),
            state,
        ),
    ensures
        merge matches Err(s) && s@ == bad_request("change is required"@),
        auto_merge matches Err(s) && s@ == bad_request("change is required"@),
        pipeline matches Err(s) && s@ == bad_request("change is required"@),
        state matches Err(s) && s@ == bad_request("change is required"@),
{
}

} // verus!
