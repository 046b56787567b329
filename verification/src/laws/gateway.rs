//! Laws of the gateway: who is served by which adapter, what a request comes to, and what is
//! answered.
use tonic::metadata::MetadataMap;
use vstd::prelude::*;

use crate::gateway::{
    assemble, assembled, bad_request, build_planned, change_state_response,
    commit_file_response, create_branch_response, credentials_in, default_branch_response,
    enable_auto_merge_response, ensure_trigger_response, gitlab_built, list_triggers_response,
    merge_response, meta_str, non_empty, open_change_response, pipeline_status_response,
    plan_adapter, planned, read_credentials, read_file_response, require_change, status_viewed,
    to_status, AdapterPlan, AdapterPlanView, Code, CommitFileRequest, CommitFileResponse,
    CreateBranchRequest, CreateBranchResponse, Credentials, DefaultForgeFactory, Dispatch,
    EnableAutoMergeRequest, EnableAutoMergeResponse, EnsureTriggerRequest,
    EnsureTriggerResponse, EnsuredTrigger, ForgeAdapter, ForgeCall, ForgeFactory, ForgeGateway,
    GetChangeStateRequest, GetChangeStateResponse, GetDefaultBranchRequest,
    GetDefaultBranchResponse, ListTriggersRequest, ListTriggersResponse, MergeRequest,
    MergeResponse, OpenChangeRequest, OpenChangeResponse, PipelineStatusRequest,
    PipelineStatusResponse, ReadFileRequest, ReadFileResponse, Status, StatusView,
};
use crate::gitlab::{host_or_public, GitLabForge, USER_AGENT};
use crate::model::{
    BranchOutcome, ChangeRef, ChangeState, CiStatus, FileBlob, ForgeError, ForgeResult,
    OpenedChange, PipelineStatus, RepoRef,
};
use crate::outside::{client_built, entry_text, metadata_entries};

verus! {

/// Whether a refusal has a code and a message.
pub open spec fn says(status: Status, code: Code, message: Seq<char>) -> bool {
    status.code == code && status.message@ == message
}

/// A refusal keeps its message, under the code that it is made for; a failed operation is refused
/// as an internal failure with the operation's own message.
pub proof fn law_refusals_keep_their_message(
    message: &str,
    invalid: Status,
    unknown: Status,
    internal: Status,
    e: ForgeError,
    failed: Status,
)
    requires
        call_ensures(Status::invalid_argument, (message,), invalid),
        call_ensures(Status::unauthenticated, (message,), unknown),
        call_ensures(Status::internal, (message,), internal),
        call_ensures(to_status, (e,), failed),
    ensures
        says(invalid, Code::InvalidArgument, message@),
        says(unknown, Code::Unauthenticated, message@),
        says(internal, Code::Internal, message@),
        says(failed, Code::Internal, e.message@),
{
}

/// A metadata value counts just when it is there, is text and is not empty, and then as it stands.
pub proof fn law_metadata_value(
    meta: &MetadataMap,
    key: &str,
    value: Option<String>,
    text: Option<String>,
    kept: Option<String>,
)
    requires
        call_ensures(meta_str, (meta, key), value),
        call_ensures(non_empty, (text,), kept),
    ensures
        match value {
            Some(v) => v@.len() > 0 && entry_text(metadata_entries(*meta), key@) == Some(v@),
            None => entry_text(metadata_entries(*meta), key@) matches Some(t) ==> t.len() == 0,
        },
        match kept {
            Some(k) => k@.len() > 0 && (text matches Some(t) && t@ == k@),
            None => text matches Some(t) ==> t@.len() == 0,
        },
{
}

/// The caller's tokens and host are read from three keys of the metadata, each from its own.
pub proof fn law_credentials(
    meta: &MetadataMap,
    caller: Credentials,
    gitlab_token: Option<String>,
    gitlab_host: Option<String>,
    github_token: Option<String>,
)
    requires
        call_ensures(read_credentials, (meta,), caller),
        call_ensures(meta_str, (meta, "x-fastverk-gitlab-token"), gitlab_token),
        call_ensures(meta_str, (meta, "x-fastverk-gitlab-host"), gitlab_host),
        call_ensures(meta_str, (meta, "x-fastverk-github-token"), github_token),
    ensures
        same_text(caller.gitlab_token, gitlab_token),
        same_text(caller.gitlab_host, gitlab_host),
        same_text(caller.github_token, github_token),
{
}

/// Whether two texts are the same, or both absent.
pub open spec fn same_text(a: Option<String>, b: Option<String>) -> bool {
    match a {
        Some(x) => b matches Some(y) && x@ == y@,
        None => b is None,
    }
}

/// Which adapter a repository gets. GitLab (2) takes the caller's GitLab token and the host that
/// came with it, else the host of the repository; GitHub (1) takes the caller's GitHub token. A
/// missing token is refused before a missing host, and any other forge is refused.
pub proof fn law_adapter_plan(repo: &RepoRef, caller: Credentials, r: Result<AdapterPlan, Status>)
    requires
        call_ensures(plan_adapter, (repo, caller), r),
    ensures
        repo.forge == 2 ==> match caller.gitlab_token {
            Some(token) if token@.len() > 0 => {
                let host = match caller.gitlab_host {
                    Some(host) if host@.len() > 0 => host@,
                    _ => repo.host@,
                };
                if host.len() > 0 {
                    r matches Ok(AdapterPlan::Gitlab { host: h, token: t }) && h@ == host && t@
                        == token@
                } else {
                    r matches Err(s) && says(
                        s,
                        Code::InvalidArgument,
                        "gitlab host required (repo.host or metadata)"@,
                    )
                }
            },
            _ => r matches Err(s) && says(s, Code::Unauthenticated, "missing gitlab token"@),
        },
        repo.forge == 1 ==> match caller.github_token {
            Some(token) if token@.len() > 0 => r matches Ok(AdapterPlan::Github { token: t }) && t@
                == token@,
            _ => r matches Err(s) && says(s, Code::Unauthenticated, "missing github token"@),
        },
        repo.forge != 1 && repo.forge != 2 ==> (r matches Err(s) && says(
            s,
            Code::InvalidArgument,
            "repo.forge must be FORGE_GITLAB or FORGE_GITHUB"@,
        )),
{
}

/// A planned adapter is built with the token and the host of the plan, and keeps to that host; a
/// refused plan is refused alike. A GitLab adapter fails just where no HTTP client was built.
pub proof fn law_planned_adapter_is_built(
    plan: Result<AdapterPlan, Status>,
    r: Result<ForgeAdapter, Status>,
    repo: &RepoRef,
    name: &str,
)
    requires
        call_ensures(build_planned, (plan,), r),
        r matches Ok(ForgeAdapter::Gitlab(forge)) ==> call_ensures(
            GitLabForge::host_for,
            (&forge, repo),
            name,
        ),
    ensures
        match plan {
            Err(s) => r matches Err(same) && says(same, s.code, s.message@),
            Ok(AdapterPlan::Github { token }) => r matches Ok(ForgeAdapter::Github { token: t })
                && t@ == token@,
            Ok(AdapterPlan::Gitlab { host, token }) => match r {
                Ok(ForgeAdapter::Gitlab(forge)) => forge.bearer() == token@ && name@ == (
                if host@.len() > 0 {
                    host@
                } else {
                    "gitlab.com"@
                }) && client_built(USER_AGENT, Ok(forge.connection())),
                Ok(_) => false,
                Err(s) => says(s, Code::Internal, "build gitlab http client"@) && exists|
                    why: reqwest::Error,
                |
                    client_built(USER_AGENT, Err(why)),
            },
        },
{
    if let Ok(AdapterPlan::Gitlab { host, token }) = plan {
        let built = choose|built: Result<reqwest::Client, reqwest::Error>| #[trigger]
            client_built(USER_AGENT, built) && gitlab_built(
                host_or_public(host@),
                token@,
                built,
                r,
            );
        match built {
            Ok(http) => {
                assert(client_built(USER_AGENT, Ok(http)));
            },
            Err(why) => {
                assert(client_built(USER_AGENT, Err(why)));
            },
        }
    }
}

/// The production factory serves a caller as planned from what the metadata says of them: GitLab
/// with their own token at the host that came with it, else at the host of the repository, and
/// GitHub with their own token.
pub proof fn law_production_adapter(
    repo: &RepoRef,
    meta: &MetadataMap,
    r: Result<ForgeAdapter, Status>,
    gitlab_token: Option<String>,
    gitlab_host: Option<String>,
    github_token: Option<String>,
    name: &str,
)
    requires
        call_ensures(DefaultForgeFactory::build, (&DefaultForgeFactory, repo, meta), r),
        call_ensures(meta_str, (meta, "x-fastverk-gitlab-token"), gitlab_token),
        call_ensures(meta_str, (meta, "x-fastverk-gitlab-host"), gitlab_host),
        call_ensures(meta_str, (meta, "x-fastverk-github-token"), github_token),
        r matches Ok(ForgeAdapter::Gitlab(forge)) ==> call_ensures(
            GitLabForge::host_for,
            (&forge, repo),
            name,
        ),
    ensures
        match r {
            Ok(ForgeAdapter::Gitlab(forge)) => repo.forge == 2 && (gitlab_token matches Some(t)
                && forge.bearer() == t@) && name@ == (match gitlab_host {
                Some(host) => host@,
                None => repo.host@,
            }) && name@.len() > 0,
            Ok(ForgeAdapter::Github { token }) => repo.forge == 1 && (github_token matches Some(t)
                && token@ == t@),
            Err(s) => {
                ||| repo.forge == 2 && gitlab_token is None && says(
                    s,
                    Code::Unauthenticated,
                    "missing gitlab token"@,
                )
                ||| repo.forge == 2 && gitlab_token is Some && gitlab_host is None
                    && repo.host@.len() == 0 && says(
                    s,
                    Code::InvalidArgument,
                    "gitlab host required (repo.host or metadata)"@,
                )
                ||| repo.forge == 2 && gitlab_token is Some && (gitlab_host is Some
                    || repo.host@.len() > 0) && says(
                    s,
                    Code::Internal,
                    "build gitlab http client"@,
                ) && exists|why: reqwest::Error| client_built(USER_AGENT, Err(why))
                ||| repo.forge == 1 && github_token is None && says(
                    s,
                    Code::Unauthenticated,
                    "missing github token"@,
                )
                ||| repo.forge != 1 && repo.forge != 2 && says(
                    s,
                    Code::InvalidArgument,
                    "repo.forge must be FORGE_GITLAB or FORGE_GITHUB"@,
                )
            },
        },
{
    let caller = credentials_in(*meta);
    if let Ok(AdapterPlanView::Gitlab { host, token }) = planned(
        *repo,
        caller,
    ) {
        let built = choose|built: Result<reqwest::Client, reqwest::Error>| #[trigger]
            client_built(USER_AGENT, built) && gitlab_built(
                host_or_public(host),
                token,
                built,
                r,
            );
        if let Err(why) = built {
            assert(client_built(USER_AGENT, Err(why)));
        }
    }
}

/// A gateway builds adapters with the factory that it was made with.
pub proof fn law_gateway_uses_its_factory<F: ForgeFactory>(
    factory: F,
    gateway: ForgeGateway<F>,
    repo: &RepoRef,
    meta: &MetadataMap,
    r: Result<F::Adapter, Status>,
)
    requires
        call_ensures(ForgeGateway::<F>::with_factory, (factory,), gateway),
        call_ensures(ForgeGateway::<F>::adapter, (&gateway, repo, meta), r),
    ensures
        call_ensures(F::build, (&factory, repo, meta), r),
{
}

/// A refused adapter counts before a request that is at fault; with both in order the operation
/// goes to that adapter and that repository.
pub proof fn law_assembly<A>(
    repo: RepoRef,
    built: Result<A, Status>,
    call: Result<ForgeCall, Status>,
    r: Result<Dispatch<A>, Status>,
)
    requires
        call_ensures(assemble::<A>, (repo, built, call), r),
    ensures
        match built {
            Err(s) => r matches Err(same) && says(same, s.code, s.message@),
            Ok(forge) => match call {
                Err(s) => r matches Err(same) && says(same, s.code, s.message@),
                Ok(c) => r matches Ok(d) && d.forge == forge && d.repo == repo && d.call == c,
            },
        },
{
}

/// A change that a request must name is the one that it names.
pub proof fn law_required_change(change: Option<ChangeRef>, r: Result<ChangeRef, Status>)
    requires
        call_ensures(require_change, (change,), r),
    ensures
        match change {
            Some(c) => r matches Ok(same) && same == c,
            None => r matches Err(s) && says(s, Code::InvalidArgument, "change is required"@),
        },
{
}

/// Whether a request for `call` was dispatched rightly: refused without a repository; refused as
/// the factory refused it; else run on the adapter that the factory built for that repository and
/// metadata, or refused where the request lacks the change that it is about.
pub open spec fn dispatched<F: ForgeFactory>(
    gateway: &ForgeGateway<F>,
    repo: Option<RepoRef>,
    meta: &MetadataMap,
    call: Option<ForgeCall>,
    r: Result<Dispatch<F::Adapter>, Status>,
) -> bool {
    match r {
        Ok(d) => repo == Some(d.repo) && call == Some(d.call) && call_ensures(
            F::build,
            (&gateway.source(), &d.repo, meta),
            Ok(d.forge),
        ),
        Err(s) => match repo {
            None => says(s, Code::InvalidArgument, "repo is required"@),
            Some(repo) => {
                ||| exists|refusal: Status| #[trigger]
                    call_ensures(F::build, (&gateway.source(), &repo, meta), Err(refusal)) && says(
                        s,
                        refusal.code,
                        refusal.message@,
                    )
                ||| call is None && says(s, Code::InvalidArgument, "change is required"@) && exists|
                    forge: F::Adapter,
                |
                    call_ensures(F::build, (&gateway.source(), &repo, meta), Ok(forge))
            },
        },
    }
}

proof fn lemma_dispatched<F: ForgeFactory>(
    gateway: &ForgeGateway<F>,
    repo: Option<RepoRef>,
    meta: &MetadataMap,
    call: Result<ForgeCall, StatusView>,
    r: Result<Dispatch<F::Adapter>, Status>,
)
    requires
        gateway.dispatches(repo, meta, call, r),
        call matches Err(s) ==> s == bad_request("change is required"@),
    ensures
        dispatched(
            gateway,
            repo,
            meta,
            match call {
                Ok(c) => Some(c),
                Err(_) => None,
            },
            r,
        ),
{
    if let Some(repo) = repo {
        let built = choose|built: Result<F::Adapter, Status>| #[trigger]
            call_ensures(F::build, (&gateway.source(), &repo, meta), built)
                && status_viewed(r) == assembled(
                repo,
                status_viewed(built),
                call,
            );
        match built {
            Ok(forge) => {
                assert(call_ensures(F::build, (&gateway.source(), &repo, meta), Ok(forge)));
            },
            Err(refusal) => {
                assert(call_ensures(F::build, (&gateway.source(), &repo, meta), Err(refusal)));
            },
        }
    }
}

/// Asking for the default branch is dispatched with just what the request says.
pub proof fn law_get_default_branch_dispatch<F: ForgeFactory>(
    gateway: &ForgeGateway<F>,
    msg: GetDefaultBranchRequest,
    meta: &MetadataMap,
    r: Result<Dispatch<F::Adapter>, Status>,
)
    requires
        call_ensures(ForgeGateway::<F>::get_default_branch, (gateway, msg, meta), r),
    ensures
        dispatched(
            gateway,
            msg.repo,
            meta,
            Some(
                ForgeCall::DefaultBranch,
            ),
            r,
        ),
{
    lemma_dispatched(
        gateway,
        msg.repo,
        meta,
        Ok(
            ForgeCall::DefaultBranch,
        ),
        r,
    );
}

/// Reading a file is dispatched with just what the request says.
pub proof fn law_read_file_dispatch<F: ForgeFactory>(
    gateway: &ForgeGateway<F>,
    msg: ReadFileRequest,
    meta: &MetadataMap,
    r: Result<Dispatch<F::Adapter>, Status>,
)
    requires
        call_ensures(ForgeGateway::<F>::read_file, (gateway, msg, meta), r),
    ensures
        dispatched(
            gateway,
            msg.repo,
            meta,
            Some(
                ForgeCall::ReadFile {
                    path: msg.path,
                    reference: msg.reference,
                },
            ),
            r,
        ),
{
    lemma_dispatched(
        gateway,
        msg.repo,
        meta,
        Ok(
            ForgeCall::ReadFile {
                    path: msg.path,
                    reference: msg.reference,
                },
        ),
        r,
    );
}

/// Creating a branch is dispatched with just what the request says.
pub proof fn law_create_branch_dispatch<F: ForgeFactory>(
    gateway: &ForgeGateway<F>,
    msg: CreateBranchRequest,
    meta: &MetadataMap,
    r: Result<Dispatch<F::Adapter>, Status>,
)
    requires
        call_ensures(ForgeGateway::<F>::create_branch, (gateway, msg, meta), r),
    ensures
        dispatched(
            gateway,
            msg.repo,
            meta,
            Some(
                ForgeCall::CreateBranch {
                    name: msg.name,
                    from_sha: msg.from_sha,
                },
            ),
            r,
        ),
{
    lemma_dispatched(
        gateway,
        msg.repo,
        meta,
        Ok(
            ForgeCall::CreateBranch {
                    name: msg.name,
                    from_sha: msg.from_sha,
                },
        ),
        r,
    );
}

/// Committing a file is dispatched with just what the request says.
pub proof fn law_commit_file_dispatch<F: ForgeFactory>(
    gateway: &ForgeGateway<F>,
    msg: CommitFileRequest,
    meta: &MetadataMap,
    r: Result<Dispatch<F::Adapter>, Status>,
)
    requires
        call_ensures(ForgeGateway::<F>::commit_file, (gateway, msg, meta), r),
    ensures
        dispatched(
            gateway,
            msg.repo,
            meta,
            Some(
                ForgeCall::CommitFile {
                    branch: msg.branch,
                    path: msg.path,
                    content: msg.content,
                    blob_sha: msg.blob_sha,
                    message: msg.message,
                },
            ),
            r,
        ),
{
    lemma_dispatched(
        gateway,
        msg.repo,
        meta,
        Ok(
            ForgeCall::CommitFile {
                    branch: msg.branch,
                    path: msg.path,
                    content: msg.content,
                    blob_sha: msg.blob_sha,
                    message: msg.message,
                },
        ),
        r,
    );
}

/// Opening a change is dispatched with just what the request says.
pub proof fn law_open_change_dispatch<F: ForgeFactory>(
    gateway: &ForgeGateway<F>,
    msg: OpenChangeRequest,
    meta: &MetadataMap,
    r: Result<Dispatch<F::Adapter>, Status>,
)
    requires
        call_ensures(ForgeGateway::<F>::open_change, (gateway, msg, meta), r),
    ensures
        dispatched(
            gateway,
            msg.repo,
            meta,
            Some(
                ForgeCall::OpenChange {
                    head: msg.head,
                    base: msg.base,
                    title: msg.title,
                    body: msg.body,
                    remove_source_branch: msg.remove_source_branch,
                },
            ),
            r,
        ),
{
    lemma_dispatched(
        gateway,
        msg.repo,
        meta,
        Ok(
            ForgeCall::OpenChange {
                    head: msg.head,
                    base: msg.base,
                    title: msg.title,
                    body: msg.body,
                    remove_source_branch: msg.remove_source_branch,
                },
        ),
        r,
    );
}

/// Listing triggers is dispatched with just what the request says.
pub proof fn law_list_triggers_dispatch<F: ForgeFactory>(
    gateway: &ForgeGateway<F>,
    msg: ListTriggersRequest,
    meta: &MetadataMap,
    r: Result<Dispatch<F::Adapter>, Status>,
)
    requires
        call_ensures(ForgeGateway::<F>::list_triggers, (gateway, msg, meta), r),
    ensures
        dispatched(
            gateway,
            msg.repo,
            meta,
            Some(
                ForgeCall::ListTriggers,
            ),
            r,
        ),
{
    lemma_dispatched(
        gateway,
        msg.repo,
        meta,
        Ok(
            ForgeCall::ListTriggers,
        ),
        r,
    );
}

/// Having a trigger is dispatched with just what the request says.
pub proof fn law_ensure_trigger_dispatch<F: ForgeFactory>(
    gateway: &ForgeGateway<F>,
    msg: EnsureTriggerRequest,
    meta: &MetadataMap,
    r: Result<Dispatch<F::Adapter>, Status>,
)
    requires
        call_ensures(ForgeGateway::<F>::ensure_trigger, (gateway, msg, meta), r),
    ensures
        dispatched(
            gateway,
            msg.repo,
            meta,
            Some(
                ForgeCall::EnsureTrigger {
                    url: msg.url,
                    events: msg.events,
                    secret: msg.secret,
                },
            ),
            r,
        ),
{
    lemma_dispatched(
        gateway,
        msg.repo,
        meta,
        Ok(
            ForgeCall::EnsureTrigger {
                    url: msg.url,
                    events: msg.events,
                    secret: msg.secret,
                },
        ),
        r,
    );
}

/// Having a change merged by its pipeline is dispatched for just the change that the request names.
pub proof fn law_enable_auto_merge_dispatch<F: ForgeFactory>(
    gateway: &ForgeGateway<F>,
    msg: EnableAutoMergeRequest,
    meta: &MetadataMap,
    r: Result<Dispatch<F::Adapter>, Status>,
)
    requires
        call_ensures(ForgeGateway::<F>::enable_auto_merge, (gateway, msg, meta), r),
    ensures
        dispatched(
            gateway,
            msg.repo,
            meta,
            match msg.change {
                Some(change) => Some(ForgeCall::EnableAutoMerge { change }),
                None => None,
            },
            r,
        ),
{
    lemma_dispatched(
        gateway,
        msg.repo,
        meta,
        match msg.change {
            Some(change) => Ok(ForgeCall::EnableAutoMerge { change }),
            None => Err(bad_request("change is required"@)),
        },
        r,
    );
}

/// Asking how a pipeline stands is dispatched for just the change that the request names.
pub proof fn law_pipeline_status_dispatch<F: ForgeFactory>(
    gateway: &ForgeGateway<F>,
    msg: PipelineStatusRequest,
    meta: &MetadataMap,
    r: Result<Dispatch<F::Adapter>, Status>,
)
    requires
        call_ensures(ForgeGateway::<F>::pipeline_status, (gateway, msg, meta), r),
    ensures
        dispatched(
            gateway,
            msg.repo,
            meta,
            match msg.change {
                Some(change) => Some(ForgeCall::PipelineStatus { change }),
                None => None,
            },
            r,
        ),
{
    lemma_dispatched(
        gateway,
        msg.repo,
        meta,
        match msg.change {
            Some(change) => Ok(ForgeCall::PipelineStatus { change }),
            None => Err(bad_request("change is required"@)),
        },
        r,
    );
}

/// Merging a change is dispatched for just the change that the request names.
pub proof fn law_merge_dispatch<F: ForgeFactory>(
    gateway: &ForgeGateway<F>,
    msg: MergeRequest,
    meta: &MetadataMap,
    r: Result<Dispatch<F::Adapter>, Status>,
)
    requires
        call_ensures(ForgeGateway::<F>::merge, (gateway, msg, meta), r),
    ensures
        dispatched(
            gateway,
            msg.repo,
            meta,
            match msg.change {
                Some(change) => Some(ForgeCall::Merge { change }),
                None => None,
            },
            r,
        ),
{
    lemma_dispatched(
        gateway,
        msg.repo,
        meta,
        match msg.change {
            Some(change) => Ok(ForgeCall::Merge { change }),
            None => Err(bad_request("change is required"@)),
        },
        r,
    );
}

/// Asking how a change stands is dispatched for just the change that the request names.
pub proof fn law_get_change_state_dispatch<F: ForgeFactory>(
    gateway: &ForgeGateway<F>,
    msg: GetChangeStateRequest,
    meta: &MetadataMap,
    r: Result<Dispatch<F::Adapter>, Status>,
)
    requires
        call_ensures(ForgeGateway::<F>::get_change_state, (gateway, msg, meta), r),
    ensures
        dispatched(
            gateway,
            msg.repo,
            meta,
            match msg.change {
                Some(change) => Some(ForgeCall::ChangeState { change }),
                None => None,
            },
            r,
        ),
{
    lemma_dispatched(
        gateway,
        msg.repo,
        meta,
        match msg.change {
            Some(change) => Ok(ForgeCall::ChangeState { change }),
            None => Err(bad_request("change is required"@)),
        },
        r,
    );
}

/// The default branch is answered as it was read; a failure is an internal one, with its message.
pub proof fn law_default_branch_response(
    outcome: ForgeResult<String>,
    r: Result<GetDefaultBranchResponse, Status>,
)
    requires
        call_ensures(default_branch_response, (outcome,), r),
    ensures
        match outcome {
            Ok(branch) => r matches Ok(answer) && answer.branch@ == branch@,
            Err(e) => r matches Err(s) && says(s, Code::Internal, e.message@),
        },
{
}

/// A file is answered as it was read, and found just when there is one; a failure is an
/// internal one, with its message.
pub proof fn law_read_file_response(
    outcome: ForgeResult<Option<FileBlob>>,
    r: Result<ReadFileResponse, Status>,
)
    requires
        call_ensures(read_file_response, (outcome,), r),
    ensures
        match outcome {
            Ok(blob) => r matches Ok(answer) && answer.blob == blob && (answer.found
                <==> blob is Some),
            Err(e) => r matches Err(s) && says(s, Code::Internal, e.message@),
        },
{
}

/// A branch is answered as new or as there, as it was; a failure is an internal one, with its
/// message.
pub proof fn law_create_branch_response(
    outcome: ForgeResult<BranchOutcome>,
    r: Result<CreateBranchResponse, Status>,
)
    requires
        call_ensures(create_branch_response, (outcome,), r),
    ensures
        match outcome {
            Ok(out) => r matches Ok(answer) && answer.created == out.created
                && answer.already_existed == out.already_existed,
            Err(e) => r matches Err(s) && says(s, Code::Internal, e.message@),
        },
{
}

/// A commit is answered as it was named; a failure is an internal one, with its message.
pub proof fn law_commit_file_response(
    outcome: ForgeResult<String>,
    r: Result<CommitFileResponse, Status>,
)
    requires
        call_ensures(commit_file_response, (outcome,), r),
    ensures
        match outcome {
            Ok(sha) => r matches Ok(answer) && answer.commit_sha@ == sha@,
            Err(e) => r matches Err(s) && says(s, Code::Internal, e.message@),
        },
{
}

/// An open change is answered as it is, with whether it was there; a failure is an
/// internal one, with its message.
pub proof fn law_open_change_response(
    outcome: ForgeResult<OpenedChange>,
    r: Result<OpenChangeResponse, Status>,
)
    requires
        call_ensures(open_change_response, (outcome,), r),
    ensures
        match outcome {
            Ok(out) => r matches Ok(answer) && answer.change == Some(out.change)
                && answer.already_existed == out.already_existed,
            Err(e) => r matches Err(s) && says(s, Code::Internal, e.message@),
        },
{
}

/// Auto-merge is answered as on or off, as it is; a failure is an internal one, with its message.
pub proof fn law_enable_auto_merge_response(
    outcome: ForgeResult<bool>,
    r: Result<EnableAutoMergeResponse, Status>,
)
    requires
        call_ensures(enable_auto_merge_response, (outcome,), r),
    ensures
        match outcome {
            Ok(on) => r matches Ok(answer) && answer.enabled == on,
            Err(e) => r matches Err(s) && says(s, Code::Internal, e.message@),
        },
{
}

/// A merge commit is answered as it was named; a failure is an internal one, with its message.
pub proof fn law_merge_response(
    outcome: ForgeResult<String>,
    r: Result<MergeResponse, Status>,
)
    requires
        call_ensures(merge_response, (outcome,), r),
    ensures
        match outcome {
            Ok(sha) => r matches Ok(answer) && answer.merge_commit_sha@ == sha@,
            Err(e) => r matches Err(s) && says(s, Code::Internal, e.message@),
        },
{
}

/// A pipeline is answered by its own number, address and the wire number of its status; a failure
/// is an internal one, with its message.
pub proof fn law_pipeline_status_response(
    outcome: ForgeResult<PipelineStatus>,
    status: CiStatus,
    number: i32,
    r: Result<PipelineStatusResponse, Status>,
)
    requires
        call_ensures(CiStatus::to_wire, (status,), number),
        call_ensures(pipeline_status_response, (outcome,), r),
    ensures
        match outcome {
            Ok(found) => r matches Ok(answer) && answer.pipeline_id@ == found.pipeline_id@
                && answer.pipeline_url@ == found.url@ && (status == found.status ==> answer.status
                == number),
            Err(e) => r matches Err(s) && says(s, Code::Internal, e.message@),
        },
{
}

/// A change is answered by the wire number of its state, and never with a merge commit; a failure
/// is an internal one, with its message.
pub proof fn law_change_state_response(
    outcome: ForgeResult<ChangeState>,
    state: ChangeState,
    number: i32,
    r: Result<GetChangeStateResponse, Status>,
)
    requires
        call_ensures(ChangeState::to_wire, (state,), number),
        call_ensures(change_state_response, (outcome,), r),
    ensures
        match outcome {
            Ok(found) => r matches Ok(answer) && answer.merge_commit_sha@.len() == 0 && (state
                == found ==> answer.state == number),
            Err(e) => r matches Err(s) && says(s, Code::Internal, e.message@),
        },
{
}

/// Triggers are answered as they were listed, all of them; a failure is an internal one, with its
/// message.
pub proof fn law_list_triggers_response<T>(
    outcome: ForgeResult<Vec<T>>,
    r: Result<ListTriggersResponse<T>, Status>,
)
    requires
        call_ensures(list_triggers_response::<T>, (outcome,), r),
    ensures
        match outcome {
            Ok(triggers) => r matches Ok(answer) && answer.triggers@ == triggers@,
            Err(e) => r matches Err(s) && says(s, Code::Internal, e.message@),
        },
{
}

/// A trigger is answered as it is, with whether it was created; a failure is an internal one, with
/// its message.
pub proof fn law_ensure_trigger_response<T>(
    outcome: ForgeResult<EnsuredTrigger<T>>,
    r: Result<EnsureTriggerResponse<T>, Status>,
)
    requires
        call_ensures(ensure_trigger_response::<T>, (outcome,), r),
    ensures
        match outcome {
            Ok(out) => r matches Ok(answer) && answer.trigger == Some(out.trigger)
                && answer.created == out.created,
            Err(e) => r matches Err(s) && says(s, Code::Internal, e.message@),
        },
{
}

} // verus!
