//! Laws of the GitLab operations: what each one asks for, and what it concludes from the answer.
use vstd::prelude::*;
use vstd::utf8::*;

use crate::gitlab::{
    adapter_of, file_text, json, map_ci, GitLabForge, GlFile, GlMr, GlPipeline, OpenChangeStep,
    Project, ReadFileStep, USER_AGENT,
};
use crate::laws::text::law_occurrence;
use crate::model::{
    BranchOutcome, ChangeRef, ChangeState, CiStatus, FileBlob, ForgeKind, ForgeResult,
    OpenedChange, PipelineStatus, RepoRef,
};
use crate::outside::{base64_decoded, client_built, percent_encoded, status_reason};
use crate::rest::{fields_view, HttpOutcome, HttpRequest, JsonField, Verb};
use crate::text::{decimal, is_line_end, trimmed, without_line_ends};

verus! {

/// GitLab's words for how a pipeline stands, all of them and no others.
pub proof fn law_pipeline_words(word: &str, ci: CiStatus)
    requires
        call_ensures(map_ci, (word,), ci),
    ensures
        ci == CiStatus::Success <==> word@ == "success"@,
        ci == CiStatus::Failed <==> word@ == "failed"@,
        ci == CiStatus::Running <==> word@ == "running"@,
        ci == CiStatus::Canceled <==> word@ == "canceled"@ || word@ == "skipped"@,
        ci == CiStatus::Pending <==> word@ == "created"@ || word@ == "waiting_for_resource"@
            || word@ == "preparing"@ || word@ == "pending"@ || word@ == "scheduled"@ || word@
            == "manual"@,
        ci != CiStatus::NoPipeline,
{
    reveal_strlit("success");
    reveal_strlit("failed");
    reveal_strlit("running");
    reveal_strlit("canceled");
    reveal_strlit("skipped");
    reveal_strlit("created");
    reveal_strlit("waiting_for_resource");
    reveal_strlit("preparing");
    reveal_strlit("pending");
    reveal_strlit("scheduled");
    reveal_strlit("manual");
    assert(word@ == "success"@ ==> word@[1] == 'u');
    assert(word@ == "failed"@ ==> word@[1] == 'a' && word@[0] == 'f');
    assert(word@ == "canceled"@ ==> word@[1] == 'a' && word@[0] == 'c');
    assert(word@ == "skipped"@ ==> word@[1] == 'k');
    assert(word@ == "running"@ ==> word@[1] == 'u' && word@[0] == 'r');
    assert(word@ == "created"@ ==> word@[1] == 'r' && word@[0] == 'c');
    assert(word@ == "waiting_for_resource"@ ==> word@[0] == 'w');
    assert(word@ == "preparing"@ ==> word@[1] == 'r' && word@[0] == 'p');
    assert(word@ == "pending"@ ==> word@[0] == 'p');
    assert(word@ == "scheduled"@ ==> word@[1] == 'c');
    assert(word@ == "manual"@ ==> word@[0] == 'm');
    assert(word@ == "success"@ ==> word@[0] == 's');
}

/// An adapter works with the token that it was made with, on the host that the repository names,
/// else on the host that it was made for, else on the public instance. It calls itself by one name.
pub proof fn law_adapter_keeps_host_and_token(
    host: String,
    token: String,
    made: ForgeResult<GitLabForge>,
    repo: &RepoRef,
    url: String,
    request: HttpRequest,
)
    requires
        call_ensures(GitLabForge::new, (host, token), made),
        made matches Ok(forge) ==> call_ensures(GitLabForge::base, (&forge, repo), url)
            && call_ensures(GitLabForge::default_branch, (&forge, repo), request),
    ensures
        USER_AGENT@ == "fastverk-forge"@,
        made is Ok <==> exists|http: reqwest::Client|
            #[trigger] client_built(USER_AGENT, Ok(http)) && (made matches Ok(forge)
                && forge.connection() == http),
        match made {
            Ok(_) => request.bearer@ == token@ && url@ == "https://"@ + (if repo.host@.len() > 0 {
                repo.host@
            } else if host@.len() > 0 {
                host@
            } else {
                "gitlab.com"@
            }) + "/api/v4/projects/"@ + percent_encoded(repo.owner@ + "/"@ + repo.name@),
            Err(e) => e.message@ == "build gitlab http client"@ && exists|why: reqwest::Error|
                client_built(USER_AGENT, Err(why)),
        },
{
    let built = choose|built: Result<reqwest::Client, reqwest::Error>| #[trigger]
        client_built(USER_AGENT, built) && adapter_of(host@, token@, built, made);
    match built {
        Ok(http) => {
            assert(client_built(USER_AGENT, Ok(http)));
        },
        Err(why) => {
            assert(client_built(USER_AGENT, Err(why)));
        },
    }
}

/// An adapter that rests on a given client keeps that client, the token and the host; without a
/// client there is none.
pub proof fn law_adapter_rests_on_its_client(
    host: String,
    token: String,
    built: Result<reqwest::Client, reqwest::Error>,
    made: ForgeResult<GitLabForge>,
    repo: &RepoRef,
    name: &str,
    client: &reqwest::Client,
    request: HttpRequest,
)
    requires
        call_ensures(GitLabForge::with_client, (host, token, built), made),
        made matches Ok(forge) ==> call_ensures(GitLabForge::host_for, (&forge, repo), name)
            && call_ensures(GitLabForge::client, (&forge,), client) && call_ensures(
            GitLabForge::default_branch,
            (&forge, repo),
            request,
        ),
    ensures
        made is Ok <==> built is Ok,
        match made {
            Ok(_) => *client == built->Ok_0 && request.bearer@ == token@ && name@ == (
            if repo.host@.len() > 0 {
                repo.host@
            } else if host@.len() > 0 {
                host@
            } else {
                "gitlab.com"@
            }),
            Err(e) => e.message@ == "build gitlab http client"@,
        },
{
}

/// A pinned adapter goes to its own host for every repository, with the same token and client.
pub proof fn law_pinned_adapter_keeps_to_its_host(
    forge: GitLabForge,
    pinned: GitLabForge,
    repo: &RepoRef,
    name: &str,
    client: &reqwest::Client,
    same: &reqwest::Client,
    request: HttpRequest,
)
    requires
        call_ensures(GitLabForge::pin, (forge,), pinned),
        call_ensures(GitLabForge::host_for, (&pinned, repo), name),
        call_ensures(GitLabForge::client, (&forge,), client),
        call_ensures(GitLabForge::client, (&pinned,), same),
        call_ensures(GitLabForge::default_branch, (&pinned, repo), request),
    ensures
        name@ == forge.default_host(),
        *client == *same,
        request.bearer@ == forge.bearer(),
{
}

/// The address of a project is at the host that requests go to, under the project's full name,
/// encoded. The adapter is one for GitLab.
pub proof fn law_project_address(
    forge: &GitLabForge,
    repo: &RepoRef,
    name: &str,
    url: String,
    kind: ForgeKind,
)
    requires
        call_ensures(GitLabForge::host_for, (forge, repo), name),
        call_ensures(GitLabForge::base, (forge, repo), url),
        call_ensures(GitLabForge::kind, (forge,), kind),
    ensures
        url@ == "https://"@ + name@ + "/api/v4/projects/"@ + percent_encoded(
            repo.owner@ + "/"@ + repo.name@,
        ),
        kind == ForgeKind::Gitlab,
{
}

/// Asking for the default branch reads the project.
pub proof fn law_default_branch_request(
    forge: &GitLabForge,
    repo: &RepoRef,
    base: String,
    request: HttpRequest,
)
    requires
        call_ensures(GitLabForge::base, (forge, repo), base),
        call_ensures(GitLabForge::default_branch, (forge, repo), request),
    ensures
        request.verb == Verb::Get,
        request.url@ == base@,
        request.bearer@ == forge.bearer(),
        request.json is None,
{
}

/// Reading a file asks for that path at that revision. Without a revision the project is read
/// first, and then the path at the branch that the project names, or at "main".
pub proof fn law_read_file_requests(
    forge: &GitLabForge,
    repo: &RepoRef,
    path: &str,
    reference: &str,
    base: String,
    step: ReadFileStep,
    reply: &HttpOutcome,
    project: Option<Project>,
    branch: ForgeResult<String>,
    on_default: ForgeResult<HttpRequest>,
)
    requires
        call_ensures(GitLabForge::base, (forge, repo), base),
        call_ensures(GitLabForge::read_file, (forge, repo, path, reference), step),
        call_ensures(GitLabForge::default_branch_outcome, (reply, project), branch),
        call_ensures(
            GitLabForge::read_file_on_default,
            (forge, repo, path, reply, project),
            on_default,
        ),
    ensures
        match step {
            ReadFileStep::AskDefaultBranch(request) => reference@.len() == 0 && request.verb
                == Verb::Get && request.url@ == base@ && request.bearer@ == forge.bearer()
                && request.json is None,
            ReadFileStep::Fetch(request) => reference@.len() > 0 && request.verb == Verb::Get
                && request.url@ == base@ + "/repository/files/"@ + percent_encoded(path@)
                + "?ref="@ + percent_encoded(reference@) && request.bearer@ == forge.bearer()
                && request.json is None,
        },
        match branch {
            Ok(name) => on_default matches Ok(request) && request.verb == Verb::Get
                && request.url@ == base@ + "/repository/files/"@ + percent_encoded(path@)
                + "?ref="@ + percent_encoded(name@) && request.bearer@ == forge.bearer()
                && request.json is None,
            Err(e) => on_default matches Err(same) && same.message@ == e.message@,
        },
{
}

/// Creating a branch names the branch and what it starts from.
pub proof fn law_create_branch_request(
    forge: &GitLabForge,
    repo: &RepoRef,
    name: &str,
    from_ref: &str,
    base: String,
    request: HttpRequest,
)
    requires
        call_ensures(GitLabForge::base, (forge, repo), base),
        call_ensures(GitLabForge::create_branch, (forge, repo, name, from_ref), request),
    ensures
        request.verb == Verb::Post,
        request.url@ == base@ + "/repository/branches?branch="@ + percent_encoded(name@)
            + "&ref="@ + percent_encoded(from_ref@),
        request.bearer@ == forge.bearer(),
        request.json is None,
{
}

/// Committing a file sends the branch, the whole content and the message, and the commit that the
/// file was read at just where there is one.
pub proof fn law_commit_file_request(
    forge: &GitLabForge,
    repo: &RepoRef,
    branch: &str,
    path: &str,
    content: &str,
    blob_sha: &str,
    message: &str,
    base: String,
    request: HttpRequest,
)
    requires
        call_ensures(GitLabForge::base, (forge, repo), base),
        call_ensures(
            GitLabForge::commit_file,
            (forge, repo, branch, path, content, blob_sha, message),
            request,
        ),
    ensures
        request.verb == Verb::Put,
        request.url@ == base@ + "/repository/files/"@ + percent_encoded(path@),
        request.bearer@ == forge.bearer(),
        request.json matches Some(sent) && sent@.len() == (if blob_sha@.len() > 0 {
            4int
        } else {
            3
        }) && sent@[0].0@ == "branch"@ && (sent@[0].1 matches JsonField::Text(t) && t@ == branch@)
            && sent@[1].0@ == "content"@ && (sent@[1].1 matches JsonField::Text(t) && t@
            == content@) && sent@[2].0@ == "commit_message"@ && (
        sent@[2].1 matches JsonField::Text(t) && t@ == message@) && (blob_sha@.len() > 0 ==> (
        sent@[3].0@ == "last_commit_id"@ && (sent@[3].1 matches JsonField::Text(t) && t@
            == blob_sha@))),
{
    let sent = request.json->0;
    let seen = fields_view(sent@);
    assert(seen.len() == sent@.len());
    assert(seen[0] == (sent@[0].0@, sent@[0].1@));
    assert(seen[1] == (sent@[1].0@, sent@[1].1@));
    assert(seen[2] == (sent@[2].0@, sent@[2].1@));
    if blob_sha@.len() > 0 {
        assert(seen[3] == (sent@[3].0@, sent@[3].1@));
    }
}

/// Opening a change sends the branches, the title, the description, and whether the source branch
/// is to be removed, just as they were given.
pub proof fn law_open_change_request(
    forge: &GitLabForge,
    repo: &RepoRef,
    head: &str,
    base: &str,
    title: &str,
    body: &str,
    remove_source_branch: bool,
    project: String,
    request: HttpRequest,
)
    requires
        call_ensures(GitLabForge::base, (forge, repo), project),
        call_ensures(
            GitLabForge::open_change,
            (forge, repo, head, base, title, body, remove_source_branch),
            request,
        ),
    ensures
        request.verb == Verb::Post,
        request.url@ == project@ + "/merge_requests"@,
        request.bearer@ == forge.bearer(),
        request.json matches Some(sent) && sent@.len() == 5 && sent@[0].0@ == "source_branch"@ && (
        sent@[0].1 matches JsonField::Text(t) && t@ == head@) && sent@[1].0@ == "target_branch"@
            && (sent@[1].1 matches JsonField::Text(t) && t@ == base@) && sent@[2].0@ == "title"@
            && (sent@[2].1 matches JsonField::Text(t) && t@ == title@) && sent@[3].0@
            == "description"@ && (sent@[3].1 matches JsonField::Text(t) && t@ == body@)
            && sent@[4].0@ == "remove_source_branch"@ && sent@[4].1 == JsonField::Flag(
            remove_source_branch,
        ),
{
    let sent = request.json->0;
    let seen = fields_view(sent@);
    assert(seen.len() == sent@.len());
    assert(seen[0] == (sent@[0].0@, sent@[0].1@));
    assert(seen[1] == (sent@[1].0@, sent@[1].1@));
    assert(seen[2] == (sent@[2].0@, sent@[2].1@));
    assert(seen[3] == (sent@[3].0@, sent@[3].1@));
    assert(seen[4] == (sent@[4].0@, sent@[4].1@));
}

/// Two requests to open a change that differ in whether the source branch is removed differ in
/// just that field: one sends true, the other false.
pub proof fn law_source_branch_is_removed_on_request_only(
    forge: &GitLabForge,
    repo: &RepoRef,
    head: &str,
    base: &str,
    title: &str,
    body: &str,
    keeps: HttpRequest,
    removes: HttpRequest,
)
    requires
        call_ensures(
            GitLabForge::open_change,
            (forge, repo, head, base, title, body, false),
            keeps,
        ),
        call_ensures(
            GitLabForge::open_change,
            (forge, repo, head, base, title, body, true),
            removes,
        ),
    ensures
        keeps.verb == removes.verb,
        keeps.url@ == removes.url@,
        keeps.json matches Some(k) && removes.json matches Some(r) && k@.len() == r@.len() && (
        forall|i: int|
            0 <= i < k@.len() ==> (#[trigger] k@[i]).0@ == r@[i].0@ && if k@[i].0@
                == "remove_source_branch"@ {
                k@[i].1 == JsonField::Flag(false) && r@[i].1 == JsonField::Flag(true)
            } else {
                k@[i].1@ == r@[i].1@
            }) && (exists|i: int|
            0 <= i < k@.len() && (#[trigger] k@[i]).0@ == "remove_source_branch"@),
{
    reveal_strlit("remove_source_branch");
    reveal_strlit("source_branch");
    reveal_strlit("target_branch");
    reveal_strlit("title");
    reveal_strlit("description");
    let k = keeps.json->0;
    let r = removes.json->0;
    let kv = fields_view(k@);
    let rv = fields_view(r@);
    assert(kv.len() == k@.len() && rv.len() == r@.len());
    assert forall|i: int| 0 <= i < k@.len() implies (#[trigger] k@[i]).0@ == r@[i].0@ && if k@[i].0@
        == "remove_source_branch"@ {
        k@[i].1 == JsonField::Flag(false) && r@[i].1 == JsonField::Flag(true)
    } else {
        k@[i].1@ == r@[i].1@
    } by {
        assert(kv[i] == (k@[i].0@, k@[i].1@));
        assert(rv[i] == (r@[i].0@, r@[i].1@));
        assert(i == 0 || i == 1 || i == 2 || i == 3 || i == 4);
        assert("remove_source_branch"@.len() != k@[i].0@.len() || i == 4);
    }
    assert(kv[4] == (k@[4].0@, k@[4].1@));
}

/// Having a change merged by its pipeline, merging it, asking for its pipelines and asking for it
/// each name that change by its number.
pub proof fn law_change_requests(
    forge: &GitLabForge,
    repo: &RepoRef,
    change: &ChangeRef,
    base: String,
    auto_merge: HttpRequest,
    merge: HttpRequest,
    pipelines: HttpRequest,
    state: HttpRequest,
)
    requires
        call_ensures(GitLabForge::base, (forge, repo), base),
        call_ensures(GitLabForge::enable_auto_merge, (forge, repo, change), auto_merge),
        call_ensures(GitLabForge::merge, (forge, repo, change), merge),
        call_ensures(GitLabForge::pipeline_status, (forge, repo, change), pipelines),
        call_ensures(GitLabForge::change_state, (forge, repo, change), state),
    ensures
        auto_merge.verb == Verb::Put,
        auto_merge.url@ == base@ + "/merge_requests/"@ + decimal(change.number as nat) + "/merge"@,
        auto_merge.bearer@ == forge.bearer(),
        auto_merge.json matches Some(sent) && sent@.len() == 1 && sent@[0].0@
            == "merge_when_pipeline_succeeds"@ && sent@[0].1 == JsonField::Flag(true),
        merge.verb == Verb::Put,
        merge.url@ == base@ + "/merge_requests/"@ + decimal(change.number as nat) + "/merge"@,
        merge.bearer@ == forge.bearer(),
        merge.json is None,
        pipelines.verb == Verb::Get,
        pipelines.url@ == base@ + "/merge_requests/"@ + decimal(change.number as nat)
            + "/pipelines"@,
        pipelines.bearer@ == forge.bearer(),
        pipelines.json is None,
        state.verb == Verb::Get,
        state.url@ == base@ + "/merge_requests/"@ + decimal(change.number as nat),
        state.bearer@ == forge.bearer(),
        state.json is None,
{
    let sent = auto_merge.json->0;
    let seen = fields_view(sent@);
    assert(seen.len() == sent@.len());
    assert(seen[0] == (sent@[0].0@, sent@[0].1@));
}

/// An answer with a JSON body counts just when it came, its body could be read as text, its status
/// is in 200..300 and the body was read as what is asked for; else it is told what went wrong, the
/// first of these that failed.
pub proof fn law_json<T>(reply: &HttpOutcome, parsed: Option<T>, r: ForgeResult<T>)
    requires
        call_ensures(json::<T>, (reply, parsed), r),
    ensures
        match *reply {
            HttpOutcome::Unanswered => r matches Err(e) && e.message@ == "gitlab request"@,
            HttpOutcome::Answered { status, body } => match body {
                None => r matches Err(e) && e.message@ == "read gitlab body"@,
                Some(text) => if 200 <= status.number() < 300 {
                    match parsed {
                        Some(v) => r matches Ok(w) && w == v,
                        None => r matches Err(e) && e.message@ == "parse gitlab json: "@ + (
                        if text@.len() <= 300 {
                            text@
                        } else {
                            text@.subrange(0, 300)
                        }),
                    }
                } else {
                    r matches Err(e) && e.message@ == "gitlab"@ + " "@ + (decimal(
                        status.number() as nat,
                    ) + " "@ + status_reason(status.number())) + ": "@ + trimmed(text@)
                },
            },
        },
{
}

/// The default branch is the one that the project names, or "main"; it fails as reading the
/// project does.
pub proof fn law_default_branch(
    reply: &HttpOutcome,
    project: Option<Project>,
    read: ForgeResult<Project>,
    r: ForgeResult<String>,
)
    requires
        call_ensures(json::<Project>, (reply, project), read),
        call_ensures(GitLabForge::default_branch_outcome, (reply, project), r),
    ensures
        match read {
            Ok(p) => r matches Ok(name) && name@ == (match p.default_branch {
                Some(branch) => branch@,
                None => "main"@,
            }),
            Err(e) => r matches Err(same) && same.message@ == e.message@,
        },
        r is Ok <==> (reply matches HttpOutcome::Answered { status, body } && 200
            <= status.number() < 300 && body is Some && project is Some),
{
}

/// Stripping line endings keeps every other character, in order.
proof fn lemma_without_line_ends(s: Seq<char>)
    ensures
        without_line_ends(s) == s.filter(|c: char| c != '\r' && c != '\n'),
{
    assert((|c: char| !is_line_end(c)) =~= (|c: char| c != '\r' && c != '\n'));
}

/// A file that is read is the whole file: the bytes of its text are just what the answer's base64,
/// line endings aside, stands for. It keeps the path that was asked for and carries the commit
/// that GitLab names.
pub proof fn law_file_is_read_whole(
    path: &str,
    reply: &HttpOutcome,
    file: Option<GlFile>,
    r: ForgeResult<Option<FileBlob>>,
)
    requires
        call_ensures(GitLabForge::read_file_outcome, (path, reply, file), r),
    ensures
        r matches Ok(Some(blob)) ==> (file matches Some(f) && blob.path@ == path@ && blob.blob_sha@
            == f.last_commit_id@ && base64_decoded(
            f.content@.filter(|c: char| c != '\r' && c != '\n'),
        ) == Some(encode_utf8(blob.content@))),
{
    if let Some(f) = file {
        lemma_without_line_ends(f.content@);
        let raw = base64_decoded(without_line_ends(f.content@));
        if raw is Some && valid_utf8(raw->0) {
            decode_utf8_encode_utf8(raw->0);
        }
    }
}

/// Reading a file finds none just for status 404, gives the file just for a success whose body is
/// a file with base64 of UTF-8 text, and else tells the first thing that went wrong.
pub proof fn law_read_file_outcome(
    path: &str,
    reply: &HttpOutcome,
    file: Option<GlFile>,
    r: ForgeResult<Option<FileBlob>>,
)
    requires
        call_ensures(GitLabForge::read_file_outcome, (path, reply, file), r),
    ensures
        match *reply {
            HttpOutcome::Unanswered => r matches Err(e) && e.message@ == "gitlab request"@,
            HttpOutcome::Answered { status, body } => if status.number() == 404 {
                r matches Ok(None)
            } else if body is None {
                r matches Err(e) && e.message@ == "read gitlab file body"@
            } else if !(200 <= status.number() < 300) {
                r matches Err(e) && e.message@ == "gitlab read_file"@ + " "@ + (decimal(
                    status.number() as nat,
                ) + " "@ + status_reason(status.number())) + ": "@ + trimmed(body->0@)
            } else {
                match file {
                    None => r matches Err(e) && e.message@ == "parse gitlab file"@,
                    Some(f) => match base64_decoded(
                        f.content@.filter(|c: char| c != '\r' && c != '\n'),
                    ) {
                        None => r matches Err(e) && e.message@ == "decode gitlab file content"@,
                        Some(bytes) => if valid_utf8(bytes) {
                            r matches Ok(Some(_))
                        } else {
                            r matches Err(e) && e.message@ == "gitlab file not utf-8"@
                        },
                    },
                }
            },
        },
{
    if let Some(f) = file {
        lemma_without_line_ends(f.content@);
    }
}

/// The file that comes of decoded bytes is just these bytes as text, whole, and only for a success
/// that describes a file; with status 404 there is none.
pub proof fn law_decoded_file_is_whole(
    path: &str,
    reply: &HttpOutcome,
    file: Option<GlFile>,
    raw: Option<Vec<u8>>,
    r: ForgeResult<Option<FileBlob>>,
    text: ForgeResult<String>,
)
    requires
        call_ensures(GitLabForge::read_decoded, (path, reply, file, raw), r),
        call_ensures(file_text, (raw,), text),
    ensures
        match text {
            Ok(t) => raw matches Some(bytes) && encode_utf8(t@) == bytes@,
            Err(e) => match raw {
                None => e.message@ == "decode gitlab file content"@,
                Some(bytes) => !valid_utf8(bytes@) && e.message@ == "gitlab file not utf-8"@,
            },
        },
        r matches Ok(Some(blob)) ==> (file matches Some(f) && raw matches Some(bytes)
            && encode_utf8(blob.content@) == bytes@ && blob.path@ == path@ && blob.blob_sha@
            == f.last_commit_id@),
        match *reply {
            HttpOutcome::Unanswered => r matches Err(e) && e.message@ == "gitlab request"@,
            HttpOutcome::Answered { status, body } => if status.number() == 404 {
                r matches Ok(None)
            } else if body is None {
                r matches Err(e) && e.message@ == "read gitlab file body"@
            } else if !(200 <= status.number() < 300) {
                r matches Err(e) && e.message@ == "gitlab read_file"@ + " "@ + (decimal(
                    status.number() as nat,
                ) + " "@ + status_reason(status.number())) + ": "@ + trimmed(body->0@)
            } else if file is None {
                r matches Err(e) && e.message@ == "parse gitlab file"@
            } else {
                match text {
                    Ok(_) => r matches Ok(Some(_)),
                    Err(e) => r matches Err(same) && same.message@ == e.message@,
                }
            },
        },
{
    if raw is Some && valid_utf8(raw->0@) {
        decode_utf8_encode_utf8(raw->0@);
    }
}

/// A branch was created just when GitLab says so, and was there just when GitLab refuses with a
/// body that says "already exists"; any other refusal is an error.
pub proof fn law_create_branch(reply: &HttpOutcome, r: ForgeResult<BranchOutcome>)
    requires
        call_ensures(GitLabForge::create_branch_outcome, (reply,), r),
    ensures
        match *reply {
            HttpOutcome::Unanswered => r matches Err(e) && e.message@ == "gitlab request"@,
            HttpOutcome::Answered { status, body } => {
                let text = match body {
                    Some(t) => t@,
                    None => Seq::empty(),
                };
                if 200 <= status.number() < 300 {
                    r matches Ok(out) && out.created && !out.already_existed
                } else if exists|a: Seq<char>, b: Seq<char>|
                    text == #[trigger] (a + "already exists"@ + b) {
                    r matches Ok(out) && !out.created && out.already_existed
                } else {
                    r matches Err(e) && e.message@ == "gitlab create_branch"@ + " "@ + (decimal(
                        status.number() as nat,
                    ) + " "@ + status_reason(status.number())) + ": "@ + trimmed(text)
                }
            },
        },
{
    if let HttpOutcome::Answered { status, body } = *reply {
        law_occurrence(
            match body {
                Some(t) => t@,
                None => Seq::empty(),
            },
            "already exists"@,
        );
    }
}

/// A commit was made just when the answer's status is in 200..300, and then no commit is named;
/// every other status, and no answer, is an error.
pub proof fn law_commit_file(reply: &HttpOutcome, r: ForgeResult<String>)
    requires
        call_ensures(GitLabForge::commit_file_outcome, (reply,), r),
    ensures
        r is Ok <==> (reply matches HttpOutcome::Answered { status, .. } && 200 <= status.number()
            < 300),
        match *reply {
            HttpOutcome::Unanswered => r matches Err(e) && e.message@ == "gitlab request"@,
            HttpOutcome::Answered { status, body } => match r {
                Ok(sha) => sha@.len() == 0,
                Err(e) => e.message@ == "gitlab commit_file"@ + " "@ + (decimal(
                    status.number() as nat,
                ) + " "@ + status_reason(status.number())) + ": "@ + trimmed(
                    match body {
                        Some(t) => t@,
                        None => Seq::empty(),
                    },
                ),
            },
        },
{
}

/// Opening a change comes to the change that GitLab describes, as a new one, just when GitLab
/// opened it. When GitLab says that one "already exists", the open ones of that branch are asked
/// for; any other refusal is an error.
pub proof fn law_open_change(
    forge: &GitLabForge,
    repo: &RepoRef,
    head: &str,
    reply: &HttpOutcome,
    mr: Option<GlMr>,
    base: String,
    step: OpenChangeStep,
)
    requires
        call_ensures(GitLabForge::base, (forge, repo), base),
        call_ensures(GitLabForge::open_change_step, (forge, repo, head, reply, mr), step),
    ensures
        match *reply {
            HttpOutcome::Unanswered => step matches OpenChangeStep::Done(Err(e)) && e.message@
                == "gitlab request"@,
            HttpOutcome::Answered { status, body } => {
                let text = match body {
                    Some(t) => t@,
                    None => Seq::empty(),
                };
                if 200 <= status.number() < 300 {
                    match mr {
                        Some(m) => step matches OpenChangeStep::Done(Ok(opened))
                            && opened.change.number == m.iid && opened.change.url == m.web_url
                            && opened.change.branch == m.source_branch && !opened.already_existed,
                        None => step matches OpenChangeStep::Done(Err(e)) && e.message@
                            == "parse opened MR"@,
                    }
                } else if exists|a: Seq<char>, b: Seq<char>|
                    text == #[trigger] (a + "already exists"@ + b) {
                    step matches OpenChangeStep::ListOpen(request) && request.verb == Verb::Get
                        && request.url@ == base@ + "/merge_requests?state=opened&source_branch="@
                        + percent_encoded(head@) && request.bearer@ == forge.bearer()
                        && request.json is None
                } else {
                    step matches OpenChangeStep::Done(Err(e)) && e.message@ == "gitlab open_change"@
                        + " "@ + (decimal(status.number() as nat) + " "@ + status_reason(
                        status.number(),
                    )) + ": "@ + trimmed(text)
                }
            },
        },
{
    if let HttpOutcome::Answered { status, body } = *reply {
        law_occurrence(
            match body {
                Some(t) => t@,
                None => Seq::empty(),
            },
            "already exists"@,
        );
    }
}

/// Of the open changes of a branch the first one listed is adopted, as one that was there; when
/// none is listed that is an error.
pub proof fn law_adopt_change(
    head: &str,
    reply: &HttpOutcome,
    mrs: Option<Vec<GlMr>>,
    read: ForgeResult<Vec<GlMr>>,
    r: ForgeResult<OpenedChange>,
)
    requires
        call_ensures(json::<Vec<GlMr>>, (reply, mrs), read),
        call_ensures(GitLabForge::adopt_change, (head, reply, mrs), r),
    ensures
        match read {
            Err(e) => r matches Err(same) && same.message@ == e.message@,
            Ok(open) => if open@.len() > 0 {
                r matches Ok(opened) && opened.change.number == open@[0].iid && opened.change.url
                    == open@[0].web_url && opened.change.branch == open@[0].source_branch
                    && opened.already_existed
            } else {
                r matches Err(e) && e.message@ == "MR exists for "@ + head@ + " but none returned"@
            },
        },
{
}

/// Auto-merge is on just for a success, off just for a change that cannot be merged yet (405, 406),
/// and every other answer is an error.
pub proof fn law_enable_auto_merge(reply: &HttpOutcome, r: ForgeResult<bool>)
    requires
        call_ensures(GitLabForge::enable_auto_merge_outcome, (reply,), r),
    ensures
        match *reply {
            HttpOutcome::Unanswered => r matches Err(e) && e.message@ == "gitlab request"@,
            HttpOutcome::Answered { status, body } => match r {
                Ok(on) => if on {
                    200 <= status.number() < 300
                } else {
                    status.number() == 405 || status.number() == 406
                },
                Err(e) => !(200 <= status.number() < 300) && status.number() != 405
                    && status.number() != 406 && e.message@ == "gitlab enable_auto_merge"@ + " "@
                    + (decimal(status.number() as nat) + " "@ + status_reason(status.number()))
                    + ": "@ + trimmed(
                    match body {
                        Some(t) => t@,
                        None => Seq::empty(),
                    },
                ),
            },
        },
{
}

/// The pipeline of a change is the first one listed, by its number, its address and the status for
/// its word; there is none just when the list is empty.
pub proof fn law_pipeline_status(
    reply: &HttpOutcome,
    pipelines: Option<Vec<GlPipeline>>,
    read: ForgeResult<Vec<GlPipeline>>,
    word: &str,
    ci: CiStatus,
    r: ForgeResult<PipelineStatus>,
)
    requires
        call_ensures(json::<Vec<GlPipeline>>, (reply, pipelines), read),
        call_ensures(map_ci, (word,), ci),
        call_ensures(GitLabForge::pipeline_status_outcome, (reply, pipelines), r),
    ensures
        match read {
            Err(e) => r matches Err(same) && same.message@ == e.message@,
            Ok(listed) => r matches Ok(found) && if listed@.len() > 0 {
                found.pipeline_id@ == decimal(listed@[0].id as nat) && found.url@
                    == listed@[0].web_url@ && (word@ == listed@[0].status@ ==> found.status == ci)
                    && found.status != CiStatus::NoPipeline
            } else {
                found.status == CiStatus::NoPipeline && found.pipeline_id@.len() == 0
                    && found.url@.len() == 0
            },
        },
{
}

/// Merging gives the merge commit that GitLab names, or nothing where it names none; it fails as
/// reading the answer does.
pub proof fn law_merge(
    reply: &HttpOutcome,
    mr: Option<GlMr>,
    read: ForgeResult<GlMr>,
    r: ForgeResult<String>,
)
    requires
        call_ensures(json::<GlMr>, (reply, mr), read),
        call_ensures(GitLabForge::merge_outcome, (reply, mr), r),
    ensures
        match read {
            Err(e) => r matches Err(same) && same.message@ == e.message@,
            Ok(m) => r matches Ok(sha) && match m.merge_commit_sha {
                Some(named) => sha@ == named@,
                None => sha@.len() == 0,
            },
        },
{
}

/// A change is merged or closed just when GitLab says so in these words, and open otherwise; it
/// fails as reading the answer does.
pub proof fn law_change_state(
    reply: &HttpOutcome,
    mr: Option<GlMr>,
    read: ForgeResult<GlMr>,
    r: ForgeResult<ChangeState>,
)
    requires
        call_ensures(json::<GlMr>, (reply, mr), read),
        call_ensures(GitLabForge::change_state_outcome, (reply, mr), r),
    ensures
        match read {
            Err(e) => r matches Err(same) && same.message@ == e.message@,
            Ok(m) => r matches Ok(state) && (state == ChangeState::Merged <==> m.state@
                == "merged"@) && (state == ChangeState::Closed <==> m.state@ == "closed"@)
                && state != ChangeState::Unspecified,
        },
{
    reveal_strlit("merged");
    reveal_strlit("closed");
    assert("merged"@[0] != "closed"@[0]);
}

} // verus!
