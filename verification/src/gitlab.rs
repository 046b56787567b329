//! GitLab forge adapter, REST API v4: the requests that each operation makes and what it
//! concludes from the answers.
//!
//! Self-hosted GitLab authenticates with `Authorization: Bearer`. Project ids are the URL-encoded
//! `group%2Fsub%2Frepo` path; file paths are URL-encoded too. Auto-merge is GitLab's own
//! merge-when-pipeline-succeeds.
use vstd::prelude::*;
use vstd::utf8::*;

use crate::encoding::law_encoding_keeps_texts_apart;
use crate::model::{
    repo_slug, BranchOutcome, ChangeRef, ChangeState, CiStatus, FileBlob, ForgeError, ForgeKind,
    ForgeResult, OpenedChange, PipelineStatus, RepoRef,
};
use crate::outside::{
    base64_decode, base64_decoded, build_client, client_built, percent_encoded, url_encode,
};
use crate::rest::{
    fields_view, HttpOutcome, HttpRequest, HttpRequestView, HttpStatus, JsonField, JsonFieldView,
    Verb,
};
use crate::text::{
    contains, decimal, decimal_of, occurs, owned, prefix, same_text, strip_line_ends, take_chars,
    trim, trimmed, without_line_ends,
};

verus! {

/// A project, as GitLab describes it.
#[derive(Clone, Debug, PartialEq, Eq)]
pub struct Project {
    pub default_branch: Option<String>,
}

/// A file, as GitLab describes it.
#[derive(Clone, Debug, PartialEq, Eq)]
pub struct GlFile {
    /// The content in base64.
    pub content: String,
    pub blob_id: String,
    pub last_commit_id: String,
    pub file_path: String,
}

/// A merge request, as GitLab describes it.
#[derive(Clone, Debug, PartialEq, Eq)]
pub struct GlMr {
    pub iid: u64,
    pub web_url: String,
    pub source_branch: String,
    pub state: String,
    pub merge_commit_sha: Option<String>,
}

/// A pipeline, as GitLab describes it.
#[derive(Clone, Debug, PartialEq, Eq)]
pub struct GlPipeline {
    pub id: u64,
    pub status: String,
    pub web_url: String,
}

/// The pipeline status for GitLab's word for it.
pub open spec fn ci_status_of(word: Seq<char>) -> CiStatus {
    if word == "success"@ {
        CiStatus::Success
    } else if word == "failed"@ {
        CiStatus::Failed
    } else if word == "canceled"@ || word == "skipped"@ {
        CiStatus::Canceled
    } else if word == "running"@ {
        CiStatus::Running
    } else if word == "created"@ || word == "waiting_for_resource"@ || word == "preparing"@ || word
        == "pending"@ || word == "scheduled"@ || word == "manual"@ {
        CiStatus::Pending
    } else {
        CiStatus::Unspecified
    }
}

/// The pipeline status for GitLab's word for it.
pub fn map_ci(status: &str) -> (ci: CiStatus)
    ensures
        ci == ci_status_of(status@),
{
    if same_text(status, "success") {
        CiStatus::Success
    } else if same_text(status, "failed") {
        CiStatus::Failed
    } else if same_text(status, "canceled") || same_text(status, "skipped") {
        CiStatus::Canceled
    } else if same_text(status, "running") {
        CiStatus::Running
    } else if same_text(status, "created") || same_text(status, "waiting_for_resource")
        || same_text(status, "preparing") || same_text(status, "pending") || same_text(
        status,
        "scheduled",
    ) || same_text(status, "manual") {
        CiStatus::Pending
    } else {
        CiStatus::Unspecified
    }
}

/// The first 300 characters of a text.
pub fn truncate(s: &str) -> (r: String)
    ensures
        r@ == prefix(s@, 300),
{
    take_chars(s, 300)
}

/// The message for an answer that reports a failure: what was asked, the status, and the body
/// without surrounding whitespace.
pub open spec fn failure_words(what: Seq<char>, status: Seq<char>, body: Seq<char>) -> Seq<char> {
    what + " "@ + status + ": "@ + trimmed(body)
}

/// The message for an answer that reports a failure.
pub fn failure_message(what: &str, status: &str, body: &str) -> (message: String)
    ensures
        message@ == failure_words(what@, status@, body@),
{
    let mut message = owned(what);
    message.append(" ");
    message.append(status);
    message.append(": ");
    message.append(trim(body).as_str());
    message
}

/// The error for an answer that reports a failure.
fn failure(what: &str, status: &HttpStatus, body: &str) -> (e: ForgeError)
    ensures
        e@ == failure_words(what@, status.words(), body@),
{
    ForgeError::msg(failure_message(what, status.to_text().as_str(), body))
}

/// The error with the given message.
fn error(message: &str) -> (e: ForgeError)
    ensures
        e@ == message@,
{
    ForgeError::msg(owned(message))
}

/// The text of a body, empty when it could not be read.
pub open spec fn body_text(body: Option<String>) -> Seq<char> {
    match body {
        Some(text) => text@,
        None => Seq::empty(),
    }
}

/// The outcome of an operation, an error taken by its message.
pub open spec fn viewed<T>(r: ForgeResult<T>) -> Result<T, Seq<char>> {
    match r {
        Ok(v) => Ok(v),
        Err(e) => Err(e@),
    }
}

/// What an answer with a JSON body comes to, where `parsed` is what its body was read as.
pub open spec fn json_result<T>(reply: HttpOutcome, parsed: Option<T>) -> Result<T, Seq<char>> {
    match reply {
        HttpOutcome::Unanswered => Err("gitlab request"@),
        HttpOutcome::Answered { status, body: None } => Err("read gitlab body"@),
        HttpOutcome::Answered { status, body: Some(text) } => if !status.succeeded() {
            Err(failure_words("gitlab"@, status.words(), text@))
        } else {
            match parsed {
                Some(v) => Ok(v),
                None => Err("parse gitlab json: "@ + prefix(text@, 300)),
            }
        },
    }
}

/// What an answer with a JSON body comes to. `parsed` is what its body was read as, nothing when
/// it could not be.
pub fn json<T>(reply: &HttpOutcome, parsed: Option<T>) -> (r: ForgeResult<T>)
    ensures
        viewed(r) == json_result(*reply, parsed),
{
    match reply {
        HttpOutcome::Unanswered => Err(error("gitlab request")),
        HttpOutcome::Answered { status, body } => match body {
            None => Err(error("read gitlab body")),
            Some(text) => {
                if !status.is_success() {
                    return Err(failure("gitlab", status, text.as_str()));
                }
                match parsed {
                    Some(v) => Ok(v),
                    None => {
                        let mut message = owned("parse gitlab json: ");
                        message.append(truncate(text.as_str()).as_str());
                        Err(ForgeError::msg(message))
                    },
                }
            },
        },
    }
}

/// A host, or the public instance when it is empty.
pub open spec fn host_or_public(host: Seq<char>) -> Seq<char> {
    if host.len() == 0 {
        "gitlab.com"@
    } else {
        host
    }
}

/// What the adapter calls itself in its requests.
pub const USER_AGENT: &'static str = "fastverk-forge";

/// A GitLab adapter bound to one host and token.
pub struct GitLabForge {
    host: String,
    token: String,
    http: reqwest::Client,
    pinned: bool,
}

/// Whether `r` is the adapter for a host and a token that sends with the client that was built,
/// or says that none was.
pub open spec fn adapter_of(
    host: Seq<char>,
    token: Seq<char>,
    built: Result<reqwest::Client, reqwest::Error>,
    r: ForgeResult<GitLabForge>,
) -> bool {
    match built {
        Ok(http) => r matches Ok(forge) && forge.connection() == http && forge.bearer() == token
            && forge.default_host() == host_or_public(host) && !forge.is_pinned(),
        Err(_) => r matches Err(e) && e@ == "build gitlab http client"@,
    }
}

impl GitLabForge {
    /// The adapter's own host.
    pub closed spec fn default_host(&self) -> Seq<char> {
        self.host@
    }

    /// The token that requests are authenticated by.
    pub closed spec fn bearer(&self) -> Seq<char> {
        self.token@
    }

    /// The client that requests are sent with.
    pub closed spec fn connection(&self) -> reqwest::Client {
        self.http
    }

    /// Whether requests go to the adapter's own host even where the repository names one.
    pub closed spec fn is_pinned(&self) -> bool {
        self.pinned
    }

    /// The host that requests for a repository go to: the one that it names, else the adapter's
    /// own. A pinned adapter keeps to its own.
    pub open spec fn host_of(&self, repo: &RepoRef) -> Seq<char> {
        if self.is_pinned() || repo.host@.len() == 0 {
            self.default_host()
        } else {
            repo.host@
        }
    }

    /// The address of a repository's project.
    pub open spec fn project_url(&self, repo: &RepoRef) -> Seq<char> {
        "https://"@ + self.host_of(repo) + "/api/v4/projects/"@ + percent_encoded(repo.slug())
    }

    /// The address of a file.
    pub open spec fn file_url(&self, repo: &RepoRef, path: Seq<char>) -> Seq<char> {
        self.project_url(repo) + "/repository/files/"@ + percent_encoded(path)
    }

    /// The address of a merge request.
    pub open spec fn change_url(&self, repo: &RepoRef, number: u64) -> Seq<char> {
        self.project_url(repo) + "/merge_requests/"@ + decimal(number as nat)
    }

    /// A request without a body.
    pub open spec fn bare(&self, verb: Verb, url: Seq<char>) -> HttpRequestView {
        HttpRequestView { verb, url, bearer: self.bearer(), json: None }
    }

    /// A request that sends a JSON object.
    pub open spec fn with_json(
        &self,
        verb: Verb,
        url: Seq<char>,
        fields: Seq<(Seq<char>, JsonFieldView)>,
    ) -> HttpRequestView {
        HttpRequestView { verb, url, bearer: self.bearer(), json: Some(fields) }
    }

    /// Build an adapter for `host` (empty: "gitlab.com") with a Bearer token. It fails just when
    /// no HTTP client can be built.
    pub fn new(host: String, token: String) -> (r: ForgeResult<GitLabForge>)
        ensures
            exists|built: Result<reqwest::Client, reqwest::Error>| #[trigger]
                client_built(USER_AGENT, built) && adapter_of(host@, token@, built, r),
    {
        Self::with_client(host, token, build_client(USER_AGENT))
    }

    /// The adapter for `host` (empty: "gitlab.com") with a Bearer token, where `built` came of
    /// building its HTTP client.
    pub fn with_client(
        host: String,
        token: String,
        built: Result<reqwest::Client, reqwest::Error>,
    ) -> (r: ForgeResult<GitLabForge>)
        ensures
            adapter_of(host@, token@, built, r),
    {
        let host = if host.as_str().is_empty() {
            owned("gitlab.com")
        } else {
            host
        };
        match built {
            Ok(http) => Ok(GitLabForge { host, token, http, pinned: false }),
            Err(_) => Err(error("build gitlab http client")),
        }
    }

    /// The same adapter, which sends every request to its own host, whatever host the repository
    /// names.
    pub fn pin(self) -> (forge: GitLabForge)
        ensures
            forge.is_pinned(),
            forge.default_host() == self.default_host(),
            forge.bearer() == self.bearer(),
            forge.connection() == self.connection(),
    {
        GitLabForge { host: self.host, token: self.token, http: self.http, pinned: true }
    }

    /// The client to send this adapter's requests with.
    pub fn client(&self) -> (http: &reqwest::Client)
        ensures
            *http == self.connection(),
    {
        &self.http
    }

    /// The kind of forge.
    pub fn kind(&self) -> (kind: ForgeKind)
        ensures
            kind == ForgeKind::Gitlab,
    {
        ForgeKind::Gitlab
    }

    /// The host that requests for a repository go to.
    pub fn host_for<'a>(&'a self, repo: &'a RepoRef) -> (host: &'a str)
        ensures
            host@ == self.host_of(repo),
    {
        if self.pinned || repo.host.as_str().is_empty() {
            self.host.as_str()
        } else {
            repo.host.as_str()
        }
    }

    /// `https://<host>/api/v4/projects/<url-encoded owner/name>`
    pub fn base(&self, repo: &RepoRef) -> (url: String)
        ensures
            url@ == self.project_url(repo),
    {
        let full = repo_slug(repo);
        let mut url = owned("https://");
        url.append(self.host_for(repo));
        url.append("/api/v4/projects/");
        url.append(url_encode(full.as_str()).as_str());
        url
    }

    fn bare_request(&self, verb: Verb, url: String) -> (request: HttpRequest)
        ensures
            request@ == self.bare(verb, url@),
    {
        HttpRequest { verb, url, bearer: self.token.clone(), json: None }
    }

    fn json_request(&self, verb: Verb, url: String, fields: Vec<(String, JsonField)>) -> (request:
        HttpRequest)
        ensures
            request@ == self.with_json(verb, url@, fields_view(fields@)),
    {
        HttpRequest { verb, url, bearer: self.token.clone(), json: Some(fields) }
    }
}

/// What asking for the default branch comes to.
pub open spec fn default_branch_result(reply: HttpOutcome, project: Option<Project>) -> Result<
    Seq<char>,
    Seq<char>,
> {
    match json_result(reply, project) {
        Ok(project) => match project.default_branch {
            Some(branch) => Ok(branch@),
            None => Ok("main"@),
        },
        Err(message) => Err(message),
    }
}

/// The outcome of an operation that gives a text, both taken by their characters.
pub open spec fn text_viewed(r: ForgeResult<String>) -> Result<Seq<char>, Seq<char>> {
    match r {
        Ok(text) => Ok(text@),
        Err(e) => Err(e@),
    }
}

/// What a file's bytes come to as its text, where `raw` is what its content was decoded to.
pub open spec fn file_text_result(raw: Option<Seq<u8>>) -> Result<Seq<char>, Seq<char>> {
    match raw {
        None => Err("decode gitlab file content"@),
        Some(bytes) => if valid_utf8(bytes) {
            Ok(decode_utf8(bytes))
        } else {
            Err("gitlab file not utf-8"@)
        },
    }
}

/// Decoded bytes, by their model.
pub open spec fn bytes_viewed(raw: Option<Vec<u8>>) -> Option<Seq<u8>> {
    match raw {
        Some(bytes) => Some(bytes@),
        None => None,
    }
}

/// A file's text, where `raw` is what its content was decoded to, nothing when it could not be.
pub fn file_text(raw: Option<Vec<u8>>) -> (r: ForgeResult<String>)
    ensures
        text_viewed(r) == file_text_result(bytes_viewed(raw)),
{
    match raw {
        None => Err(error("decode gitlab file content")),
        Some(bytes) => match String::from_utf8(bytes) {
            Ok(text) => Ok(text),
            Err(_) => Err(error("gitlab file not utf-8")),
        },
    }
}

/// The model of a [`FileBlob`].
pub struct FileBlobView {
    pub path: Seq<char>,
    pub content: Seq<char>,
    pub blob_sha: Seq<char>,
}

impl View for FileBlob {
    type V = FileBlobView;

    open spec fn view(&self) -> FileBlobView {
        FileBlobView { path: self.path@, content: self.content@, blob_sha: self.blob_sha@ }
    }
}

/// What reading a file comes to, where `raw` is what its content was decoded to.
pub open spec fn read_file_result(
    path: Seq<char>,
    reply: HttpOutcome,
    file: Option<GlFile>,
    raw: Option<Seq<u8>>,
) -> Result<Option<FileBlobView>, Seq<char>> {
    match reply {
        HttpOutcome::Unanswered => Err("gitlab request"@),
        HttpOutcome::Answered { status, body } => if status.number() == 404 {
            Ok(None)
        } else {
            match body {
                None => Err("read gitlab file body"@),
                Some(body) => if !status.succeeded() {
                    Err(failure_words("gitlab read_file"@, status.words(), body@))
                } else {
                    match file {
                        None => Err("parse gitlab file"@),
                        Some(f) => match file_text_result(raw) {
                            Ok(content) => Ok(
                                Some(FileBlobView { path, content, blob_sha: f.last_commit_id@ }),
                            ),
                            Err(message) => Err(message),
                        },
                    }
                },
            }
        },
    }
}

/// What a file's content is decoded to: base64, broken into lines.
pub open spec fn decoded_content(file: Option<GlFile>) -> Option<Seq<u8>> {
    match file {
        Some(f) => base64_decoded(without_line_ends(f.content@)),
        None => None,
    }
}

/// The outcome of reading a file, by its model.
pub open spec fn blob_viewed(r: ForgeResult<Option<FileBlob>>) -> Result<
    Option<FileBlobView>,
    Seq<char>,
> {
    match r {
        Ok(Some(blob)) => Ok(Some(blob@)),
        Ok(None) => Ok(None),
        Err(e) => Err(e@),
    }
}

/// The first request of reading a file.
pub enum ReadFileStep {
    /// No revision was named: ask for the default branch, then go on with
    /// [`GitLabForge::read_file_on_default`].
    AskDefaultBranch(HttpRequest),
    /// Fetch the file, then conclude with [`GitLabForge::read_file_outcome`].
    Fetch(HttpRequest),
}

/// The change that a merge request is.
pub open spec fn change_of(mr: GlMr) -> ChangeRef {
    ChangeRef { number: mr.iid, url: mr.web_url, branch: mr.source_branch }
}

/// What comes after the answer to opening a merge request.
pub enum OpenChangeStep {
    /// The operation is over.
    Done(ForgeResult<OpenedChange>),
    /// There is an open one already: list it, then conclude with [`GitLabForge::adopt_change`].
    ListOpen(HttpRequest),
}

/// What comes after the answer to opening a merge request, by its model.
pub enum OpenChangeStepView {
    Done(Result<OpenedChange, Seq<char>>),
    ListOpen(HttpRequestView),
}

impl View for OpenChangeStep {
    type V = OpenChangeStepView;

    open spec fn view(&self) -> OpenChangeStepView {
        match self {
            OpenChangeStep::Done(r) => OpenChangeStepView::Done(viewed(*r)),
            OpenChangeStep::ListOpen(request) => OpenChangeStepView::ListOpen(request@),
        }
    }
}

/// What adopting an open merge request comes to.
pub open spec fn adopt_result(
    head: Seq<char>,
    reply: HttpOutcome,
    mrs: Option<Vec<GlMr>>,
) -> Result<OpenedChange, Seq<char>> {
    match json_result(reply, mrs) {
        Err(message) => Err(message),
        Ok(mrs) => if mrs@.len() == 0 {
            Err("MR exists for "@ + head + " but none returned"@)
        } else {
            Ok(OpenedChange { change: change_of(mrs@[0]), already_existed: true })
        },
    }
}

/// What creating a branch comes to.
pub open spec fn create_branch_result(reply: HttpOutcome) -> Result<BranchOutcome, Seq<char>> {
    match reply {
        HttpOutcome::Unanswered => Err("gitlab request"@),
        HttpOutcome::Answered { status, body } => if status.succeeded() {
            Ok(BranchOutcome { created: true, already_existed: false })
        } else if occurs(body_text(body), "already exists"@) {
            Ok(BranchOutcome { created: false, already_existed: true })
        } else {
            Err(failure_words("gitlab create_branch"@, status.words(), body_text(body)))
        },
    }
}

/// What committing a file comes to.
pub open spec fn commit_file_result(reply: HttpOutcome) -> Result<Seq<char>, Seq<char>> {
    match reply {
        HttpOutcome::Unanswered => Err("gitlab request"@),
        HttpOutcome::Answered { status, body } => if status.succeeded() {
            Ok(Seq::empty())
        } else {
            Err(failure_words("gitlab commit_file"@, status.words(), body_text(body)))
        },
    }
}

/// What enabling auto-merge comes to.
pub open spec fn auto_merge_result(reply: HttpOutcome) -> Result<bool, Seq<char>> {
    match reply {
        HttpOutcome::Unanswered => Err("gitlab request"@),
        HttpOutcome::Answered { status, body } => if status.succeeded() {
            Ok(true)
        } else if status.number() == 405 || status.number() == 406 {
            Ok(false)
        } else {
            Err(failure_words("gitlab enable_auto_merge"@, status.words(), body_text(body)))
        },
    }
}

/// The model of a [`PipelineStatus`].
pub struct PipelineStatusView {
    pub status: CiStatus,
    pub pipeline_id: Seq<char>,
    pub url: Seq<char>,
}

impl View for PipelineStatus {
    type V = PipelineStatusView;

    open spec fn view(&self) -> PipelineStatusView {
        PipelineStatusView {
            status: self.status,
            pipeline_id: self.pipeline_id@,
            url: self.url@,
        }
    }
}

/// What asking for the pipelines of a change comes to: the first one counts.
pub open spec fn pipeline_result(
    reply: HttpOutcome,
    pipelines: Option<Vec<GlPipeline>>,
) -> Result<PipelineStatusView, Seq<char>> {
    match json_result(reply, pipelines) {
        Err(message) => Err(message),
        Ok(pipelines) => if pipelines@.len() == 0 {
            Ok(
                PipelineStatusView {
                    status: CiStatus::NoPipeline,
                    pipeline_id: Seq::empty(),
                    url: Seq::empty(),
                },
            )
        } else {
            Ok(
                PipelineStatusView {
                    status: ci_status_of(pipelines@[0].status@),
                    pipeline_id: decimal(pipelines@[0].id as nat),
                    url: pipelines@[0].web_url@,
                },
            )
        },
    }
}

/// The outcome of asking for a pipeline, by its model.
pub open spec fn pipeline_viewed(r: ForgeResult<PipelineStatus>) -> Result<
    PipelineStatusView,
    Seq<char>,
> {
    match r {
        Ok(status) => Ok(status@),
        Err(e) => Err(e@),
    }
}

/// What merging comes to: the merge commit, empty when GitLab names none.
pub open spec fn merge_result(reply: HttpOutcome, mr: Option<GlMr>) -> Result<
    Seq<char>,
    Seq<char>,
> {
    match json_result(reply, mr) {
        Err(message) => Err(message),
        Ok(mr) => match mr.merge_commit_sha {
            Some(sha) => Ok(sha@),
            None => Ok(Seq::empty()),
        },
    }
}

/// The state of a change for GitLab's word for it.
pub open spec fn change_state_of(word: Seq<char>) -> ChangeState {
    if word == "merged"@ {
        ChangeState::Merged
    } else if word == "closed"@ {
        ChangeState::Closed
    } else {
        ChangeState::Open
    }
}

/// What asking for the state of a change comes to.
pub open spec fn change_state_result(reply: HttpOutcome, mr: Option<GlMr>) -> Result<
    ChangeState,
    Seq<char>,
> {
    match json_result(reply, mr) {
        Err(message) => Err(message),
        Ok(mr) => Ok(change_state_of(mr.state@)),
    }
}

/// Read the default branch.
impl GitLabForge {
    /// The request for the default branch.
    pub open spec fn default_branch_request(&self, repo: &RepoRef) -> HttpRequestView {
        self.bare(Verb::Get, self.project_url(repo))
    }

    /// Ask for the default branch; conclude with [`GitLabForge::default_branch_outcome`].
    pub fn default_branch(&self, repo: &RepoRef) -> (request: HttpRequest)
        ensures
            request@ == self.default_branch_request(repo),
    {
        self.bare_request(Verb::Get, self.base(repo))
    }

    /// The default branch, "main" when GitLab names none.
    pub fn default_branch_outcome(reply: &HttpOutcome, project: Option<Project>) -> (r: ForgeResult<
        String,
    >)
        ensures
            text_viewed(r) == default_branch_result(*reply, project),
    {
        match json(reply, project) {
            Ok(project) => match project.default_branch {
                Some(branch) => Ok(branch),
                None => Ok(owned("main")),
            },
            Err(e) => Err(e),
        }
    }
}

/// Read a file.
impl GitLabForge {
    /// The request for a file at a revision.
    pub open spec fn fetch_request(
        &self,
        repo: &RepoRef,
        path: Seq<char>,
        reference: Seq<char>,
    ) -> HttpRequestView {
        self.bare(
            Verb::Get,
            self.file_url(repo, path) + "?ref="@ + percent_encoded(reference),
        )
    }

    fn file_address(&self, repo: &RepoRef, path: &str) -> (url: String)
        ensures
            url@ == self.file_url(repo, path@),
    {
        let mut url = self.base(repo);
        url.append("/repository/files/");
        url.append(url_encode(path).as_str());
        url
    }

    fn fetch(&self, repo: &RepoRef, path: &str, reference: &str) -> (request: HttpRequest)
        ensures
            request@ == self.fetch_request(repo, path@, reference@),
    {
        let mut url = self.file_address(repo, path);
        url.append("?ref=");
        url.append(url_encode(reference).as_str());
        self.bare_request(Verb::Get, url)
    }

    /// Read `path` at `reference`; an empty `reference` stands for the default branch, which has
    /// to be asked for first.
    pub fn read_file(&self, repo: &RepoRef, path: &str, reference: &str) -> (step: ReadFileStep)
        ensures
            match step {
                ReadFileStep::AskDefaultBranch(request) => reference@.len() == 0 && request@
                    == self.default_branch_request(repo),
                ReadFileStep::Fetch(request) => reference@.len() > 0 && request@
                    == self.fetch_request(repo, path@, reference@),
            },
    {
        if reference.is_empty() {
            ReadFileStep::AskDefaultBranch(self.default_branch(repo))
        } else {
            ReadFileStep::Fetch(self.fetch(repo, path, reference))
        }
    }

    /// Go on reading `path` once the answer to the question for the default branch is there.
    pub fn read_file_on_default(
        &self,
        repo: &RepoRef,
        path: &str,
        reply: &HttpOutcome,
        project: Option<Project>,
    ) -> (r: ForgeResult<HttpRequest>)
        ensures
            match r {
                Ok(request) => default_branch_result(*reply, project) is Ok && request@
                    == self.fetch_request(repo, path@, default_branch_result(*reply, project)->Ok_0),
                Err(e) => default_branch_result(*reply, project) == Err::<Seq<char>, Seq<char>>(e@),
            },
    {
        match Self::default_branch_outcome(reply, project) {
            Ok(branch) => Ok(self.fetch(repo, path, branch.as_str())),
            Err(e) => Err(e),
        }
    }

    /// The file, or nothing when there is none at `path`. `file` is what the answer's body was
    /// read as.
    pub fn read_file_outcome(path: &str, reply: &HttpOutcome, file: Option<GlFile>) -> (r: ForgeResult<
        Option<FileBlob>,
    >)
        ensures
            blob_viewed(r) == read_file_result(path@, *reply, file, decoded_content(file)),
    {
        let raw = match &file {
            Some(f) => match base64_decode(strip_line_ends(f.content.as_str()).as_str()) {
                Ok(bytes) => Some(bytes),
                Err(_) => None,
            },
            None => None,
        };
        Self::read_decoded(path, reply, file, raw)
    }

    /// The file, or nothing when there is none at `path`, where `raw` is what its content was
    /// decoded to. Its commit is carried as the blob sha, which is what GitLab wants on an update.
    pub fn read_decoded(
        path: &str,
        reply: &HttpOutcome,
        file: Option<GlFile>,
        raw: Option<Vec<u8>>,
    ) -> (r: ForgeResult<Option<FileBlob>>)
        ensures
            blob_viewed(r) == read_file_result(path@, *reply, file, bytes_viewed(raw)),
    {
        match reply {
            HttpOutcome::Unanswered => Err(error("gitlab request")),
            HttpOutcome::Answered { status, body } => {
                if status.code() == 404 {
                    return Ok(None);
                }
                match body {
                    None => Err(error("read gitlab file body")),
                    Some(body) => {
                        if !status.is_success() {
                            return Err(failure("gitlab read_file", status, body.as_str()));
                        }
                        match file {
                            None => Err(error("parse gitlab file")),
                            Some(f) => match file_text(raw) {
                                Ok(content) => Ok(
                                    Some(
                                        FileBlob {
                                            path: owned(path),
                                            content,
                                            blob_sha: f.last_commit_id,
                                        },
                                    ),
                                ),
                                Err(e) => Err(e),
                            },
                        }
                    },
                }
            },
        }
    }
}

/// Create a branch.
impl GitLabForge {
    /// The request to create a branch.
    pub open spec fn create_branch_request(
        &self,
        repo: &RepoRef,
        name: Seq<char>,
        from_ref: Seq<char>,
    ) -> HttpRequestView {
        self.bare(
            Verb::Post,
            self.project_url(repo) + "/repository/branches?branch="@ + percent_encoded(name)
                + "&ref="@ + percent_encoded(from_ref),
        )
    }

    /// Create branch `name` at `from_ref`; conclude with [`GitLabForge::create_branch_outcome`].
    pub fn create_branch(&self, repo: &RepoRef, name: &str, from_ref: &str) -> (request: HttpRequest)
        ensures
            request@ == self.create_branch_request(repo, name@, from_ref@),
    {
        let mut url = self.base(repo);
        url.append("/repository/branches?branch=");
        url.append(url_encode(name).as_str());
        url.append("&ref=");
        url.append(url_encode(from_ref).as_str());
        self.bare_request(Verb::Post, url)
    }

    /// Whether the branch was created or was there already.
    pub fn create_branch_outcome(reply: &HttpOutcome) -> (r: ForgeResult<BranchOutcome>)
        ensures
            viewed(r) == create_branch_result(*reply),
    {
        match reply {
            HttpOutcome::Unanswered => Err(error("gitlab request")),
            HttpOutcome::Answered { status, body } => {
                if status.is_success() {
                    return Ok(BranchOutcome { created: true, already_existed: false });
                }
                let text = text_or_empty(body);
                if contains(text.as_str(), "already exists") {
                    return Ok(BranchOutcome { created: false, already_existed: true });
                }
                Err(failure("gitlab create_branch", status, text.as_str()))
            },
        }
    }
}

/// The text of a body, empty when it could not be read.
fn text_or_empty(body: &Option<String>) -> (text: String)
    ensures
        text@ == body_text(*body),
{
    match body {
        Some(text) => text.clone(),
        None => String::new(),
    }
}

/// Commit a file.
impl GitLabForge {
    /// The fields that a commit of a file sends.
    pub open spec fn commit_fields(
        branch: Seq<char>,
        content: Seq<char>,
        blob_sha: Seq<char>,
        message: Seq<char>,
    ) -> Seq<(Seq<char>, JsonFieldView)> {
        let fields = seq![
            ("branch"@, JsonFieldView::Text(branch)),
            ("content"@, JsonFieldView::Text(content)),
            ("commit_message"@, JsonFieldView::Text(message)),
        ];
        if blob_sha.len() == 0 {
            fields
        } else {
            fields.push(("last_commit_id"@, JsonFieldView::Text(blob_sha)))
        }
    }

    /// The request to commit a file.
    pub open spec fn commit_file_request(
        &self,
        repo: &RepoRef,
        branch: Seq<char>,
        path: Seq<char>,
        content: Seq<char>,
        blob_sha: Seq<char>,
        message: Seq<char>,
    ) -> HttpRequestView {
        self.with_json(
            Verb::Put,
            self.file_url(repo, path),
            Self::commit_fields(branch, content, blob_sha, message),
        )
    }

    /// Commit `content` as `path` on `branch`; a `blob_sha` names the commit that the file is
    /// expected to stand at. Conclude with [`GitLabForge::commit_file_outcome`].
    pub fn commit_file(
        &self,
        repo: &RepoRef,
        branch: &str,
        path: &str,
        content: &str,
        blob_sha: &str,
        message: &str,
    ) -> (request: HttpRequest)
        ensures
            request@ == self.commit_file_request(
                repo,
                branch@,
                path@,
                content@,
                blob_sha@,
                message@,
            ),
    {
        let mut fields: Vec<(String, JsonField)> = Vec::new();
        fields.push((owned("branch"), JsonField::Text(owned(branch))));
        fields.push((owned("content"), JsonField::Text(owned(content))));
        fields.push((owned("commit_message"), JsonField::Text(owned(message))));
        if !blob_sha.is_empty() {
            fields.push((owned("last_commit_id"), JsonField::Text(owned(blob_sha))));
        }
        assert(fields_view(fields@) =~= Self::commit_fields(branch@, content@, blob_sha@, message@));
        self.json_request(Verb::Put, self.file_address(repo, path), fields)
    }

    /// GitLab names no commit in its answer, so the commit sha is empty.
    pub fn commit_file_outcome(reply: &HttpOutcome) -> (r: ForgeResult<String>)
        ensures
            text_viewed(r) == commit_file_result(*reply),
    {
        match reply {
            HttpOutcome::Unanswered => Err(error("gitlab request")),
            HttpOutcome::Answered { status, body } => {
                if !status.is_success() {
                    return Err(
                        failure("gitlab commit_file", status, text_or_empty(body).as_str()),
                    );
                }
                Ok(String::new())
            },
        }
    }
}

/// Open a change.
impl GitLabForge {
    /// The request to open a merge request.
    pub open spec fn open_change_request(
        &self,
        repo: &RepoRef,
        head: Seq<char>,
        base: Seq<char>,
        title: Seq<char>,
        body: Seq<char>,
        remove_source_branch: bool,
    ) -> HttpRequestView {
        self.with_json(
            Verb::Post,
            self.project_url(repo) + "/merge_requests"@,
            seq![
                ("source_branch"@, JsonFieldView::Text(head)),
                ("target_branch"@, JsonFieldView::Text(base)),
                ("title"@, JsonFieldView::Text(title)),
                ("description"@, JsonFieldView::Text(body)),
                ("remove_source_branch"@, JsonFieldView::Flag(remove_source_branch)),
            ],
        )
    }

    /// The request for the open merge requests of a branch.
    pub open spec fn list_open_request(&self, repo: &RepoRef, head: Seq<char>) -> HttpRequestView {
        self.bare(
            Verb::Get,
            self.project_url(repo) + "/merge_requests?state=opened&source_branch="@
                + percent_encoded(head),
        )
    }

    /// What comes after the answer to opening a merge request.
    pub open spec fn open_change_next(
        &self,
        repo: &RepoRef,
        head: Seq<char>,
        reply: HttpOutcome,
        mr: Option<GlMr>,
    ) -> OpenChangeStepView {
        match reply {
            HttpOutcome::Unanswered => OpenChangeStepView::Done(Err("gitlab request"@)),
            HttpOutcome::Answered { status, body } => if status.succeeded() {
                match mr {
                    Some(mr) => OpenChangeStepView::Done(
                        Ok(OpenedChange { change: change_of(mr), already_existed: false }),
                    ),
                    None => OpenChangeStepView::Done(Err("parse opened MR"@)),
                }
            } else if occurs(body_text(body), "already exists"@) {
                OpenChangeStepView::ListOpen(self.list_open_request(repo, head))
            } else {
                OpenChangeStepView::Done(
                    Err(failure_words("gitlab open_change"@, status.words(), body_text(body))),
                )
            },
        }
    }

    /// Open a merge request of `head` into `base`; go on with [`GitLabForge::open_change_step`].
    pub fn open_change(
        &self,
        repo: &RepoRef,
        head: &str,
        base: &str,
        title: &str,
        body: &str,
        remove_source_branch: bool,
    ) -> (request: HttpRequest)
        ensures
            request@ == self.open_change_request(
                repo,
                head@,
                base@,
                title@,
                body@,
                remove_source_branch,
            ),
    {
        let mut url = self.base(repo);
        url.append("/merge_requests");
        let mut fields: Vec<(String, JsonField)> = Vec::new();
        fields.push((owned("source_branch"), JsonField::Text(owned(head))));
        fields.push((owned("target_branch"), JsonField::Text(owned(base))));
        fields.push((owned("title"), JsonField::Text(owned(title))));
        fields.push((owned("description"), JsonField::Text(owned(body))));
        fields.push((owned("remove_source_branch"), JsonField::Flag(remove_source_branch)));
        assert(fields_view(fields@) =~= seq![
            ("source_branch"@, JsonFieldView::Text(head@)),
            ("target_branch"@, JsonFieldView::Text(base@)),
            ("title"@, JsonFieldView::Text(title@)),
            ("description"@, JsonFieldView::Text(body@)),
            ("remove_source_branch"@, JsonFieldView::Flag(remove_source_branch)),
        ]);
        self.json_request(Verb::Post, url, fields)
    }

    /// Go on with the answer to opening a merge request of `head`. When there is an open one
    /// already, it is adopted.
    pub fn open_change_step(
        &self,
        repo: &RepoRef,
        head: &str,
        reply: &HttpOutcome,
        mr: Option<GlMr>,
    ) -> (step: OpenChangeStep)
        ensures
            step@ == self.open_change_next(repo, head@, *reply, mr),
    {
        match reply {
            HttpOutcome::Unanswered => OpenChangeStep::Done(Err(error("gitlab request"))),
            HttpOutcome::Answered { status, body } => {
                if status.is_success() {
                    return match mr {
                        Some(mr) => OpenChangeStep::Done(
                            Ok(OpenedChange { change: into_change(mr), already_existed: false }),
                        ),
                        None => OpenChangeStep::Done(Err(error("parse opened MR"))),
                    };
                }
                let text = text_or_empty(body);
                if contains(text.as_str(), "already exists") {
                    let mut url = self.base(repo);
                    url.append("/merge_requests?state=opened&source_branch=");
                    url.append(url_encode(head).as_str());
                    return OpenChangeStep::ListOpen(self.bare_request(Verb::Get, url));
                }
                OpenChangeStep::Done(Err(failure("gitlab open_change", status, text.as_str())))
            },
        }
    }

    /// The open merge request of `head`: the first one listed.
    pub fn adopt_change(head: &str, reply: &HttpOutcome, mrs: Option<Vec<GlMr>>) -> (r: ForgeResult<
        OpenedChange,
    >)
        ensures
            viewed(r) == adopt_result(head@, *reply, mrs),
    {
        match json(reply, mrs) {
            Err(e) => Err(e),
            Ok(mrs) => {
                let mut mrs = mrs;
                if mrs.len() == 0 {
                    let mut message = owned("MR exists for ");
                    message.append(head);
                    message.append(" but none returned");
                    return Err(ForgeError::msg(message));
                }
                let mr = mrs.swap_remove(0);
                Ok(OpenedChange { change: into_change(mr), already_existed: true })
            },
        }
    }
}

fn into_change(mr: GlMr) -> (change: ChangeRef)
    ensures
        change == change_of(mr),
{
    ChangeRef { number: mr.iid, url: mr.web_url, branch: mr.source_branch }
}

/// Merge a change, or have it merged.
impl GitLabForge {
    /// The request to merge as soon as the pipeline succeeds.
    pub open spec fn auto_merge_request(&self, repo: &RepoRef, change: &ChangeRef) -> HttpRequestView {
        self.with_json(
            Verb::Put,
            self.change_url(repo, change.number) + "/merge"@,
            seq![("merge_when_pipeline_succeeds"@, JsonFieldView::Flag(true))],
        )
    }

    /// The request to merge.
    pub open spec fn merge_request(&self, repo: &RepoRef, change: &ChangeRef) -> HttpRequestView {
        self.bare(Verb::Put, self.change_url(repo, change.number) + "/merge"@)
    }

    fn change_address(&self, repo: &RepoRef, change: &ChangeRef) -> (url: String)
        ensures
            url@ == self.change_url(repo, change.number),
    {
        let mut url = self.base(repo);
        url.append("/merge_requests/");
        url.append(decimal_of(change.number).as_str());
        url
    }

    /// Have `change` merged as soon as its pipeline succeeds; conclude with
    /// [`GitLabForge::enable_auto_merge_outcome`].
    pub fn enable_auto_merge(&self, repo: &RepoRef, change: &ChangeRef) -> (request: HttpRequest)
        ensures
            request@ == self.auto_merge_request(repo, change),
    {
        let mut url = self.change_address(repo, change);
        url.append("/merge");
        let mut fields: Vec<(String, JsonField)> = Vec::new();
        fields.push((owned("merge_when_pipeline_succeeds"), JsonField::Flag(true)));
        assert(fields_view(fields@) =~= seq![
            ("merge_when_pipeline_succeeds"@, JsonFieldView::Flag(true)),
        ]);
        self.json_request(Verb::Put, url, fields)
    }

    /// Whether auto-merge is on (or the change was merged at once). It is not when the change
    /// cannot be merged yet: then the caller polls and merges.
    pub fn enable_auto_merge_outcome(reply: &HttpOutcome) -> (r: ForgeResult<bool>)
        ensures
            viewed(r) == auto_merge_result(*reply),
    {
        match reply {
            HttpOutcome::Unanswered => Err(error("gitlab request")),
            HttpOutcome::Answered { status, body } => {
                if status.is_success() {
                    return Ok(true);
                }
                if status.code() == 405 || status.code() == 406 {
                    return Ok(false);
                }
                Err(failure("gitlab enable_auto_merge", status, text_or_empty(body).as_str()))
            },
        }
    }

    /// Merge `change`; conclude with [`GitLabForge::merge_outcome`].
    pub fn merge(&self, repo: &RepoRef, change: &ChangeRef) -> (request: HttpRequest)
        ensures
            request@ == self.merge_request(repo, change),
    {
        let mut url = self.change_address(repo, change);
        url.append("/merge");
        self.bare_request(Verb::Put, url)
    }

    /// The merge commit, empty when GitLab names none.
    pub fn merge_outcome(reply: &HttpOutcome, mr: Option<GlMr>) -> (r: ForgeResult<String>)
        ensures
            text_viewed(r) == merge_result(*reply, mr),
    {
        match json(reply, mr) {
            Err(e) => Err(e),
            Ok(mr) => match mr.merge_commit_sha {
                Some(sha) => Ok(sha),
                None => Ok(String::new()),
            },
        }
    }
}

/// See how a change stands.
impl GitLabForge {
    /// The request for the pipelines of a change.
    pub open spec fn pipelines_request(&self, repo: &RepoRef, change: &ChangeRef) -> HttpRequestView {
        self.bare(Verb::Get, self.change_url(repo, change.number) + "/pipelines"@)
    }

    /// The request for a change.
    pub open spec fn change_request(&self, repo: &RepoRef, change: &ChangeRef) -> HttpRequestView {
        self.bare(Verb::Get, self.change_url(repo, change.number))
    }

    /// Ask for the pipelines of `change`; conclude with [`GitLabForge::pipeline_status_outcome`].
    pub fn pipeline_status(&self, repo: &RepoRef, change: &ChangeRef) -> (request: HttpRequest)
        ensures
            request@ == self.pipelines_request(repo, change),
    {
        let mut url = self.change_address(repo, change);
        url.append("/pipelines");
        self.bare_request(Verb::Get, url)
    }

    /// The latest pipeline: the first one listed.
    pub fn pipeline_status_outcome(reply: &HttpOutcome, pipelines: Option<Vec<GlPipeline>>) -> (r:
        ForgeResult<PipelineStatus>)
        ensures
            pipeline_viewed(r) == pipeline_result(*reply, pipelines),
    {
        match json(reply, pipelines) {
            Err(e) => Err(e),
            Ok(pipelines) => {
                let mut pipelines = pipelines;
                if pipelines.len() == 0 {
                    return Ok(
                        PipelineStatus {
                            status: CiStatus::NoPipeline,
                            pipeline_id: String::new(),
                            url: String::new(),
                        },
                    );
                }
                let p = pipelines.swap_remove(0);
                Ok(
                    PipelineStatus {
                        status: map_ci(p.status.as_str()),
                        pipeline_id: decimal_of(p.id),
                        url: p.web_url,
                    },
                )
            },
        }
    }

    /// Ask for `change`; conclude with [`GitLabForge::change_state_outcome`].
    pub fn change_state(&self, repo: &RepoRef, change: &ChangeRef) -> (request: HttpRequest)
        ensures
            request@ == self.change_request(repo, change),
    {
        self.bare_request(Verb::Get, self.change_address(repo, change))
    }

    /// Whether the change is open, merged or closed.
    pub fn change_state_outcome(reply: &HttpOutcome, mr: Option<GlMr>) -> (r: ForgeResult<
        ChangeState,
    >)
        ensures
            viewed(r) == change_state_result(*reply, mr),
    {
        match json(reply, mr) {
            Err(e) => Err(e),
            Ok(mr) => {
                let state = if same_text(mr.state.as_str(), "merged") {
                    ChangeState::Merged
                } else if same_text(mr.state.as_str(), "closed") {
                    ChangeState::Closed
                } else {
                    ChangeState::Open
                };
                Ok(state)
            },
        }
    }
}

/// Whether a request is for a repository's project, authenticated by the adapter's token.
pub open spec fn is_bound(forge: &GitLabForge, repo: &RepoRef, request: HttpRequestView) -> bool {
    request.bearer == forge.bearer() && forge.project_url(repo).is_prefix_of(request.url)
}

proof fn lemma_extension_keeps_prefix(base: Seq<char>, a: Seq<char>, b: Seq<char>)
    requires
        base.is_prefix_of(a),
    ensures
        base.is_prefix_of(a + b),
{
    assert(base =~= (a + b).subrange(0, base.len() as int)) by {
        assert forall|i: int| 0 <= i < base.len() implies base[i] == (a + b)[i] by {
            assert(base[i] == a.subrange(0, base.len() as int)[i]);
        }
    }
}

/// Whatever an adapter is asked to do to a repository, each request that it makes is for that
/// repository's project and bears the adapter's own token.
pub proof fn law_requests_are_bound(
    forge: &GitLabForge,
    repo: &RepoRef,
    change: &ChangeRef,
    a: Seq<char>,
    b: Seq<char>,
    c: Seq<char>,
    d: Seq<char>,
    e: Seq<char>,
    flag: bool,
)
    ensures
        is_bound(forge, repo, forge.default_branch_request(repo)),
        is_bound(forge, repo, forge.fetch_request(repo, a, b)),
        is_bound(forge, repo, forge.create_branch_request(repo, a, b)),
        is_bound(forge, repo, forge.commit_file_request(repo, a, b, c, d, e)),
        is_bound(forge, repo, forge.open_change_request(repo, a, b, c, d, flag)),
        is_bound(forge, repo, forge.list_open_request(repo, a)),
        is_bound(forge, repo, forge.auto_merge_request(repo, change)),
        is_bound(forge, repo, forge.merge_request(repo, change)),
        is_bound(forge, repo, forge.pipelines_request(repo, change)),
        is_bound(forge, repo, forge.change_request(repo, change)),
{
    let base = forge.project_url(repo);
    assert(base =~= base.subrange(0, base.len() as int));
    assert forall|x: Seq<char>, y: Seq<char>| base.is_prefix_of(x) implies #[trigger] base.is_prefix_of(
        x + y,
    ) by {
        lemma_extension_keeps_prefix(base, x, y);
    }
}

/// On one host, two repositories share a project address just when they have the same full name.
pub proof fn law_projects_are_told_apart(forge: &GitLabForge, a: &RepoRef, b: &RepoRef)
    requires
        forge.host_of(a) == forge.host_of(b),
    ensures
        forge.project_url(a) == forge.project_url(b) <==> a.slug() == b.slug(),
{
    let start = "https://"@ + forge.host_of(a) + "/api/v4/projects/"@;
    let x = percent_encoded(a.slug());
    let y = percent_encoded(b.slug());
    if forge.project_url(a) == forge.project_url(b) {
        assert((start + x).skip(start.len() as int) =~= x);
        assert((start + y).skip(start.len() as int) =~= y);
        law_encoding_keeps_texts_apart(a.slug(), b.slug());
    }
}

/// Creating a branch either fails, or it made the branch, or the branch was there; never two of
/// these.
pub proof fn law_branch_is_new_or_was_there(reply: HttpOutcome)
    ensures
        create_branch_result(reply) matches Ok(outcome) ==> outcome.created
            != outcome.already_existed,
{
}

/// Opening a change of a branch that has an open one comes to that one: it is asked for, and the
/// first one listed is adopted. A change that was just opened is never taken for an adopted one.
pub proof fn law_open_change_is_adopted(
    forge: &GitLabForge,
    repo: &RepoRef,
    head: Seq<char>,
    status: HttpStatus,
    body: String,
    mr: Option<GlMr>,
    listed: HttpOutcome,
    mrs: Option<Vec<GlMr>>,
)
    ensures
        !status.succeeded() && occurs(body@, "already exists"@) ==> forge.open_change_next(
            repo,
            head,
            HttpOutcome::Answered { status, body: Some(body) },
            mr,
        ) == OpenChangeStepView::ListOpen(forge.list_open_request(repo, head)),
        json_result(listed, mrs) matches Ok(open) ==> (open@.len() > 0 ==> adopt_result(
            head,
            listed,
            mrs,
        ) == Ok::<OpenedChange, Seq<char>>(
            OpenedChange { change: change_of(open@[0]), already_existed: true },
        )),
        forge.open_change_next(
            repo,
            head,
            HttpOutcome::Answered { status, body: Some(body) },
            mr,
        ) matches OpenChangeStepView::Done(Ok(opened)) ==> !opened.already_existed,
        adopt_result(head, listed, mrs) matches Ok(adopted) ==> adopted.already_existed,
{
}

/// An update of a file that was read names the commit at which it was read; a file that is new
/// names none.
pub proof fn law_update_names_the_commit_that_was_read(
    path: Seq<char>,
    reply: HttpOutcome,
    file: GlFile,
    raw: Option<Seq<u8>>,
    branch: Seq<char>,
    content: Seq<char>,
    message: Seq<char>,
)
    ensures
        read_file_result(path, reply, Some(file), raw) matches Ok(Some(blob)) ==> blob.blob_sha
            == file.last_commit_id@ && (blob.blob_sha.len() > 0 ==> GitLabForge::commit_fields(
            branch,
            content,
            blob.blob_sha,
            message,
        ).contains(("last_commit_id"@, JsonFieldView::Text(file.last_commit_id@)))),
        forall|i: int|
            0 <= i < GitLabForge::commit_fields(branch, content, Seq::empty(), message).len()
                ==> (#[trigger] GitLabForge::commit_fields(
                branch,
                content,
                Seq::empty(),
                message,
            )[i]).0 != "last_commit_id"@,
{
    reveal_strlit("branch");
    reveal_strlit("content");
    reveal_strlit("commit_message");
    reveal_strlit("last_commit_id");
    let sha = file.last_commit_id@;
    if sha.len() > 0 {
        let fields = GitLabForge::commit_fields(branch, content, sha, message);
        assert(fields[3] == ("last_commit_id"@, JsonFieldView::Text(sha)));
    }
    assert("commit_message"@[0] != "last_commit_id"@[0]);
}

/// Reading a file without naming a revision fetches just what reading it at the default branch
/// fetches.
pub proof fn law_no_revision_means_default_branch(
    forge: &GitLabForge,
    repo: &RepoRef,
    path: &str,
    reply: HttpOutcome,
    project: Option<Project>,
    on_default: ForgeResult<HttpRequest>,
    named: ReadFileStep,
    branch: &str,
)
    requires
        default_branch_result(reply, project) == Ok::<Seq<char>, Seq<char>>(branch@),
        branch@.len() > 0,
        call_ensures(
            GitLabForge::read_file_on_default,
            (forge, repo, path, &reply, project),
            on_default,
        ),
        call_ensures(GitLabForge::read_file, (forge, repo, path, branch), named),
    ensures
        on_default matches Ok(request) && named matches ReadFileStep::Fetch(same) && request@
            == same@,
{
}

/// A text that was cut is not cut again.
pub proof fn law_truncating_twice_is_truncating_once(text: Seq<char>)
    ensures
        prefix(text, 300).len() <= 300,
        prefix(prefix(text, 300), 300) == prefix(text, 300),
        prefix(text, 300).is_prefix_of(text),
{
    assert(text =~= text.subrange(0, text.len() as int));
}

} // verus!
