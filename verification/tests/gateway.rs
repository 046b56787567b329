use forge::gateway::{
    assemble, change_state_response, commit_file_response, create_branch_response,
    default_branch_response, enable_auto_merge_response, ensure_trigger_response,
    list_triggers_response, merge_response, meta_str, open_change_response,
    pipeline_status_response, plan_adapter, read_file_response, to_status, AdapterPlan, Code,
    CommitFileRequest, CreateBranchRequest, Credentials, DefaultForgeFactory, Dispatch,
    EnableAutoMergeRequest, EnsureTriggerRequest, EnsuredTrigger, ForgeAdapter, ForgeCall,
    ForgeFactory, ForgeGateway, GetChangeStateRequest, GetDefaultBranchRequest,
    ListTriggersRequest, MergeRequest, OpenChangeRequest, PipelineStatusRequest, ReadFileRequest,
    Status,
};
use forge::model::{
    BranchOutcome, ChangeRef, ChangeState, CiStatus, FileBlob, ForgeError, ForgeKind,
    OpenedChange, PipelineStatus, RepoRef,
};
use tonic::metadata::{MetadataMap, MetadataValue};

struct FakeForgeFactory;

impl ForgeFactory for FakeForgeFactory {
    type Adapter = &'static str;

    fn build(&self, _repo: &RepoRef, _meta: &MetadataMap) -> Result<&'static str, Status> {
        Ok("fake")
    }
}

fn gitlab_repo() -> RepoRef {
    RepoRef {
        forge: ForgeKind::Gitlab as i32,
        host: "gitlab.example.com".to_string(),
        owner: "acme".to_string(),
        name: "widgets".to_string(),
    }
}

fn unspecified_repo() -> RepoRef {
    RepoRef {
        forge: 0,
        host: String::new(),
        owner: "acme".to_string(),
        name: "widgets".to_string(),
    }
}

fn seeded_change() -> ChangeRef {
    ChangeRef { number: 1, url: String::new(), branch: "feat/x".to_string() }
}

fn gateway() -> ForgeGateway<FakeForgeFactory> {
    ForgeGateway::with_factory(FakeForgeFactory)
}

fn gitlab_token() -> MetadataMap {
    let mut meta = MetadataMap::new();
    meta.insert("x-fastverk-gitlab-token", "tok".parse().unwrap());
    meta
}

fn refusal<T>(r: Result<T, Status>) -> Status {
    match r {
        Ok(_) => panic!("expected a refusal"),
        Err(s) => s,
    }
}

fn accepted<A>(r: Result<Dispatch<A>, Status>) -> Dispatch<A> {
    match r {
        Ok(d) => d,
        Err(s) => panic!("refused: {:?}", s),
    }
}

#[test]
fn missing_gitlab_token_is_unauthenticated() {
    let gw = ForgeGateway::new();
    let mut meta = MetadataMap::new();
    meta.insert("x-fastverk-gitlab-host", "gitlab.example.com".parse().unwrap());
    let req = GetDefaultBranchRequest { repo: Some(gitlab_repo()) };
    let err = refusal(gw.get_default_branch(req, &meta));
    assert_eq!(err.code, Code::Unauthenticated);
    assert_eq!(err.message, "missing gitlab token");
}

#[test]
fn forge_unspecified_is_invalid_argument() {
    let gw = ForgeGateway::new();
    for forge in [0, 3, -1] {
        let repo = RepoRef { forge, ..unspecified_repo() };
        let req = GetDefaultBranchRequest { repo: Some(repo) };
        let err = refusal(gw.get_default_branch(req, &MetadataMap::new()));
        assert_eq!(err.code, Code::InvalidArgument);
        assert_eq!(err.message, "repo.forge must be FORGE_GITLAB or FORGE_GITHUB");
    }
}

#[test]
fn missing_repo_is_invalid_argument() {
    let gw = ForgeGateway::default();
    let err = refusal(gw.get_default_branch(
        GetDefaultBranchRequest { repo: None },
        &MetadataMap::new(),
    ));
    assert_eq!(err.code, Code::InvalidArgument);
    assert_eq!(err.message, "repo is required");
}

#[test]
fn merge_missing_change_is_invalid_argument() {
    let req = MergeRequest { repo: Some(gitlab_repo()), change: None };
    let err = refusal(gateway().merge(req, &gitlab_token()));
    assert_eq!(err.code, Code::InvalidArgument);
    assert_eq!(err.message, "change is required");
}

#[test]
fn pipeline_status_missing_change_is_invalid_argument() {
    let req = PipelineStatusRequest { repo: Some(gitlab_repo()), change: None };
    let err = refusal(gateway().pipeline_status(req, &gitlab_token()));
    assert_eq!(err.code, Code::InvalidArgument);
}

#[test]
fn enable_auto_merge_missing_change_is_invalid_argument() {
    let req = EnableAutoMergeRequest { repo: Some(gitlab_repo()), change: None };
    let err = refusal(gateway().enable_auto_merge(req, &gitlab_token()));
    assert_eq!(err.code, Code::InvalidArgument);
}

#[test]
fn get_change_state_missing_change_is_invalid_argument() {
    let req = GetChangeStateRequest { repo: Some(gitlab_repo()), change: None };
    let err = refusal(gateway().get_change_state(req, &gitlab_token()));
    assert_eq!(err.code, Code::InvalidArgument);
}

#[test]
fn read_file_absent_path_returns_not_found() {
    let req = ReadFileRequest {
        repo: Some(gitlab_repo()),
        path: "missing.txt".to_string(),
        reference: "main".to_string(),
    };
    let d = accepted(gateway().read_file(req, &gitlab_token()));
    assert_eq!(
        d.call,
        ForgeCall::ReadFile { path: "missing.txt".to_string(), reference: "main".to_string() }
    );
    let resp = read_file_response(Ok(None)).unwrap();
    assert!(!resp.found, "absent file must have found=false");
    assert!(resp.blob.is_none(), "absent file must have blob=None");
}

#[test]
fn get_change_state_merge_commit_sha_is_empty() {
    let req = GetChangeStateRequest { repo: Some(gitlab_repo()), change: Some(seeded_change()) };
    let d = accepted(gateway().get_change_state(req, &gitlab_token()));
    assert_eq!(d.call, ForgeCall::ChangeState { change: seeded_change() });
    let resp = change_state_response(Ok(ChangeState::Merged)).unwrap();
    assert_eq!(resp.state, ChangeState::Merged as i32);
    assert!(resp.merge_commit_sha.is_empty());
}

#[test]
fn forge_error_becomes_internal_with_message() {
    let cause = ForgeError::msg("something went wrong on the forge".to_string());
    let err = refusal(default_branch_response(Err(cause.clone())));
    assert_eq!(err.code, Code::Internal);
    assert_eq!(err.message, "something went wrong on the forge");
    assert_eq!(to_status(cause), err);
}

#[test]
fn refused_caller_is_told_so_before_the_change_is_missed() {
    let req = MergeRequest { repo: Some(gitlab_repo()), change: None };
    let err = refusal(ForgeGateway::new().merge(req, &MetadataMap::new()));
    assert_eq!(err.code, Code::Unauthenticated);
}

#[test]
fn operations_run_as_the_caller() {
    let req = GetDefaultBranchRequest { repo: Some(gitlab_repo()) };
    let d = accepted(ForgeGateway::new().get_default_branch(req, &gitlab_token()));
    assert_eq!(d.repo, gitlab_repo());
    assert_eq!(d.call, ForgeCall::DefaultBranch);
    match d.forge {
        ForgeAdapter::Gitlab(forge) => {
            let request = forge.default_branch(&d.repo);
            assert_eq!(request.bearer, "tok");
            assert_eq!(
                request.url,
                "https://gitlab.example.com/api/v4/projects/acme%2Fwidgets"
            );
        }
        ForgeAdapter::Github { .. } => panic!("a GitLab repository"),
    }
    let mut meta = MetadataMap::new();
    meta.insert("x-fastverk-github-token", "gh".parse().unwrap());
    let repo = RepoRef { forge: ForgeKind::Github as i32, ..gitlab_repo() };
    match DefaultForgeFactory.build(&repo, &meta) {
        Ok(ForgeAdapter::Github { token }) => assert_eq!(token, "gh"),
        _ => panic!("a GitHub repository"),
    }
    let err = refusal(DefaultForgeFactory.build(&repo, &gitlab_token()));
    assert_eq!(err.code, Code::Unauthenticated);
    assert_eq!(err.message, "missing github token");
}

fn caller(token: Option<&str>, host: Option<&str>) -> Credentials {
    Credentials {
        gitlab_token: token.map(str::to_string),
        gitlab_host: host.map(str::to_string),
        github_token: None,
    }
}

#[test]
fn gitlab_host_travels_with_the_token() {
    let unhosted = RepoRef { host: String::new(), ..gitlab_repo() };
    for (repo, from_metadata, expected) in [
        (gitlab_repo(), None, "gitlab.example.com"),
        (gitlab_repo(), Some("git.acme.org"), "git.acme.org"),
        (unhosted.clone(), Some("git.acme.org"), "git.acme.org"),
    ] {
        match plan_adapter(&repo, caller(Some("tok"), from_metadata)) {
            Ok(AdapterPlan::Gitlab { host, token }) => {
                assert_eq!(host, expected);
                assert_eq!(token, "tok");
            }
            _ => panic!("a GitLab repository"),
        }
    }
    let err = refusal(plan_adapter(&unhosted, caller(Some("tok"), None)));
    assert_eq!(err.code, Code::InvalidArgument);
    assert_eq!(err.message, "gitlab host required (repo.host or metadata)");
    assert_eq!(refusal(plan_adapter(&unhosted, caller(Some(""), None))).code, Code::Unauthenticated);
}

#[test]
fn metadata_values_are_text_and_not_empty() {
    let mut meta = MetadataMap::new();
    assert_eq!(meta_str(&meta, "x-a"), None);
    meta.insert("x-a", "some value".parse().unwrap());
    assert_eq!(meta_str(&meta, "x-a"), Some("some value".to_string()));
    meta.insert("x-a", "".parse().unwrap());
    assert_eq!(meta_str(&meta, "x-a"), None);
    meta.insert("x-a", MetadataValue::try_from(&b"caf\xc3\xa9"[..]).unwrap());
    assert_eq!(meta_str(&meta, "x-a"), None);
}

#[test]
fn requests_become_calls() {
    let gw = gateway();
    let meta = MetadataMap::new();
    let s = |t: &str| t.to_string();
    let d = accepted(gw.create_branch(
        CreateBranchRequest { repo: Some(gitlab_repo()), name: s("n"), from_sha: s("f") },
        &meta,
    ));
    assert_eq!(d.call, ForgeCall::CreateBranch { name: s("n"), from_sha: s("f") });
    assert_eq!(d.forge, "fake");
    let d = accepted(gw.commit_file(
        CommitFileRequest {
            repo: Some(gitlab_repo()),
            branch: s("b"),
            path: s("p"),
            content: s("c"),
            blob_sha: s("s"),
            message: s("m"),
        },
        &meta,
    ));
    assert_eq!(
        d.call,
        ForgeCall::CommitFile {
            branch: s("b"),
            path: s("p"),
            content: s("c"),
            blob_sha: s("s"),
            message: s("m"),
        }
    );
    let d = accepted(gw.open_change(
        OpenChangeRequest {
            repo: Some(gitlab_repo()),
            head: s("h"),
            base: s("b"),
            title: s("t"),
            body: s("x"),
            remove_source_branch: true,
        },
        &meta,
    ));
    assert_eq!(
        d.call,
        ForgeCall::OpenChange {
            head: s("h"),
            base: s("b"),
            title: s("t"),
            body: s("x"),
            remove_source_branch: true,
        }
    );
    let change = Some(seeded_change());
    let d = accepted(gw.merge(MergeRequest { repo: Some(gitlab_repo()), change: change.clone() }, &meta));
    assert_eq!(d.call, ForgeCall::Merge { change: seeded_change() });
    let d = accepted(gw.pipeline_status(
        PipelineStatusRequest { repo: Some(gitlab_repo()), change: change.clone() },
        &meta,
    ));
    assert_eq!(d.call, ForgeCall::PipelineStatus { change: seeded_change() });
    let d = accepted(gw.enable_auto_merge(
        EnableAutoMergeRequest { repo: Some(gitlab_repo()), change },
        &meta,
    ));
    assert_eq!(d.call, ForgeCall::EnableAutoMerge { change: seeded_change() });
    let d = accepted(gw.list_triggers(ListTriggersRequest { repo: Some(gitlab_repo()) }, &meta));
    assert_eq!(d.call, ForgeCall::ListTriggers);
    let d = accepted(gw.ensure_trigger(
        EnsureTriggerRequest {
            repo: Some(gitlab_repo()),
            url: s("u"),
            events: vec![s("push")],
            secret: s("z"),
        },
        &meta,
    ));
    assert_eq!(
        d.call,
        ForgeCall::EnsureTrigger { url: s("u"), events: vec![s("push")], secret: s("z") }
    );
}

#[test]
fn assembling_prefers_the_adapters_refusal() {
    let no_adapter: Result<u8, Status> = Err(Status::unauthenticated("who?"));
    let err = refusal(assemble(gitlab_repo(), no_adapter, Err(Status::invalid_argument("what?"))));
    assert_eq!(err.message, "who?");
    let err = refusal(assemble(gitlab_repo(), Ok(1u8), Err(Status::invalid_argument("what?"))));
    assert_eq!(err.message, "what?");
    let d = accepted(assemble(gitlab_repo(), Ok(1u8), Ok(ForgeCall::ListTriggers)));
    assert_eq!((d.forge, d.repo, d.call), (1, gitlab_repo(), ForgeCall::ListTriggers));
}

#[test]
fn outcomes_become_responses() {
    let blob = FileBlob {
        path: "p".to_string(),
        content: "c".to_string(),
        blob_sha: "s".to_string(),
    };
    let resp = read_file_response(Ok(Some(blob.clone()))).unwrap();
    assert!(resp.found);
    assert_eq!(resp.blob, Some(blob));
    assert_eq!(default_branch_response(Ok("main".to_string())).unwrap().branch, "main");
    let made = BranchOutcome { created: false, already_existed: true };
    let resp = create_branch_response(Ok(made)).unwrap();
    assert!(!resp.created && resp.already_existed);
    assert_eq!(commit_file_response(Ok("abc".to_string())).unwrap().commit_sha, "abc");
    let opened = OpenedChange { change: seeded_change(), already_existed: true };
    let resp = open_change_response(Ok(opened)).unwrap();
    assert_eq!(resp.change, Some(seeded_change()));
    assert!(resp.already_existed);
    assert!(enable_auto_merge_response(Ok(true)).unwrap().enabled);
    let ps = PipelineStatus {
        status: CiStatus::Failed,
        pipeline_id: "9".to_string(),
        url: "u".to_string(),
    };
    let resp = pipeline_status_response(Ok(ps)).unwrap();
    assert_eq!(resp.status, CiStatus::Failed as i32);
    assert_eq!(resp.pipeline_id, "9");
    assert_eq!(resp.pipeline_url, "u");
    assert_eq!(merge_response(Ok("sha".to_string())).unwrap().merge_commit_sha, "sha");
    assert_eq!(list_triggers_response(Ok(vec![1, 2])).unwrap().triggers, vec![1, 2]);
    let resp = ensure_trigger_response(Ok(EnsuredTrigger { trigger: 5, created: true })).unwrap();
    assert_eq!((resp.trigger, resp.created), (Some(5), true));
}

#[test]
fn wire_numbers_follow_declaration_order() {
    for kind in [ForgeKind::Unspecified, ForgeKind::Github, ForgeKind::Gitlab] {
        assert_eq!(ForgeKind::from_wire(kind as i32), kind);
    }
    for status in [
        CiStatus::Unspecified,
        CiStatus::NoPipeline,
        CiStatus::Pending,
        CiStatus::Running,
        CiStatus::Success,
        CiStatus::Failed,
        CiStatus::Canceled,
    ] {
        assert_eq!(status.to_wire(), status as i32);
    }
    for state in [
        ChangeState::Unspecified,
        ChangeState::Open,
        ChangeState::Merged,
        ChangeState::Closed,
    ] {
        assert_eq!(state.to_wire(), state as i32);
    }
}

#[test]
fn requests_go_to_the_host_of_the_token() {
    let mut meta = gitlab_token();
    meta.insert("x-fastverk-gitlab-host", "meta.example.com".parse().unwrap());
    for repo in [gitlab_repo(), RepoRef { host: String::new(), ..gitlab_repo() }] {
        match DefaultForgeFactory.build(&repo, &meta) {
            Ok(ForgeAdapter::Gitlab(forge)) => {
                assert_eq!(forge.host_for(&repo), "meta.example.com");
            }
            _ => panic!("a GitLab repository"),
        }
    }
}

#[test]
fn each_request_has_its_own_adapter() {
    let gateway = ForgeGateway::new();
    for token in ["one", "two", "one"] {
        let mut meta = MetadataMap::new();
        meta.insert("x-fastverk-gitlab-token", token.parse().unwrap());
        let req = GetDefaultBranchRequest { repo: Some(gitlab_repo()) };
        match accepted(gateway.get_default_branch(req, &meta)).forge {
            ForgeAdapter::Gitlab(forge) => {
                assert_eq!(forge.default_branch(&gitlab_repo()).bearer, token);
            }
            ForgeAdapter::Github { .. } => panic!("a GitLab repository"),
        }
    }
}
