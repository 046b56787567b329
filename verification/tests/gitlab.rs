use forge::gitlab::{
    failure_message, file_text, json, map_ci, truncate, GitLabForge, GlFile, GlMr, GlPipeline,
    OpenChangeStep, Project, ReadFileStep,
};
use forge::model::{
    repo_slug, ChangeRef, ChangeState, CiStatus, ForgeError, ForgeKind, RepoRef,
};
use forge::rest::{HttpOutcome, HttpRequest, HttpStatus, JsonField, Verb};

fn adapter() -> GitLabForge {
    GitLabForge::new("gitlab.savvifi.com".to_string(), "tok".to_string()).unwrap()
}

fn repo() -> RepoRef {
    RepoRef {
        forge: ForgeKind::Gitlab as i32,
        host: String::new(),
        owner: "studio".into(),
        name: "web".into(),
    }
}

fn change(number: u64) -> ChangeRef {
    ChangeRef { number, url: String::new(), branch: String::new() }
}

fn status(code: u16) -> HttpStatus {
    HttpStatus::new(code).unwrap()
}

fn answered(code: u16, body: &str) -> HttpOutcome {
    HttpOutcome::Answered { status: status(code), body: Some(body.to_string()) }
}

fn unread(code: u16) -> HttpOutcome {
    HttpOutcome::Answered { status: status(code), body: None }
}

fn mr(iid: u64, state: &str) -> GlMr {
    GlMr {
        iid,
        web_url: format!("https://x/{}", iid),
        source_branch: "feat/x".to_string(),
        state: state.to_string(),
        merge_commit_sha: None,
    }
}

fn message<T>(r: Result<T, ForgeError>) -> String {
    match r {
        Ok(_) => panic!("expected an error"),
        Err(e) => e.to_text(),
    }
}

const BASE: &str = "https://gitlab.savvifi.com/api/v4/projects/studio%2Fweb";

fn check(request: &HttpRequest, verb: Verb, tail: &str) {
    assert_eq!(request.verb, verb);
    assert_eq!(request.url, format!("{}{}", BASE, tail));
    assert_eq!(request.bearer, "tok");
}

#[test]
fn ci_status_mapping() {
    assert_eq!(map_ci("success"), CiStatus::Success);
    assert_eq!(map_ci("failed"), CiStatus::Failed);
    assert_eq!(map_ci("running"), CiStatus::Running);
    assert_eq!(map_ci("pending"), CiStatus::Pending);
    assert_eq!(map_ci("canceled"), CiStatus::Canceled);
    assert_eq!(map_ci("skipped"), CiStatus::Canceled);
    assert_eq!(map_ci("weird"), CiStatus::Unspecified);
}

#[test]
fn ci_status_words_for_pending() {
    for word in ["created", "waiting_for_resource", "preparing", "scheduled", "manual"] {
        assert_eq!(map_ci(word), CiStatus::Pending);
    }
    assert_eq!(map_ci("Success"), CiStatus::Unspecified);
    assert_eq!(map_ci(""), CiStatus::Unspecified);
}

#[test]
fn nested_group_project_id_is_url_encoded() {
    let f = GitLabForge::new("gitlab.savvifi.com".to_string(), "tok".to_string()).unwrap();
    let repo = RepoRef {
        forge: ForgeKind::Gitlab as i32,
        host: String::new(),
        owner: "studio".into(),
        name: "web".into(),
    };
    assert_eq!(
        f.base(&repo),
        "https://gitlab.savvifi.com/api/v4/projects/studio%2Fweb"
    );
    let nested = RepoRef { owner: "group/sub".into(), name: "repo".into(), ..repo };
    assert_eq!(
        f.base(&nested),
        "https://gitlab.savvifi.com/api/v4/projects/group%2Fsub%2Frepo"
    );
}

#[test]
fn hosts() {
    let public = GitLabForge::new(String::new(), "tok".to_string()).unwrap();
    assert_eq!(public.host_for(&repo()), "gitlab.com");
    assert_eq!(public.kind(), ForgeKind::Gitlab);
    let named = RepoRef { host: "git.example.org".into(), ..repo() };
    assert_eq!(adapter().host_for(&named), "git.example.org");
    assert_eq!(
        adapter().base(&named),
        "https://git.example.org/api/v4/projects/studio%2Fweb"
    );
    assert_eq!(repo_slug(&named), "studio/web");
}

#[test]
fn addresses_are_percent_encoded_bytewise() {
    let odd = RepoRef { owner: "a b~".into(), name: "\u{e9}%".into(), ..repo() };
    assert_eq!(
        adapter().base(&odd),
        "https://gitlab.savvifi.com/api/v4/projects/a%20b~%2F%C3%A9%25"
    );
}

#[test]
fn truncate_keeps_characters() {
    assert_eq!(truncate("short"), "short");
    let long: String = "\u{e9}".repeat(301);
    assert_eq!(truncate(&long), "\u{e9}".repeat(300));
    assert_eq!(truncate(&truncate(&long)), truncate(&long));
}

#[test]
fn failures_are_reported_with_status_and_trimmed_body() {
    assert_eq!(failure_message("gitlab", "404 Not Found", "\u{a0} no\n"), "gitlab 404 Not Found: no");
    assert_eq!(status(404).to_text(), "404 Not Found");
    assert_eq!(status(599).to_text(), "599 <unknown status code>");
    assert!(HttpStatus::new(99).is_none());
    assert!(HttpStatus::new(1000).is_none());
    assert!(status(200).is_success() && status(299).is_success());
    assert!(!status(199).is_success() && !status(300).is_success());
}

#[test]
fn json_outcomes() {
    assert_eq!(json(&answered(200, "7"), Some(7u64)), Ok(7));
    assert_eq!(message(json::<u64>(&HttpOutcome::Unanswered, None)), "gitlab request");
    assert_eq!(message(json(&unread(200), Some(7u64))), "read gitlab body");
    assert_eq!(
        message(json(&answered(500, " boom \n"), Some(7u64))),
        "gitlab 500 Internal Server Error: boom"
    );
    let text = "x".repeat(400);
    assert_eq!(
        message(json::<u64>(&answered(200, &text), None)),
        format!("parse gitlab json: {}", "x".repeat(300))
    );
}

#[test]
fn default_branch() {
    let request = adapter().default_branch(&repo());
    check(&request, Verb::Get, "");
    assert_eq!(request.json, None);
    let ok = answered(200, "{}");
    let named = Project { default_branch: Some("trunk".to_string()) };
    assert_eq!(GitLabForge::default_branch_outcome(&ok, Some(named)).unwrap(), "trunk");
    let unnamed = Project { default_branch: None };
    assert_eq!(GitLabForge::default_branch_outcome(&ok, Some(unnamed)).unwrap(), "main");
    assert_eq!(
        message(GitLabForge::default_branch_outcome(&answered(401, "no"), None)),
        "gitlab 401 Unauthorized: no"
    );
}

#[test]
fn read_file_requests() {
    let f = adapter();
    match f.read_file(&repo(), "src/a b.rs", "feat/x") {
        ReadFileStep::Fetch(request) => {
            check(&request, Verb::Get, "/repository/files/src%2Fa%20b.rs?ref=feat%2Fx")
        }
        ReadFileStep::AskDefaultBranch(_) => panic!("a revision was named"),
    }
    match f.read_file(&repo(), "a", "") {
        ReadFileStep::AskDefaultBranch(request) => check(&request, Verb::Get, ""),
        ReadFileStep::Fetch(_) => panic!("no revision was named"),
    }
    let project = Some(Project { default_branch: Some("trunk".to_string()) });
    let request = f.read_file_on_default(&repo(), "a", &answered(200, "{}"), project).unwrap();
    check(&request, Verb::Get, "/repository/files/a?ref=trunk");
    assert_eq!(
        message(f.read_file_on_default(&repo(), "a", &HttpOutcome::Unanswered, None)),
        "gitlab request"
    );
}

fn file(content: &str) -> Option<GlFile> {
    Some(GlFile {
        content: content.to_string(),
        blob_id: "b".to_string(),
        last_commit_id: "c0ffee".to_string(),
        file_path: "a.txt".to_string(),
    })
}

#[test]
fn read_file_outcomes() {
    let ok = answered(200, "{}");
    // "hello world", broken into lines.
    let blob = GitLabForge::read_file_outcome("a.txt", &ok, file("aGVsbG8g\r\nd29ybGQ=\n"))
        .unwrap()
        .unwrap();
    assert_eq!(blob.path, "a.txt");
    assert_eq!(blob.content, "hello world");
    assert_eq!(blob.blob_sha, "c0ffee");
    assert_eq!(GitLabForge::read_file_outcome("a.txt", &unread(404), None), Ok(None));
    assert_eq!(
        message(GitLabForge::read_file_outcome("a.txt", &ok, file("aGVsbG8"))),
        "decode gitlab file content"
    );
    assert_eq!(
        message(GitLabForge::read_file_outcome("a.txt", &ok, file("/x=="))),
        "decode gitlab file content"
    );
    assert_eq!(
        message(GitLabForge::read_file_outcome("a.txt", &ok, file("/////w=="))),
        "gitlab file not utf-8"
    );
    assert_eq!(message(GitLabForge::read_file_outcome("a.txt", &ok, None)), "parse gitlab file");
    assert_eq!(
        message(GitLabForge::read_file_outcome("a.txt", &unread(200), None)),
        "read gitlab file body"
    );
    assert_eq!(
        message(GitLabForge::read_file_outcome("a.txt", &answered(403, "no "), None)),
        "gitlab read_file 403 Forbidden: no"
    );
    assert_eq!(
        message(GitLabForge::read_file_outcome("a.txt", &HttpOutcome::Unanswered, None)),
        "gitlab request"
    );
}

#[test]
fn decoded_files() {
    assert_eq!(file_text(Some(vec![104, 105])).unwrap(), "hi");
    assert_eq!(message(file_text(None)), "decode gitlab file content");
    assert_eq!(message(file_text(Some(vec![255]))), "gitlab file not utf-8");
    let blob = GitLabForge::read_decoded("p", &answered(200, ""), file(""), Some(vec![104]));
    assert_eq!(blob.unwrap().unwrap().content, "h");
}

#[test]
fn create_branch() {
    let request = adapter().create_branch(&repo(), "feat/x", "main");
    check(&request, Verb::Post, "/repository/branches?branch=feat%2Fx&ref=main");
    let made = GitLabForge::create_branch_outcome(&unread(201)).unwrap();
    assert!(made.created && !made.already_existed);
    let there =
        GitLabForge::create_branch_outcome(&answered(400, "{\"message\":\"Branch already exists\"}"))
            .unwrap();
    assert!(!there.created && there.already_existed);
    assert_eq!(
        message(GitLabForge::create_branch_outcome(&answered(400, "bad"))),
        "gitlab create_branch 400 Bad Request: bad"
    );
    assert_eq!(
        message(GitLabForge::create_branch_outcome(&unread(400))),
        "gitlab create_branch 400 Bad Request: "
    );
}

fn text(name: &str, value: &str) -> (String, JsonField) {
    (name.to_string(), JsonField::Text(value.to_string()))
}

#[test]
fn commit_file() {
    let f = adapter();
    let fresh = f.commit_file(&repo(), "feat/x", "a/b", "body", "", "why");
    check(&fresh, Verb::Put, "/repository/files/a%2Fb");
    assert_eq!(
        fresh.json,
        Some(vec![text("branch", "feat/x"), text("content", "body"), text("commit_message", "why")])
    );
    let update = f.commit_file(&repo(), "feat/x", "a/b", "body", "c0ffee", "why");
    assert_eq!(
        update.json,
        Some(vec![
            text("branch", "feat/x"),
            text("content", "body"),
            text("commit_message", "why"),
            text("last_commit_id", "c0ffee"),
        ])
    );
    assert_eq!(GitLabForge::commit_file_outcome(&unread(200)).unwrap(), "");
    assert_eq!(
        message(GitLabForge::commit_file_outcome(&answered(409, "stale"))),
        "gitlab commit_file 409 Conflict: stale"
    );
}

#[test]
fn open_change() {
    let f = adapter();
    let request = f.open_change(&repo(), "feat/x", "main", "T", "B", true);
    check(&request, Verb::Post, "/merge_requests");
    assert_eq!(
        request.json,
        Some(vec![
            text("source_branch", "feat/x"),
            text("target_branch", "main"),
            text("title", "T"),
            text("description", "B"),
            ("remove_source_branch".to_string(), JsonField::Flag(true)),
        ])
    );
    match f.open_change_step(&repo(), "feat/x", &answered(201, "{}"), Some(mr(3, "opened"))) {
        OpenChangeStep::Done(r) => {
            let opened = r.unwrap();
            assert_eq!(opened.change.number, 3);
            assert_eq!(opened.change.url, "https://x/3");
            assert_eq!(opened.change.branch, "feat/x");
            assert!(!opened.already_existed);
        }
        OpenChangeStep::ListOpen(_) => panic!("it was opened"),
    }
    match f.open_change_step(&repo(), "feat/x", &answered(201, "{}"), None) {
        OpenChangeStep::Done(r) => assert_eq!(message(r), "parse opened MR"),
        OpenChangeStep::ListOpen(_) => panic!("it was opened"),
    }
    match f.open_change_step(&repo(), "feat/x", &answered(409, "no"), None) {
        OpenChangeStep::Done(r) => assert_eq!(message(r), "gitlab open_change 409 Conflict: no"),
        OpenChangeStep::ListOpen(_) => panic!("it was refused"),
    }
    match f.open_change_step(&repo(), "feat/x", &HttpOutcome::Unanswered, None) {
        OpenChangeStep::Done(r) => assert_eq!(message(r), "gitlab request"),
        OpenChangeStep::ListOpen(_) => panic!("nothing was answered"),
    }
}

#[test]
fn open_change_adopts_the_open_one() {
    let f = adapter();
    let there = answered(409, "Another open merge request already exists for this branch");
    match f.open_change_step(&repo(), "feat/x", &there, None) {
        OpenChangeStep::ListOpen(request) => {
            check(&request, Verb::Get, "/merge_requests?state=opened&source_branch=feat%2Fx")
        }
        OpenChangeStep::Done(_) => panic!("there is one already"),
    }
    let listed = Some(vec![mr(8, "opened"), mr(9, "opened")]);
    let opened = GitLabForge::adopt_change("feat/x", &answered(200, "[]"), listed).unwrap();
    assert_eq!(opened.change.number, 8);
    assert!(opened.already_existed);
    assert_eq!(
        message(GitLabForge::adopt_change("feat/x", &answered(200, "[]"), Some(Vec::new()))),
        "MR exists for feat/x but none returned"
    );
}

#[test]
fn auto_merge() {
    let request = adapter().enable_auto_merge(&repo(), &change(42));
    check(&request, Verb::Put, "/merge_requests/42/merge");
    assert_eq!(
        request.json,
        Some(vec![("merge_when_pipeline_succeeds".to_string(), JsonField::Flag(true))])
    );
    assert_eq!(GitLabForge::enable_auto_merge_outcome(&unread(200)), Ok(true));
    assert_eq!(GitLabForge::enable_auto_merge_outcome(&unread(405)), Ok(false));
    assert_eq!(GitLabForge::enable_auto_merge_outcome(&unread(406)), Ok(false));
    assert_eq!(
        message(GitLabForge::enable_auto_merge_outcome(&answered(404, "gone"))),
        "gitlab enable_auto_merge 404 Not Found: gone"
    );
}

#[test]
fn pipelines() {
    let request = adapter().pipeline_status(&repo(), &change(u64::MAX));
    check(&request, Verb::Get, "/merge_requests/18446744073709551615/pipelines");
    let ok = answered(200, "[]");
    let none = GitLabForge::pipeline_status_outcome(&ok, Some(Vec::new())).unwrap();
    assert_eq!(none.status, CiStatus::NoPipeline);
    assert_eq!(none.pipeline_id, "");
    assert_eq!(none.url, "");
    let first = GlPipeline { id: 1070, status: "manual".to_string(), web_url: "u".to_string() };
    let second = GlPipeline { id: 7, status: "failed".to_string(), web_url: "v".to_string() };
    let latest = GitLabForge::pipeline_status_outcome(&ok, Some(vec![first, second])).unwrap();
    assert_eq!(latest.status, CiStatus::Pending);
    assert_eq!(latest.pipeline_id, "1070");
    assert_eq!(latest.url, "u");
}

#[test]
fn merging() {
    let request = adapter().merge(&repo(), &change(0));
    check(&request, Verb::Put, "/merge_requests/0/merge");
    assert_eq!(request.json, None);
    let merged = GlMr { merge_commit_sha: Some("beef".to_string()), ..mr(1, "merged") };
    let ok = answered(200, "{}");
    assert_eq!(GitLabForge::merge_outcome(&ok, Some(merged)).unwrap(), "beef");
    assert_eq!(GitLabForge::merge_outcome(&ok, Some(mr(1, "merged"))).unwrap(), "");
    assert_eq!(
        message(GitLabForge::merge_outcome(&answered(405, "draft"), None)),
        "gitlab 405 Method Not Allowed: draft"
    );
}

#[test]
fn change_states() {
    check(&adapter().change_state(&repo(), &change(5)), Verb::Get, "/merge_requests/5");
    let ok = answered(200, "{}");
    for (word, state) in [
        ("merged", ChangeState::Merged),
        ("closed", ChangeState::Closed),
        ("opened", ChangeState::Open),
        ("", ChangeState::Open),
    ] {
        assert_eq!(GitLabForge::change_state_outcome(&ok, Some(mr(1, word))), Ok(state));
    }
    assert_eq!(
        message(GitLabForge::change_state_outcome(&HttpOutcome::Unanswered, None)),
        "gitlab request"
    );
}

#[test]
fn an_update_names_the_commit_that_was_read() {
    let blob = GitLabForge::read_file_outcome("a.txt", &answered(200, "{}"), file("aGk="))
        .unwrap()
        .unwrap();
    let request = adapter().commit_file(&repo(), "main", &blob.path, "new", &blob.blob_sha, "why");
    assert_eq!(request.json.unwrap()[3], text("last_commit_id", "c0ffee"));
}

#[test]
fn an_adapter_rests_on_its_client() {
    let built = reqwest::Client::builder().user_agent("test").build();
    let f = GitLabForge::with_client(String::new(), "tok".to_string(), built).unwrap();
    assert_eq!(f.host_for(&repo()), "gitlab.com");
    let refused = reqwest::Client::builder().user_agent("no\nagent").build();
    assert!(refused.is_err());
    assert_eq!(
        message(GitLabForge::with_client(String::new(), "tok".to_string(), refused)),
        "build gitlab http client"
    );
}

#[test]
fn a_pinned_adapter_keeps_to_its_host() {
    let named = RepoRef { host: "git.example.org".into(), ..repo() };
    let f = adapter().pin();
    assert_eq!(f.host_for(&named), "gitlab.savvifi.com");
    check(&f.default_branch(&named), Verb::Get, "");
}
