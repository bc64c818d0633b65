use repo_provision::api::GitHubRepo;
use repo_provision::api::Method;
use repo_provision::api::accept_header_value;
use repo_provision::api::user_agent_value;

#[test]
fn fixed_headers_have_their_documented_values() {
    assert_eq!(accept_header_value(), "application/vnd.github.v3+json");
    assert_eq!(user_agent_value(), "NextNode-Project-Generator/1.0");
}

#[test]
fn create_repository_request_is_exact() {
    let repo = GitHubRepo::new("tok123");
    let r = repo.create_repository_request("org", "demo", "a demo", false);
    assert_eq!(r.method, Method::Post);
    assert_eq!(r.url, "https://api.github.com/orgs/org/repos");
    assert_eq!(r.bearer, "Bearer tok123");
    assert_eq!(
        r.body.unwrap(),
        "{\"name\":\"demo\",\"description\":\"a demo\",\"private\":false,\"auto_init\":false}"
    );
}

#[test]
fn create_repository_request_escapes_its_fields() {
    let repo = GitHubRepo::new("t");
    let r = repo.create_repository_request("org", "demo", "say \"hi\"\\now", true);
    assert_eq!(
        r.body.unwrap(),
        "{\"name\":\"demo\",\"description\":\"say \\\"hi\\\"\\\\now\",\"private\":true,\"auto_init\":false}"
    );
}

#[test]
fn topics_request_is_exact() {
    let repo = GitHubRepo::new("t");
    let r = repo.topics_request("org", "demo", "web");
    assert_eq!(r.method, Method::Put);
    assert_eq!(r.url, "https://api.github.com/repos/org/demo/topics");
    assert_eq!(r.bearer, "Bearer t");
    assert_eq!(r.body.unwrap(), "{\"names\":[\"web\"]}");
}

#[test]
fn branch_reference_request_is_exact() {
    let repo = GitHubRepo::new("t");
    let r = repo.branch_reference_request("org", "demo", "main");
    assert_eq!(r.method, Method::Get);
    assert_eq!(r.url, "https://api.github.com/repos/org/demo/git/refs/heads/main");
    assert!(r.body.is_none());
}

#[test]
fn create_branch_reference_request_is_exact() {
    let repo = GitHubRepo::new("t");
    let r = repo.create_branch_reference_request("org", "demo", "develop", "abc123");
    assert_eq!(r.method, Method::Post);
    assert_eq!(r.url, "https://api.github.com/repos/org/demo/git/refs");
    assert_eq!(r.body.unwrap(), "{\"ref\":\"refs/heads/develop\",\"sha\":\"abc123\"}");
}

#[test]
fn workflow_dispatch_request_is_exact() {
    let repo = GitHubRepo::new("t");
    let r = repo.workflow_dispatch_request("org", "demo", "deploy-dev.yml", "develop");
    assert_eq!(r.method, Method::Post);
    assert_eq!(
        r.url,
        "https://api.github.com/repos/org/demo/actions/workflows/deploy-dev.yml/dispatches"
    );
    assert_eq!(r.body.unwrap(), "{\"ref\":\"develop\"}");
}
