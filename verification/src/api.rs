use crate::json::json_escape;
use crate::json::json_escaped;
use vstd::prelude::*;
use vstd::string::StringExecFns;

verus! {

/// True when an HTTP status code counts as success (the 2xx range).
pub fn status_is_success(status: u16) -> (r: bool)
    ensures
        r == (200 <= status < 300),
{
    200 <= status && status < 300
}

/// The HTTP methods the remote API is driven with.
#[derive(Clone, Copy, PartialEq, Eq, Structural, Debug)]
pub enum Method {
    Get,
    Post,
    Put,
}

/// One request against the remote API, ready to be carried by any HTTP
/// transport: the method, the full URL, the bearer authorization value and
/// the JSON body, where the endpoint takes one.
pub struct HttpRequest {
    pub method: Method,
    pub url: String,
    pub bearer: String,
    pub body: Option<String>,
}

/// The `Accept` value every request carries: the versioned JSON media type.
pub fn accept_header_value() -> (r: &'static str)
    ensures
        r@ == "application/vnd.github.v3+json"@,
{
    "application/vnd.github.v3+json"
}

/// The `User-Agent` value every request carries.
pub fn user_agent_value() -> (r: &'static str)
    ensures
        r@ == "NextNode-Project-Generator/1.0"@,
{
    "NextNode-Project-Generator/1.0"
}

/// The URL that creates a repository under `org`.
pub open spec fn create_repo_url_of(org: Seq<char>) -> Seq<char> {
    "https://api.github.com/orgs/"@ + org + "/repos"@
}

/// The common prefix of every URL that addresses the repository `name`
/// under `org`.
pub open spec fn repo_url_prefix_of(org: Seq<char>, name: Seq<char>) -> Seq<char> {
    "https://api.github.com/repos/"@ + org + "/"@ + name
}

/// The URL that replaces the repository's topics.
pub open spec fn topics_url_of(org: Seq<char>, name: Seq<char>) -> Seq<char> {
    repo_url_prefix_of(org, name) + "/topics"@
}

/// The URL that reads the reference of `branch`.
pub open spec fn branch_ref_url_of(org: Seq<char>, name: Seq<char>, branch: Seq<char>) -> Seq<
    char,
> {
    repo_url_prefix_of(org, name) + "/git/refs/heads/"@ + branch
}

/// The URL that creates a reference.
pub open spec fn create_ref_url_of(org: Seq<char>, name: Seq<char>) -> Seq<char> {
    repo_url_prefix_of(org, name) + "/git/refs"@
}

/// The URL that dispatches a run of `workflow_file`.
pub open spec fn dispatch_url_of(
    org: Seq<char>,
    name: Seq<char>,
    workflow_file: Seq<char>,
) -> Seq<char> {
    repo_url_prefix_of(org, name) + "/actions/workflows/"@ + workflow_file + "/dispatches"@
}

/// The body of the create-repository call: a non-initialized repository with
/// the given name, description and visibility.
pub open spec fn create_repo_body_of(
    name: Seq<char>,
    description: Seq<char>,
    private: bool,
) -> Seq<char> {
    "{\"name\":\""@ + json_escaped(name) + "\",\"description\":\""@ + json_escaped(description)
        + "\",\"private\":"@ + (if private {
        "true"@
    } else {
        "false"@
    }) + ",\"auto_init\":false}"@
}

/// The body of the set-topics call: a single topic.
pub open spec fn topics_body_of(topic: Seq<char>) -> Seq<char> {
    "{\"names\":[\""@ + json_escaped(topic) + "\"]}"@
}

/// The body of the create-reference call: a branch reference pointing at the
/// given commit hash.
pub open spec fn create_ref_body_of(branch: Seq<char>, sha: Seq<char>) -> Seq<char> {
    "{\"ref\":\"refs/heads/"@ + json_escaped(branch) + "\",\"sha\":\""@ + json_escaped(sha)
        + "\"}"@
}

/// The body of the workflow-dispatch call: the branch the run targets.
pub open spec fn dispatch_body_of(branch: Seq<char>) -> Seq<char> {
    "{\"ref\":\""@ + json_escaped(branch) + "\"}"@
}

/// The authenticated client of the remote API: it holds the bearer token and
/// shapes every request the pipeline issues. Its view is the token's
/// characters.
pub struct GitHubRepo {
    token: String,
}

impl View for GitHubRepo {
    type V = Seq<char>;

    closed spec fn view(&self) -> Seq<char> {
        self.token@
    }
}

impl GitHubRepo {
    /// A client holding `token` as its bearer credential.
    pub fn new(token: &str) -> (r: Self)
        ensures
            r@ == token@,
    {
        GitHubRepo { token: String::from_str(token) }
    }

    /// The `Authorization` value of every request: the bearer token.
    pub fn bearer_header_value(&self) -> (r: String)
        ensures
            r@ == "Bearer "@ + self@,
    {
        let mut r = String::from_str("Bearer ");
        r.append(self.token.as_str());
        r
    }

    /// The request that creates the repository `name` under `org`, without
    /// platform-side initialization.
    pub fn create_repository_request(
        &self,
        org: &str,
        name: &str,
        description: &str,
        private: bool,
    ) -> (r: HttpRequest)
        ensures
            r.method is Post,
            r.url@ == create_repo_url_of(org@),
            r.bearer@ == "Bearer "@ + self@,
            r.body matches Some(b) && b@ == create_repo_body_of(name@, description@, private),
    {
        let mut url = String::from_str("https://api.github.com/orgs/");
        url.append(org);
        url.append("/repos");
        let mut body = String::from_str("{\"name\":\"");
        body.append(json_escape(name).as_str());
        body.append("\",\"description\":\"");
        body.append(json_escape(description).as_str());
        body.append("\",\"private\":");
        body.append(if private {
            "true"
        } else {
            "false"
        });
        body.append(",\"auto_init\":false}");
        HttpRequest {
            method: Method::Post,
            url,
            bearer: self.bearer_header_value(),
            body: Some(body),
        }
    }

    fn repo_url_prefix(&self, org: &str, name: &str) -> (r: String)
        ensures
            r@ == repo_url_prefix_of(org@, name@),
    {
        let mut url = String::from_str("https://api.github.com/repos/");
        url.append(org);
        url.append("/");
        url.append(name);
        url
    }

    /// The request that replaces the repository's topics with `topic`.
    pub fn topics_request(&self, org: &str, name: &str, topic: &str) -> (r: HttpRequest)
        ensures
            r.method is Put,
            r.url@ == topics_url_of(org@, name@),
            r.bearer@ == "Bearer "@ + self@,
            r.body matches Some(b) && b@ == topics_body_of(topic@),
    {
        let mut url = self.repo_url_prefix(org, name);
        url.append("/topics");
        let mut body = String::from_str("{\"names\":[\"");
        body.append(json_escape(topic).as_str());
        body.append("\"]}");
        HttpRequest {
            method: Method::Put,
            url,
            bearer: self.bearer_header_value(),
            body: Some(body),
        }
    }

    /// The request that reads the reference of `branch`.
    pub fn branch_reference_request(&self, org: &str, name: &str, branch: &str) -> (r: HttpRequest)
        ensures
            r.method is Get,
            r.url@ == branch_ref_url_of(org@, name@, branch@),
            r.bearer@ == "Bearer "@ + self@,
            r.body is None,
    {
        let mut url = self.repo_url_prefix(org, name);
        url.append("/git/refs/heads/");
        url.append(branch);
        HttpRequest { method: Method::Get, url, bearer: self.bearer_header_value(), body: None }
    }

    /// The request that creates the reference of `branch` at commit `sha`.
    pub fn create_branch_reference_request(
        &self,
        org: &str,
        name: &str,
        branch: &str,
        sha: &str,
    ) -> (r: HttpRequest)
        ensures
            r.method is Post,
            r.url@ == create_ref_url_of(org@, name@),
            r.bearer@ == "Bearer "@ + self@,
            r.body matches Some(b) && b@ == create_ref_body_of(branch@, sha@),
    {
        let mut url = self.repo_url_prefix(org, name);
        url.append("/git/refs");
        let mut body = String::from_str("{\"ref\":\"refs/heads/");
        body.append(json_escape(branch).as_str());
        body.append("\",\"sha\":\"");
        body.append(json_escape(sha).as_str());
        body.append("\"}");
        HttpRequest {
            method: Method::Post,
            url,
            bearer: self.bearer_header_value(),
            body: Some(body),
        }
    }

    /// The request that dispatches a run of `workflow_file` against `branch`.
    pub fn workflow_dispatch_request(
        &self,
        org: &str,
        name: &str,
        workflow_file: &str,
        branch: &str,
    ) -> (r: HttpRequest)
        ensures
            r.method is Post,
            r.url@ == dispatch_url_of(org@, name@, workflow_file@),
            r.bearer@ == "Bearer "@ + self@,
            r.body matches Some(b) && b@ == dispatch_body_of(branch@),
    {
        let mut url = self.repo_url_prefix(org, name);
        url.append("/actions/workflows/");
        url.append(workflow_file);
        url.append("/dispatches");
        let mut body = String::from_str("{\"ref\":\"");
        body.append(json_escape(branch).as_str());
        body.append("\"}");
        HttpRequest {
            method: Method::Post,
            url,
            bearer: self.bearer_header_value(),
            body: Some(body),
        }
    }
}

} // verus!
