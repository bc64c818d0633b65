use crate::api::GitHubRepo;
use crate::api::HttpRequest;
use crate::api::Method;
use crate::api::branch_ref_url_of;
use crate::api::create_ref_body_of;
use crate::api::create_ref_url_of;
use crate::api::create_repo_body_of;
use crate::api::create_repo_url_of;
use crate::api::dispatch_body_of;
use crate::api::dispatch_url_of;
use crate::api::topics_body_of;
use crate::api::topics_url_of;
use crate::errors::ProvisionError;
use crate::errors::ProvisionErrorV;
use crate::identity::all_slashes;
use crate::identity::last_nonempty_segment;
use crate::identity::resolve_organization;
use crate::json::json_nested_string_field;
use crate::json::json_nested_string_field_of;
use crate::json::json_string_field;
use crate::json::json_string_field_of;
use crate::api::status_is_success;
use vstd::prelude::*;
use vstd::string::StringExecFns;

verus! {

/// The immutable input of one provisioning run, constructed once by the
/// caller: the bearer token, the repository name, the local project path,
/// the description, an optional topic tag, whether a secondary branch is
/// wanted, and whether deployment dispatch is allowed.
pub struct ProvisioningRequest {
    pub token: String,
    pub name: String,
    pub path: String,
    pub description: String,
    pub topic: Option<String>,
    pub create_develop: bool,
    pub auto_deploy: bool,
}

/// The mathematical shape of a `ProvisioningRequest`.
pub struct ProvisioningRequestV {
    pub token: Seq<char>,
    pub name: Seq<char>,
    pub path: Seq<char>,
    pub description: Seq<char>,
    pub topic: Option<Seq<char>>,
    pub create_develop: bool,
    pub auto_deploy: bool,
}

impl View for ProvisioningRequest {
    type V = ProvisioningRequestV;

    open spec fn view(&self) -> ProvisioningRequestV {
        ProvisioningRequestV {
            token: self.token@,
            name: self.name@,
            path: self.path@,
            description: self.description@,
            topic: match self.topic {
                Some(t) => Some(t@),
                None => None,
            },
            create_develop: self.create_develop,
            auto_deploy: self.auto_deploy,
        }
    }
}

/// Where a provisioning run stands. Every state but the two terminal ones
/// names the operation to perform next; the data a later operation needs
/// (the pushed repository's URL, the main branch's commit hash) rides along.
pub enum State {
    CreateRepo,
    SetTopic { repo_url: String },
    InitPush { repo_url: String },
    BranchDelay,
    ReadMainRef,
    ReadDevelopRef { main_sha: String },
    CreateDevelopRef { main_sha: String },
    CheckWorkflows,
    DeployDelay,
    DispatchDev,
    DispatchSpacing,
    DispatchProd,
    Done,
    Aborted { error: ProvisionError },
}

/// The mathematical shape of a `State`.
pub enum StateV {
    CreateRepo,
    SetTopic { repo_url: Seq<char> },
    InitPush { repo_url: Seq<char> },
    BranchDelay,
    ReadMainRef,
    ReadDevelopRef { main_sha: Seq<char> },
    CreateDevelopRef { main_sha: Seq<char> },
    CheckWorkflows,
    DeployDelay,
    DispatchDev,
    DispatchSpacing,
    DispatchProd,
    Done,
    Aborted { error: ProvisionErrorV },
}

impl View for State {
    type V = StateV;

    open spec fn view(&self) -> StateV {
        match self {
            State::CreateRepo => StateV::CreateRepo,
            State::SetTopic { repo_url } => StateV::SetTopic { repo_url: repo_url@ },
            State::InitPush { repo_url } => StateV::InitPush { repo_url: repo_url@ },
            State::BranchDelay => StateV::BranchDelay,
            State::ReadMainRef => StateV::ReadMainRef,
            State::ReadDevelopRef { main_sha } => StateV::ReadDevelopRef { main_sha: main_sha@ },
            State::CreateDevelopRef { main_sha } => StateV::CreateDevelopRef {
                main_sha: main_sha@,
            },
            State::CheckWorkflows => StateV::CheckWorkflows,
            State::DeployDelay => StateV::DeployDelay,
            State::DispatchDev => StateV::DispatchDev,
            State::DispatchSpacing => StateV::DispatchSpacing,
            State::DispatchProd => StateV::DispatchProd,
            State::Done => StateV::Done,
            State::Aborted { error } => StateV::Aborted { error: error@ },
        }
    }
}

/// What the world answers to one operation: an HTTP response that arrived
/// (whatever its status), a failure to reach the platform, the outcome of the
/// local version-control sequence, the end of a fixed delay, or the presence
/// of the two workflow-definition files in the pushed tree.
pub enum Event {
    Response { status: u16, body: String },
    TransportFailure { message: String },
    VcsOutcome { ok: bool, message: String },
    Slept,
    WorkflowFiles { dev_present: bool, prod_present: bool },
}

/// The mathematical shape of an `Event`.
pub enum EventV {
    Response { status: u16, body: Seq<char> },
    TransportFailure { message: Seq<char> },
    VcsOutcome { ok: bool, message: Seq<char> },
    Slept,
    WorkflowFiles { dev_present: bool, prod_present: bool },
}

impl View for Event {
    type V = EventV;

    open spec fn view(&self) -> EventV {
        match self {
            Event::Response { status, body } => EventV::Response { status: *status, body: body@ },
            Event::TransportFailure { message } => EventV::TransportFailure { message: message@ },
            Event::VcsOutcome { ok, message } => EventV::VcsOutcome {
                ok: *ok,
                message: message@,
            },
            Event::Slept => EventV::Slept,
            Event::WorkflowFiles { dev_present, prod_present } => EventV::WorkflowFiles {
                dev_present: *dev_present,
                prod_present: *prod_present,
            },
        }
    }
}

/// The transition relation of the provisioning run: from a state and the
/// event its operation produced, the state that follows. Repository creation
/// and the push are fatal when they fail; the topic, the branch setup and
/// the dispatches are advisory, and any outcome of theirs moves the run
/// forward. An event that does not belong to the state leaves the run where
/// it stands.
pub open spec fn next(req: ProvisioningRequestV, s: StateV, e: EventV) -> StateV {
    match s {
        StateV::CreateRepo => match e {
            EventV::Response { status, body } => {
                if 200 <= status < 300 {
                    match json_string_field_of(body, "html_url"@) {
                        Some(u) => if req.topic is Some {
                            StateV::SetTopic { repo_url: u }
                        } else {
                            StateV::InitPush { repo_url: u }
                        },
                        None => StateV::Aborted {
                            error: ProvisionErrorV::MalformedResponse {
                                message: "no html_url in the create-repository response"@,
                            },
                        },
                    }
                } else {
                    StateV::Aborted { error: ProvisionErrorV::RemoteApi { status, body } }
                }
            },
            EventV::TransportFailure { message } => StateV::Aborted {
                error: ProvisionErrorV::Transport { message },
            },
            _ => s,
        },
        StateV::SetTopic { repo_url } => match e {
            EventV::Response { .. } => StateV::InitPush { repo_url },
            EventV::TransportFailure { .. } => StateV::InitPush { repo_url },
            _ => s,
        },
        StateV::InitPush { .. } => match e {
            EventV::VcsOutcome { ok, message } => {
                if ok {
                    if req.create_develop {
                        StateV::BranchDelay
                    } else {
                        StateV::CheckWorkflows
                    }
                } else {
                    StateV::Aborted { error: ProvisionErrorV::Vcs { message } }
                }
            },
            _ => s,
        },
        StateV::BranchDelay => match e {
            EventV::Slept => StateV::ReadMainRef,
            _ => s,
        },
        StateV::ReadMainRef => match e {
            EventV::Response { status, body } => {
                if 200 <= status < 300 {
                    match json_nested_string_field_of(body, "object"@, "sha"@) {
                        Some(sha) => StateV::ReadDevelopRef { main_sha: sha },
                        None => StateV::CheckWorkflows,
                    }
                } else {
                    StateV::CheckWorkflows
                }
            },
            EventV::TransportFailure { .. } => StateV::CheckWorkflows,
            _ => s,
        },
        StateV::ReadDevelopRef { main_sha } => match e {
            EventV::Response { status, .. } => {
                if 200 <= status < 300 {
                    StateV::CheckWorkflows
                } else {
                    StateV::CreateDevelopRef { main_sha }
                }
            },
            EventV::TransportFailure { .. } => StateV::CreateDevelopRef { main_sha },
            _ => s,
        },
        StateV::CreateDevelopRef { .. } => match e {
            EventV::Response { .. } => StateV::CheckWorkflows,
            EventV::TransportFailure { .. } => StateV::CheckWorkflows,
            _ => s,
        },
        StateV::CheckWorkflows => match e {
            EventV::WorkflowFiles { dev_present, prod_present } => {
                if dev_present && prod_present && req.auto_deploy {
                    StateV::DeployDelay
                } else {
                    StateV::Done
                }
            },
            _ => s,
        },
        StateV::DeployDelay => match e {
            EventV::Slept => StateV::DispatchDev,
            _ => s,
        },
        StateV::DispatchDev => match e {
            EventV::Response { .. } => StateV::DispatchSpacing,
            EventV::TransportFailure { .. } => StateV::DispatchSpacing,
            _ => s,
        },
        StateV::DispatchSpacing => match e {
            EventV::Slept => StateV::DispatchProd,
            _ => s,
        },
        StateV::DispatchProd => match e {
            EventV::Response { .. } => StateV::Done,
            EventV::TransportFailure { .. } => StateV::Done,
            _ => s,
        },
        StateV::Done => StateV::Done,
        StateV::Aborted { error } => StateV::Aborted { error },
    }
}

/// The operation a state asks the world to perform, as data: the HTTP
/// request, the local version-control sequence, a fixed suspension, the
/// check for the workflow-definition files, or nothing at all.
pub enum ActionReq {
    Http { request: HttpRequest },
    RunVcs { local_path: String, remote_url: String, author_name: String, author_email: String },
    Sleep { seconds: u64 },
    CheckWorkflowFiles { local_path: String },
    Idle,
}

/// The mathematical shape of an `ActionReq`.
pub enum ActionV {
    Http { method: Method, url: Seq<char>, bearer: Seq<char>, body: Option<Seq<char>> },
    RunVcs {
        local_path: Seq<char>,
        remote_url: Seq<char>,
        author_name: Seq<char>,
        author_email: Seq<char>,
    },
    Sleep { seconds: u64 },
    CheckWorkflowFiles { local_path: Seq<char> },
    Idle,
}

impl View for ActionReq {
    type V = ActionV;

    open spec fn view(&self) -> ActionV {
        match self {
            ActionReq::Http { request } => ActionV::Http {
                method: request.method,
                url: request.url@,
                bearer: request.bearer@,
                body: match &request.body {
                    Some(b) => Some(b@),
                    None => None,
                },
            },
            ActionReq::RunVcs { local_path, remote_url, author_name, author_email } => {
                ActionV::RunVcs {
                    local_path: local_path@,
                    remote_url: remote_url@,
                    author_name: author_name@,
                    author_email: author_email@,
                }
            },
            ActionReq::Sleep { seconds } => ActionV::Sleep { seconds: *seconds },
            ActionReq::CheckWorkflowFiles { local_path } => ActionV::CheckWorkflowFiles {
                local_path: local_path@,
            },
            ActionReq::Idle => ActionV::Idle,
        }
    }
}

/// The operation each state stands for, over the request, the organization
/// and the token. The delays are the platform's eventual-consistency waits:
/// five seconds before the branch setup, ten before the first dispatch, two
/// between the two dispatches.
pub open spec fn action_of(
    req: ProvisioningRequestV,
    org: Seq<char>,
    token: Seq<char>,
    s: StateV,
) -> ActionV {
    let bearer = "Bearer "@ + token;
    match s {
        StateV::CreateRepo => ActionV::Http {
            method: Method::Post,
            url: create_repo_url_of(org),
            bearer,
            body: Some(create_repo_body_of(req.name, req.description, false)),
        },
        StateV::SetTopic { .. } => match req.topic {
            Some(t) => ActionV::Http {
                method: Method::Put,
                url: topics_url_of(org, req.name),
                bearer,
                body: Some(topics_body_of(t)),
            },
            None => ActionV::Idle,
        },
        StateV::InitPush { repo_url } => ActionV::RunVcs {
            local_path: req.path,
            remote_url: repo_url,
            author_name: "Project Generator"@,
            author_email: "generator@nextnode.dev"@,
        },
        StateV::BranchDelay => ActionV::Sleep { seconds: 5 },
        StateV::ReadMainRef => ActionV::Http {
            method: Method::Get,
            url: branch_ref_url_of(org, req.name, "main"@),
            bearer,
            body: None,
        },
        StateV::ReadDevelopRef { .. } => ActionV::Http {
            method: Method::Get,
            url: branch_ref_url_of(org, req.name, "develop"@),
            bearer,
            body: None,
        },
        StateV::CreateDevelopRef { main_sha } => ActionV::Http {
            method: Method::Post,
            url: create_ref_url_of(org, req.name),
            bearer,
            body: Some(create_ref_body_of("develop"@, main_sha)),
        },
        StateV::CheckWorkflows => ActionV::CheckWorkflowFiles { local_path: req.path },
        StateV::DeployDelay => ActionV::Sleep { seconds: 10 },
        StateV::DispatchDev => ActionV::Http {
            method: Method::Post,
            url: dispatch_url_of(org, req.name, "deploy-dev.yml"@),
            bearer,
            body: Some(dispatch_body_of("develop"@)),
        },
        StateV::DispatchSpacing => ActionV::Sleep { seconds: 2 },
        StateV::DispatchProd => ActionV::Http {
            method: Method::Post,
            url: dispatch_url_of(org, req.name, "deploy-prod.yml"@),
            bearer,
            body: Some(dispatch_body_of("main"@)),
        },
        StateV::Done => ActionV::Idle,
        StateV::Aborted { .. } => ActionV::Idle,
    }
}

/// One provisioning run: the request, the client, the organization the
/// repository is created under, and where the run stands.
pub struct Pipeline {
    pub repo: GitHubRepo,
    pub req: ProvisioningRequest,
    pub org: String,
    pub state: State,
}

impl Pipeline {
    /// Starts a run: resolves the organization from the base URL and stands
    /// at the create-repository step. Fails only when the base URL has no
    /// segment, the one configuration error.
    pub fn new(req: ProvisioningRequest, base_url: &str) -> (r: Result<Pipeline, ProvisionError>)
        ensures
            match r {
                Ok(p) => {
                    &&& !all_slashes(base_url@)
                    &&& p.org@ == last_nonempty_segment(base_url@)
                    &&& p.req@ == req@
                    &&& p.repo@ == req.token@
                    &&& p.state@ is CreateRepo
                },
                Err(e) => all_slashes(base_url@) && e@ is Configuration,
            },
    {
        let org = match resolve_organization(base_url) {
            Ok(org) => org,
            Err(e) => {
                return Err(e);
            },
        };
        let repo = GitHubRepo::new(req.token.as_str());
        Ok(Pipeline { repo, req, org, state: State::CreateRepo })
    }

    /// The operation to perform for the current state.
    pub fn action(&self) -> (a: ActionReq)
        ensures
            a@ == action_of(self.req@, self.org@, self.repo@, self.state@),
    {
        match &self.state {
            State::CreateRepo => ActionReq::Http {
                request: self.repo.create_repository_request(
                    self.org.as_str(),
                    self.req.name.as_str(),
                    self.req.description.as_str(),
                    false,
                ),
            },
            State::SetTopic { .. } => match &self.req.topic {
                Some(t) => ActionReq::Http {
                    request: self.repo.topics_request(
                        self.org.as_str(),
                        self.req.name.as_str(),
                        t.as_str(),
                    ),
                },
                None => ActionReq::Idle,
            },
            State::InitPush { repo_url } => ActionReq::RunVcs {
                local_path: self.req.path.clone(),
                remote_url: repo_url.clone(),
                author_name: String::from_str(crate::vcs::default_author_name()),
                author_email: String::from_str(crate::vcs::default_author_email()),
            },
            State::BranchDelay => ActionReq::Sleep { seconds: 5 },
            State::ReadMainRef => ActionReq::Http {
                request: self.repo.branch_reference_request(
                    self.org.as_str(),
                    self.req.name.as_str(),
                    "main",
                ),
            },
            State::ReadDevelopRef { .. } => ActionReq::Http {
                request: self.repo.branch_reference_request(
                    self.org.as_str(),
                    self.req.name.as_str(),
                    "develop",
                ),
            },
            State::CreateDevelopRef { main_sha } => ActionReq::Http {
                request: self.repo.create_branch_reference_request(
                    self.org.as_str(),
                    self.req.name.as_str(),
                    "develop",
                    main_sha.as_str(),
                ),
            },
            State::CheckWorkflows => ActionReq::CheckWorkflowFiles {
                local_path: self.req.path.clone(),
            },
            State::DeployDelay => ActionReq::Sleep { seconds: 10 },
            State::DispatchDev => ActionReq::Http {
                request: self.repo.workflow_dispatch_request(
                    self.org.as_str(),
                    self.req.name.as_str(),
                    "deploy-dev.yml",
                    "develop",
                ),
            },
            State::DispatchSpacing => ActionReq::Sleep { seconds: 2 },
            State::DispatchProd => ActionReq::Http {
                request: self.repo.workflow_dispatch_request(
                    self.org.as_str(),
                    self.req.name.as_str(),
                    "deploy-prod.yml",
                    "main",
                ),
            },
            State::Done => ActionReq::Idle,
            State::Aborted { .. } => ActionReq::Idle,
        }
    }

    /// Moves the run forward by one event.
    pub fn step(self, event: Event) -> (r: Pipeline)
        ensures
            r.req@ == self.req@,
            r.org@ == self.org@,
            r.repo@ == self.repo@,
            r.state@ == next(self.req@, self.state@, event@),
    {
        let Pipeline { repo, req, org, state } = self;
        let ns = match (state, event) {
            (State::CreateRepo, Event::Response { status, body }) => {
                if status_is_success(status) {
                    match json_string_field(body.as_str(), "html_url") {
                        Some(u) => {
                            if req.topic.is_some() {
                                State::SetTopic { repo_url: u }
                            } else {
                                State::InitPush { repo_url: u }
                            }
                        },
                        None => State::Aborted {
                            error: ProvisionError::MalformedResponse {
                                message: String::from_str(
                                    "no html_url in the create-repository response",
                                ),
                            },
                        },
                    }
                } else {
                    State::Aborted { error: ProvisionError::RemoteApi { status, body } }
                }
            },
            (State::CreateRepo, Event::TransportFailure { message }) => State::Aborted {
                error: ProvisionError::Transport { message },
            },
            (State::SetTopic { repo_url }, Event::Response { .. }) => State::InitPush { repo_url },
            (State::SetTopic { repo_url }, Event::TransportFailure { .. }) => State::InitPush {
                repo_url,
            },
            (State::InitPush { .. }, Event::VcsOutcome { ok, message }) => {
                if ok {
                    if req.create_develop {
                        State::BranchDelay
                    } else {
                        State::CheckWorkflows
                    }
                } else {
                    State::Aborted { error: ProvisionError::Vcs { message } }
                }
            },
            (State::BranchDelay, Event::Slept) => State::ReadMainRef,
            (State::ReadMainRef, Event::Response { status, body }) => {
                if status_is_success(status) {
                    match json_nested_string_field(body.as_str(), "object", "sha") {
                        Some(sha) => State::ReadDevelopRef { main_sha: sha },
                        None => State::CheckWorkflows,
                    }
                } else {
                    State::CheckWorkflows
                }
            },
            (State::ReadMainRef, Event::TransportFailure { .. }) => State::CheckWorkflows,
            (State::ReadDevelopRef { main_sha }, Event::Response { status, .. }) => {
                if status_is_success(status) {
                    State::CheckWorkflows
                } else {
                    State::CreateDevelopRef { main_sha }
                }
            },
            (
                State::ReadDevelopRef { main_sha },
                Event::TransportFailure { .. },
            ) => State::CreateDevelopRef { main_sha },
            (State::CreateDevelopRef { .. }, Event::Response { .. }) => State::CheckWorkflows,
            (State::CreateDevelopRef { .. }, Event::TransportFailure { .. }) => {
                State::CheckWorkflows
            },
            (State::CheckWorkflows, Event::WorkflowFiles { dev_present, prod_present }) => {
                if dev_present && prod_present && req.auto_deploy {
                    State::DeployDelay
                } else {
                    State::Done
                }
            },
            (State::DeployDelay, Event::Slept) => State::DispatchDev,
            (State::DispatchDev, Event::Response { .. }) => State::DispatchSpacing,
            (State::DispatchDev, Event::TransportFailure { .. }) => State::DispatchSpacing,
            (State::DispatchSpacing, Event::Slept) => State::DispatchProd,
            (State::DispatchProd, Event::Response { .. }) => State::Done,
            (State::DispatchProd, Event::TransportFailure { .. }) => State::Done,
            (s, _) => s,
        };
        Pipeline { repo, req, org, state: ns }
    }

    /// True when the run reached its successful terminal state.
    pub fn is_done(&self) -> (r: bool)
        ensures
            r == (self.state@ is Done),
    {
        match &self.state {
            State::Done => true,
            _ => false,
        }
    }

    /// True when the run was aborted by a fatal failure.
    pub fn is_aborted(&self) -> (r: bool)
        ensures
            r == (self.state@ is Aborted),
    {
        match &self.state {
            State::Aborted { .. } => true,
            _ => false,
        }
    }
}

impl State {
    /// The failure an aborted run ended with, described; `None` while the
    /// run stands anywhere else.
    pub fn abort_description(&self) -> (r: Option<String>)
        ensures
            match self@ {
                StateV::Aborted { error } => r matches Some(m) && m@ == error.description(),
                _ => r is None,
            },
    {
        match self {
            State::Aborted { error } => Some(error.describe().clone()),
            _ => None,
        }
    }
}

/// The relative path of the development deployment workflow definition.
pub fn workflow_dev_file() -> (r: &'static str)
    ensures
        r@ == ".github/workflows/deploy-dev.yml"@,
{
    ".github/workflows/deploy-dev.yml"
}

/// The relative path of the production deployment workflow definition.
pub fn workflow_prod_file() -> (r: &'static str)
    ensures
        r@ == ".github/workflows/deploy-prod.yml"@,
{
    ".github/workflows/deploy-prod.yml"
}

} // verus!
