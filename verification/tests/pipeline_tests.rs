use repo_provision::api::Method;
use repo_provision::errors::ProvisionError;
use repo_provision::pipeline::ActionReq;
use repo_provision::pipeline::Event;
use repo_provision::pipeline::Pipeline;
use repo_provision::pipeline::ProvisioningRequest;
use repo_provision::pipeline::State;
use repo_provision::pipeline::workflow_dev_file;
use repo_provision::pipeline::workflow_prod_file;

fn demo_request(topic: Option<&str>, create_develop: bool, auto_deploy: bool) -> ProvisioningRequest {
    ProvisioningRequest {
        token: String::from("tok"),
        name: String::from("demo"),
        path: String::from("/tmp/demo"),
        description: String::from("d"),
        topic: topic.map(String::from),
        create_develop,
        auto_deploy,
    }
}

fn response(status: u16, body: &str) -> Event {
    Event::Response { status, body: String::from(body) }
}

#[test]
fn fixed_workflow_paths_are_exact() {
    assert_eq!(workflow_dev_file(), ".github/workflows/deploy-dev.yml");
    assert_eq!(workflow_prod_file(), ".github/workflows/deploy-prod.yml");
}

#[test]
fn new_run_fails_on_an_unresolvable_base_url() {
    let r = Pipeline::new(demo_request(None, true, true), "///");
    assert!(matches!(r, Err(ProvisionError::Configuration { .. })));
}

#[test]
fn full_run_without_workflow_files() {
    // The end-to-end happy path: one create, one push, one read of main's
    // reference, one develop check, one create of develop at main's hash,
    // and no dispatch call, since the workflow files are absent.
    let mut p = Pipeline::new(demo_request(None, true, true), "https://github.com/TestOrg").unwrap();
    let mut create_repo_calls = 0;
    let mut push_calls = 0;
    let mut main_reads = 0;
    let mut develop_creates = 0;
    let mut dispatch_calls = 0;

    assert!(matches!(p.state, State::CreateRepo));
    match p.action() {
        ActionReq::Http { request } => {
            create_repo_calls += 1;
            assert_eq!(request.method, Method::Post);
            assert_eq!(request.url, "https://api.github.com/orgs/TestOrg/repos");
            assert_eq!(request.bearer, "Bearer tok");
            assert_eq!(
                request.body.unwrap(),
                "{\"name\":\"demo\",\"description\":\"d\",\"private\":false,\"auto_init\":false}"
            );
        },
        _ => panic!("the first operation must create the repository"),
    }
    p = p.step(response(201, "{\"html_url\":\"https://github.com/TestOrg/demo\"}"));

    // No topic was supplied, so the run moves straight to the push.
    assert!(matches!(p.state, State::InitPush { .. }));
    match p.action() {
        ActionReq::RunVcs { local_path, remote_url, author_name, author_email } => {
            push_calls += 1;
            assert_eq!(local_path, "/tmp/demo");
            assert_eq!(remote_url, "https://github.com/TestOrg/demo");
            assert_eq!(author_name, "Project Generator");
            assert_eq!(author_email, "generator@nextnode.dev");
        },
        _ => panic!("after creation the run must push"),
    }
    p = p.step(Event::VcsOutcome { ok: true, message: String::new() });

    assert!(matches!(p.state, State::BranchDelay));
    assert!(matches!(p.action(), ActionReq::Sleep { seconds: 5 }));
    p = p.step(Event::Slept);

    assert!(matches!(p.state, State::ReadMainRef));
    match p.action() {
        ActionReq::Http { request } => {
            main_reads += 1;
            assert_eq!(request.method, Method::Get);
            assert_eq!(
                request.url,
                "https://api.github.com/repos/TestOrg/demo/git/refs/heads/main"
            );
        },
        _ => panic!("branch setup must read main's reference"),
    }
    p = p.step(response(200, "{\"object\":{\"sha\":\"mainsha\"}}"));

    assert!(matches!(p.state, State::ReadDevelopRef { .. }));
    match p.action() {
        ActionReq::Http { request } => {
            assert_eq!(request.method, Method::Get);
            assert_eq!(
                request.url,
                "https://api.github.com/repos/TestOrg/demo/git/refs/heads/develop"
            );
        },
        _ => panic!("branch setup must check for develop"),
    }
    p = p.step(response(404, "{}"));

    assert!(matches!(p.state, State::CreateDevelopRef { .. }));
    match p.action() {
        ActionReq::Http { request } => {
            develop_creates += 1;
            assert_eq!(request.method, Method::Post);
            assert_eq!(request.url, "https://api.github.com/repos/TestOrg/demo/git/refs");
            assert_eq!(
                request.body.unwrap(),
                "{\"ref\":\"refs/heads/develop\",\"sha\":\"mainsha\"}"
            );
        },
        _ => panic!("a missing develop must be created"),
    }
    p = p.step(response(201, "{}"));

    assert!(matches!(p.state, State::CheckWorkflows));
    assert!(matches!(p.action(), ActionReq::CheckWorkflowFiles { .. }));
    p = p.step(Event::WorkflowFiles { dev_present: false, prod_present: false });

    if let ActionReq::Http { .. } = p.action() {
        dispatch_calls += 1;
    }
    assert!(p.is_done());
    assert!(!p.is_aborted());
    assert_eq!(create_repo_calls, 1);
    assert_eq!(push_calls, 1);
    assert_eq!(main_reads, 1);
    assert_eq!(develop_creates, 1);
    assert_eq!(dispatch_calls, 0);
}

#[test]
fn rejected_creation_aborts_before_any_other_stage() {
    // The end-to-end fatal path: the platform answers 422 to the create
    // call, the run aborts, and no push, branch or dispatch operation is
    // asked for afterwards.
    let mut p = Pipeline::new(demo_request(None, true, true), "https://github.com/TestOrg").unwrap();
    p = p.step(response(422, "Validation Failed"));
    match &p.state {
        State::Aborted { error: ProvisionError::RemoteApi { status, body } } => {
            assert_eq!(*status, 422);
            assert_eq!(body, "Validation Failed");
        },
        _ => panic!("a rejected creation must abort the run"),
    }
    assert!(matches!(p.action(), ActionReq::Idle));
    p = p.step(Event::Slept);
    p = p.step(Event::VcsOutcome { ok: true, message: String::new() });
    assert!(p.is_aborted());
    assert!(matches!(p.action(), ActionReq::Idle));
    assert_eq!(p.state.abort_description().unwrap(), "Validation Failed");
}

#[test]
fn only_terminal_states_describe_an_abort() {
    let p = Pipeline::new(demo_request(None, true, true), "https://github.com/TestOrg").unwrap();
    assert!(p.state.abort_description().is_none());
}

#[test]
fn creation_response_without_url_aborts() {
    let p = Pipeline::new(demo_request(None, true, true), "https://github.com/TestOrg").unwrap();
    let p = p.step(response(201, "{\"name\":\"demo\"}"));
    assert!(matches!(
        p.state,
        State::Aborted { error: ProvisionError::MalformedResponse { .. } }
    ));
}

#[test]
fn transport_failure_at_creation_aborts() {
    let p = Pipeline::new(demo_request(None, true, true), "https://github.com/TestOrg").unwrap();
    let p = p.step(Event::TransportFailure { message: String::from("connection refused") });
    assert!(matches!(p.state, State::Aborted { error: ProvisionError::Transport { .. } }));
}

#[test]
fn push_failure_aborts_the_run() {
    let mut p = Pipeline::new(demo_request(None, true, true), "https://github.com/TestOrg").unwrap();
    p = p.step(response(201, "{\"html_url\":\"u\"}"));
    p = p.step(Event::VcsOutcome { ok: false, message: String::from("push rejected") });
    match &p.state {
        State::Aborted { error: ProvisionError::Vcs { message } } => {
            assert_eq!(message, "push rejected");
        },
        _ => panic!("a failed push must abort the run"),
    }
}

#[test]
fn topic_is_set_before_the_push_and_its_failure_is_advisory() {
    let mut p =
        Pipeline::new(demo_request(Some("web"), false, true), "https://github.com/TestOrg").unwrap();
    p = p.step(response(201, "{\"html_url\":\"u\"}"));
    assert!(matches!(p.state, State::SetTopic { .. }));
    match p.action() {
        ActionReq::Http { request } => {
            assert_eq!(request.method, Method::Put);
            assert_eq!(request.url, "https://api.github.com/repos/TestOrg/demo/topics");
            assert_eq!(request.body.unwrap(), "{\"names\":[\"web\"]}");
        },
        _ => panic!("a supplied topic must be set"),
    }
    // The topic call fails; the run still proceeds to the push.
    p = p.step(response(500, "oops"));
    assert!(matches!(p.state, State::InitPush { .. }));
}

#[test]
fn branch_setup_is_skipped_when_not_requested() {
    let mut p = Pipeline::new(demo_request(None, false, true), "https://github.com/TestOrg").unwrap();
    p = p.step(response(201, "{\"html_url\":\"u\"}"));
    p = p.step(Event::VcsOutcome { ok: true, message: String::new() });
    assert!(matches!(p.state, State::CheckWorkflows));
}

#[test]
fn existing_develop_skips_the_create_call() {
    // Idempotent branch setup: a successful develop read means no create
    // request is issued, and the run still succeeds.
    let mut p = Pipeline::new(demo_request(None, true, true), "https://github.com/TestOrg").unwrap();
    p = p.step(response(201, "{\"html_url\":\"u\"}"));
    p = p.step(Event::VcsOutcome { ok: true, message: String::new() });
    p = p.step(Event::Slept);
    p = p.step(response(200, "{\"object\":{\"sha\":\"mainsha\"}}"));
    assert!(matches!(p.state, State::ReadDevelopRef { .. }));
    p = p.step(response(200, "{\"object\":{\"sha\":\"mainsha\"}}"));
    assert!(matches!(p.state, State::CheckWorkflows));
    p = p.step(Event::WorkflowFiles { dev_present: false, prod_present: false });
    assert!(p.is_done());
}

#[test]
fn branch_read_failure_is_advisory() {
    let mut p = Pipeline::new(demo_request(None, true, true), "https://github.com/TestOrg").unwrap();
    p = p.step(response(201, "{\"html_url\":\"u\"}"));
    p = p.step(Event::VcsOutcome { ok: true, message: String::new() });
    p = p.step(Event::Slept);
    // Reading main fails: branch setup is given up, the run goes on.
    p = p.step(response(500, "oops"));
    assert!(matches!(p.state, State::CheckWorkflows));
    p = p.step(Event::WorkflowFiles { dev_present: false, prod_present: false });
    assert!(p.is_done());
}

#[test]
fn dispatches_run_in_order_and_their_failures_are_advisory() {
    let mut p = Pipeline::new(demo_request(None, false, true), "https://github.com/TestOrg").unwrap();
    p = p.step(response(201, "{\"html_url\":\"u\"}"));
    p = p.step(Event::VcsOutcome { ok: true, message: String::new() });
    assert!(matches!(p.state, State::CheckWorkflows));
    p = p.step(Event::WorkflowFiles { dev_present: true, prod_present: true });

    assert!(matches!(p.state, State::DeployDelay));
    assert!(matches!(p.action(), ActionReq::Sleep { seconds: 10 }));
    p = p.step(Event::Slept);

    match p.action() {
        ActionReq::Http { request } => {
            assert_eq!(
                request.url,
                "https://api.github.com/repos/TestOrg/demo/actions/workflows/deploy-dev.yml/dispatches"
            );
            assert_eq!(request.body.unwrap(), "{\"ref\":\"develop\"}");
        },
        _ => panic!("the development workflow must be dispatched first"),
    }
    // The development dispatch fails; the production one is still attempted.
    p = p.step(response(500, "oops"));

    assert!(matches!(p.state, State::DispatchSpacing));
    assert!(matches!(p.action(), ActionReq::Sleep { seconds: 2 }));
    p = p.step(Event::Slept);

    match p.action() {
        ActionReq::Http { request } => {
            assert_eq!(
                request.url,
                "https://api.github.com/repos/TestOrg/demo/actions/workflows/deploy-prod.yml/dispatches"
            );
            assert_eq!(request.body.unwrap(), "{\"ref\":\"main\"}");
        },
        _ => panic!("the production workflow must be dispatched second"),
    }
    p = p.step(response(204, ""));
    assert!(p.is_done());
}

#[test]
fn opt_out_skips_dispatch_even_with_both_files() {
    let mut p = Pipeline::new(demo_request(None, false, false), "https://github.com/TestOrg").unwrap();
    p = p.step(response(201, "{\"html_url\":\"u\"}"));
    p = p.step(Event::VcsOutcome { ok: true, message: String::new() });
    p = p.step(Event::WorkflowFiles { dev_present: true, prod_present: true });
    assert!(p.is_done());
}

#[test]
fn a_single_workflow_file_skips_dispatch() {
    let mut p = Pipeline::new(demo_request(None, false, true), "https://github.com/TestOrg").unwrap();
    p = p.step(response(201, "{\"html_url\":\"u\"}"));
    p = p.step(Event::VcsOutcome { ok: true, message: String::new() });
    p = p.step(Event::WorkflowFiles { dev_present: true, prod_present: false });
    assert!(p.is_done());

    let mut q = Pipeline::new(demo_request(None, false, true), "https://github.com/TestOrg").unwrap();
    q = q.step(response(201, "{\"html_url\":\"u\"}"));
    q = q.step(Event::VcsOutcome { ok: true, message: String::new() });
    q = q.step(Event::WorkflowFiles { dev_present: false, prod_present: true });
    assert!(q.is_done());
}
