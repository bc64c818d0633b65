use crate::deploy_flag::auto_deploy_allowed;
use crate::deploy_flag::disables_deployment;
use crate::json::json_string_field_of;
use crate::pipeline::EventV;
use crate::pipeline::ProvisioningRequestV;
use crate::pipeline::StateV;
use crate::pipeline::next;
use vstd::prelude::*;

verus! {

/// The state a run stands in after a series of events.
pub open spec fn run(req: ProvisioningRequestV, s: StateV, events: Seq<EventV>) -> StateV
    decreases events.len(),
{
    if events.len() == 0 {
        s
    } else {
        run(req, next(req, s, events[0]), events.drop_first())
    }
}

/// Every state a run passes through, the starting state included.
pub open spec fn run_states(req: ProvisioningRequestV, s: StateV, events: Seq<EventV>) -> Seq<
    StateV,
>
    decreases events.len(),
{
    if events.len() == 0 {
        seq![s]
    } else {
        seq![s] + run_states(req, next(req, s, events[0]), events.drop_first())
    }
}

/// States in which repository creation and the push have already succeeded.
pub open spec fn is_committed(s: StateV) -> bool {
    ||| s is BranchDelay
    ||| s is ReadMainRef
    ||| s is ReadDevelopRef
    ||| s is CreateDevelopRef
    ||| s is CheckWorkflows
    ||| s is DeployDelay
    ||| s is DispatchDev
    ||| s is DispatchSpacing
    ||| s is DispatchProd
    ||| s is Done
}

/// States that belong to the deployment-dispatch stage.
pub open spec fn is_dispatch_stage(s: StateV) -> bool {
    ||| s is DeployDelay
    ||| s is DispatchDev
    ||| s is DispatchSpacing
    ||| s is DispatchProd
}

/// States past the branch-setup stage: no branch reference is read or
/// created from here on.
pub open spec fn is_past_branch_setup(s: StateV) -> bool {
    ||| s is CheckWorkflows
    ||| is_dispatch_stage(s)
    ||| s is Done
}

/// An event that aborts the run at the create-repository step: a response
/// outside the success range, a success response without the repository's
/// URL, or no response at all.
pub open spec fn fatal_create_event(e: EventV) -> bool {
    match e {
        EventV::Response { status, body } => !(200 <= status < 300) || json_string_field_of(
            body,
            "html_url"@,
        ) is None,
        EventV::TransportFailure { .. } => true,
        _ => false,
    }
}

/// A run passes through one state more than it has events.
proof fn lemma_run_states_len(req: ProvisioningRequestV, s: StateV, events: Seq<EventV>)
    ensures
        run_states(req, s, events).len() == events.len() + 1,
    decreases events.len(),
{
    if events.len() > 0 {
        lemma_run_states_len(req, next(req, s, events[0]), events.drop_first());
    }
}

/// A property of states that every transition preserves holds in every state
/// a run passes through.
proof fn lemma_invariant_holds_along_run(
    req: ProvisioningRequestV,
    s: StateV,
    events: Seq<EventV>,
    p: spec_fn(StateV) -> bool,
)
    requires
        p(s),
        forall|t: StateV, e: EventV| p(t) ==> #[trigger] p(next(req, t, e)),
    ensures
        p(run(req, s, events)),
        forall|i: int| 0 <= i < run_states(req, s, events).len() ==> p(
            #[trigger] run_states(req, s, events)[i],
        ),
    decreases events.len(),
{
    if events.len() > 0 {
        let s1 = next(req, s, events[0]);
        assert(p(next(req, s, events[0])));
        lemma_invariant_holds_along_run(req, s1, events.drop_first(), p);
        let whole = run_states(req, s, events);
        let tail = run_states(req, s1, events.drop_first());
        assert forall|i: int| 0 <= i < whole.len() implies p(whole[i]) by {
            if i > 0 {
                assert(whole[i] == tail[i - 1]);
            }
        }
    }
}

/// Once the repository is created and the push has succeeded, no later
/// failure changes the run's terminal value: whatever the remaining events
/// answer — topic, branch setup or workflow dispatch failing included — the
/// run never aborts.
pub proof fn lemma_advisory_failure_preserves_success(
    req: ProvisioningRequestV,
    s: StateV,
    events: Seq<EventV>,
)
    requires
        is_committed(s),
    ensures
        is_committed(run(req, s, events)),
        !(run(req, s, events) is Aborted),
        forall|i: int| 0 <= i < run_states(req, s, events).len() ==> !(
        #[trigger] run_states(req, s, events)[i] is Aborted),
    decreases events.len(),
{
    let p = |t: StateV| is_committed(t);
    assert forall|t: StateV, e: EventV| p(t) implies #[trigger] p(next(req, t, e)) by {}
    lemma_invariant_holds_along_run(req, s, events, p);
    assert forall|i: int| 0 <= i < run_states(req, s, events).len() implies !(
    #[trigger] run_states(req, s, events)[i] is Aborted) by {
        assert(p(run_states(req, s, events)[i]));
    }
}

/// A failed topic call leads exactly where a successful one does: the
/// outcome of the set-topic step has no bearing on the rest of the run.
pub proof fn lemma_topic_outcome_is_irrelevant(
    req: ProvisioningRequestV,
    repo_url: Seq<char>,
    e1: EventV,
    e2: EventV,
    events: Seq<EventV>,
)
    requires
        e1 is Response || e1 is TransportFailure,
        e2 is Response || e2 is TransportFailure,
    ensures
        run(req, StateV::SetTopic { repo_url }, seq![e1] + events) == run(
            req,
            StateV::SetTopic { repo_url },
            seq![e2] + events,
        ),
{
    let s = StateV::SetTopic { repo_url };
    assert(next(req, s, e1) == StateV::InitPush { repo_url });
    assert(next(req, s, e2) == StateV::InitPush { repo_url });
    assert((seq![e1] + events).drop_first() =~= events);
    assert((seq![e2] + events).drop_first() =~= events);
}

/// A run that stands in the aborted state stays there, whatever else
/// happens.
proof fn lemma_aborted_is_final(req: ProvisioningRequestV, s: StateV, events: Seq<EventV>)
    requires
        s is Aborted,
    ensures
        run(req, s, events) == s,
        forall|i: int| 0 <= i < run_states(req, s, events).len() ==> #[trigger] run_states(
            req,
            s,
            events,
        )[i] == s,
    decreases events.len(),
{
    if events.len() > 0 {
        lemma_aborted_is_final(req, next(req, s, events[0]), events.drop_first());
        let whole = run_states(req, s, events);
        let tail = run_states(req, next(req, s, events[0]), events.drop_first());
        assert forall|i: int| 0 <= i < whole.len() implies whole[i] == s by {
            if i > 0 {
                assert(whole[i] == tail[i - 1]);
            }
        }
    }
}

/// A failure of repository creation aborts the run at once: the state turns
/// aborted and every later state stays aborted, so no topic, push, branch or
/// dispatch operation is ever asked for again.
pub proof fn lemma_create_failure_aborts(
    req: ProvisioningRequestV,
    e: EventV,
    events: Seq<EventV>,
)
    requires
        fatal_create_event(e),
    ensures
        run(req, StateV::CreateRepo, seq![e] + events) is Aborted,
        forall|i: int|
            1 <= i < run_states(req, StateV::CreateRepo, seq![e] + events).len()
                ==> #[trigger] run_states(req, StateV::CreateRepo, seq![e] + events)[i] is Aborted,
{
    let s1 = next(req, StateV::CreateRepo, e);
    assert(s1 is Aborted);
    assert((seq![e] + events).drop_first() =~= events);
    lemma_aborted_is_final(req, s1, events);
    let whole = run_states(req, StateV::CreateRepo, seq![e] + events);
    let tail = run_states(req, s1, events);
    assert forall|i: int| 1 <= i < whole.len() implies whole[i] is Aborted by {
        assert(whole[i] == tail[i - 1]);
    }
}

/// A failure of any step of the local initialize-and-push sequence aborts
/// the run at once, and no later stage is attempted.
pub proof fn lemma_push_failure_aborts(
    req: ProvisioningRequestV,
    repo_url: Seq<char>,
    message: Seq<char>,
    events: Seq<EventV>,
)
    ensures
        run(
            req,
            StateV::InitPush { repo_url },
            seq![EventV::VcsOutcome { ok: false, message }] + events,
        ) is Aborted,
        forall|i: int|
            1 <= i < run_states(
                req,
                StateV::InitPush { repo_url },
                seq![EventV::VcsOutcome { ok: false, message }] + events,
            ).len() ==> #[trigger] run_states(
                req,
                StateV::InitPush { repo_url },
                seq![EventV::VcsOutcome { ok: false, message }] + events,
            )[i] is Aborted,
{
    let e = EventV::VcsOutcome { ok: false, message };
    let s = StateV::InitPush { repo_url };
    let s1 = next(req, s, e);
    assert(s1 is Aborted);
    assert((seq![e] + events).drop_first() =~= events);
    lemma_aborted_is_final(req, s1, events);
    let whole = run_states(req, s, seq![e] + events);
    let tail = run_states(req, s1, events);
    assert forall|i: int| 1 <= i < whole.len() implies whole[i] is Aborted by {
        assert(whole[i] == tail[i - 1]);
    }
}

/// The idempotent branch setup: when the read of the secondary branch
/// answers with success — the branch already exists — the run skips straight
/// past branch creation, never asks for a create-reference call later, and
/// still cannot abort.
pub proof fn lemma_existing_develop_skips_create(
    req: ProvisioningRequestV,
    main_sha: Seq<char>,
    status: u16,
    body: Seq<char>,
    events: Seq<EventV>,
)
    requires
        200 <= status < 300,
    ensures
        next(req, StateV::ReadDevelopRef { main_sha }, EventV::Response { status, body })
            == StateV::CheckWorkflows,
        forall|i: int|
            0 <= i < run_states(req, StateV::CheckWorkflows, events).len() ==> !(
            #[trigger] run_states(req, StateV::CheckWorkflows, events)[i] is CreateDevelopRef),
        forall|i: int|
            0 <= i < run_states(req, StateV::CheckWorkflows, events).len() ==> !(
            #[trigger] run_states(req, StateV::CheckWorkflows, events)[i] is Aborted),
{
    let p = |t: StateV| is_past_branch_setup(t);
    assert forall|t: StateV, e: EventV| p(t) implies #[trigger] p(next(req, t, e)) by {}
    lemma_invariant_holds_along_run(req, StateV::CheckWorkflows, events, p);
    assert forall|i: int| 0 <= i < run_states(req, StateV::CheckWorkflows, events).len() implies !(
    #[trigger] run_states(req, StateV::CheckWorkflows, events)[i] is CreateDevelopRef) && !(
    run_states(req, StateV::CheckWorkflows, events)[i] is Aborted) by {
        assert(p(run_states(req, StateV::CheckWorkflows, events)[i]));
    }
}

/// When the request does not allow deployment, a run that stands outside the
/// dispatch stage never enters it: no dispatch call is ever asked for.
pub proof fn lemma_opt_out_skips_dispatch(
    req: ProvisioningRequestV,
    s: StateV,
    events: Seq<EventV>,
)
    requires
        !req.auto_deploy,
        !is_dispatch_stage(s),
    ensures
        forall|i: int| 0 <= i < run_states(req, s, events).len() ==> !is_dispatch_stage(
            #[trigger] run_states(req, s, events)[i],
        ),
{
    let p = |t: StateV| !is_dispatch_stage(t);
    assert forall|t: StateV, e: EventV| p(t) implies #[trigger] p(next(req, t, e)) by {}
    lemma_invariant_holds_along_run(req, s, events, p);
}

/// A disabling opt-out value — "true", "1", "yes" or "on" in any ASCII case
/// — resolved into the request keeps the whole run out of the dispatch
/// stage.
pub proof fn lemma_disabling_value_skips_dispatch(
    req: ProvisioningRequestV,
    v: Seq<char>,
    s: StateV,
    events: Seq<EventV>,
)
    requires
        disables_deployment(v),
        req.auto_deploy == auto_deploy_allowed(Some(v)),
        !is_dispatch_stage(s),
    ensures
        forall|i: int| 0 <= i < run_states(req, s, events).len() ==> !is_dispatch_stage(
            #[trigger] run_states(req, s, events)[i],
        ),
{
    lemma_opt_out_skips_dispatch(req, s, events);
}

/// The set-topic call happens only when a topic was supplied: with no topic
/// on the request, no run ever stands in the topic stage.
pub proof fn lemma_topic_only_when_supplied(
    req: ProvisioningRequestV,
    s: StateV,
    events: Seq<EventV>,
)
    requires
        req.topic is None,
        !(s is SetTopic),
    ensures
        forall|i: int| 0 <= i < run_states(req, s, events).len() ==> !(
        #[trigger] run_states(req, s, events)[i] is SetTopic),
{
    let p = |t: StateV| !(t is SetTopic);
    assert forall|t: StateV, e: EventV| p(t) implies #[trigger] p(next(req, t, e)) by {}
    lemma_invariant_holds_along_run(req, s, events, p);
}

/// How many operations a run answers before it is done, at most.
pub open spec fn remaining_operations(s: StateV) -> int {
    match s {
        StateV::CreateRepo => 12,
        StateV::SetTopic { .. } => 11,
        StateV::InitPush { .. } => 10,
        StateV::BranchDelay => 9,
        StateV::ReadMainRef => 8,
        StateV::ReadDevelopRef { .. } => 7,
        StateV::CreateDevelopRef { .. } => 6,
        StateV::CheckWorkflows => 5,
        StateV::DeployDelay => 4,
        StateV::DispatchDev => 3,
        StateV::DispatchSpacing => 2,
        StateV::DispatchProd => 1,
        StateV::Done => 0,
        StateV::Aborted { .. } => 0,
    }
}

/// The kind of event the state's operation produces when it is carried out:
/// a response or a transport failure for an HTTP call, an outcome for the
/// local sequence, the end of a suspension for a delay, the two flags for
/// the file check.
pub open spec fn event_answers(s: StateV, e: EventV) -> bool {
    match s {
        StateV::CreateRepo => e is Response || e is TransportFailure,
        StateV::SetTopic { .. } => e is Response || e is TransportFailure,
        StateV::InitPush { .. } => e is VcsOutcome,
        StateV::BranchDelay => e is Slept,
        StateV::ReadMainRef => e is Response || e is TransportFailure,
        StateV::ReadDevelopRef { .. } => e is Response || e is TransportFailure,
        StateV::CreateDevelopRef { .. } => e is Response || e is TransportFailure,
        StateV::CheckWorkflows => e is WorkflowFiles,
        StateV::DeployDelay => e is Slept,
        StateV::DispatchDev => e is Response || e is TransportFailure,
        StateV::DispatchSpacing => e is Slept,
        StateV::DispatchProd => e is Response || e is TransportFailure,
        StateV::Done => true,
        StateV::Aborted { .. } => true,
    }
}

/// Once the repository is created and the push has succeeded, the run always
/// completes: whatever each remaining operation answers — failures included —
/// enough answers carry the run to its successful terminal state.
pub proof fn lemma_committed_run_completes(
    req: ProvisioningRequestV,
    s: StateV,
    events: Seq<EventV>,
)
    requires
        is_committed(s),
        events.len() >= remaining_operations(s),
        forall|i: int| 0 <= i < events.len() ==> event_answers(
            run_states(req, s, events)[i],
            #[trigger] events[i],
        ),
    ensures
        run(req, s, events) is Done,
    decreases events.len(),
{
    if s is Done {
        let p = |t: StateV| t is Done;
        assert forall|t: StateV, e: EventV| p(t) implies #[trigger] p(next(req, t, e)) by {}
        lemma_invariant_holds_along_run(req, s, events, p);
    } else {
        assert(run_states(req, s, events)[0] == s);
        assert(event_answers(s, events[0]));
        let s1 = next(req, s, events[0]);
        assert(is_committed(s1));
        assert(remaining_operations(s1) < remaining_operations(s));
        let rest = events.drop_first();
        let tail_states = run_states(req, s1, rest);
        lemma_run_states_len(req, s1, rest);
        assert(run_states(req, s, events) == seq![s] + tail_states);
        assert forall|i: int| 0 <= i < rest.len() implies event_answers(
            tail_states[i],
            #[trigger] rest[i],
        ) by {
            assert((seq![s] + tail_states)[i + 1] == tail_states[i]);
            assert(events[i + 1] == rest[i]);
            assert(event_answers(run_states(req, s, events)[i + 1], events[i + 1]));
        }
        lemma_committed_run_completes(req, s1, rest);
    }
}

/// When one of the two workflow-definition files is missing, the check of
/// the pushed tree ends the run at once: it reaches its successful terminal
/// state and no dispatch call is ever asked for.
pub proof fn lemma_missing_workflow_file_skips_dispatch(
    req: ProvisioningRequestV,
    dev_present: bool,
    prod_present: bool,
    events: Seq<EventV>,
)
    requires
        !(dev_present && prod_present),
    ensures
        next(req, StateV::CheckWorkflows, EventV::WorkflowFiles { dev_present, prod_present })
            == StateV::Done,
        run(
            req,
            StateV::CheckWorkflows,
            seq![EventV::WorkflowFiles { dev_present, prod_present }] + events,
        ) == StateV::Done,
        forall|i: int|
            0 <= i < run_states(
                req,
                StateV::CheckWorkflows,
                seq![EventV::WorkflowFiles { dev_present, prod_present }] + events,
            ).len() ==> !is_dispatch_stage(
                #[trigger] run_states(
                    req,
                    StateV::CheckWorkflows,
                    seq![EventV::WorkflowFiles { dev_present, prod_present }] + events,
                )[i],
            ),
{
    let e = EventV::WorkflowFiles { dev_present, prod_present };
    let s1 = next(req, StateV::CheckWorkflows, e);
    assert(s1 == StateV::Done);
    assert((seq![e] + events).drop_first() =~= events);
    let p = |t: StateV| t is Done;
    assert forall|t: StateV, ev: EventV| p(t) implies #[trigger] p(next(req, t, ev)) by {}
    lemma_invariant_holds_along_run(req, s1, events, p);
    let whole = run_states(req, StateV::CheckWorkflows, seq![e] + events);
    let tail = run_states(req, s1, events);
    assert forall|i: int| 0 <= i < whole.len() implies !is_dispatch_stage(whole[i]) by {
        if i > 0 {
            assert(whole[i] == tail[i - 1]);
            assert(p(tail[i - 1]));
        }
    }
}

} // verus!
