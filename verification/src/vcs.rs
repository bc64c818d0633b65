use vstd::prelude::*;

verus! {

/// The ordered steps that turn a plain directory into a pushed repository.
/// Each step is a precondition for the next; a failure at any step is fatal
/// and ends the sequence.
pub enum VcsStep {
    RemoveExistingMetadata,
    Init,
    StageAll,
    Commit,
    SetRemote,
    Push,
    Completed,
    Failed { message: String },
}

/// The mathematical shape of a `VcsStep`.
pub enum VcsStepV {
    RemoveExistingMetadata,
    Init,
    StageAll,
    Commit,
    SetRemote,
    Push,
    Completed,
    Failed { message: Seq<char> },
}

impl View for VcsStep {
    type V = VcsStepV;

    open spec fn view(&self) -> VcsStepV {
        match self {
            VcsStep::RemoveExistingMetadata => VcsStepV::RemoveExistingMetadata,
            VcsStep::Init => VcsStepV::Init,
            VcsStep::StageAll => VcsStepV::StageAll,
            VcsStep::Commit => VcsStepV::Commit,
            VcsStep::SetRemote => VcsStepV::SetRemote,
            VcsStep::Push => VcsStepV::Push,
            VcsStep::Completed => VcsStepV::Completed,
            VcsStep::Failed { message } => VcsStepV::Failed { message: message@ },
        }
    }
}

/// Where the sequence stands after one step is carried out: success moves to
/// the next step in order, failure ends the sequence, and the two terminal
/// steps stay where they are.
pub open spec fn vcs_next(s: VcsStepV, ok: bool, message: Seq<char>) -> VcsStepV {
    match s {
        VcsStepV::RemoveExistingMetadata => if ok {
            VcsStepV::Init
        } else {
            VcsStepV::Failed { message }
        },
        VcsStepV::Init => if ok {
            VcsStepV::StageAll
        } else {
            VcsStepV::Failed { message }
        },
        VcsStepV::StageAll => if ok {
            VcsStepV::Commit
        } else {
            VcsStepV::Failed { message }
        },
        VcsStepV::Commit => if ok {
            VcsStepV::SetRemote
        } else {
            VcsStepV::Failed { message }
        },
        VcsStepV::SetRemote => if ok {
            VcsStepV::Push
        } else {
            VcsStepV::Failed { message }
        },
        VcsStepV::Push => if ok {
            VcsStepV::Completed
        } else {
            VcsStepV::Failed { message }
        },
        VcsStepV::Completed => VcsStepV::Completed,
        VcsStepV::Failed { message: m } => VcsStepV::Failed { message: m },
    }
}

/// Carries the sequence one step forward, given whether the step that was
/// just performed succeeded.
pub fn vcs_advance(s: VcsStep, ok: bool, message: String) -> (r: VcsStep)
    ensures
        r@ == vcs_next(s@, ok, message@),
{
    match s {
        VcsStep::RemoveExistingMetadata => if ok {
            VcsStep::Init
        } else {
            VcsStep::Failed { message }
        },
        VcsStep::Init => if ok {
            VcsStep::StageAll
        } else {
            VcsStep::Failed { message }
        },
        VcsStep::StageAll => if ok {
            VcsStep::Commit
        } else {
            VcsStep::Failed { message }
        },
        VcsStep::Commit => if ok {
            VcsStep::SetRemote
        } else {
            VcsStep::Failed { message }
        },
        VcsStep::SetRemote => if ok {
            VcsStep::Push
        } else {
            VcsStep::Failed { message }
        },
        VcsStep::Push => if ok {
            VcsStep::Completed
        } else {
            VcsStep::Failed { message }
        },
        VcsStep::Completed => VcsStep::Completed,
        VcsStep::Failed { message: m } => VcsStep::Failed { message: m },
    }
}

/// The sequence after a series of step outcomes, each a success flag and a
/// message.
pub open spec fn vcs_run(s: VcsStepV, outcomes: Seq<(bool, Seq<char>)>) -> VcsStepV
    decreases outcomes.len(),
{
    if outcomes.len() == 0 {
        s
    } else {
        vcs_run(vcs_next(s, outcomes[0].0, outcomes[0].1), outcomes.drop_first())
    }
}

/// How many steps remain before the sequence completes.
pub open spec fn vcs_steps_left(s: VcsStepV) -> int {
    match s {
        VcsStepV::RemoveExistingMetadata => 6,
        VcsStepV::Init => 5,
        VcsStepV::StageAll => 4,
        VcsStepV::Commit => 3,
        VcsStepV::SetRemote => 2,
        VcsStepV::Push => 1,
        VcsStepV::Completed => 0,
        VcsStepV::Failed { .. } => 0,
    }
}

/// A failure of any local version-control step is final: no later outcome
/// moves the sequence anywhere else.
pub proof fn lemma_vcs_failure_is_final(message: Seq<char>, outcomes: Seq<(bool, Seq<char>)>)
    ensures
        vcs_run(VcsStepV::Failed { message }, outcomes) == (VcsStepV::Failed { message }),
    decreases outcomes.len(),
{
    if outcomes.len() > 0 {
        lemma_vcs_failure_is_final(message, outcomes.drop_first());
    }
}

/// The sequence completes only when every remaining step succeeded, in
/// order: each step is a precondition for the next.
pub proof fn lemma_vcs_completion_needs_every_step(
    s: VcsStepV,
    outcomes: Seq<(bool, Seq<char>)>,
)
    requires
        vcs_run(s, outcomes) is Completed,
        !(s is Failed),
    ensures
        vcs_steps_left(s) <= outcomes.len(),
        forall|i: int| 0 <= i < vcs_steps_left(s) ==> (#[trigger] outcomes[i]).0,
    decreases outcomes.len(),
{
    if s is Completed {
    } else {
        if outcomes.len() == 0 {
            assert(false);
        } else {
            if !outcomes[0].0 {
                lemma_vcs_failure_is_final(outcomes[0].1, outcomes.drop_first());
                assert(false);
            } else {
                let t = vcs_next(s, outcomes[0].0, outcomes[0].1);
                lemma_vcs_completion_needs_every_step(t, outcomes.drop_first());
                assert(forall|i: int|
                    1 <= i < vcs_steps_left(s) ==> (#[trigger] outcomes[i])
                        == outcomes.drop_first()[i - 1]);
            }
        }
    }
}

/// The message of the single commit the pipeline makes.
pub fn commit_message() -> (r: &'static str)
    ensures
        r@ == "first commit"@,
{
    "first commit"
}

/// The name under which the remote repository is registered.
pub fn remote_name() -> (r: &'static str)
    ensures
        r@ == "origin"@,
{
    "origin"
}

/// The refspec the initial push targets.
pub fn push_refspec() -> (r: &'static str)
    ensures
        r@ == "HEAD:refs/heads/main"@,
{
    "HEAD:refs/heads/main"
}

/// The username used with the token when the remote URL supplies none.
pub fn fallback_username() -> (r: &'static str)
    ensures
        r@ == "git"@,
{
    "git"
}

/// The author name of the initial commit.
pub fn default_author_name() -> (r: &'static str)
    ensures
        r@ == "Project Generator"@,
{
    "Project Generator"
}

/// The author address of the initial commit.
pub fn default_author_email() -> (r: &'static str)
    ensures
        r@ == "generator@nextnode.dev"@,
{
    "generator@nextnode.dev"
}

} // verus!
