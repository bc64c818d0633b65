use repo_provision::vcs::VcsStep;
use repo_provision::vcs::commit_message;
use repo_provision::vcs::default_author_email;
use repo_provision::vcs::default_author_name;
use repo_provision::vcs::fallback_username;
use repo_provision::vcs::push_refspec;
use repo_provision::vcs::remote_name;
use repo_provision::vcs::vcs_advance;

fn ok(s: VcsStep) -> VcsStep {
    vcs_advance(s, true, String::new())
}

#[test]
fn successful_outcomes_walk_every_step_in_order() {
    let s = VcsStep::RemoveExistingMetadata;
    let s = ok(s);
    assert!(matches!(s, VcsStep::Init));
    let s = ok(s);
    assert!(matches!(s, VcsStep::StageAll));
    let s = ok(s);
    assert!(matches!(s, VcsStep::Commit));
    let s = ok(s);
    assert!(matches!(s, VcsStep::SetRemote));
    let s = ok(s);
    assert!(matches!(s, VcsStep::Push));
    let s = ok(s);
    assert!(matches!(s, VcsStep::Completed));
}

#[test]
fn a_failure_ends_the_sequence() {
    let s = vcs_advance(VcsStep::Commit, false, String::from("no tree"));
    match s {
        VcsStep::Failed { message } => assert_eq!(message, "no tree"),
        _ => panic!("a failed step must end the sequence"),
    }
}

#[test]
fn failure_is_final() {
    let s = VcsStep::Failed { message: String::from("boom") };
    let s = vcs_advance(s, true, String::new());
    assert!(matches!(s, VcsStep::Failed { .. }));
}

#[test]
fn completion_is_final() {
    let s = vcs_advance(VcsStep::Completed, false, String::from("late"));
    assert!(matches!(s, VcsStep::Completed));
}

#[test]
fn fixed_values_match_the_platform_conventions() {
    assert_eq!(commit_message(), "first commit");
    assert_eq!(remote_name(), "origin");
    assert_eq!(push_refspec(), "HEAD:refs/heads/main");
    assert_eq!(fallback_username(), "git");
    assert_eq!(default_author_name(), "Project Generator");
    assert_eq!(default_author_email(), "generator@nextnode.dev");
}
