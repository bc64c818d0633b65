use repo_provision::deploy_flag::opt_out_disables;
use repo_provision::deploy_flag::resolve_auto_deploy;

#[test]
fn disabling_values_disable() {
    assert!(opt_out_disables("true"));
    assert!(opt_out_disables("1"));
    assert!(opt_out_disables("yes"));
    assert!(opt_out_disables("on"));
}

#[test]
fn disabling_values_ignore_ascii_case() {
    assert!(opt_out_disables("TRUE"));
    assert!(opt_out_disables("TrUe"));
    assert!(opt_out_disables("YES"));
    assert!(opt_out_disables("On"));
    assert!(opt_out_disables("ON"));
}

#[test]
fn other_values_do_not_disable() {
    assert!(!opt_out_disables("false"));
    assert!(!opt_out_disables("0"));
    assert!(!opt_out_disables("off"));
    assert!(!opt_out_disables(""));
    assert!(!opt_out_disables("truex"));
    assert!(!opt_out_disables("ye"));
    assert!(!opt_out_disables("maybe"));
}

#[test]
fn unset_variable_allows_deployment() {
    assert!(resolve_auto_deploy(None));
}

#[test]
fn disabling_value_forbids_deployment() {
    assert!(!resolve_auto_deploy(Some("true")));
    assert!(!resolve_auto_deploy(Some("ON")));
}

#[test]
fn other_value_allows_deployment() {
    assert!(resolve_auto_deploy(Some("false")));
    assert!(resolve_auto_deploy(Some("anything")));
}
