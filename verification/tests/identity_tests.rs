use repo_provision::errors::ProvisionError;
use repo_provision::identity::extract_organization_from_repo_url;
use repo_provision::identity::resolve_organization;

#[test]
fn resolves_last_segment_of_full_url() {
    let r = resolve_organization("https://github.com/NextNodeSolutions").unwrap();
    assert_eq!(r, "NextNodeSolutions");
}

#[test]
fn resolves_last_of_several_segments() {
    assert_eq!(resolve_organization("a/b/c").unwrap(), "c");
}

#[test]
fn resolves_single_segment() {
    assert_eq!(resolve_organization("org").unwrap(), "org");
}

#[test]
fn ignores_trailing_separators() {
    assert_eq!(resolve_organization("https://example.com/team///").unwrap(), "team");
}

#[test]
fn empty_url_is_a_configuration_error() {
    let r = resolve_organization("");
    assert!(matches!(r, Err(ProvisionError::Configuration { .. })));
}

#[test]
fn separators_only_is_a_configuration_error() {
    let r = resolve_organization("///");
    assert!(matches!(r, Err(ProvisionError::Configuration { .. })));
}

#[test]
fn configured_base_url_resolves_to_its_organization() {
    assert_eq!(extract_organization_from_repo_url().unwrap(), "NextNodeSolutions");
}

#[test]
fn unicode_segments_resolve_whole() {
    assert_eq!(resolve_organization("base/équipe").unwrap(), "équipe");
}
