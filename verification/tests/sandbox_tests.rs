use devenv_sandbox::policy::Policy;
use devenv_sandbox::rights::{AccessSet, FeatureVersion};
use devenv_sandbox::sandbox::{enforce, setup_landlock_sandbox, EnforcementStatus, Stage};

#[test]
fn enforcing_an_empty_policy_ends_in_a_status_or_names_a_step() {
    let policy = Policy::new(FeatureVersion::V2.all_rights());
    match enforce(policy) {
        Ok(status) => assert!(matches!(
            status,
            EnforcementStatus::FullyEnforced
                | EnforcementStatus::PartiallyEnforced
                | EnforcementStatus::NotEnforced
        )),
        Err(error) => {
            assert!(!matches!(error.stage, Stage::AddRule(_)));
            assert_ne!(error.stage, Stage::DeclareRights);
            assert!(error.message().starts_with("Failed to set up landlock sandbox: "));
        }
    }
}

#[test]
fn the_sandbox_skips_paths_that_do_not_exist() {
    let outcome = setup_landlock_sandbox(
        "/nonexistent/sandbox/root",
        "/nonexistent/runtime/dir",
        "/nonexistent/home",
    );
    match outcome {
        Ok(status) => assert!(matches!(
            status,
            EnforcementStatus::FullyEnforced
                | EnforcementStatus::PartiallyEnforced
                | EnforcementStatus::NotEnforced
        )),
        Err(error) => match error.stage {
            Stage::AddRule(index) => assert!(index < 9),
            stage => {
                assert_ne!(stage, Stage::DeclareRights);
                assert!(!error.detail.is_empty());
            }
        },
    }
}

#[test]
fn a_policy_that_gives_up_nothing_is_refused_at_the_first_step() {
    let policy = Policy::new(AccessSet::from_bits(0));
    let error = enforce(policy).expect_err("nothing to declare");
    assert_eq!(error.stage, Stage::DeclareRights);
    assert!(!error.detail.is_empty());
    assert_eq!(
        error.message(),
        format!("Failed to set up landlock sandbox: {}", error.detail)
    );
}

#[test]
fn a_policy_that_gives_up_nothing_is_refused_with_rules_too() {
    let mut policy = Policy::new(AccessSet::from_bits(0));
    assert!(policy.grant("/tmp", AccessSet::from_bits(0), true));
    assert!(!policy.grant("/tmp", FeatureVersion::V2.read_rights(), true));
    let error = enforce(policy).expect_err("nothing to declare");
    assert_eq!(error.stage, Stage::DeclareRights);
}

#[test]
fn a_policy_that_gives_up_one_right_passes_the_first_step() {
    let policy = Policy::new(AccessSet::from_bits(0x2));
    if let Err(error) = enforce(policy) {
        assert_ne!(error.stage, Stage::DeclareRights);
    }
}
