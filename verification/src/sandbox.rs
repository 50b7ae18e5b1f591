//! Enforcement: handing a policy to the kernel, rule by rule, and reporting
//! how much of it the running kernel enforces.

use crate::policy::{build_policy, Policy};
use crate::rights::{mask_within, FeatureVersion, KNOWN_RIGHTS};
use landlock::{
    path_beneath_rules, AccessFs, BitFlags, Ruleset, RulesetAttr, RulesetCreated,
    RulesetCreatedAttr, RulesetError, RulesetStatus,
};
use vstd::prelude::*;

verus! {

/// `landlock::Ruleset`: a ruleset that the kernel has not seen yet.
#[verifier::external_type_specification]
#[verifier::external_body]
pub struct ExRuleset(landlock::Ruleset);

/// `landlock::RulesetCreated`: a ruleset that the kernel holds.
#[verifier::external_type_specification]
#[verifier::external_body]
pub struct ExRulesetCreated(landlock::RulesetCreated);

/// `landlock::RulesetError`: why a step on a ruleset failed.
#[verifier::external_type_specification]
#[verifier::external_body]
pub struct ExRulesetError(landlock::RulesetError);

/// How much of a policy the running kernel enforces.
#[derive(Clone, Copy, Debug, PartialEq, Eq, Structural)]
pub enum EnforcementStatus {
    /// Every right that the policy gives up is enforced.
    FullyEnforced,
    /// The kernel knows the mechanism but not every right of the policy;
    /// those it does not know are not enforced.
    PartiallyEnforced,
    /// The kernel lacks the mechanism: nothing is enforced.
    NotEnforced,
}

/// The step of enforcement at which the kernel, or the ruleset, refused.
#[derive(Clone, Copy, Debug, PartialEq, Eq, Structural)]
pub enum Stage {
    /// Declaring the rights that are given up everywhere.
    DeclareRights,
    /// Creating the ruleset in the kernel.
    CreateRuleset,
    /// Adding the rule with this index.
    AddRule(usize),
    /// Restricting the process.
    Restrict,
}

/// Enforcement failed for a reason other than a missing path or a right
/// that the kernel does not know: the command must not run.
#[derive(Debug)]
pub struct PolicyError {
    pub stage: Stage,
    /// The refusal in words, for the operator.
    pub detail: String,
}

/// Calls `landlock::Ruleset::default`, which asks the kernel which feature
/// version it has, and on that ruleset `landlock::RulesetAttr::handle_access`
/// with the filesystem rights whose bits are `bits`. Trusted: the call fails
/// exactly when the set is empty. An empty set is refused whatever the kernel
/// knows. A ruleset fresh from `default` is at the best-effort level, at
/// which rights that the kernel does not know are dropped and are no error.
/// Nothing else is claimed of the ruleset.
#[verifier::external_body]
fn ruleset_declaring(bits: u64) -> (outcome: Result<Ruleset, RulesetError>)
    requires
        mask_within(bits, KNOWN_RIGHTS),
    ensures
        outcome is Err <==> bits == 0,
{
    Ruleset::default().handle_access(BitFlags::<AccessFs>::from_bits_truncate(bits))
}

/// Calls `landlock::Ruleset::create`. Nothing is claimed of the outcome.
#[verifier::external_body]
fn create_ruleset(ruleset: Ruleset) -> (outcome: Result<RulesetCreated, RulesetError>) {
    ruleset.create()
}

/// Calls `landlock::RulesetCreatedAttr::add_rules` on what
/// `landlock::path_beneath_rules` makes of the one path and the rights whose
/// bits are `bits`; a path that cannot be opened yields no rule there.
/// Nothing is claimed of the outcome.
#[verifier::external_body]
fn add_path_rule(created: RulesetCreated, path: &str, bits: u64) -> (outcome: Result<
    RulesetCreated,
    RulesetError,
>)
    requires
        mask_within(bits, KNOWN_RIGHTS),
{
    created.add_rules(path_beneath_rules([path], BitFlags::<AccessFs>::from_bits_truncate(bits)))
}

/// Calls `landlock::RulesetCreated::restrict_self` and hands back the status
/// of the ruleset, variant for variant. Nothing is claimed of which it is.
#[verifier::external_body]
fn restrict_process(created: RulesetCreated) -> (outcome: Result<EnforcementStatus, RulesetError>) {
    match created.restrict_self() {
        Ok(status) => Ok(
            match status.ruleset {
                RulesetStatus::FullyEnforced => EnforcementStatus::FullyEnforced,
                RulesetStatus::PartiallyEnforced => EnforcementStatus::PartiallyEnforced,
                RulesetStatus::NotEnforced => EnforcementStatus::NotEnforced,
            },
        ),
        Err(error) => Err(error),
    }
}

/// Calls `to_string` on a `landlock::RulesetError`. Nothing is claimed of the
/// text.
#[verifier::external_body]
fn error_text(error: &RulesetError) -> (text: String) {
    error.to_string()
}

/// Whether an enforcement of a policy that gives up the rights `handled`
/// and has `rules` rules can end in `outcome`. Declaring the rights fails
/// exactly when the policy gives up none, whatever the kernel. Every later
/// step is the kernel's to refuse: creating the ruleset, adding a rule that
/// the policy has, restricting the process. Where none refuses, any status
/// can come back.
pub open spec fn possible_outcome(
    handled: u64,
    rules: nat,
    outcome: Result<EnforcementStatus, PolicyError>,
) -> bool {
    match outcome {
        Ok(_) => handled != 0,
        Err(failure) => match failure.stage {
            Stage::DeclareRights => handled == 0,
            Stage::CreateRuleset => handled != 0,
            Stage::AddRule(index) => handled != 0 && index < rules,
            Stage::Restrict => handled != 0,
        },
    }
}

/// Applies the policy to the calling process, for good: the rights it gives
/// up are declared, the ruleset is created, each rule is added in the
/// policy's order, and the process is restricted. The first refusal ends it
/// and names the step; a policy that gives up no right meets it at once.
pub fn enforce(policy: Policy) -> (outcome: Result<EnforcementStatus, PolicyError>)
    requires
        policy.wf(),
    ensures
        possible_outcome(policy.handled_mask(), policy.entries().len(), outcome),
{
    let ruleset = match ruleset_declaring(policy.handled().bits()) {
        Ok(ruleset) => ruleset,
        Err(error) => {
            return Err(refused(Stage::DeclareRights, &error));
        },
    };
    let mut created = match create_ruleset(ruleset) {
        Ok(created) => created,
        Err(error) => {
            return Err(refused(Stage::CreateRuleset, &error));
        },
    };
    let count: usize = policy.len();
    let mut index: usize = 0;
    while index < count
        invariant
            policy.wf(),
            policy.handled_mask() != 0,
            count == policy.entries().len(),
            index <= count,
        decreases count - index,
    {
        let rule = policy.rule(index);
        proof {
            let bits = policy.entries()[index as int].1;
            let handled = policy.handled_mask();
            assert(bits & handled == bits && handled & 0x1FFFF == handled ==> bits & 0x1FFFF
                == bits) by (bit_vector);
        }
        created = match add_path_rule(created, rule.path.as_str(), rule.rights.bits()) {
            Ok(created) => created,
            Err(error) => {
                return Err(refused(Stage::AddRule(index), &error));
            },
        };
        index = index + 1;
    }
    match restrict_process(created) {
        Ok(status) => Ok(status),
        Err(error) => Err(refused(Stage::Restrict, &error)),
    }
}

/// Restricts the calling process to the second version's allowlist for the three paths.
pub fn setup_landlock_sandbox(devenv_root: &str, runtime_dir: &str, home: &str) -> (outcome: Result<
    EnforcementStatus,
    PolicyError,
>)
    ensures
        possible_outcome(FeatureVersion::V2.full_mask(), 9, outcome),
{
    let policy = build_policy(devenv_root, runtime_dir, home, FeatureVersion::V2);
    enforce(policy)
}

/// The error for a refusal at `stage`.
fn refused(stage: Stage, error: &RulesetError) -> (failure: PolicyError)
    ensures
        failure.stage == stage,
{
    PolicyError { stage, detail: error_text(error) }
}

} // verus!
