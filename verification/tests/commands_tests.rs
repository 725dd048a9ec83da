use star_escrow::commands::{hashes_match, invocation_summary, payer_matches};

#[test]
fn summary_of_dry_run_and_submission() {
    assert_eq!(invocation_summary("approve", "SUCCESS", true), "Simulated approve. Status: SUCCESS");
    assert_eq!(invocation_summary("cancel", "PENDING", false), "Submitted cancel. Status: PENDING");
}

#[test]
fn events_mentioning_the_payer() {
    let events = vec![
        r#"{"payer":"GABC","amount":5}"#.to_string(),
        r#"{"payer":"GXYZ"}"#.to_string(),
        "GAB".to_string(),
        "".to_string(),
    ];
    assert_eq!(payer_matches(&events, "GABC"), vec![true, false, false, false]);
    assert_eq!(payer_matches(&events, ""), vec![true, true, true, true]);
    assert_eq!(payer_matches(&Vec::new(), "G"), Vec::<bool>::new());
}

#[test]
fn hashes_compare_without_case() {
    assert!(hashes_match("ABCDEF0123", "abcdef0123"));
    assert!(hashes_match("", ""));
    assert!(!hashes_match("abc", "abd"));
    assert!(!hashes_match("abc", "abcd"));
    assert!(hashes_match("é", "é"));
    assert!(!hashes_match("É", "é"));
}

use star_escrow::commands::{
    invocation_failure_context, secret_key_error, step_after_confirmation, Operation, Step,
};
use star_escrow::error::CliError;

#[test]
fn failure_context_names_function_and_contract() {
    assert_eq!(
        invocation_failure_context("approve", "CABC"),
        "operation 'approve' failed for contract CABC"
    );
}

#[test]
fn operations_name_their_contract_functions_and_arguments() {
    let all = [
        (Operation::Init, "init", vec!["admin", "fee_bps", "fee_collector"]),
        (Operation::Pause, "pause", vec![]),
        (Operation::Unpause, "unpause", vec![]),
        (
            Operation::Create,
            "create",
            vec!["payer", "freelancer", "token", "amount", "milestone", "deadline"],
        ),
        (Operation::SubmitWork, "submit_work", vec![]),
        (Operation::TransferFreelancer, "transfer_freelancer", vec!["new_freelancer"]),
        (Operation::Approve, "approve", vec![]),
        (Operation::Cancel, "cancel", vec![]),
        (Operation::Expire, "expire", vec![]),
    ];
    for (op, f, keys) in all {
        assert_eq!(op.contract_function(), f);
        assert_eq!(op.argument_keys(), keys);
    }
    assert_eq!(Operation::Init.signing_secret(), "ADMIN_SECRET");
    assert_eq!(Operation::Create.signing_secret(), "PAYER_SECRET");
    assert_eq!(Operation::SubmitWork.signing_secret(), "FREELANCER_SECRET");
    assert_eq!(Operation::Init.signer_argument(), Some("admin"));
    assert_eq!(Operation::Create.signer_argument(), Some("payer"));
    assert_eq!(Operation::Expire.signer_argument(), None);
}

#[test]
fn confirmation_decides_approve_and_cancel_only() {
    assert_eq!(
        Operation::Approve.confirmation_prompt(),
        Some("Approve milestone and release payment to freelancer?")
    );
    assert_eq!(Operation::Cancel.confirmation_prompt(), Some("Cancel escrow and refund payer?"));
    assert_eq!(Operation::Expire.confirmation_prompt(), None);
    assert_eq!(step_after_confirmation(Operation::Approve, false), Step::Abort);
    assert_eq!(step_after_confirmation(Operation::Approve, true), Step::Invoke);
    assert_eq!(step_after_confirmation(Operation::Cancel, false), Step::Abort);
    assert_eq!(step_after_confirmation(Operation::Expire, false), Step::Invoke);
}

#[test]
fn secret_key_error_names_the_secret() {
    let e = secret_key_error("PAYER_SECRET", "bad checksum");
    assert!(matches!(&e, CliError::InvalidStellarSecretKey(s) if s == "PAYER_SECRET: bad checksum"));
    assert_eq!(
        e.to_string(),
        "Invalid Stellar secret key: PAYER_SECRET: bad checksum\nExpected format: S..."
    );
}
