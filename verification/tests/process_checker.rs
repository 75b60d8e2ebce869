use kernel::process::ShortId;
use kernel::process_checker::basic::{
    hash_credentials_differ, hash_short_id, key_credentials_differ, key_short_id,
    name_hash_short_id, names_differ, rsa2048_check_start, rsa_verdict, sha256_check_start, sha256_verdict,
    Credentials, CredentialsType, DeferredChecker, DeferredPolicy,
};
use kernel::process_checker::{CheckResult, CheckResultAcceptMetadata, ProcessCheckError};

fn credentials(format: CredentialsType, data: &[u8]) -> Credentials {
    Credentials { format, data: data.to_vec() }
}

#[test]
fn names_tell_applications_apart() {
    assert!(names_differ(b"blink", b"sensor"));
    assert!(names_differ(b"blink", b"blinky"));
    assert!(!names_differ(b"blink", b"blink"));
}

#[test]
fn hash_credentials_compare_common_bytes() {
    let a = credentials(CredentialsType::SHA256, &[1, 2, 3, 4]);
    let b = credentials(CredentialsType::SHA256, &[1, 2, 3, 4, 5]);
    let c = credentials(CredentialsType::SHA256, &[1, 2, 9, 4]);
    let d = credentials(CredentialsType::SHA384, &[1, 2, 3, 4]);
    assert!(!hash_credentials_differ(Some(&a), Some(&b)));
    assert!(hash_credentials_differ(Some(&a), Some(&c)));
    assert!(hash_credentials_differ(Some(&a), Some(&d)));
    assert!(hash_credentials_differ(None, Some(&a)));
    assert!(hash_credentials_differ(Some(&a), None));
}

#[test]
fn key_credentials_compare_whole_data() {
    let a = credentials(CredentialsType::Rsa3072Key, &[1, 2, 3, 4]);
    let b = credentials(CredentialsType::Rsa3072Key, &[1, 2, 3, 4, 5]);
    assert!(key_credentials_differ(Some(&a), Some(&b)));
    assert!(!key_credentials_differ(Some(&a), Some(&a.clone())));
    assert!(key_credentials_differ(None, None));
}

#[test]
fn short_ids_from_credentials() {
    assert!(hash_short_id(&[0x12, 0x34, 0x56, 0x78, 0x9A]) == ShortId::Fixed(0x1A34_5678));
    assert!(hash_short_id(&[0, 0, 0, 0]) == ShortId::Fixed(0x0800_0000));
    assert!(key_short_id(&[0x80, 0, 0, 1]) == ShortId::Fixed(0x8800_0001));
    assert!(matches!(key_short_id(&[1, 2, 3]), ShortId::LocallyUnique));
    assert!(name_hash_short_id(77) == ShortId::Fixed(77));
    assert!(matches!(name_hash_short_id(0), ShortId::LocallyUnique));
}

#[test]
fn check_outcomes() {
    let accepted = CheckResult::Accept(Some(CheckResultAcceptMetadata { metadata: 2 }));
    assert_eq!(accepted, CheckResult::Accept(Some(CheckResultAcceptMetadata { metadata: 2 })));
    assert!(CheckResult::Pass != CheckResult::Reject);
    assert_eq!(ProcessCheckError::CredentialsRejected(1), ProcessCheckError::CredentialsRejected(1));
}

use kernel::errorcode::ErrorCode;
use kernel::process_checker::{
    check_done_step, classify_footer, next_step, skip_footer, CheckOutcome, CheckerStep,
    FooterCheckResult, FooterParse,
};

#[test]
fn footers_are_walked_by_length() {
    assert_eq!(skip_footer(FooterParse::Footer { len: 12 }, 100), Ok(84));
    assert_eq!(
        skip_footer(FooterParse::Footer { len: 97 }, 100),
        Err(FooterCheckResult::BadFooter)
    );
    assert_eq!(
        skip_footer(FooterParse::NotEnoughFlash, 100),
        Err(FooterCheckResult::PastLastFooter)
    );
    assert_eq!(skip_footer(FooterParse::BadTlvEntry, 100), Err(FooterCheckResult::BadFooter));
}

#[test]
fn footers_are_classified_by_the_policy() {
    let footer = FooterParse::Footer { len: 8 };
    assert_eq!(classify_footer(footer, 64, Ok(())), FooterCheckResult::Checking);
    assert_eq!(
        classify_footer(footer, 64, Err(ErrorCode::NOSUPPORT)),
        FooterCheckResult::FooterNotCheckable
    );
    assert_eq!(
        classify_footer(footer, 64, Err(ErrorCode::ALREADY)),
        FooterCheckResult::FooterNotCheckable
    );
    assert_eq!(classify_footer(footer, 64, Err(ErrorCode::FAIL)), FooterCheckResult::Error);
    assert_eq!(classify_footer(footer, 4, Ok(())), FooterCheckResult::BadFooter);
}

#[test]
fn checker_steps() {
    assert_eq!(next_step(FooterCheckResult::Checking, true), CheckerStep::Wait);
    assert_eq!(next_step(FooterCheckResult::FooterNotCheckable, true), CheckerStep::NextFooter);
    assert_eq!(
        next_step(FooterCheckResult::PastLastFooter, true),
        CheckerStep::Done(CheckOutcome::Failed(ProcessCheckError::CredentialsNotAccepted))
    );
    assert_eq!(
        next_step(FooterCheckResult::BadFooter, false),
        CheckerStep::Done(CheckOutcome::NoneRequired)
    );
    assert_eq!(
        next_step(FooterCheckResult::Error, false),
        CheckerStep::Done(CheckOutcome::Failed(ProcessCheckError::InternalError))
    );
    assert_eq!(
        check_done_step(Ok(CheckResult::Reject), 3),
        CheckerStep::Done(CheckOutcome::Failed(ProcessCheckError::CredentialsRejected(3)))
    );
    assert_eq!(check_done_step(Ok(CheckResult::Pass), 3), CheckerStep::NextFooter);
    assert_eq!(check_done_step(Err(ErrorCode::FAIL), 3), CheckerStep::NextFooter);
    assert_eq!(
        check_done_step(Ok(CheckResult::Accept(None)), 0),
        CheckerStep::Done(CheckOutcome::Accepted(None))
    );
}

#[test]
fn deferred_checkers_take_one_credential_at_a_time() {
    let mut checker = DeferredChecker::new(DeferredPolicy::Simulated);
    assert!(!checker.require_credentials());
    let first = credentials(CredentialsType::SHA256, &[1]);
    assert!(checker.check_credentials(first).is_ok());
    let second = credentials(CredentialsType::SHA256, &[2]);
    let refused = checker.check_credentials(second).err().unwrap();
    assert_eq!(refused.0, ErrorCode::BUSY);
    assert_eq!(refused.1.data, vec![2]);
    // Without a client the deferred call decides nothing.
    assert!(checker.handle_deferred_call().is_none());
    checker.set_client();
    let (verdict, checked) = checker.handle_deferred_call().unwrap();
    assert_eq!(verdict, CheckResult::Pass);
    assert_eq!(checked.data, vec![1]);
    assert!(checker.check_credentials(credentials(CredentialsType::SHA256, &[3])).is_ok());
}

#[test]
fn deferred_checker_verdicts() {
    let mut names = DeferredChecker::new(DeferredPolicy::Names);
    names.set_client();
    assert!(names.check_credentials(credentials(CredentialsType::Reserved, &[])).is_ok());
    assert_eq!(names.handle_deferred_call().unwrap().0, CheckResult::Accept(None));

    let mut rsa = DeferredChecker::new(DeferredPolicy::RsaSimulated);
    assert!(rsa.require_credentials());
    rsa.set_client();
    assert!(rsa.check_credentials(credentials(CredentialsType::Rsa4096Key, &[1])).is_ok());
    assert_eq!(rsa.handle_deferred_call().unwrap().0, CheckResult::Accept(None));
    assert!(rsa.check_credentials(credentials(CredentialsType::Rsa3072Key, &[1])).is_ok());
    assert_eq!(rsa.handle_deferred_call().unwrap().0, CheckResult::Accept(None));
    assert!(rsa.check_credentials(credentials(CredentialsType::SHA256, &[1])).is_ok());
    assert_eq!(rsa.handle_deferred_call().unwrap().0, CheckResult::Pass);
}

#[test]
fn hash_and_signature_checks() {
    let data: Vec<u8> = (0u8..40).collect();
    let hash = sha256_check_start(&credentials(CredentialsType::SHA256, &data)).ok().unwrap();
    assert_eq!(hash[0], 0);
    assert_eq!(hash[31], 31);
    assert_eq!(
        sha256_check_start(&credentials(CredentialsType::Rsa2048, &data)).err(),
        Some(ErrorCode::NOSUPPORT)
    );
    let signature: Vec<u8> = (0..300).map(|i| (i % 256) as u8).collect();
    let start = rsa2048_check_start(&credentials(CredentialsType::Rsa2048, &signature));
    let copied = start.ok().unwrap();
    assert_eq!(copied[255], 255);
    assert_eq!(copied.len(), 256);
    assert_eq!(
        rsa2048_check_start(&credentials(CredentialsType::SHA256, &signature)).err(),
        Some(ErrorCode::NOSUPPORT)
    );
    assert_eq!(sha256_verdict(true), CheckResult::Accept(None));
    assert_eq!(sha256_verdict(false), CheckResult::Reject);
    assert_eq!(rsa_verdict(Ok(true)), CheckResult::Accept(None));
    assert_eq!(rsa_verdict(Ok(false)), CheckResult::Pass);
    assert_eq!(rsa_verdict(Err(ErrorCode::FAIL)), CheckResult::Pass);
}
