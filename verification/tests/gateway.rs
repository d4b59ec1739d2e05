use educhainx::checks::{check_tx_on_chain, verify_transcript_hash};
use educhainx::gateway::{verify, ChainAnswer, ChainStep, PendingChain, Verdict, VerificationOutcome};
use educhainx::ledger::Ledger;
use educhainx::record::{Timestamp, TranscriptRecord, VerificationRequest};

fn request(name: &str, transcript_hash: &str, tx_hash: &str) -> VerificationRequest {
    VerificationRequest {
        student_name: name.to_string(),
        university: "BITS".to_string(),
        degree: "BSc".to_string(),
        transcript_hash: transcript_hash.to_string(),
        tx_hash: tx_hash.to_string(),
    }
}

fn record(id: u128, name: &str) -> TranscriptRecord {
    TranscriptRecord {
        id,
        student_name: name.to_string(),
        university: "BITS".to_string(),
        degree: "BSc".to_string(),
        transcript_hash: "abc1".to_string(),
        verified_at: Timestamp { seconds: 1_700_000_000, nanoseconds: 5 },
    }
}

struct CountingChain {
    known: Vec<String>,
    calls: usize,
}

impl CountingChain {
    fn lookup(&mut self, tx_hash: &str) -> ChainAnswer {
        self.calls += 1;
        if self.known.iter().any(|tx| tx == tx_hash) {
            ChainAnswer::Found
        } else {
            ChainAnswer::Missing
        }
    }
}

struct CountingValidator {
    valid: Vec<String>,
    calls: usize,
}

impl CountingValidator {
    fn validate(&mut self, transcript_hash: &str) -> bool {
        self.calls += 1;
        self.valid.iter().any(|hash| hash == transcript_hash)
    }
}

fn drive(
    request: VerificationRequest,
    chain: &mut CountingChain,
    validator: &mut CountingValidator,
    ledger: &mut Ledger,
) -> VerificationOutcome {
    let pending = PendingChain::begin(request);
    let answer = chain.lookup(pending.tx_hash());
    match pending.resolve(answer) {
        ChainStep::Done(outcome) => outcome,
        ChainStep::Validate(pending) => {
            let valid = validator.validate(pending.transcript_hash());
            pending.resolve(valid, ledger)
        }
    }
}

fn collaborators() -> (CountingChain, CountingValidator) {
    (
        CountingChain { known: vec!["tx-1".to_string(), "tx-2".to_string()], calls: 0 },
        CountingValidator { valid: vec!["h-1".to_string(), "h-2".to_string()], calls: 0 },
    )
}

#[test]
fn stand_in_chain_lookup_goes_by_prefix() {
    assert!(check_tx_on_chain("0x"));
    assert!(check_tx_on_chain("0xdeadbeef"));
    assert!(check_tx_on_chain("0x❌"));
    assert!(!check_tx_on_chain(""));
    assert!(!check_tx_on_chain("0"));
    assert!(!check_tx_on_chain("x0"));
    assert!(!check_tx_on_chain("0X12"));
    assert!(!check_tx_on_chain(" 0x12"));
    assert!(!check_tx_on_chain("abc"));
}

#[test]
fn stand_in_validator_goes_by_prefix() {
    assert!(verify_transcript_hash("abc"));
    assert!(verify_transcript_hash("abcdef"));
    assert!(verify_transcript_hash("abcé"));
    assert!(!verify_transcript_hash(""));
    assert!(!verify_transcript_hash("ab"));
    assert!(!verify_transcript_hash("abd"));
    assert!(!verify_transcript_hash("Abc"));
    assert!(!verify_transcript_hash("éabc"));
    assert!(!verify_transcript_hash("0x"));
}

#[test]
fn request_unknown_to_the_chain_is_rejected_and_not_recorded() {
    let mut ledger = Ledger::new();
    let outcome = verify(request("Alice", "abc123", "deadbeef"), &mut ledger);
    assert!(matches!(outcome, VerificationOutcome::RejectedOnChain));
    assert_eq!(outcome.response().verified, false);
    assert_eq!(ledger.len(), 0);
    assert!(ledger.list().is_empty());
}

#[test]
fn request_passing_both_checks_is_recorded() {
    let mut ledger = Ledger::new();
    ledger.append(record(1, "Earlier"));
    let outcome = verify(request("Alice", "abc123", "0xfeed"), &mut ledger);
    assert_eq!(outcome.response().verified, true);
    assert_eq!(ledger.len(), 2);
    let kept = &ledger.list()[1];
    assert_eq!(kept.student_name, "Alice");
    assert_eq!(kept.university, "BITS");
    assert_eq!(kept.degree, "BSc");
    assert_eq!(kept.transcript_hash, "abc123");
    match outcome {
        VerificationOutcome::Accepted(returned) => {
            assert_eq!(returned.id, kept.id);
            assert_eq!(returned.student_name, kept.student_name);
            assert_eq!(returned.university, kept.university);
            assert_eq!(returned.degree, kept.degree);
            assert_eq!(returned.transcript_hash, kept.transcript_hash);
            assert_eq!(returned.verified_at, kept.verified_at);
        }
        other => panic!("expected an accepted request, got {:?}", other),
    }
    assert_eq!(ledger.list()[0].student_name, "Earlier");
}

#[test]
fn request_with_invalid_hash_is_rejected_and_not_recorded() {
    let mut ledger = Ledger::new();
    let outcome = verify(request("Alice", "xyz", "0xfeed"), &mut ledger);
    assert!(matches!(outcome, VerificationOutcome::RejectedOnHash));
    assert_eq!(ledger.len(), 0);
}

#[test]
fn request_failing_both_checks_is_rejected_on_chain() {
    let mut ledger = Ledger::new();
    let outcome = verify(request("Alice", "xyz", "feed"), &mut ledger);
    assert!(matches!(outcome, VerificationOutcome::RejectedOnChain));
    assert_eq!(ledger.len(), 0);
}

#[test]
fn empty_hashes_are_ordinary_misses() {
    let mut ledger = Ledger::new();
    let outcome = verify(request("Alice", "abc", ""), &mut ledger);
    assert!(matches!(outcome, VerificationOutcome::RejectedOnChain));
    let outcome = verify(request("Alice", "", "0x"), &mut ledger);
    assert!(matches!(outcome, VerificationOutcome::RejectedOnHash));
    assert_eq!(ledger.len(), 0);
}

#[test]
fn failed_chain_lookup_never_reaches_the_validator() {
    let (mut chain, mut validator) = collaborators();
    let mut ledger = Ledger::new();
    let outcome = drive(request("Alice", "h-1", "tx-9"), &mut chain, &mut validator, &mut ledger);
    assert!(matches!(outcome, VerificationOutcome::RejectedOnChain));
    assert_eq!(chain.calls, 1);
    assert_eq!(validator.calls, 0);
    assert_eq!(ledger.len(), 0);
}

#[test]
fn each_check_is_made_once_in_order() {
    let (mut chain, mut validator) = collaborators();
    let mut ledger = Ledger::new();
    let outcome = drive(request("Alice", "h-1", "tx-1"), &mut chain, &mut validator, &mut ledger);
    assert!(matches!(outcome, VerificationOutcome::Accepted(_)));
    assert_eq!(chain.calls, 1);
    assert_eq!(validator.calls, 1);
    let outcome = drive(request("Bob", "h-9", "tx-2"), &mut chain, &mut validator, &mut ledger);
    assert!(matches!(outcome, VerificationOutcome::RejectedOnHash));
    assert_eq!(chain.calls, 2);
    assert_eq!(validator.calls, 2);
    assert_eq!(ledger.len(), 1);
}

#[test]
fn pending_request_hands_out_what_is_to_be_checked() {
    let pending = PendingChain::begin(request("Alice", "h-1", "tx-1"));
    assert_eq!(pending.tx_hash(), "tx-1");
    match pending.resolve(ChainAnswer::Found) {
        ChainStep::Validate(pending) => assert_eq!(pending.transcript_hash(), "h-1"),
        ChainStep::Done(outcome) => panic!("expected the hash validation, got {:?}", outcome),
    }
}

#[test]
fn unavailable_chain_counts_as_a_miss() {
    let pending = PendingChain::begin(request("Alice", "abc", "0x1"));
    match pending.resolve(ChainAnswer::Unavailable) {
        ChainStep::Done(outcome) => assert!(matches!(outcome, VerificationOutcome::RejectedOnChain)),
        ChainStep::Validate(_) => panic!("an unavailable chain must end the verification"),
    }
    let pending = PendingChain::begin(request("Alice", "abc", "0x1"));
    match pending.resolve(ChainAnswer::Missing) {
        ChainStep::Done(outcome) => assert!(matches!(outcome, VerificationOutcome::RejectedOnChain)),
        ChainStep::Validate(_) => panic!("a missing transaction must end the verification"),
    }
}

#[test]
fn accept_records_the_request_under_the_given_stamp() {
    let mut ledger = Ledger::new();
    let pending = match PendingChain::begin(request("Alice", "h-1", "tx-1")).resolve(ChainAnswer::Found) {
        ChainStep::Validate(pending) => pending,
        ChainStep::Done(outcome) => panic!("expected the hash validation, got {:?}", outcome),
    };
    let at = Timestamp { seconds: 1_754_524_800, nanoseconds: 250 };
    let outcome = pending.accept(0xa1a2a3a4_b1b2_c1c2_d1d2_d3d4d5d6d7d8, at, &mut ledger);
    assert_eq!(ledger.len(), 1);
    let kept = &ledger.list()[0];
    assert_eq!(kept.id, 0xa1a2a3a4_b1b2_c1c2_d1d2_d3d4d5d6d7d8);
    assert_eq!(kept.student_name, "Alice");
    assert_eq!(kept.university, "BITS");
    assert_eq!(kept.degree, "BSc");
    assert_eq!(kept.transcript_hash, "h-1");
    assert_eq!(kept.verified_at, at);
    match outcome {
        VerificationOutcome::Accepted(returned) => {
            assert_eq!(returned.id, kept.id);
            assert_eq!(returned.verified_at, at);
            assert_eq!(returned.student_name, "Alice");
        }
        other => panic!("expected an accepted request, got {:?}", other),
    }
}

#[test]
fn ledger_lists_records_in_the_order_of_acceptance() {
    let (mut chain, mut validator) = collaborators();
    let mut ledger = Ledger::new();
    let submissions = [
        ("First", "h-1", "tx-1"),
        ("Unknown", "h-1", "tx-7"),
        ("Second", "h-2", "tx-2"),
        ("Invalid", "h-7", "tx-1"),
        ("Third", "h-1", "tx-2"),
    ];
    for (name, hash, tx) in submissions {
        let _ = drive(request(name, hash, tx), &mut chain, &mut validator, &mut ledger);
    }
    let names: Vec<&str> = ledger.list().iter().map(|kept| kept.student_name.as_str()).collect();
    assert_eq!(names, vec!["First", "Second", "Third"]);
    assert_eq!(ledger.len(), 3);
}

#[test]
fn append_keeps_what_was_there() {
    let mut ledger = Ledger::new();
    assert_eq!(ledger.len(), 0);
    ledger.append(record(7, "A"));
    ledger.append(record(7, "B"));
    ledger.append(record(3, "C"));
    assert_eq!(ledger.len(), 3);
    let ids: Vec<u128> = ledger.list().iter().map(|kept| kept.id).collect();
    assert_eq!(ids, vec![7, 7, 3]);
    assert_eq!(ledger.list()[1].student_name, "B");
    assert_eq!(ledger.list()[2].verified_at, Timestamp { seconds: 1_700_000_000, nanoseconds: 5 });
}

#[test]
fn fresh_identifiers_are_random_uuids() {
    let mut ledger = Ledger::new();
    for _ in 0..8 {
        let _ = verify(request("Alice", "abc", "0x"), &mut ledger);
    }
    let ids: Vec<u128> = ledger.list().iter().map(|kept| kept.id).collect();
    assert_eq!(ids.len(), 8);
    for (at, id) in ids.iter().enumerate() {
        assert_eq!((id >> 76) & 0xf, 4);
        assert_eq!((id >> 62) & 0x3, 2);
        let as_uuid = uuid::Uuid::from_u128(*id);
        assert_eq!(as_uuid.get_version_num(), 4);
        assert!(!ids[..at].contains(id));
    }
}

#[test]
fn acceptance_is_stamped_with_the_time_of_the_call() {
    let before = chrono::Utc::now();
    let mut ledger = Ledger::new();
    let _ = verify(request("Alice", "abc", "0x"), &mut ledger);
    let after = chrono::Utc::now();
    let at = ledger.list()[0].verified_at;
    let stamped = chrono::DateTime::from_timestamp(at.seconds, at.nanoseconds).unwrap();
    assert!(before <= stamped);
    assert!(stamped <= after);
}

#[test]
fn responses_carry_label_and_status_code() {
    let accepted = VerificationOutcome::Accepted(record(1, "Alice"));
    assert_eq!(accepted.verdict(), Verdict::Accepted);
    assert_eq!(accepted.response().status, "✅ Verified");
    assert_eq!(accepted.response().verified, true);
    assert_eq!(accepted.status_code(), 200);

    let on_chain = VerificationOutcome::RejectedOnChain;
    assert_eq!(on_chain.verdict(), Verdict::RejectedOnChain);
    assert_eq!(on_chain.response().status, "❌ Not Found On Chain");
    assert_eq!(on_chain.response().verified, false);
    assert_eq!(on_chain.status_code(), 400);

    let on_hash = VerificationOutcome::RejectedOnHash;
    assert_eq!(on_hash.verdict(), Verdict::RejectedOnHash);
    assert_eq!(on_hash.response().status, "❌ Verification Failed");
    assert_eq!(on_hash.response().verified, false);
    assert_eq!(on_hash.status_code(), 401);
}

#[test]
fn record_is_built_from_the_request() {
    let at = Timestamp { seconds: -1, nanoseconds: 999_999_999 };
    let built = TranscriptRecord::from_request(request("Alice", "h-1", "tx-1"), u128::MAX, at);
    assert_eq!(built.id, u128::MAX);
    assert_eq!(built.student_name, "Alice");
    assert_eq!(built.university, "BITS");
    assert_eq!(built.degree, "BSc");
    assert_eq!(built.transcript_hash, "h-1");
    assert_eq!(built.verified_at, at);
    let copy = built.clone();
    assert_eq!(copy.id, built.id);
    assert_eq!(copy.student_name, built.student_name);
    assert_eq!(copy.verified_at, built.verified_at);
}
