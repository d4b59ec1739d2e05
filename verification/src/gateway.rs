//! The verification gateway: a request passes a chain lookup and then a hash
//! validation, and is recorded in the ledger only when both succeed.
//!
//! The two checks are the work of collaborators outside this crate, and the
//! chain lookup may take long. The gateway therefore never makes them itself.
//! It says which check is due, takes the answer, and decides what follows:
//! a [`PendingChain`] waits for the chain lookup, a [`PendingHash`] for the
//! hash validation. Whoever drives a request performs the checks in between
//! and holds no lock on the ledger while it waits for one. [`verify`] drives a
//! request with the stand-in checks that this crate ships.

use crate::checks::{check_tx_on_chain, transcript_hash_valid, tx_on_chain, verify_transcript_hash};
use crate::ledger::Ledger;
use crate::record::{record_of, RecordView, RequestView, Timestamp, TranscriptRecord, VerificationRequest};
use crate::stamp::{current_time, fresh_id, is_random_uuid};
use vstd::prelude::*;

verus! {

/// What the chain lookup reported for a transaction identifier.
#[derive(Clone, Copy, Debug, PartialEq, Eq, Structural)]
pub enum ChainAnswer {
    /// The transaction exists on the chain.
    Found,
    /// The chain holds no such transaction.
    Missing,
    /// The lookup failed or timed out. The gateway treats this as a miss.
    Unavailable,
}

impl ChainAnswer {
    /// Reads the report of a chain lookup that says `Some(true)` for a
    /// transaction it found, `Some(false)` for one it did not find, and
    /// `None` where it failed or gave up.
    pub fn from_lookup(report: Option<bool>) -> (answer: ChainAnswer)
        ensures
            answer == match report {
                Some(true) => ChainAnswer::Found,
                Some(false) => ChainAnswer::Missing,
                None => ChainAnswer::Unavailable,
            },
    {
        match report {
            Some(true) => ChainAnswer::Found,
            Some(false) => ChainAnswer::Missing,
            None => ChainAnswer::Unavailable,
        }
    }
}

/// The three ways in which a verification can end, without the record.
#[derive(Clone, Copy, Debug, PartialEq, Eq, Structural)]
pub enum Verdict {
    Accepted,
    RejectedOnChain,
    RejectedOnHash,
}

/// How a verification ended. The rejections are ordinary results: most
/// submissions are expected to end in one.
#[derive(Debug)]
pub enum VerificationOutcome {
    /// Both checks passed; the record is the one that the ledger now holds.
    Accepted(TranscriptRecord),
    /// The chain lookup did not find the transaction.
    RejectedOnChain,
    /// The chain lookup passed and the transcript hash was not valid.
    RejectedOnHash,
}

/// An outcome with its record taken by its view.
pub enum OutcomeView {
    Accepted(RecordView),
    RejectedOnChain,
    RejectedOnHash,
}

impl OutcomeView {
    /// The way in which the verification ended.
    pub open spec fn verdict(self) -> Verdict {
        match self {
            OutcomeView::Accepted(_) => Verdict::Accepted,
            OutcomeView::RejectedOnChain => Verdict::RejectedOnChain,
            OutcomeView::RejectedOnHash => Verdict::RejectedOnHash,
        }
    }
}

impl View for VerificationOutcome {
    type V = OutcomeView;

    open spec fn view(&self) -> OutcomeView {
        match self {
            VerificationOutcome::Accepted(record) => OutcomeView::Accepted(record@),
            VerificationOutcome::RejectedOnChain => OutcomeView::RejectedOnChain,
            VerificationOutcome::RejectedOnHash => OutcomeView::RejectedOnHash,
        }
    }
}

/// The verdict that the two checks call for. The hash check counts only
/// where the chain check passed.
pub open spec fn verdict_of(chain_passed: bool, hash_passed: bool) -> Verdict {
    if !chain_passed {
        Verdict::RejectedOnChain
    } else if !hash_passed {
        Verdict::RejectedOnHash
    } else {
        Verdict::Accepted
    }
}

/// The ledger after a verification that found it as `before` and ended in
/// `outcome`: an accepted record stands at its end, and a rejection leaves it
/// as it was.
pub open spec fn ledger_after(before: Seq<RecordView>, outcome: OutcomeView) -> Seq<RecordView> {
    match outcome {
        OutcomeView::Accepted(record) => before.push(record),
        _ => before,
    }
}

/// The ledger after a run of verifications that found it as `before` and
/// ended, one after the other, in `outcomes`.
pub open spec fn ledger_after_all(before: Seq<RecordView>, outcomes: Seq<OutcomeView>) -> Seq<
    RecordView,
>
    decreases outcomes.len(),
{
    if outcomes.len() == 0 {
        before
    } else {
        ledger_after(ledger_after_all(before, outcomes.drop_last()), outcomes.last())
    }
}

/// A failed chain lookup settles how the verification ends. The request is
/// rejected on chain whatever the hash validation would have said, so the
/// validation need not take place.
pub proof fn lemma_chain_failure_settles(hash_passed: bool)
    ensures
        verdict_of(false, hash_passed) == Verdict::RejectedOnChain,
{
}

/// The ledger holds a record for a request exactly when both of its checks
/// passed. A verification that passed both leaves the ledger one record
/// longer, with the accepted record at the end; one that failed either check
/// leaves the ledger as it was.
pub proof fn lemma_ledger_exactness(
    before: Seq<RecordView>,
    outcome: OutcomeView,
    chain_passed: bool,
    hash_passed: bool,
)
    requires
        outcome.verdict() == verdict_of(chain_passed, hash_passed),
    ensures
        (chain_passed && hash_passed) <==> ledger_after(before, outcome).len() == before.len() + 1,
        (chain_passed && hash_passed) ==> (outcome matches OutcomeView::Accepted(record)
            && ledger_after(before, outcome) == before.push(record)),
        !(chain_passed && hash_passed) ==> ledger_after(before, outcome) == before,
{
}

/// The ledger keeps the order of acceptance. After a run of verifications
/// the ledger begins with what it held before, and the records accepted in
/// the run follow in the order in which their verifications ended: the one
/// accepted at step `i` stands where the ledger ended before that step, ahead
/// of the record of every later step `j`.
pub proof fn lemma_acceptance_order(
    before: Seq<RecordView>,
    outcomes: Seq<OutcomeView>,
    i: int,
    j: int,
)
    requires
        0 <= i < j < outcomes.len(),
        outcomes[i] is Accepted,
        outcomes[j] is Accepted,
    ensures
        ({
            let end = ledger_after_all(before, outcomes);
            let at_i = ledger_after_all(before, outcomes.take(i)).len() as int;
            let at_j = ledger_after_all(before, outcomes.take(j)).len() as int;
            &&& before.len() <= at_i < at_j < end.len()
            &&& end.take(before.len() as int) == before
            &&& OutcomeView::Accepted(end[at_i]) == outcomes[i]
            &&& OutcomeView::Accepted(end[at_j]) == outcomes[j]
        }),
{
    let end = ledger_after_all(before, outcomes);
    let until_i = ledger_after_all(before, outcomes.take(i));
    let past_i = ledger_after_all(before, outcomes.take(i + 1));
    let until_j = ledger_after_all(before, outcomes.take(j));
    let past_j = ledger_after_all(before, outcomes.take(j + 1));
    lemma_ledger_step(before, outcomes, i);
    lemma_ledger_step(before, outcomes, j);
    assert(before.len() <= until_i.len()) by {
        lemma_ledger_grows(before, outcomes.take(i), 0);
        assert(outcomes.take(i).take(0) =~= Seq::<OutcomeView>::empty());
    }
    assert(past_i.len() <= until_j.len()) by {
        lemma_ledger_grows(before, outcomes.take(j), i + 1);
        assert(outcomes.take(j).take(i + 1) =~= outcomes.take(i + 1));
    }
    assert(end.take(before.len() as int) == before) by {
        lemma_ledger_grows(before, outcomes, 0);
        assert(outcomes.take(0) =~= Seq::<OutcomeView>::empty());
    }
    lemma_ledger_grows(before, outcomes, i + 1);
    lemma_ledger_grows(before, outcomes, j + 1);
    assert(end[until_i.len() as int] == end.take(past_i.len() as int)[until_i.len() as int]);
    assert(end[until_j.len() as int] == end.take(past_j.len() as int)[until_j.len() as int]);
}

/// One more verification in a run has the ledger changed by its outcome.
proof fn lemma_ledger_step(before: Seq<RecordView>, outcomes: Seq<OutcomeView>, k: int)
    requires
        0 <= k < outcomes.len(),
    ensures
        ledger_after_all(before, outcomes.take(k + 1)) == ledger_after(
            ledger_after_all(before, outcomes.take(k)),
            outcomes[k],
        ),
{
    assert(outcomes.take(k + 1).drop_last() =~= outcomes.take(k));
    assert(outcomes.take(k + 1).last() == outcomes[k]);
}

/// A run of verifications only ever adds to the end of the ledger: the ledger
/// after the first `k` of them is the beginning of the ledger after all.
proof fn lemma_ledger_grows(before: Seq<RecordView>, outcomes: Seq<OutcomeView>, k: int)
    requires
        0 <= k <= outcomes.len(),
    ensures
        ({
            let part = ledger_after_all(before, outcomes.take(k));
            let end = ledger_after_all(before, outcomes);
            part.len() <= end.len() && end.take(part.len() as int) == part
        }),
    decreases outcomes.len(),
{
    let part = ledger_after_all(before, outcomes.take(k));
    let end = ledger_after_all(before, outcomes);
    if k == outcomes.len() {
        assert(outcomes.take(k) =~= outcomes);
        assert(end.take(end.len() as int) =~= end);
    } else {
        let earlier = outcomes.drop_last();
        lemma_ledger_grows(before, earlier, k);
        assert(earlier.take(k) =~= outcomes.take(k));
        let shorter = ledger_after_all(before, earlier);
        assert(end.take(part.len() as int) =~= shorter.take(part.len() as int));
    }
}

/// A request whose chain lookup is due.
pub struct PendingChain {
    request: VerificationRequest,
}

/// A request that passed the chain lookup and whose hash validation is due.
/// The only way to one is [`PendingChain::resolve`] with the answer
/// [`ChainAnswer::Found`].
pub struct PendingHash {
    request: VerificationRequest,
}

/// What follows the chain lookup.
pub enum ChainStep {
    /// The lookup passed: the transcript hash is to be validated next.
    Validate(PendingHash),
    /// The verification is over, and no hash validation is asked for.
    Done(VerificationOutcome),
}

impl View for PendingChain {
    type V = RequestView;

    closed spec fn view(&self) -> RequestView {
        self.request@
    }
}

impl View for PendingHash {
    type V = RequestView;

    closed spec fn view(&self) -> RequestView {
        self.request@
    }
}

impl PendingChain {
    /// Takes a request in. Nothing is checked yet.
    pub fn begin(request: VerificationRequest) -> (pending: PendingChain)
        ensures
            pending@ == request@,
    {
        PendingChain { request }
    }

    /// The transaction identifier to hand to the chain lookup.
    pub fn tx_hash(&self) -> (tx_hash: &str)
        ensures
            tx_hash@ == self@.tx_hash,
    {
        self.request.tx_hash.as_str()
    }

    /// Takes the answer of the chain lookup. Only on [`ChainAnswer::Found`]
    /// does the request go on to the hash validation; on any other answer
    /// the verification ends at once as rejected on chain, so that the hash
    /// validator is not consulted for it.
    pub fn resolve(self, answer: ChainAnswer) -> (next: ChainStep)
        ensures
            match next {
                ChainStep::Validate(pending) => answer == ChainAnswer::Found && pending@ == self@,
                ChainStep::Done(outcome) => answer != ChainAnswer::Found && outcome@
                    == OutcomeView::RejectedOnChain,
            },
    {
        match answer {
            ChainAnswer::Found => ChainStep::Validate(PendingHash { request: self.request }),
            _ => ChainStep::Done(VerificationOutcome::RejectedOnChain),
        }
    }
}

impl PendingHash {
    /// The transcript hash to hand to the hash validator.
    pub fn transcript_hash(&self) -> (transcript_hash: &str)
        ensures
            transcript_hash@ == self@.transcript_hash,
    {
        self.request.transcript_hash.as_str()
    }

    /// Accepts the request under the given identifier and time: the record
    /// is appended to the ledger and handed back in the outcome.
    pub fn accept(self, id: u128, verified_at: Timestamp, ledger: &mut Ledger) -> (outcome:
        VerificationOutcome)
        ensures
            outcome@ == OutcomeView::Accepted(record_of(self@, id, verified_at)),
            final(ledger)@ == old(ledger)@.push(record_of(self@, id, verified_at)),
    {
        let record = TranscriptRecord::from_request(self.request, id, verified_at);
        ledger.append(record.clone());
        VerificationOutcome::Accepted(record)
    }

    /// Takes the answer of the hash validator. A valid hash has the request
    /// accepted under a fresh identifier and the current time; an invalid one
    /// ends the verification as rejected on hash and leaves the ledger alone.
    pub fn resolve(self, valid: bool, ledger: &mut Ledger) -> (outcome: VerificationOutcome)
        ensures
            outcome@.verdict() == verdict_of(true, valid),
            outcome@ matches OutcomeView::Accepted(record) ==> record == record_of(
                self@,
                record.id,
                record.verified_at,
            ) && is_random_uuid(record.id),
            final(ledger)@ == ledger_after(old(ledger)@, outcome@),
    {
        if valid {
            let id: u128 = fresh_id();
            let verified_at = current_time();
            self.accept(id, verified_at, ledger)
        } else {
            VerificationOutcome::RejectedOnHash
        }
    }
}

/// Verifies `request` with the stand-in checks of this crate: the chain
/// lookup first, the hash validation only if the lookup passed, and the
/// append to the ledger only if both passed.
pub fn verify(request: VerificationRequest, ledger: &mut Ledger) -> (outcome: VerificationOutcome)
    ensures
        outcome@.verdict() == verdict_of(
            tx_on_chain(request@.tx_hash),
            transcript_hash_valid(request@.transcript_hash),
        ),
        outcome@ matches OutcomeView::Accepted(record) ==> record == record_of(
            request@,
            record.id,
            record.verified_at,
        ) && is_random_uuid(record.id),
        final(ledger)@ == ledger_after(old(ledger)@, outcome@),
{
    let pending = PendingChain::begin(request);
    let found = check_tx_on_chain(pending.tx_hash());
    match pending.resolve(ChainAnswer::from_lookup(Some(found))) {
        ChainStep::Done(outcome) => outcome,
        ChainStep::Validate(pending) => {
            let valid = verify_transcript_hash(pending.transcript_hash());
            pending.resolve(valid, ledger)
        },
    }
}

} // verus!
