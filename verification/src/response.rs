//! What the gateway tells a submitter: a label that a person can read, and
//! whether the credential was verified.

use crate::gateway::{OutcomeView, Verdict, VerificationOutcome};
use vstd::prelude::*;

verus! {

/// The answer to a verification request.
#[derive(Debug)]
pub struct VerificationResponse {
    pub status: String,
    pub verified: bool,
}

/// The label that goes with a verdict.
pub open spec fn label_of(verdict: Verdict) -> Seq<char> {
    match verdict {
        Verdict::Accepted => "✅ Verified"@,
        Verdict::RejectedOnChain => "❌ Not Found On Chain"@,
        Verdict::RejectedOnHash => "❌ Verification Failed"@,
    }
}

/// The HTTP status code that goes with a verdict. It is 200 for an accepted
/// request, 400 for one whose transaction is not on the chain, and 401 for
/// one whose transcript hash is not valid.
pub open spec fn status_code_of(verdict: Verdict) -> u16 {
    match verdict {
        Verdict::Accepted => 200,
        Verdict::RejectedOnChain => 400,
        Verdict::RejectedOnHash => 401,
    }
}

impl VerificationOutcome {
    /// The way in which the verification ended.
    pub fn verdict(&self) -> (verdict: Verdict)
        ensures
            verdict == self@.verdict(),
    {
        match self {
            VerificationOutcome::Accepted(_) => Verdict::Accepted,
            VerificationOutcome::RejectedOnChain => Verdict::RejectedOnChain,
            VerificationOutcome::RejectedOnHash => Verdict::RejectedOnHash,
        }
    }

    /// The answer for the submitter: verified exactly when the request was
    /// accepted, under the label of the verdict.
    pub fn response(&self) -> (response: VerificationResponse)
        ensures
            response.verified == (self@ is Accepted),
            response.status@ == label_of(self@.verdict()),
    {
        match self {
            VerificationOutcome::Accepted(_) => VerificationResponse {
                status: "✅ Verified".to_owned(),
                verified: true,
            },
            VerificationOutcome::RejectedOnChain => VerificationResponse {
                status: "❌ Not Found On Chain".to_owned(),
                verified: false,
            },
            VerificationOutcome::RejectedOnHash => VerificationResponse {
                status: "❌ Verification Failed".to_owned(),
                verified: false,
            },
        }
    }

    /// The HTTP status code under which the answer is sent.
    pub fn status_code(&self) -> (code: u16)
        ensures
            code == status_code_of(self@.verdict()),
    {
        match self {
            VerificationOutcome::Accepted(_) => 200,
            VerificationOutcome::RejectedOnChain => 400,
            VerificationOutcome::RejectedOnHash => 401,
        }
    }
}

} // verus!
