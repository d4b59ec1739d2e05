//! The data that the gateway takes in and keeps: a verification request, the
//! record of an accepted verification, and the time stamp that a record bears.

use vstd::prelude::*;

verus! {

/// A point in time: whole seconds since the Unix epoch and the nanoseconds
/// that have passed since the last full second.
#[derive(Clone, Copy, Debug, PartialEq, Eq, Structural)]
pub struct Timestamp {
    pub seconds: i64,
    pub nanoseconds: u32,
}

/// A submission to the gateway. It names no sender: anybody may submit.
#[derive(Debug)]
pub struct VerificationRequest {
    pub student_name: String,
    pub university: String,
    pub degree: String,
    pub transcript_hash: String,
    pub tx_hash: String,
}

/// What a request says, as sequences of characters.
pub struct RequestView {
    pub student_name: Seq<char>,
    pub university: Seq<char>,
    pub degree: Seq<char>,
    pub transcript_hash: Seq<char>,
    pub tx_hash: Seq<char>,
}

impl View for VerificationRequest {
    type V = RequestView;

    open spec fn view(&self) -> RequestView {
        RequestView {
            student_name: self.student_name@,
            university: self.university@,
            degree: self.degree@,
            transcript_hash: self.transcript_hash@,
            tx_hash: self.tx_hash@,
        }
    }
}

/// One accepted verification, as the ledger keeps it.
#[derive(Debug)]
pub struct TranscriptRecord {
    pub id: u128,
    pub student_name: String,
    pub university: String,
    pub degree: String,
    pub transcript_hash: String,
    pub verified_at: Timestamp,
}

/// What a record says, as sequences of characters.
pub struct RecordView {
    pub id: u128,
    pub student_name: Seq<char>,
    pub university: Seq<char>,
    pub degree: Seq<char>,
    pub transcript_hash: Seq<char>,
    pub verified_at: Timestamp,
}

impl View for TranscriptRecord {
    type V = RecordView;

    open spec fn view(&self) -> RecordView {
        RecordView {
            id: self.id,
            student_name: self.student_name@,
            university: self.university@,
            degree: self.degree@,
            transcript_hash: self.transcript_hash@,
            verified_at: self.verified_at,
        }
    }
}

impl Clone for TranscriptRecord {
    fn clone(&self) -> (copy: Self)
        ensures
            copy == *self,
    {
        TranscriptRecord {
            id: self.id,
            student_name: self.student_name.clone(),
            university: self.university.clone(),
            degree: self.degree.clone(),
            transcript_hash: self.transcript_hash.clone(),
            verified_at: self.verified_at,
        }
    }
}

/// The record that accepting `request` under `id` at `verified_at` yields:
/// the descriptive fields are those of the request, and the transaction
/// identifier is not kept.
pub open spec fn record_of(request: RequestView, id: u128, verified_at: Timestamp) -> RecordView {
    RecordView {
        id,
        student_name: request.student_name,
        university: request.university,
        degree: request.degree,
        transcript_hash: request.transcript_hash,
        verified_at,
    }
}

impl TranscriptRecord {
    /// Builds the record of an accepted request.
    pub fn from_request(request: VerificationRequest, id: u128, verified_at: Timestamp) -> (record:
        TranscriptRecord)
        ensures
            record@ == record_of(request@, id, verified_at),
    {
        TranscriptRecord {
            id,
            student_name: request.student_name,
            university: request.university,
            degree: request.degree,
            transcript_hash: request.transcript_hash,
            verified_at,
        }
    }
}

} // verus!
