//! A certificate: one issued credential.

use vstd::prelude::*;

verus! {

/// An issued credential. The descriptive fields and the date are set when the
/// certificate is issued; afterwards only the revocation flag changes, and
/// only from `false` to `true`.
#[derive(Debug)]
pub struct Certificate {
    pub student_name: String,
    pub course: String,
    pub institution: String,
    pub issued_date: u64,
    pub is_revoked: bool,
}

/// What a certificate says, as sequences of characters.
pub struct CertificateView {
    pub student_name: Seq<char>,
    pub course: Seq<char>,
    pub institution: Seq<char>,
    pub issued_date: u64,
    pub is_revoked: bool,
}

impl View for Certificate {
    type V = CertificateView;

    open spec fn view(&self) -> CertificateView {
        CertificateView {
            student_name: self.student_name@,
            course: self.course@,
            institution: self.institution@,
            issued_date: self.issued_date,
            is_revoked: self.is_revoked,
        }
    }
}

impl Clone for Certificate {
    fn clone(&self) -> (copy: Self)
        ensures
            copy == *self,
    {
        Certificate {
            student_name: self.student_name.clone(),
            course: self.course.clone(),
            institution: self.institution.clone(),
            issued_date: self.issued_date,
            is_revoked: self.is_revoked,
        }
    }
}

impl PartialEq for Certificate {
    fn eq(&self, other: &Certificate) -> (same: bool) {
        self.student_name == other.student_name && self.course == other.course
            && self.institution == other.institution && self.issued_date == other.issued_date
            && self.is_revoked == other.is_revoked
    }
}

impl Eq for Certificate {

}

impl vstd::std_specs::cmp::PartialEqSpecImpl for Certificate {
    open spec fn obeys_eq_spec() -> bool {
        true
    }

    open spec fn eq_spec(&self, other: &Certificate) -> bool {
        self@ == other@
    }
}

/// A certificate as it stands right after it was issued: not revoked.
pub open spec fn issued(
    student_name: Seq<char>,
    course: Seq<char>,
    institution: Seq<char>,
    issued_date: u64,
) -> CertificateView {
    CertificateView { student_name, course, institution, issued_date, is_revoked: false }
}

/// `certificate` with the revocation flag set and nothing else changed.
pub open spec fn revoked(certificate: CertificateView) -> CertificateView {
    CertificateView { is_revoked: true, ..certificate }
}

} // verus!
