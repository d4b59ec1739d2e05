//! The credential registry: one certificate per subject, written by the
//! owner alone and readable by anybody.

use crate::account::AccountId;
use crate::certificate::{issued, revoked, Certificate, CertificateView};
use vstd::prelude::*;

verus! {

/// Why the registry turned a call down.
#[derive(Clone, Copy, Debug, PartialEq, Eq, Structural)]
pub enum RegistryError {
    /// The caller is not the owner of the registry.
    Unauthorized,
    /// The subject has no certificate.
    NotFound,
}

/// The registry as a mathematical value: who owns it, and which certificate
/// each subject holds.
pub struct RegistryView {
    pub owner: AccountId,
    pub certificates: Map<AccountId, CertificateView>,
}

impl RegistryView {
    /// The registry that `owner` has just made: it holds no certificate.
    pub open spec fn fresh(owner: AccountId) -> RegistryView {
        RegistryView { owner, certificates: Map::empty() }
    }

    /// The certificate that `subject` holds, if it holds one.
    pub open spec fn get(self, subject: AccountId) -> Option<CertificateView> {
        if self.certificates.contains_key(subject) {
            Some(self.certificates[subject])
        } else {
            None
        }
    }

    /// What an attempt of `caller` to issue a certificate returns.
    pub open spec fn issue_result(self, caller: AccountId) -> Result<bool, RegistryError> {
        if caller != self.owner {
            Err(RegistryError::Unauthorized)
        } else {
            Ok(true)
        }
    }

    /// The registry after `caller` tried to issue a certificate with the given
    /// particulars to `subject`. The owner's certificate, not revoked, takes
    /// the place of whatever `subject` held.
    pub open spec fn issue(
        self,
        caller: AccountId,
        subject: AccountId,
        student_name: Seq<char>,
        course: Seq<char>,
        institution: Seq<char>,
        issued_date: u64,
    ) -> RegistryView {
        if caller != self.owner {
            self
        } else {
            RegistryView {
                owner: self.owner,
                certificates: self.certificates.insert(
                    subject,
                    issued(student_name, course, institution, issued_date),
                ),
            }
        }
    }

    /// What an attempt of `caller` to revoke the certificate of `subject`
    /// returns. The caller is judged first.
    pub open spec fn revoke_result(self, caller: AccountId, subject: AccountId) -> Result<
        bool,
        RegistryError,
    > {
        if caller != self.owner {
            Err(RegistryError::Unauthorized)
        } else if !self.certificates.contains_key(subject) {
            Err(RegistryError::NotFound)
        } else {
            Ok(true)
        }
    }

    /// The registry after `caller` tried to revoke the certificate of
    /// `subject`.
    pub open spec fn revoke(self, caller: AccountId, subject: AccountId) -> RegistryView {
        if caller == self.owner && self.certificates.contains_key(subject) {
            RegistryView {
                owner: self.owner,
                certificates: self.certificates.insert(
                    subject,
                    revoked(self.certificates[subject]),
                ),
            }
        } else {
            self
        }
    }
}

/// One call that writes to the registry, with the caller who makes it.
pub enum Command {
    /// `caller` issues a certificate with these particulars to `subject`.
    Issue {
        caller: AccountId,
        subject: AccountId,
        student_name: Seq<char>,
        course: Seq<char>,
        institution: Seq<char>,
        issued_date: u64,
    },
    /// `caller` revokes the certificate of `subject`.
    Revoke { caller: AccountId, subject: AccountId },
}

impl Command {
    /// Whether the command is the owner of `registry` issuing a certificate
    /// to `subject`.
    pub open spec fn reissues(self, registry: RegistryView, subject: AccountId) -> bool {
        self matches Command::Issue { caller, subject: to, .. } && caller == registry.owner && to
            == subject
    }
}

impl RegistryView {
    /// The registry after one command.
    pub open spec fn apply(self, command: Command) -> RegistryView {
        match command {
            Command::Issue {
                caller,
                subject,
                student_name,
                course,
                institution,
                issued_date,
            } => self.issue(caller, subject, student_name, course, institution, issued_date),
            Command::Revoke { caller, subject } => self.revoke(caller, subject),
        }
    }

    /// The registry after a run of commands, the first of them first.
    pub open spec fn run(self, commands: Seq<Command>) -> RegistryView
        decreases commands.len(),
    {
        if commands.len() == 0 {
            self
        } else {
            self.run(commands.drop_last()).apply(commands.last())
        }
    }
}

/// Only the owner writes. For any other caller both issuing and revoking are
/// turned down as unauthorized, and the registry is afterwards what it was.
pub proof fn lemma_only_owner_writes(
    registry: RegistryView,
    caller: AccountId,
    subject: AccountId,
    student_name: Seq<char>,
    course: Seq<char>,
    institution: Seq<char>,
    issued_date: u64,
)
    requires
        caller != registry.owner,
    ensures
        registry.issue_result(caller) == Err::<bool, RegistryError>(RegistryError::Unauthorized),
        registry.issue(caller, subject, student_name, course, institution, issued_date)
            == registry,
        registry.revoke_result(caller, subject) == Err::<bool, RegistryError>(
            RegistryError::Unauthorized,
        ),
        registry.revoke(caller, subject) == registry,
{
}

/// The latest issue wins. When the owner issues to one subject twice, the
/// subject holds the second certificate and nothing of the first, and the
/// second is not revoked even where the first was revoked in between. Of
/// `first` and `second` the particulars count, not the revocation flag.
pub proof fn lemma_issue_overwrites(
    registry: RegistryView,
    subject: AccountId,
    first: CertificateView,
    revoked_between: bool,
    second: CertificateView,
)
    ensures
        ({
            let owner = registry.owner;
            let once = registry.issue(
                owner,
                subject,
                first.student_name,
                first.course,
                first.institution,
                first.issued_date,
            );
            let between = if revoked_between {
                once.revoke(owner, subject)
            } else {
                once
            };
            let twice = between.issue(
                owner,
                subject,
                second.student_name,
                second.course,
                second.institution,
                second.issued_date,
            );
            let held = issued(
                second.student_name,
                second.course,
                second.institution,
                second.issued_date,
            );
            &&& revoked_between ==> (between.get(subject) matches Some(certificate)
                && certificate.is_revoked)
            &&& twice.get(subject) == Some(held)
            &&& !held.is_revoked
            &&& twice.certificates == registry.certificates.insert(subject, held)
        }),
{
    let owner = registry.owner;
    let once = registry.issue(
        owner,
        subject,
        first.student_name,
        first.course,
        first.institution,
        first.issued_date,
    );
    let between = if revoked_between {
        once.revoke(owner, subject)
    } else {
        once
    };
    let twice = between.issue(
        owner,
        subject,
        second.student_name,
        second.course,
        second.institution,
        second.issued_date,
    );
    let held = issued(second.student_name, second.course, second.institution, second.issued_date);
    assert(twice.certificates =~= registry.certificates.insert(subject, held));
}

/// No run of commands changes the owner, and none takes a certificate away:
/// a subject that holds one holds one ever after.
pub proof fn lemma_run_keeps_owner_and_subjects(registry: RegistryView, commands: Seq<Command>)
    ensures
        registry.run(commands).owner == registry.owner,
        forall|subject: AccountId| #[trigger]
            registry.certificates.contains_key(subject) ==> registry.run(
                commands,
            ).certificates.contains_key(subject),
    decreases commands.len(),
{
    if commands.len() > 0 {
        lemma_run_keeps_owner_and_subjects(registry, commands.drop_last());
    }
}

/// Revocation lasts. Once a revocation has succeeded, the subject's
/// certificate reads as revoked after any later run of commands in which the
/// owner does not issue to that subject anew, and revoking it again succeeds
/// and changes nothing.
pub proof fn lemma_revocation_lasts(
    registry: RegistryView,
    caller: AccountId,
    subject: AccountId,
    later: Seq<Command>,
)
    requires
        registry.revoke_result(caller, subject).is_ok(),
        forall|i: int| 0 <= i < later.len() ==> !(#[trigger] later[i]).reissues(registry, subject),
    ensures
        ({
            let after = registry.revoke(caller, subject);
            let end = after.run(later);
            &&& end.get(subject) matches Some(certificate) && certificate.is_revoked
            &&& end.revoke_result(caller, subject) == Ok::<bool, RegistryError>(true)
            &&& end.revoke(caller, subject) == end
        }),
    decreases later.len(),
{
    let after = registry.revoke(caller, subject);
    if later.len() > 0 {
        let earlier = later.drop_last();
        assert forall|i: int| 0 <= i < earlier.len() implies !(#[trigger] earlier[i]).reissues(
            registry,
            subject,
        ) by {
            assert(earlier[i] == later[i]);
        }
        lemma_revocation_lasts(registry, caller, subject, earlier);
        lemma_run_keeps_owner_and_subjects(after, earlier);
        assert(!later.last().reissues(registry, subject));
    }
    let end = after.run(later);
    assert(end.revoke(caller, subject).certificates =~= end.certificates);
}

/// A subject together with the certificate it holds.
struct Entry {
    subject: AccountId,
    certificate: Certificate,
}

/// Whether some entry belongs to `subject`.
spec fn holds(entries: Seq<Entry>, subject: AccountId) -> bool {
    exists|i: int| 0 <= i < entries.len() && (#[trigger] entries[i]).subject == subject
}

/// The place of an entry of `subject`, where there is one.
spec fn place(entries: Seq<Entry>, subject: AccountId) -> int {
    choose|i: int| 0 <= i < entries.len() && (#[trigger] entries[i]).subject == subject
}

/// Whether no subject has two entries.
spec fn distinct(entries: Seq<Entry>) -> bool {
    forall|i: int, j: int|
        0 <= i < j < entries.len() ==> (#[trigger] entries[i]).subject != (
        #[trigger] entries[j]).subject
}

/// The certificates of `entries`, by subject.
spec fn as_map(entries: Seq<Entry>) -> Map<AccountId, CertificateView> {
    Map::new(
        |subject: AccountId| holds(entries, subject),
        |subject: AccountId| entries[place(entries, subject)].certificate@,
    )
}

/// Among distinct entries, the place of a subject is where its entry stands.
proof fn lemma_place(entries: Seq<Entry>, at: int)
    requires
        distinct(entries),
        0 <= at < entries.len(),
    ensures
        holds(entries, entries[at].subject),
        place(entries, entries[at].subject) == at,
        as_map(entries).contains_key(entries[at].subject),
        as_map(entries)[entries[at].subject] == entries[at].certificate@,
{
    let subject = entries[at].subject;
    let found = place(entries, subject);
    assert(entries[found].subject == subject);
    if found < at {
        assert(entries[found].subject != entries[at].subject);
    } else if at < found {
        assert(entries[at].subject != entries[found].subject);
    }
}

/// Putting `entry` in the place of the entry of the same subject changes the
/// certificate of that subject and nothing else.
proof fn lemma_replace(entries: Seq<Entry>, at: int, entry: Entry)
    requires
        distinct(entries),
        0 <= at < entries.len(),
        entries[at].subject == entry.subject,
    ensures
        distinct(entries.update(at, entry)),
        as_map(entries.update(at, entry)) == as_map(entries).insert(
            entry.subject,
            entry.certificate@,
        ),
{
    let after = entries.update(at, entry);
    assert forall|i: int| 0 <= i < after.len() implies (#[trigger] after[i]).subject
        == entries[i].subject by {}
    assert forall|i: int, j: int| 0 <= i < j < after.len() implies (#[trigger] after[i]).subject
        != (#[trigger] after[j]).subject by {
        assert(entries[i].subject != entries[j].subject);
    }
    let wanted = as_map(entries).insert(entry.subject, entry.certificate@);
    assert forall|subject: AccountId| as_map(after).contains_key(subject) implies #[trigger]
        wanted.contains_key(subject) && as_map(after)[subject] == wanted[subject] by {
        let i = place(after, subject);
        assert(after[i].subject == subject);
        lemma_place(after, i);
        lemma_place(entries, i);
    }
    assert forall|subject: AccountId| #[trigger]
        wanted.contains_key(subject) implies as_map(after).contains_key(subject) by {
        if subject == entry.subject {
            lemma_place(after, at);
        } else {
            let i = place(entries, subject);
            assert(entries[i].subject == subject);
            lemma_place(after, i);
        }
    }
    assert(as_map(after) =~= wanted);
}

/// Adding an entry for a subject that has none gives that subject its
/// certificate and changes nothing else.
proof fn lemma_push(entries: Seq<Entry>, entry: Entry)
    requires
        distinct(entries),
        !holds(entries, entry.subject),
    ensures
        distinct(entries.push(entry)),
        as_map(entries.push(entry)) == as_map(entries).insert(entry.subject, entry.certificate@),
{
    let after = entries.push(entry);
    assert forall|i: int, j: int| 0 <= i < j < after.len() implies (#[trigger] after[i]).subject
        != (#[trigger] after[j]).subject by {
        if j < entries.len() {
            assert(entries[i].subject != entries[j].subject);
        } else {
            assert(entries[i].subject != entry.subject);
        }
    }
    let wanted = as_map(entries).insert(entry.subject, entry.certificate@);
    assert forall|subject: AccountId| as_map(after).contains_key(subject) implies #[trigger]
        wanted.contains_key(subject) && as_map(after)[subject] == wanted[subject] by {
        let i = place(after, subject);
        assert(after[i].subject == subject);
        lemma_place(after, i);
        if i < entries.len() {
            assert(entries[i].subject == subject);
            lemma_place(entries, i);
        }
    }
    assert forall|subject: AccountId| #[trigger]
        wanted.contains_key(subject) implies as_map(after).contains_key(subject) by {
        if subject == entry.subject {
            lemma_place(after, entries.len() as int);
        } else {
            let i = place(entries, subject);
            assert(entries[i].subject == subject);
            assert(after[i].subject == subject);
            lemma_place(after, i);
        }
    }
    assert(as_map(after) =~= wanted);
}

/// Where the entry of `subject` stands, if there is one.
fn find(entries: &Vec<Entry>, subject: AccountId) -> (found: Option<usize>)
    ensures
        match found {
            Some(at) => at < entries@.len() && entries@[at as int].subject == subject,
            None => !holds(entries@, subject),
        },
{
    let mut at: usize = 0;
    while at < entries.len()
        invariant
            at <= entries@.len(),
            forall|k: int| 0 <= k < at ==> (#[trigger] entries@[k]).subject != subject,
        decreases entries@.len() - at,
    {
        if entries[at].subject == subject {
            return Some(at);
        }
        at += 1;
    }
    None
}

/// The credential registry. Its owner is the account that made it, for good;
/// a certificate, once issued, is replaced or revoked and never removed.
pub struct EduChainX {
    owner: AccountId,
    entries: Vec<Entry>,
}

impl View for EduChainX {
    type V = RegistryView;

    closed spec fn view(&self) -> RegistryView {
        RegistryView { owner: self.owner, certificates: as_map(self.entries@) }
    }
}

impl EduChainX {
    #[verifier::type_invariant]
    spec fn one_entry_per_subject(self) -> bool {
        distinct(self.entries@)
    }

    /// Makes an empty registry that `caller` owns.
    pub fn new(caller: AccountId) -> (registry: EduChainX)
        ensures
            registry@ == RegistryView::fresh(caller),
    {
        let registry = EduChainX { owner: caller, entries: Vec::new() };
        assert(registry@.certificates =~= Map::empty());
        registry
    }

    /// Tells whether `caller` owns the registry.
    pub fn is_owner(&self, caller: AccountId) -> (yes: bool)
        ensures
            yes == (caller == self@.owner),
    {
        caller == self.owner
    }

    /// Lets the owner through and nobody else. Every call that writes
    /// begins here, before it touches anything.
    fn only_owner(&self, caller: AccountId) -> (admitted: Result<(), RegistryError>)
        ensures
            admitted == if caller == self@.owner {
                Ok::<(), RegistryError>(())
            } else {
                Err::<(), RegistryError>(RegistryError::Unauthorized)
            },
    {
        if self.is_owner(caller) {
            Ok(())
        } else {
            Err(RegistryError::Unauthorized)
        }
    }

    /// Reads the certificate of `student`. Anybody may.
    pub fn get_certificate(&self, student: AccountId) -> (found: Option<Certificate>)
        ensures
            match found {
                Some(certificate) => self@.get(student) == Some(certificate@),
                None => self@.get(student).is_none(),
            },
    {
        proof {
            use_type_invariant(self);
        }
        match find(&self.entries, student) {
            Some(at) => {
                proof {
                    lemma_place(self.entries@, at as int);
                }
                Some(self.entries[at].certificate.clone())
            },
            None => None,
        }
    }

    /// Issues a certificate to `student`, in place of any that `student`
    /// held, whether revoked or not. Only the owner may: for any other caller
    /// the registry stays exactly as it was.
    pub fn issue_certificate(
        &mut self,
        caller: AccountId,
        student: AccountId,
        name: String,
        course: String,
        institution: String,
        issued_date: u64,
    ) -> (result: Result<bool, RegistryError>)
        ensures
            result == old(self)@.issue_result(caller),
            final(self)@ == old(self)@.issue(
                caller,
                student,
                name@,
                course@,
                institution@,
                issued_date,
            ),
            result.is_err() ==> *final(self) == *old(self),
    {
        if let Err(refusal) = self.only_owner(caller) {
            return Err(refusal);
        }
        let certificate = Certificate {
            student_name: name,
            course,
            institution,
            issued_date,
            is_revoked: false,
        };
        let entry = Entry { subject: student, certificate };
        proof {
            use_type_invariant(&*self);
        }
        // The entries are taken out while they change, so that the registry,
        // whenever it is whole, holds one entry per subject.
        let mut entries: Vec<Entry> = Vec::new();
        core::mem::swap(&mut self.entries, &mut entries);
        match find(&entries, student) {
            Some(at) => {
                proof {
                    lemma_replace(entries@, at as int, entry);
                }
                entries[at] = entry;
            },
            None => {
                proof {
                    lemma_push(entries@, entry);
                }
                entries.push(entry);
            },
        }
        core::mem::swap(&mut self.entries, &mut entries);
        Ok(true)
    }

    /// Revokes the certificate of `student`. Only the owner may, and only a
    /// certificate that exists; revoking one that is revoked already succeeds
    /// and changes nothing. Where the call fails the registry stays exactly
    /// as it was.
    pub fn revoke_certificate(&mut self, caller: AccountId, student: AccountId) -> (result: Result<
        bool,
        RegistryError,
    >)
        ensures
            result == old(self)@.revoke_result(caller, student),
            final(self)@ == old(self)@.revoke(caller, student),
            result.is_err() ==> *final(self) == *old(self),
    {
        if let Err(refusal) = self.only_owner(caller) {
            return Err(refusal);
        }
        proof {
            use_type_invariant(&*self);
        }
        let found = find(&self.entries, student);
        match found {
            Some(at) => {
                let mut entries: Vec<Entry> = Vec::new();
                core::mem::swap(&mut self.entries, &mut entries);
                proof {
                    let before = entries@[at as int];
                    let after = Entry {
                        subject: before.subject,
                        certificate: Certificate { is_revoked: true, ..before.certificate },
                    };
                    lemma_place(entries@, at as int);
                    lemma_replace(entries@, at as int, after);
                }
                entries[at].certificate.is_revoked = true;
                core::mem::swap(&mut self.entries, &mut entries);
                Ok(true)
            },
            None => Err(RegistryError::NotFound),
        }
    }
}

} // verus!
