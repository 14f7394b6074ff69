use crate::errors::Error;
use crate::text::str_eq;
use vstd::prelude::*;
use vstd::string::StringExecFns;

verus! {

/// A trusted peer: a unique name, the hex fingerprint of its public key,
/// and the timestamp at which it was added.
#[derive(Debug, Clone)]
pub struct Contact {
    pub name: String,
    pub public_key: String,
    pub added_at: String,
}

/// Relies on chrono's `Utc::now().to_rfc3339()` for the creation timestamp
/// of a contact; the value depends on the wall clock, so nothing is promised
/// of it. `Utc::now` panics when the clock reads before the Unix epoch, so
/// that degenerate machine state is tested first and yields an empty stamp.
#[verifier::external_body]
fn current_timestamp() -> String {
    match std::time::SystemTime::now().duration_since(std::time::UNIX_EPOCH) {
        Ok(_) => chrono::Utc::now().to_rfc3339(),
        Err(_) => String::new(),
    }
}

/// The name-to-fingerprint table of trusted peers.
///
/// Entries are held in insertion order; well-formedness says that no two
/// entries share a name, which is what keying the stored file by name gives.
pub struct ContactList {
    pub contacts: Vec<Contact>,
}

impl ContactList {
    /// No two entries share a name.
    pub open spec fn wf(&self) -> bool {
        forall|i: int, j: int|
            0 <= i < j < self.contacts@.len() ==> self.contacts@[i].name@
                != self.contacts@[j].name@
    }

    /// Some entry carries this name.
    pub open spec fn spec_contains(&self, name: Seq<char>) -> bool {
        exists|i: int| 0 <= i < self.contacts@.len() && self.contacts@[i].name@ == name
    }

    /// Some entry carries this name together with exactly this fingerprint.
    pub open spec fn spec_has_entry(&self, name: Seq<char>, key: Seq<char>) -> bool {
        exists|i: int|
            0 <= i < self.contacts@.len() && self.contacts@[i].name@ == name
                && self.contacts@[i].public_key@ == key
    }

    /// An empty list.
    pub fn new() -> (r: ContactList)
        ensures
            r.contacts@.len() == 0,
            r.wf(),
    {
        ContactList { contacts: Vec::new() }
    }

    /// Whether an entry with this name exists.
    pub fn contains_name(&self, name: &str) -> (r: bool)
        ensures
            r == self.spec_contains(name@),
    {
        let n = self.contacts.len();
        let mut i: usize = 0;
        while i < n
            invariant
                i <= n,
                n == self.contacts@.len(),
                forall|j: int| 0 <= j < i ==> self.contacts@[j].name@ != name@,
            decreases n - i,
        {
            if str_eq(self.contacts[i].name.as_str(), name) {
                return true;
            }
            i += 1;
        }
        false
    }

    /// Add a new contact.
    ///
    /// Fails with `InvalidInput` naming the contact, leaving the list
    /// unchanged, exactly when an entry with this name already exists;
    /// otherwise appends an entry with this name and fingerprint and the
    /// current timestamp.
    pub fn add(&mut self, name: String, public_key: String) -> (r: Result<(), Error>)
        requires
            old(self).wf(),
        ensures
            final(self).wf(),
            r is Ok <==> !old(self).spec_contains(name@),
            r matches Err(e) ==> final(self).contacts@ == old(self).contacts@ && e is InvalidInput
                && e.spec_detail() == "Contact '"@ + name@ + "' already exists"@,
            r is Ok ==> exists|c: Contact|
                final(self).contacts@ == old(self).contacts@.push(c) && c.name@ == name@
                    && c.public_key@ == public_key@,
    {
        if self.contains_name(name.as_str()) {
            return Err(
                Error::InvalidInput(
                    String::from_str("Contact '").concat(name.as_str()).concat(
                        "' already exists",
                    ),
                ),
            );
        }
        let contact = Contact { name: name.clone(), public_key, added_at: current_timestamp() };
        let ghost c = contact;
        self.contacts.push(contact);
        proof {
            assert(self.contacts@ == old(self).contacts@.push(c));
            assert forall|i: int, j: int|
                0 <= i < j < self.contacts@.len() implies self.contacts@[i].name@
                != self.contacts@[j].name@ by {
                if j == self.contacts@.len() - 1 {
                    assert(self.contacts@[i] == old(self).contacts@[i]);
                }
            }
        }
        Ok(())
    }

    /// Get a contact by name.
    pub fn get(&self, name: &str) -> (r: Option<&Contact>)
        ensures
            r is Some <==> self.spec_contains(name@),
            match r {
                Some(c) => exists|i: int|
                    0 <= i < self.contacts@.len() && self.contacts@[i] == *c && c.name@ == name@,
                None => true,
            },
    {
        let n = self.contacts.len();
        let mut i: usize = 0;
        while i < n
            invariant
                i <= n,
                n == self.contacts@.len(),
                forall|j: int| 0 <= j < i ==> self.contacts@[j].name@ != name@,
            decreases n - i,
        {
            if str_eq(self.contacts[i].name.as_str(), name) {
                return Some(&self.contacts[i]);
            }
            i += 1;
        }
        None
    }

    /// Remove a contact by name.
    ///
    /// Fails with `InvalidInput` naming the contact, leaving the list
    /// unchanged, exactly when no entry with this name exists; otherwise
    /// removes that single entry.
    pub fn remove(&mut self, name: &str) -> (r: Result<(), Error>)
        requires
            old(self).wf(),
        ensures
            final(self).wf(),
            r is Ok <==> old(self).spec_contains(name@),
            r matches Err(e) ==> final(self).contacts@ == old(self).contacts@ && e is InvalidInput
                && e.spec_detail() == "Contact '"@ + name@ + "' not found"@,
            r is Ok ==> exists|i: int|
                0 <= i < old(self).contacts@.len() && old(self).contacts@[i].name@ == name@
                    && final(self).contacts@ == old(self).contacts@.remove(i),
    {
        let n = self.contacts.len();
        let mut i: usize = 0;
        while i < n
            invariant
                i <= n,
                n == self.contacts@.len(),
                *self == *old(self),
                old(self).wf(),
                forall|j: int| 0 <= j < i ==> self.contacts@[j].name@ != name@,
            decreases n - i,
        {
            if str_eq(self.contacts[i].name.as_str(), name) {
                self.contacts.remove(i);
                proof {
                    let oc = old(self).contacts@;
                    oc.remove_ensures(i as int);
                    assert(self.contacts@ == oc.remove(i as int));
                    assert forall|p: int, q: int|
                        0 <= p < q < self.contacts@.len() implies self.contacts@[p].name@
                        != self.contacts@[q].name@ by {
                        let r = oc.remove(i as int);
                        let p0 = if p < i { p } else { p + 1 };
                        let q0 = if q < i { q } else { q + 1 };
                        assert(r[p] == oc[p0]);
                        assert(r[q] == oc[q0]);
                        assert(old(self).contacts@[p0].name@ != old(self).contacts@[q0].name@);
                    }
                }
                return Ok(());
            }
            i += 1;
        }
        Err(
            Error::InvalidInput(
                String::from_str("Contact '").concat(name).concat("' not found"),
            ),
        )
    }

    /// List all contacts, in stored order.
    pub fn list<'a>(&'a self) -> (r: Vec<&'a Contact>)
        ensures
            r@.len() == self.contacts@.len(),
            forall|i: int| 0 <= i < r@.len() ==> *r@[i] == self.contacts@[i],
    {
        let n = self.contacts.len();
        let mut out: Vec<&'a Contact> = Vec::new();
        let mut i: usize = 0;
        while i < n
            invariant
                i <= n,
                n == self.contacts@.len(),
                out@.len() == i,
                forall|j: int| 0 <= j < i ==> *out@[j] == self.contacts@[j],
            decreases n - i,
        {
            out.push(&self.contacts[i]);
            i += 1;
        }
        out
    }

    /// The receiver's authentication gate: the contact named `from` must be
    /// stored, and its stored fingerprint must equal, character for
    /// character, the fingerprint the relay reported for the sender.
    ///
    /// Succeeds exactly when such an entry exists; a missing contact and a
    /// mismatched fingerprint both fail with `InvalidInput`.
    pub fn verify_sender(&self, from: &str, sender_fp: &str) -> (r: Result<(), Error>)
        requires
            self.wf(),
        ensures
            r is Ok <==> self.spec_has_entry(from@, sender_fp@),
            r is Err ==> r->Err_0 is InvalidInput,
    {
        match self.get(from) {
            None => Err(
                Error::InvalidInput(
                    String::from_str("Contact '").concat(from).concat(
                        "' not found in trusted contacts",
                    ),
                ),
            ),
            Some(c) => {
                if str_eq(c.public_key.as_str(), sender_fp) {
                    Ok(())
                } else {
                    proof {
                        if self.spec_has_entry(from@, sender_fp@) {
                            let j = choose|j: int|
                                0 <= j < self.contacts@.len() && self.contacts@[j].name@ == from@
                                    && self.contacts@[j].public_key@ == sender_fp@;
                            let i = choose|i: int|
                                0 <= i < self.contacts@.len() && self.contacts@[i] == *c
                                    && c.name@ == from@;
                            assert(self.contacts@[i].name@ == self.contacts@[j].name@);
                            assert(i == j);
                        }
                    }
                    Err(
                        Error::InvalidInput(
                            String::from_str("Sender fingerprint mismatch! Expected ").concat(
                                c.public_key.as_str(),
                            ).concat(", got ").concat(sender_fp),
                        ),
                    )
                }
            },
        }
    }
}

impl Default for ContactList {
    /// An empty list.
    fn default() -> (r: ContactList)
        ensures
            r.contacts@.len() == 0,
            r.wf(),
    {
        ContactList { contacts: Vec::new() }
    }
}

} // verus!
