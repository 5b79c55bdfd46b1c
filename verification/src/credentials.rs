//! In-memory credential bookkeeping, keyed by the opaque database
//! identifier.
//!
//! The store keeps one record per identifier, in first-insertion order. A
//! lookup of an unknown identifier is a `CredentialsError` (the not-found
//! condition), never a query failure.

use vstd::prelude::*;
use crate::types::{CredentialsModel, DatabaseCredentials, DatabaseError};

verus! {

/// The first index holding a record with the given id, if any.
pub open spec fn find_id(s: Seq<CredentialsModel>, id: Seq<char>) -> Option<int>
    decreases s.len(),
{
    if s.len() == 0 {
        None
    } else if s[0].id == id {
        Some(0)
    } else {
        match find_id(s.drop_first(), id) {
            Some(i) => Some(i + 1),
            None => None,
        }
    }
}

/// What `find_id` returns: the first index whose record has the id, or
/// `None` when no record has it.
pub proof fn lemma_find_id_props(s: Seq<CredentialsModel>, id: Seq<char>)
    ensures
        match find_id(s, id) {
            Some(i) => 0 <= i < s.len() && s[i].id == id && forall|j: int|
                0 <= j < i ==> s[j].id != id,
            None => forall|j: int| 0 <= j < s.len() ==> s[j].id != id,
        },
    decreases s.len(),
{
    if s.len() > 0 && s[0].id != id {
        lemma_find_id_props(s.drop_first(), id);
        match find_id(s.drop_first(), id) {
            Some(i) => {
                assert(s.drop_first()[i] == s[i + 1]);
                assert forall|j: int| 0 <= j < i + 1 implies s[j].id != id by {
                    if j > 0 {
                        assert(s.drop_first()[j - 1] == s[j]);
                    }
                }
            },
            None => {
                assert forall|j: int| 0 <= j < s.len() implies s[j].id != id by {
                    if j > 0 {
                        assert(s.drop_first()[j - 1] == s[j]);
                    }
                }
            },
        }
    }
}

proof fn lemma_find_id_some(s: Seq<CredentialsModel>, id: Seq<char>, i: int)
    requires
        0 <= i < s.len(),
        s[i].id == id,
        forall|j: int| 0 <= j < i ==> s[j].id != id,
    ensures
        find_id(s, id) == Some(i),
    decreases i,
{
    if i > 0 {
        lemma_find_id_some(s.drop_first(), id, i - 1);
    }
}

proof fn lemma_find_id_none(s: Seq<CredentialsModel>, id: Seq<char>)
    requires
        forall|j: int| 0 <= j < s.len() ==> s[j].id != id,
    ensures
        find_id(s, id) is None,
    decreases s.len(),
{
    if s.len() > 0 {
        lemma_find_id_none(s.drop_first(), id);
    }
}

/// In-memory credential store: one record per database identifier, in
/// first-insertion order.
pub struct CredentialStore {
    entries: Vec<DatabaseCredentials>,
}

impl View for CredentialStore {
    type V = Seq<CredentialsModel>;

    closed spec fn view(&self) -> Seq<CredentialsModel> {
        Seq::new(self.entries@.len(), |i: int| self.entries@[i]@)
    }
}

impl CredentialStore {
    /// Each identifier occurs at most once.
    pub open spec fn wf(&self) -> bool {
        forall|i: int, j: int| 0 <= i < j < self@.len() ==> self@[i].id != self@[j].id
    }

    /// An empty store.
    pub fn new() -> (s: Self)
        ensures
            s@.len() == 0,
            s.wf(),
    {
        CredentialStore { entries: Vec::new() }
    }

    /// The index of the record with this id, if any.
    fn position_of(&self, id: &str) -> (r: Option<usize>)
        ensures
            match r {
                Some(i) => 0 <= i < self@.len() && self@[i as int].id == id@ && find_id(
                    self@,
                    id@,
                ) == Some(i as int),
                None => find_id(self@, id@) is None,
            },
    {
        let id_chars = crate::text::chars_of(id);
        let mut i: usize = 0;
        while i < self.entries.len()
            invariant
                i <= self@.len(),
                self@.len() == self.entries@.len(),
                id_chars@ == id@,
                forall|j: int| 0 <= j < i ==> self@[j].id != id@,
            decreases self.entries@.len() - i,
        {
            let entry_chars = crate::text::chars_of(self.entries[i].id.as_str());
            proof {
                assert(self@[i as int] == self.entries@[i as int]@);
            }
            if crate::text::eq_chars(&entry_chars, &id_chars) {
                proof {
                    assert(self@[i as int].id == id@);
                    lemma_find_id_some(self@, id@, i as int);
                }
                return Some(i);
            }
            i = i + 1;
        }
        proof {
            lemma_find_id_none(self@, id@);
        }
        None
    }

    /// Store a record: replace the record with the same id, or append the
    /// record when the id is new. Always succeeds.
    pub fn add(&mut self, creds: DatabaseCredentials) -> (r: Result<(), DatabaseError>)
        requires
            old(self).wf(),
        ensures
            r is Ok,
            final(self).wf(),
            match find_id(old(self)@, creds@.id) {
                Some(i) => final(self)@ == old(self)@.update(i, creds@),
                None => final(self)@ == old(self)@.push(creds@),
            },
    {
        proof {
            lemma_find_id_props(self@, creds@.id);
        }
        match self.position_of(creds.id.as_str()) {
            Some(i) => {
                self.entries.set(i, creds);
                proof {
                    assert(self@ =~= old(self)@.update(
                        find_id(old(self)@, creds@.id).unwrap(),
                        creds@,
                    ));
                }
            },
            None => {
                self.entries.push(creds);
                proof {
                    assert(self@ =~= old(self)@.push(creds@));
                }
            },
        }
        Ok(())
    }

    /// Retrieve the record with this identifier, or the not-found
    /// credentials error: `Ok` exactly when some record has the id.
    pub fn get(&self, id: &str) -> (r: Result<DatabaseCredentials, DatabaseError>)
        ensures
            match r {
                Ok(c) => find_id(self@, id@) matches Some(i) && c@ == self@[i],
                Err(e) => {
                    &&& find_id(self@, id@) is None
                    &&& e matches DatabaseError::CredentialsError(m)
                    &&& m@ == "Credentials not found: "@ + id@
                },
            },
    {
        match self.position_of(id) {
            Some(i) => {
                let c = clone_credentials(&self.entries[i]);
                proof {
                    assert(self@[i as int] == self.entries@[i as int]@);
                }
                Ok(c)
            },
            None => Err(
                DatabaseError::CredentialsError(
                    String::from_str("Credentials not found: ").concat(id),
                ),
            ),
        }
    }

    /// Every stored record, in first-insertion order.
    pub fn list(&self) -> (r: Result<Vec<DatabaseCredentials>, DatabaseError>)
        ensures
            r matches Ok(v) && v@.len() == self@.len() && forall|i: int|
                0 <= i < self@.len() ==> (#[trigger] v@[i])@ == self@[i],
    {
        let mut out: Vec<DatabaseCredentials> = Vec::new();
        let mut i: usize = 0;
        while i < self.entries.len()
            invariant
                i <= self@.len(),
                self@.len() == self.entries@.len(),
                out@.len() == i,
                forall|j: int| 0 <= j < i ==> (#[trigger] out@[j])@ == self@[j],
            decreases self.entries@.len() - i,
        {
            let c = clone_credentials(&self.entries[i]);
            proof {
                assert(self@[i as int] == self.entries@[i as int]@);
            }
            out.push(c);
            i = i + 1;
        }
        Ok(out)
    }

    /// Remove the record with this identifier; the not-found credentials
    /// error, and no change, when there is none.
    pub fn remove(&mut self, id: &str) -> (r: Result<(), DatabaseError>)
        requires
            old(self).wf(),
        ensures
            final(self).wf(),
            match r {
                Ok(()) => find_id(old(self)@, id@) matches Some(i) && final(self)@ == old(
                    self,
                )@.remove(i),
                Err(e) => {
                    &&& find_id(old(self)@, id@) is None
                    &&& final(self)@ == old(self)@
                    &&& e matches DatabaseError::CredentialsError(m)
                    &&& m@ == "Credentials not found: "@ + id@
                },
            },
    {
        proof {
            lemma_find_id_props(self@, id@);
        }
        match self.position_of(id) {
            Some(i) => {
                self.entries.remove(i);
                proof {
                    assert(self@ =~= old(self)@.remove(find_id(old(self)@, id@).unwrap()));
                }
                Ok(())
            },
            None => Err(
                DatabaseError::CredentialsError(
                    String::from_str("Credentials not found: ").concat(id),
                ),
            ),
        }
    }

    /// Replace the record with this record's identifier; the not-found
    /// credentials error, and no change, when it is not stored.
    pub fn update(&mut self, creds: DatabaseCredentials) -> (r: Result<(), DatabaseError>)
        requires
            old(self).wf(),
        ensures
            final(self).wf(),
            match r {
                Ok(()) => find_id(old(self)@, creds@.id) matches Some(i) && final(self)@ == old(
                    self,
                )@.update(i, creds@),
                Err(e) => {
                    &&& find_id(old(self)@, creds@.id) is None
                    &&& final(self)@ == old(self)@
                    &&& e matches DatabaseError::CredentialsError(m)
                    &&& m@ == "Credentials not found: "@ + creds@.id
                },
            },
    {
        proof {
            lemma_find_id_props(self@, creds@.id);
        }
        match self.position_of(creds.id.as_str()) {
            Some(i) => {
                self.entries.set(i, creds);
                proof {
                    assert(self@ =~= old(self)@.update(
                        find_id(old(self)@, creds@.id).unwrap(),
                        creds@,
                    ));
                }
                Ok(())
            },
            None => Err(
                DatabaseError::CredentialsError(
                    String::from_str("Credentials not found: ").concat(creds.id.as_str()),
                ),
            ),
        }
    }
}

/// A field-by-field copy of a credentials record.
pub fn clone_credentials(c: &DatabaseCredentials) -> (r: DatabaseCredentials)
    ensures
        r@ == c@,
{
    DatabaseCredentials {
        id: c.id.clone(),
        name: c.name.clone(),
        db_type: c.db_type,
        host: crate::normalize::clone_opt_string(&c.host),
        port: c.port,
        database: c.database.clone(),
        username: crate::normalize::clone_opt_string(&c.username),
        password: crate::normalize::clone_opt_string(&c.password),
        file_path: crate::normalize::clone_opt_string(&c.file_path),
    }
}

} // verus!
