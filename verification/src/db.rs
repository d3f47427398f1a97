//! Where the databases are: the main one, and one file per subject under
//! the data directory.

use vstd::prelude::*;
use vstd::string::StringExecFns;
use crate::text::{copy_str, same_str};

verus! {

/// Opens connections to the main database.
#[derive(Debug)]
pub struct DuckDBConnectionManager {
    connection_string: String,
}

impl DuckDBConnectionManager {
    /// A manager for the database at `connection_string`.
    pub fn new(connection_string: String) -> (r: Self)
        ensures
            r.connection_string_spec() == connection_string@,
    {
        DuckDBConnectionManager { connection_string }
    }

    /// The place of the database.
    pub closed spec fn connection_string_spec(&self) -> Seq<char> {
        self.connection_string@
    }

    /// The place of the database.
    pub fn connection_string(&self) -> (r: &str)
        ensures
            r@ == self.connection_string_spec(),
    {
        self.connection_string.as_str()
    }
}

/// The path of a subject's database file: the file `<subject>.duckdb` in the
/// directory `<subject>` under the data directory.
pub open spec fn subject_db_path(data_dir: Seq<char>, subject: Seq<char>) -> Seq<char> {
    data_dir + "/"@ + subject + "/"@ + subject + ".duckdb"@
}

/// The path of a subject's directory under the data directory.
pub open spec fn subject_dir_path(data_dir: Seq<char>, subject: Seq<char>) -> Seq<char> {
    data_dir + "/"@ + subject
}

/// One registered subject database.
#[derive(Debug)]
pub struct AttachedDb {
    pub subject: String,
    pub db_path: String,
}

/// The registrations as a map from subject to path.
pub open spec fn attached_map(entries: Seq<AttachedDb>) -> Map<Seq<char>, Seq<char>>
    decreases entries.len(),
{
    if entries.len() == 0 {
        Map::empty()
    } else {
        attached_map(entries.drop_last()).insert(entries.last().subject@, entries.last().db_path@)
    }
}

/// Opens connections to the main database and knows the subject databases
/// that are to be attached to them.
#[derive(Debug)]
pub struct MultiDbConnectionManager {
    main_db_path: String,
    data_dir: String,
    attached_dbs: Vec<AttachedDb>,
}

impl MultiDbConnectionManager {
    /// The place of the main database.
    pub closed spec fn main_db_path_spec(&self) -> Seq<char> {
        self.main_db_path@
    }

    /// The data directory.
    pub closed spec fn data_dir_spec(&self) -> Seq<char> {
        self.data_dir@
    }

    /// The registered subject databases: subject to path.
    pub closed spec fn attached(&self) -> Map<Seq<char>, Seq<char>> {
        attached_map(self.attached_dbs@)
    }

    /// A manager with no subject database registered.
    pub fn new(main_db_path: String, data_dir: String) -> (r: Self)
        ensures
            r.main_db_path_spec() == main_db_path@,
            r.data_dir_spec() == data_dir@,
            r.attached() == Map::<Seq<char>, Seq<char>>::empty(),
    {
        MultiDbConnectionManager { main_db_path, data_dir, attached_dbs: Vec::new() }
    }

    /// The place of the main database.
    pub fn main_db_path(&self) -> (r: &str)
        ensures
            r@ == self.main_db_path_spec(),
    {
        self.main_db_path.as_str()
    }

    /// Registers the database of a subject; a later registration of the
    /// same subject replaces the earlier one.
    pub fn register_subject_db(&mut self, subject: &str, db_path: &str)
        ensures
            final(self).attached() == old(self).attached().insert(subject@, db_path@),
            final(self).main_db_path_spec() == old(self).main_db_path_spec(),
            final(self).data_dir_spec() == old(self).data_dir_spec(),
    {
        let ghost before = self.attached_dbs@;
        self.attached_dbs.push(AttachedDb { subject: copy_str(subject), db_path: copy_str(db_path) });
        assert(self.attached_dbs@.drop_last() =~= before);
    }

    /// The path registered for a subject, if any.
    pub fn registered_path(&self, subject: &str) -> (r: Option<String>)
        ensures
            r is Some == self.attached().dom().contains(subject@),
            r matches Some(p) ==> p@ == self.attached()[subject@],
    {
        let mut i: usize = self.attached_dbs.len();
        assert(self.attached_dbs@.take(i as int) =~= self.attached_dbs@);
        while i > 0
            invariant
                i <= self.attached_dbs.len(),
                self.attached().dom().contains(subject@) == attached_map(
                    self.attached_dbs@.take(i as int),
                ).dom().contains(subject@),
                self.attached().dom().contains(subject@) ==> self.attached()[subject@]
                    == attached_map(self.attached_dbs@.take(i as int))[subject@],
            decreases i,
        {
            let ghost part = self.attached_dbs@.take(i as int);
            assert(part.drop_last() =~= self.attached_dbs@.take(i - 1));
            assert(part.last() == self.attached_dbs@[i - 1]);
            if same_str(self.attached_dbs[i - 1].subject.as_str(), subject) {
                return Some(self.attached_dbs[i - 1].db_path.clone());
            }
            i -= 1;
        }
        None
    }

    /// The path of the database file of a subject under the data directory.
    pub fn get_subject_db_path(&self, subject: &str) -> (r: String)
        ensures
            r@ == subject_db_path(self.data_dir_spec(), subject@),
    {
        let mut r = copy_str(self.data_dir.as_str());
        r.append("/");
        r.append(subject);
        r.append("/");
        r.append(subject);
        r.append(".duckdb");
        r
    }

    /// The path of the directory of a subject under the data directory.
    pub fn get_subject_dir(&self, subject: &str) -> (r: String)
        ensures
            r@ == subject_dir_path(self.data_dir_spec(), subject@),
    {
        let mut r = copy_str(self.data_dir.as_str());
        r.append("/");
        r.append(subject);
        r
    }
}

} // verus!
