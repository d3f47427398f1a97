//! The owner of the schema cache. A refresh builds a new snapshot beside
//! the one in use and then puts it in its place in one step, so that what
//! is read is always one whole snapshot.
//!
//! A subject whose database cannot be read at a refresh keeps what was
//! cached of it; it does not keep the other subjects from being refreshed.

use vstd::prelude::*;
use crate::catalog::{
    columns_view, context_document, distinct, duplicate_tables, first_of_each, is_storable_name,
    keep_first_tables, lemma_first_of_each_distinct, table_metadata, table_names, tables_view,
    ColumnDescriptor, SchemaSnapshot, SnapshotView, SubjectView, TableEntry, TableView,
};
use crate::db::{subject_db_path, MultiDbConnectionManager};
use crate::qualifier::{qualify, qualify_spec};
use crate::text::{copy_str, texts};

verus! {

/// The registrations that result from registering the database file of
/// each of `subjects` under `data_dir`, in order.
pub open spec fn registered_all(
    attached: Map<Seq<char>, Seq<char>>,
    data_dir: Seq<char>,
    subjects: Seq<Seq<char>>,
) -> Map<Seq<char>, Seq<char>>
    decreases subjects.len(),
{
    if subjects.len() == 0 {
        attached
    } else {
        registered_all(attached, data_dir, subjects.drop_last()).insert(
            subjects.last(),
            subject_db_path(data_dir, subjects.last()),
        )
    }
}

/// What was found of one subject at a refresh: its tables, or nothing
/// where its database could not be opened.
#[derive(Debug)]
pub struct SubjectScan {
    pub name: String,
    pub tables: Option<Vec<TableEntry>>,
}

/// What became of a subject at a refresh.
#[derive(Debug, Clone, Copy, PartialEq, Eq, Structural)]
pub enum SubjectOutcome {
    /// The subject is in the new snapshot with the tables just found.
    Refreshed,
    /// Nothing could be found; the subject is in the new snapshot with the
    /// tables that the previous snapshot held.
    KeptStale,
    /// The subject is not in the new snapshot.
    Skipped,
}

/// The tables that a subject is offered to a new snapshot with: those just
/// found, of tables of one name the first; or, where nothing could be found,
/// those that the previous snapshot held, if it held the subject.
pub open spec fn offered_tables(
    found: Option<Vec<TableEntry>>,
    name: Seq<char>,
    previous: SnapshotView,
) -> Option<Seq<TableView>> {
    match found {
        Some(t) => Some(first_of_each(tables_view(t@))),
        None => if previous.has_subject(name) {
            Some(previous.subjects[previous.subject_index(name)].tables)
        } else {
            None
        },
    }
}

/// A subject that is offered with tables is taken where its name is valid,
/// holds no double quote and is new to the snapshot being built, and its
/// tables have distinct names.
pub open spec fn is_taken(built: SnapshotView, name: Seq<char>, offered: Option<Seq<TableView>>) -> bool {
    match offered {
        Some(t) => is_storable_name(name) && !built.has_subject(name) && distinct(table_names(t)),
        None => false,
    }
}

/// The snapshot being built, after one more subject.
pub open spec fn with_subject(
    built: SnapshotView,
    name: Seq<char>,
    offered: Option<Seq<TableView>>,
) -> SnapshotView {
    if is_taken(built, name, offered) {
        SnapshotView {
            subjects: built.subjects.push(SubjectView { name, tables: offered->Some_0 }),
            last_refreshed: built.last_refreshed,
        }
    } else {
        built
    }
}

/// What becomes of a subject.
pub open spec fn outcome_of(
    built: SnapshotView,
    name: Seq<char>,
    found: Option<Vec<TableEntry>>,
    previous: SnapshotView,
) -> SubjectOutcome {
    if !is_taken(built, name, offered_tables(found, name, previous)) {
        SubjectOutcome::Skipped
    } else if found is Some {
        SubjectOutcome::Refreshed
    } else {
        SubjectOutcome::KeptStale
    }
}

/// The snapshot that a refresh at `now` builds from the first `n` of
/// `scans`, beside the snapshot `previous`.
pub open spec fn refreshed(
    previous: SnapshotView,
    scans: Seq<SubjectScan>,
    now: int,
    n: int,
) -> SnapshotView
    decreases n,
{
    if n <= 0 || n > scans.len() {
        SnapshotView { subjects: Seq::empty(), last_refreshed: now }
    } else {
        with_subject(
            refreshed(previous, scans, now, n - 1),
            scans[n - 1].name@,
            offered_tables(scans[n - 1].tables, scans[n - 1].name@, previous),
        )
    }
}

/// The names of the subjects among the first `n` of `scans` of which a
/// refresh at `now`, beside the snapshot `previous`, makes `which`, in order.
pub open spec fn names_with_outcome(
    previous: SnapshotView,
    scans: Seq<SubjectScan>,
    now: int,
    n: int,
    which: SubjectOutcome,
) -> Seq<Seq<char>>
    decreases n,
{
    if n <= 0 || n > scans.len() {
        Seq::empty()
    } else if outcome_of(
        refreshed(previous, scans, now, n - 1),
        scans[n - 1].name@,
        scans[n - 1].tables,
        previous,
    ) == which {
        names_with_outcome(previous, scans, now, n - 1, which).push(scans[n - 1].name@)
    } else {
        names_with_outcome(previous, scans, now, n - 1, which)
    }
}

/// Builds a snapshot subject by subject. A subject that cannot be taken is
/// set aside and does not keep the others from being taken.
#[derive(Debug)]
pub struct SnapshotBuilder {
    snapshot: SchemaSnapshot,
    stale: Vec<String>,
    skipped: Vec<String>,
}

impl SnapshotBuilder {
    /// The snapshot built so far.
    pub closed spec fn built(&self) -> SnapshotView {
        self.snapshot@
    }

    /// The names of the subjects that kept their previous tables, in order.
    pub closed spec fn kept_stale(&self) -> Seq<Seq<char>> {
        texts(self.stale@)
    }

    /// The names of the subjects set aside so far, in order.
    pub closed spec fn set_aside(&self) -> Seq<Seq<char>> {
        texts(self.skipped@)
    }

    /// The snapshot built so far is valid.
    pub open spec fn wf(&self) -> bool {
        self.built().wf()
    }

    /// A builder for the snapshot of a refresh that happens at `now`
    /// (seconds since the epoch).
    pub fn new(now: i64) -> (r: Self)
        ensures
            r.wf(),
            r.built() == (SnapshotView { subjects: Seq::empty(), last_refreshed: now as int }),
            r.kept_stale().len() == 0,
            r.set_aside().len() == 0,
    {
        let r = SnapshotBuilder {
            snapshot: SchemaSnapshot::new(now),
            stale: Vec::new(),
            skipped: Vec::new(),
        };
        assert(r.built().subjects =~= Seq::<SubjectView>::empty());
        r
    }

    /// Takes what was found of one subject: its tables, or nothing where
    /// its database could not be opened. A subject of which no table was found
    /// is taken with no tables; of tables of one name the first is taken; a
    /// subject of which nothing could be found keeps the tables that `previous`
    /// holds of it.
    pub fn add_subject(
        &mut self,
        name: &str,
        found: Option<Vec<TableEntry>>,
        previous: &SchemaSnapshot,
    ) -> (outcome: SubjectOutcome)
        requires
            old(self).wf(),
        ensures
            final(self).wf(),
            outcome == outcome_of(old(self).built(), name@, found, previous@),
            final(self).built() == with_subject(
                old(self).built(),
                name@,
                offered_tables(found, name@, previous@),
            ),
            final(self).kept_stale() == (if outcome == SubjectOutcome::KeptStale {
                old(self).kept_stale().push(name@)
            } else {
                old(self).kept_stale()
            }),
            final(self).set_aside() == (if outcome == SubjectOutcome::Skipped {
                old(self).set_aside().push(name@)
            } else {
                old(self).set_aside()
            }),
    {
        let fresh: bool = found.is_some();
        let offered: Option<Vec<TableEntry>> = match found {
            Some(t) => Some(keep_first_tables(&t)),
            None => match previous.subject(name) {
                Some(s) => Some(duplicate_tables(&s.tables)),
                None => None,
            },
        };
        let taken: bool = match offered {
            Some(t) => {
                match self.snapshot.insert_subject(name, t) {
                    Ok(_) => true,
                    Err(_) => false,
                }
            },
            None => false,
        };
        if !taken {
            let ghost before = texts(self.skipped@);
            self.skipped.push(copy_str(name));
            assert(texts(self.skipped@) =~= before.push(name@));
            SubjectOutcome::Skipped
        } else if fresh {
            SubjectOutcome::Refreshed
        } else {
            let ghost before = texts(self.stale@);
            self.stale.push(copy_str(name));
            assert(texts(self.stale@) =~= before.push(name@));
            SubjectOutcome::KeptStale
        }
    }

    /// The names of the subjects that kept their previous tables.
    pub fn stale(&self) -> (r: &Vec<String>)
        ensures
            texts(r@) == self.kept_stale(),
    {
        &self.stale
    }

    /// The names of the subjects set aside.
    pub fn skipped(&self) -> (r: &Vec<String>)
        ensures
            texts(r@) == self.set_aside(),
    {
        &self.skipped
    }

    /// The snapshot that was built.
    pub fn finish(self) -> (r: SchemaSnapshot)
        requires
            self.wf(),
        ensures
            r.wf(),
            r@ == self.built(),
    {
        self.snapshot
    }
}

/// What a refresh did: the names of the subjects that kept their previous
/// tables, and of those that were left out.
#[derive(Debug)]
pub struct RefreshReport {
    pub stale: Vec<String>,
    pub skipped: Vec<String>,
}

/// Caches the schema of every subject and answers from the cache.
#[derive(Debug)]
pub struct SchemaManager {
    snapshot: SchemaSnapshot,
    data_dir: String,
}

impl SchemaManager {
    /// The snapshot in use.
    pub closed spec fn cache(&self) -> SnapshotView {
        self.snapshot@
    }

    /// The directory under which the subjects' data is kept.
    pub closed spec fn data_dir_spec(&self) -> Seq<char> {
        self.data_dir@
    }

    /// The snapshot in use is valid.
    pub open spec fn wf(&self) -> bool {
        self.cache().wf()
    }

    /// A manager with an empty cache, made at `now` (seconds since the
    /// epoch). The database file of each of `existing`, the subjects that
    /// have one, is registered with the connection manager.
    pub fn with_multi_db(
        conn_manager: &mut MultiDbConnectionManager,
        data_dir: String,
        existing: &Vec<String>,
        now: i64,
    ) -> (r: Self)
        ensures
            r.wf(),
            r.cache().subjects.len() == 0,
            r.cache().last_refreshed == now,
            r.data_dir_spec() == data_dir@,
            final(conn_manager).main_db_path_spec() == old(conn_manager).main_db_path_spec(),
            final(conn_manager).data_dir_spec() == old(conn_manager).data_dir_spec(),
            final(conn_manager).attached() == registered_all(
                old(conn_manager).attached(),
                old(conn_manager).data_dir_spec(),
                texts(existing@),
            ),
    {
        let ghost names = texts(existing@);
        let ghost start = conn_manager.attached();
        let mut i: usize = 0;
        while i < existing.len()
            invariant
                i <= existing.len(),
                names == texts(existing@),
                conn_manager.main_db_path_spec() == old(conn_manager).main_db_path_spec(),
                conn_manager.data_dir_spec() == old(conn_manager).data_dir_spec(),
                start == old(conn_manager).attached(),
                conn_manager.attached() == registered_all(
                    start,
                    conn_manager.data_dir_spec(),
                    names.take(i as int),
                ),
            decreases existing.len() - i,
        {
            let path = conn_manager.get_subject_db_path(existing[i].as_str());
            conn_manager.register_subject_db(existing[i].as_str(), path.as_str());
            proof {
                assert(names.take(i + 1).drop_last() =~= names.take(i as int));
                assert(names.take(i + 1).last() == existing@[i as int]@);
            }
            i += 1;
        }
        assert(names.take(existing.len() as int) =~= names);
        SchemaManager { snapshot: SchemaSnapshot::new(now), data_dir }
    }

    /// Refreshes the cache at `now` (seconds since the epoch) from what was
    /// found of each known subject, in order.
    ///
    /// The new snapshot is built beside the one in use, and takes its place
    /// whole. A subject whose database could not be opened keeps its previous
    /// tables if it had any; a subject that cannot be taken (its name is not
    /// valid, or it occurs twice) is left out. Neither keeps the other subjects
    /// from being refreshed. The report names the subjects that kept their
    /// previous tables and those that were left out, each in order.
    pub fn refresh_cache(&mut self, scans: &Vec<SubjectScan>, now: i64) -> (report: RefreshReport)
        requires
            old(self).wf(),
        ensures
            final(self).wf(),
            final(self).cache() == refreshed(old(self).cache(), scans@, now as int, scans@.len() as int),
            final(self).data_dir_spec() == old(self).data_dir_spec(),
            texts(report.stale@) == names_with_outcome(
                old(self).cache(),
                scans@,
                now as int,
                scans@.len() as int,
                SubjectOutcome::KeptStale,
            ),
            texts(report.skipped@) == names_with_outcome(
                old(self).cache(),
                scans@,
                now as int,
                scans@.len() as int,
                SubjectOutcome::Skipped,
            ),
    {
        let mut builder = SnapshotBuilder::new(now);
        let mut i: usize = 0;
        assert(builder.kept_stale() =~= Seq::<Seq<char>>::empty());
        assert(builder.set_aside() =~= Seq::<Seq<char>>::empty());
        while i < scans.len()
            invariant
                i <= scans.len(),
                builder.wf(),
                builder.built() == refreshed(self.cache(), scans@, now as int, i as int),
                builder.kept_stale() == names_with_outcome(
                    self.cache(),
                    scans@,
                    now as int,
                    i as int,
                    SubjectOutcome::KeptStale,
                ),
                builder.set_aside() == names_with_outcome(
                    self.cache(),
                    scans@,
                    now as int,
                    i as int,
                    SubjectOutcome::Skipped,
                ),
            decreases scans.len() - i,
        {
            let found: Option<Vec<TableEntry>> = match &scans[i].tables {
                Some(t) => Some(duplicate_tables(t)),
                None => None,
            };
            proof {
                assert(offered_tables(found, scans@[i as int].name@, self.cache())
                    == offered_tables(scans@[i as int].tables, scans@[i as int].name@, self.cache()));
                assert(found is Some == scans@[i as int].tables is Some);
            }
            builder.add_subject(scans[i].name.as_str(), found, &self.snapshot);
            i += 1;
        }
        let report = RefreshReport {
            stale: copy_names(builder.stale()),
            skipped: copy_names(builder.skipped()),
        };
        self.snapshot = builder.finish();
        report
    }

    /// Puts a snapshot that was built elsewhere in the place of the one in
    /// use. After the call every answer comes from the new snapshot alone.
    pub fn install(&mut self, fresh: SchemaSnapshot)
        requires
            fresh.wf(),
        ensures
            final(self).wf(),
            final(self).cache() == fresh@,
            final(self).data_dir_spec() == old(self).data_dir_spec(),
    {
        self.snapshot = fresh;
    }

    /// The snapshot in use.
    pub fn snapshot(&self) -> (r: &SchemaSnapshot)
        ensures
            r@ == self.cache(),
    {
        &self.snapshot
    }

    /// The directory under which the subjects' data is kept.
    pub fn data_dir(&self) -> (r: &str)
        ensures
            r@ == self.data_dir_spec(),
    {
        self.data_dir.as_str()
    }

    /// The names of the subject's tables; none for an unknown subject and
    /// before the first refresh.
    pub fn tables_of(&self, subject: &str) -> (r: Vec<String>)
        ensures
            texts(r@) == self.cache().tables_of(subject@),
    {
        let r = self.snapshot.tables_of(subject);
        assert(texts(r@) =~= self.cache().tables_of(subject@));
        r
    }

    /// The columns of a table of a subject.
    pub fn columns_of(&self, subject: &str, table: &str) -> (r: Option<Vec<ColumnDescriptor>>)
        ensures
            r is Some == self.cache().columns_of(subject@, table@) is Some,
            r matches Some(c) ==> columns_view(c@) == self.cache().columns_of(
                subject@,
                table@,
            )->Some_0,
    {
        self.snapshot.columns_of(subject, table)
    }

    /// Whether a subject has a table of that name, in any letter case.
    pub fn has_table(&self, subject: &str, table: &str) -> (r: bool)
        ensures
            r == self.cache().has_table(subject@, table@),
    {
        self.snapshot.has_table(subject, table)
    }

    /// The schema description of a subject.
    pub fn to_context_document(&self, subject: &str) -> (r: String)
        ensures
            r@ == context_document(self.cache(), subject@),
    {
        self.snapshot.to_context_document(subject)
    }

    /// What a language model is told of the schema: the description of the
    /// selected subject, or of all of `subjects` where none is selected.
    pub fn get_table_metadata(&self, subjects: &Vec<String>, current: Option<&str>) -> (r: String)
        ensures
            r@ == table_metadata(
                self.cache(),
                texts(subjects@),
                match current {
                    Some(c) => Some(c@),
                    None => None,
                },
            ),
    {
        self.snapshot.get_table_metadata(subjects, current)
    }

    /// The statement rewritten for a subject.
    pub fn qualify(&self, sql: &str, subject: &str) -> (r: String)
        ensures
            r@ == qualify_spec(sql@, subject@, self.cache()),
    {
        qualify(sql, subject, &self.snapshot)
    }
}

/// Copies of `names`, in order.
pub fn copy_names(names: &Vec<String>) -> (r: Vec<String>)
    ensures
        texts(r@) == texts(names@),
{
    let mut r: Vec<String> = Vec::new();
    let mut i: usize = 0;
    while i < names.len()
        invariant
            i <= names.len(),
            r@.len() == i,
            forall|k: int| 0 <= k < i ==> r@[k]@ == names@[k]@,
        decreases names.len() - i,
    {
        r.push(names[i].clone());
        i += 1;
    }
    assert(texts(r@) =~= texts(names@));
    r
}

/// One failing subject does not blind the catalog to the others: whatever
/// is found of a subject, every subject that the snapshot being built held
/// before is held after, with the same tables.
pub proof fn lemma_others_are_kept(
    built: SnapshotView,
    name: Seq<char>,
    offered: Option<Seq<TableView>>,
    k: int,
)
    requires
        0 <= k < built.subjects.len(),
    ensures
        k < with_subject(built, name, offered).subjects.len(),
        with_subject(built, name, offered).subjects[k] == built.subjects[k],
{
}

/// A listing that repeats a table name costs the subject nothing: of what
/// was found, the tables offered have distinct names, so a subject whose name
/// is valid and new is taken whatever its listing repeats.
pub proof fn lemma_repeated_tables_are_no_failure(
    built: SnapshotView,
    name: Seq<char>,
    found: Vec<TableEntry>,
    previous: SnapshotView,
)
    requires
        is_storable_name(name),
        !built.has_subject(name),
    ensures
        outcome_of(built, name, Some(found), previous) == SubjectOutcome::Refreshed,
{
    lemma_first_of_each_distinct(tables_view(found@));
}

/// A subject is never a mix of old and new: in a refreshed snapshot the
/// tables of a subject, with their columns, are those that were just found
/// of it (the first of each name), or those that the previous snapshot held
/// of it, whole.
pub proof fn lemma_refresh_is_whole(
    built: SnapshotView,
    name: Seq<char>,
    found: Option<Vec<TableEntry>>,
    previous: SnapshotView,
)
    requires
        is_taken(built, name, offered_tables(found, name, previous)),
    ensures
        ({
            let after = with_subject(built, name, offered_tables(found, name, previous));
            let entry = after.subjects[after.subjects.len() - 1];
            &&& entry.name == name
            &&& found is Some ==> entry.tables == first_of_each(tables_view(found->Some_0@))
            &&& found is None ==> entry.tables == previous.subjects[previous.subject_index(
                name,
            )].tables
        }),
{
}

} // verus!
