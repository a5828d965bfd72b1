//! From the source of a registry to the compiled table: every record in its
//! compact form, keyed by its identifier, beside the two latest identifiers.
//!
//! A source that cannot be compiled whole is not compiled at all: each fault
//! has its error, and no table comes out of a faulty source.

use crate::acquire::Latest;
use crate::acquire::LatestIds;
use crate::acquire::MinecraftVersions;
use crate::acquire::RegistrySource;
use crate::built::CompactRecord;
use crate::built::CompactVersion;
use crate::built::ConstMCVersion;
use crate::built::ConstMCVersionData;
use crate::table::holds_prefix;
use crate::table::lemma_insert_next;
use crate::table::SortedTable;
use crate::version::MinecraftVersion;
use crate::version::MinecraftVersionData;
use crate::version::VersionKind;
use crate::version::VersionRecord;
use vstd::prelude::*;

verus! {

/// Why a source was not compiled. Where a source has several faults, the
/// one that stands first here is reported.
#[derive(Clone, Copy, Debug, PartialEq, Eq, Structural)]
pub enum CompileError {
    /// An instant of some record cannot be written as text that reads back
    /// as the instant.
    UnrepresentableTime,
    /// Two records have the same identifier.
    DuplicateId,
    /// No record has the identifier of the latest release.
    MissingLatestRelease,
    /// No record has the identifier of the latest snapshot.
    MissingLatestSnapshot,
}

impl VersionRecord {
    /// Both instants of the record can be written as text that reads back
    /// as the instant.
    pub open spec fn compactable(self) -> bool {
        self.time.restorable() && self.release_time.restorable()
    }

    /// The record in its compact form.
    pub open spec fn compacted(self) -> CompactRecord
        recommends
            self.compactable(),
    {
        CompactRecord {
            id: self.id,
            url: self.url,
            time: self.time.text().unwrap(),
            release_time: self.release_time.text().unwrap(),
            sha1: self.sha1,
            compliance_level: self.compliance_level,
            server_url: self.server_url,
        }
    }
}

impl VersionKind {
    /// Both instants of the version can be written as text that reads back
    /// as the instant.
    pub open spec fn compactable(self) -> bool {
        self.record().compactable()
    }

    /// The version as an entry of the table: of the same kind, with the
    /// record in its compact form.
    pub open spec fn compacted(self) -> CompactVersion
        recommends
            self.compactable(),
    {
        match self {
            VersionKind::Release(record) => CompactVersion::Release(record.compacted()),
            VersionKind::Snapshot(record) => CompactVersion::Snapshot(record.compacted()),
        }
    }
}

/// Writes a record in its compact form, if both of its instants can be
/// written so that they read back.
pub fn make_def_from_data(data: &MinecraftVersionData) -> (r: Option<ConstMCVersionData>)
    ensures
        r is Some <==> data@.compactable(),
        r matches Some(def) ==> def@ == data@.compacted(),
{
    let time = match data.time.to_restorable_text() {
        Some(text) => text,
        None => {
            return None;
        },
    };
    let release_time = match data.release_time.to_restorable_text() {
        Some(text) => text,
        None => {
            return None;
        },
    };
    Some(
        ConstMCVersionData {
            id: data.id.clone(),
            url: data.url.clone(),
            time,
            release_time,
            sha1: data.sha1.clone(),
            compliance_level: data.compliance_level,
            server_url: data.server_url.clone(),
        },
    )
}

/// Writes a version as an entry of the table, if both of its instants can be
/// written so that they read back.
pub fn make_def(version: &MinecraftVersion) -> (r: Option<ConstMCVersion>)
    ensures
        r is Some <==> version@.compactable(),
        r matches Some(def) ==> def@ == version@.compacted(),
{
    match version {
        MinecraftVersion::Release(data) => match make_def_from_data(data) {
            Some(def) => Some(ConstMCVersion::Release(def)),
            None => None,
        },
        MinecraftVersion::Snapshot(data) => match make_def_from_data(data) {
            Some(def) => Some(ConstMCVersion::Snapshot(def)),
            None => None,
        },
    }
}

/// The compiled table as a mathematical value: the entries by identifier,
/// and the identifiers of the latest release and the latest snapshot.
pub struct CompactTable {
    pub versions: Map<Seq<char>, CompactVersion>,
    pub latest_release: Seq<char>,
    pub latest_snapshot: Seq<char>,
}

impl CompactTable {
    /// Every entry stands under its own identifier, and both latest
    /// identifiers have an entry.
    pub open spec fn sound(self) -> bool {
        &&& forall|id: Seq<char>| #[trigger]
            self.versions.contains_key(id) ==> self.versions[id].record().id == id
        &&& self.versions.contains_key(self.latest_release)
        &&& self.versions.contains_key(self.latest_snapshot)
    }
}

/// The identifiers of a list of entries, in the order of the list.
pub open spec fn def_ids(defs: Seq<CompactVersion>) -> Seq<Seq<char>> {
    defs.map_values(|def: CompactVersion| def.record().id)
}

/// What a list of entries and the latest identifiers are tabled into.
pub open spec fn tabled(defs: Seq<CompactVersion>, latest: LatestIds) -> Result<
    CompactTable,
    CompileError,
> {
    let ids = def_ids(defs);
    if !ids.no_duplicates() {
        Err(CompileError::DuplicateId)
    } else if !ids.contains(latest.release) {
        Err(CompileError::MissingLatestRelease)
    } else if !ids.contains(latest.snapshot) {
        Err(CompileError::MissingLatestSnapshot)
    } else {
        Ok(
            CompactTable {
                versions: Map::new(
                    |id: Seq<char>| ids.contains(id),
                    |id: Seq<char>| defs[ids.index_of(id)],
                ),
                latest_release: latest.release,
                latest_snapshot: latest.snapshot,
            },
        )
    }
}

/// What a source is compiled into.
pub open spec fn compiled(source: RegistrySource) -> Result<CompactTable, CompileError> {
    if exists|i: int| 0 <= i < source.versions.len() && !(#[trigger] source.versions[i]).compactable() {
        Err(CompileError::UnrepresentableTime)
    } else {
        tabled(source.versions.map_values(|v: VersionKind| v.compacted()), source.latest)
    }
}

/// The entries of a list as mathematical values.
pub open spec fn defs_of(defs: Seq<ConstMCVersion>) -> Seq<CompactVersion> {
    defs.map_values(|def: ConstMCVersion| def@)
}

/// The compiled table: what is made ahead of time and only read afterwards.
#[derive(Debug)]
pub struct ConstTable {
    versions: SortedTable<ConstMCVersion>,
    latest_release: String,
    latest_snapshot: String,
}

impl View for ConstTable {
    type V = CompactTable;

    open spec fn view(&self) -> CompactTable {
        CompactTable {
            versions: self.defs()@.map_values(|def: ConstMCVersion| def@),
            latest_release: self.latest_release_id(),
            latest_snapshot: self.latest_snapshot_id(),
        }
    }
}

/// What came of compiling, with the table as a mathematical value.
pub open spec fn outcome(r: Result<ConstTable, CompileError>) -> Result<CompactTable, CompileError> {
    match r {
        Ok(table) => Ok(table@),
        Err(error) => Err(error),
    }
}

impl ConstTable {
    /// The entries of the table by identifier.
    pub closed spec fn defs(&self) -> SortedTable<ConstMCVersion> {
        self.versions
    }

    /// The identifier of the latest release.
    pub closed spec fn latest_release_id(&self) -> Seq<char> {
        self.latest_release@
    }

    /// The identifier of the latest snapshot.
    pub closed spec fn latest_snapshot_id(&self) -> Seq<char> {
        self.latest_snapshot@
    }

    /// What every compiled table satisfies.
    pub open spec fn wf(&self) -> bool {
        &&& self.defs().wf()
        &&& self@.sound()
    }

    /// The entries of the table by identifier.
    pub fn versions(&self) -> (r: &SortedTable<ConstMCVersion>)
        ensures
            *r == self.defs(),
    {
        &self.versions
    }

    /// The identifier of the latest release.
    pub fn latest_release(&self) -> (r: &str)
        ensures
            r@ == self@.latest_release,
    {
        self.latest_release.as_str()
    }

    /// The identifier of the latest snapshot.
    pub fn latest_snapshot(&self) -> (r: &str)
        ensures
            r@ == self@.latest_snapshot,
    {
        self.latest_snapshot.as_str()
    }

    /// Tables a list of entries under their identifiers, beside the latest
    /// identifiers.
    pub fn build(defs: &Vec<ConstMCVersion>, latest: &Latest) -> (r: Result<
        ConstTable,
        CompileError,
    >)
        ensures
            outcome(r) == tabled(defs_of(defs@), latest@),
            r matches Ok(table) ==> table.wf(),
    {
        let ghost all = defs_of(defs@);
        let ghost ids = def_ids(all);
        let mut versions: SortedTable<ConstMCVersion> = SortedTable::new();
        let mut i: usize = 0;
        while i < defs.len()
            invariant
                i <= defs@.len(),
                all == defs_of(defs@),
                ids == def_ids(all),
                versions.wf(),
                holds_prefix(versions@, ids, i as int),
                forall|j: int| 0 <= j < i ==> (#[trigger] versions@[ids[j]])@ == all[j],
                forall|j: int, k: int| 0 <= j < k < i ==> ids[j] != ids[k],
            decreases defs@.len() - i,
        {
            let def = &defs[i];
            assert(all[i as int] == def@);
            assert(ids[i as int] == def@.record().id);
            let ghost before = versions@;
            let entry = def.clone();
            let fresh = versions.insert(def.data().id.clone(), entry);
            if !fresh {
                proof {
                    let j = choose|j: int| 0 <= j < i && ids[j] == ids[i as int];
                    assert(ids[j] == ids[i as int]);
                }
                return Err(CompileError::DuplicateId);
            }
            proof {
                lemma_insert_next(before, ids, i as int, entry);
            }
            i = i + 1;
        }
        assert(ids.no_duplicates());
        if !versions.contains(latest.release.as_str()) {
            proof {
                if ids.contains(latest@.release) {
                    let j = ids.index_of(latest@.release);
                    assert(ids[j] == latest@.release);
                }
            }
            return Err(CompileError::MissingLatestRelease);
        }
        if !versions.contains(latest.snapshot.as_str()) {
            proof {
                if ids.contains(latest@.snapshot) {
                    let j = ids.index_of(latest@.snapshot);
                    assert(ids[j] == latest@.snapshot);
                }
            }
            return Err(CompileError::MissingLatestSnapshot);
        }
        let table = ConstTable {
            versions,
            latest_release: latest.release.clone(),
            latest_snapshot: latest.snapshot.clone(),
        };
        proof {
            let expected = tabled(all, latest@)->Ok_0;
            assert forall|id: Seq<char>| table@.versions.contains_key(id) implies ids.contains(
                id,
            ) && table@.versions[id] == all[ids.index_of(id)] && table@.versions[id].record().id
                == id by {
                let j = choose|j: int| 0 <= j < i && ids[j] == id;
                assert(ids[j] == id);
                let k = ids.index_of(id);
                assert(ids[k] == id);
            }
            assert forall|id: Seq<char>| ids.contains(id) implies table@.versions.contains_key(
                id,
            ) by {
                let k = ids.index_of(id);
                assert(ids[k] == id);
            }
            assert(table@.versions =~= expected.versions);
            assert(table@ == expected);
        }
        Ok(table)
    }
}

/// Compiles a source into a table.
pub fn compile(source: &MinecraftVersions) -> (r: Result<ConstTable, CompileError>)
    ensures
        outcome(r) == compiled(source@),
        r matches Ok(table) ==> table.wf(),
{
    let ghost all = source@.versions;
    let mut defs: Vec<ConstMCVersion> = Vec::new();
    let mut i: usize = 0;
    while i < source.versions.len()
        invariant
            i <= source.versions@.len(),
            all == source@.versions,
            defs@.len() == i,
            forall|j: int| 0 <= j < i ==> (#[trigger] all[j]).compactable(),
            forall|j: int| 0 <= j < i ==> (#[trigger] defs@[j])@ == all[j].compacted(),
        decreases source.versions@.len() - i,
    {
        assert(all[i as int] == source.versions@[i as int]@);
        match make_def(&source.versions[i]) {
            Some(def) => {
                defs.push(def);
            },
            None => {
                return Err(CompileError::UnrepresentableTime);
            },
        }
        i = i + 1;
    }
    proof {
        assert(defs_of(defs@) =~= all.map_values(|v: VersionKind| v.compacted()));
    }
    ConstTable::build(&defs, &source.latest)
}

/// Compiling is a function of the source alone: two sources with the same
/// contents are compiled into the same table, or fail with the same error.
pub proof fn lemma_compile_repeatable(first: RegistrySource, second: RegistrySource)
    requires
        first.latest == second.latest,
        first.versions =~= second.versions,
    ensures
        compiled(first) == compiled(second),
{
}

} // verus!
