//! The compiled table as it is read at run time: its compact entries, how an
//! entry becomes a version record, and the registry that the entries are
//! loaded into once.

use crate::acquire::MinecraftVersions;
use crate::acquire::RegistrySource;
use crate::compile::compile;
use crate::compile::compiled;
use crate::compile::def_ids;
use crate::compile::CompactTable;
use crate::compile::CompileError;
use crate::compile::ConstTable;
use crate::table::holds_prefix;
use crate::table::lemma_insert_next;
use crate::table::SortedTable;
use crate::text::lemma_text_before_irreflexive;
use crate::text::same_text;
use crate::time::Timestamp;
use crate::version::BadVersion;
use crate::version::MinecraftVersion;
use crate::version::MinecraftVersionData;
use crate::version::VersionKind;
use crate::version::VersionRecord;
use vstd::prelude::*;

verus! {

/// A version record as the compiled table holds it: every field as it
/// stands in the record, but the two instants written as text.
#[derive(Debug)]
pub struct ConstMCVersionData {
    pub id: String,
    pub url: String,
    pub time: String,
    pub release_time: String,
    pub sha1: String,
    pub compliance_level: u8,
    pub server_url: String,
}

/// A compact record as a mathematical value.
pub struct CompactRecord {
    pub id: Seq<char>,
    pub url: Seq<char>,
    pub time: Seq<char>,
    pub release_time: Seq<char>,
    pub sha1: Seq<char>,
    pub compliance_level: u8,
    pub server_url: Seq<char>,
}

impl View for ConstMCVersionData {
    type V = CompactRecord;

    open spec fn view(&self) -> CompactRecord {
        CompactRecord {
            id: self.id@,
            url: self.url@,
            time: self.time@,
            release_time: self.release_time@,
            sha1: self.sha1@,
            compliance_level: self.compliance_level,
            server_url: self.server_url@,
        }
    }
}

impl CompactRecord {
    /// Both instants of the record can be read back from their text.
    pub open spec fn readable(self) -> bool {
        Timestamp::parsed(self.time) is Some && Timestamp::parsed(self.release_time) is Some
    }

    /// The version record that the compact record stands for.
    pub open spec fn mapped(self) -> VersionRecord
        recommends
            self.readable(),
    {
        VersionRecord {
            id: self.id,
            url: self.url,
            time: Timestamp::parsed(self.time).unwrap(),
            release_time: Timestamp::parsed(self.release_time).unwrap(),
            sha1: self.sha1,
            compliance_level: self.compliance_level,
            server_url: self.server_url,
        }
    }
}

impl Clone for ConstMCVersionData {
    fn clone(&self) -> (r: Self)
        ensures
            r@ == self@,
    {
        ConstMCVersionData {
            id: self.id.clone(),
            url: self.url.clone(),
            time: self.time.clone(),
            release_time: self.release_time.clone(),
            sha1: self.sha1.clone(),
            compliance_level: self.compliance_level,
            server_url: self.server_url.clone(),
        }
    }
}

/// An entry of the compiled table: a compact record and its kind.
#[derive(Debug)]
pub enum ConstMCVersion {
    Release(ConstMCVersionData),
    Snapshot(ConstMCVersionData),
}

/// An entry of the compiled table as a mathematical value.
pub enum CompactVersion {
    Release(CompactRecord),
    Snapshot(CompactRecord),
}

impl View for ConstMCVersion {
    type V = CompactVersion;

    open spec fn view(&self) -> CompactVersion {
        match self {
            ConstMCVersion::Release(data) => CompactVersion::Release(data@),
            ConstMCVersion::Snapshot(data) => CompactVersion::Snapshot(data@),
        }
    }
}

impl CompactVersion {
    /// The record that the entry carries, whatever its kind.
    pub open spec fn record(self) -> CompactRecord {
        match self {
            CompactVersion::Release(record) => record,
            CompactVersion::Snapshot(record) => record,
        }
    }

    /// Both instants of the entry can be read back from their text.
    pub open spec fn readable(self) -> bool {
        self.record().readable()
    }

    /// The version that the entry stands for: of the same kind, with the
    /// record read back.
    pub open spec fn mapped(self) -> VersionKind
        recommends
            self.readable(),
    {
        match self {
            CompactVersion::Release(record) => VersionKind::Release(record.mapped()),
            CompactVersion::Snapshot(record) => VersionKind::Snapshot(record.mapped()),
        }
    }
}

impl ConstMCVersion {
    /// The record that the entry carries, whatever its kind.
    pub fn data(&self) -> (r: &ConstMCVersionData)
        ensures
            r@ == self@.record(),
    {
        match self {
            ConstMCVersion::Release(data) => data,
            ConstMCVersion::Snapshot(data) => data,
        }
    }
}

impl Clone for ConstMCVersion {
    fn clone(&self) -> (r: Self)
        ensures
            r@ == self@,
    {
        match self {
            ConstMCVersion::Release(data) => ConstMCVersion::Release(data.clone()),
            ConstMCVersion::Snapshot(data) => ConstMCVersion::Snapshot(data.clone()),
        }
    }
}

/// Reads a compact record back into a version record.
///
/// The two instants must be readable: a table that was compiled from
/// records holds no other.
pub fn map_version_data(c: ConstMCVersionData) -> (r: MinecraftVersionData)
    requires
        c@.readable(),
    ensures
        r@ == c@.mapped(),
{
    let time = Timestamp::parse(c.time.as_str());
    let release_time = Timestamp::parse(c.release_time.as_str());
    MinecraftVersionData {
        id: c.id,
        url: c.url,
        sha1: c.sha1,
        compliance_level: c.compliance_level,
        time: time.unwrap(),
        release_time: release_time.unwrap(),
        server_url: c.server_url,
    }
}

/// Reads an entry of the compiled table back into a version of the same
/// kind.
pub fn map_version(c: ConstMCVersion) -> (r: MinecraftVersion)
    requires
        c@.readable(),
    ensures
        r@ == c@.mapped(),
{
    match c {
        ConstMCVersion::Release(data) => MinecraftVersion::Release(map_version_data(data)),
        ConstMCVersion::Snapshot(data) => MinecraftVersion::Snapshot(map_version_data(data)),
    }
}

/// Reads an entry back if both of its instants are readable, and gives
/// nothing otherwise.
pub fn try_map_version(c: ConstMCVersion) -> (r: Option<MinecraftVersion>)
    ensures
        r is Some <==> c@.readable(),
        r matches Some(version) ==> version@ == c@.mapped(),
{
    let readable = Timestamp::parse(c.data().time.as_str()).is_some() && Timestamp::parse(
        c.data().release_time.as_str(),
    ).is_some();
    if readable {
        Some(map_version(c))
    } else {
        None
    }
}

/// The registry as a mathematical value: the versions by identifier, and
/// the identifiers of the latest release and the latest snapshot.
pub struct RegistryView {
    pub versions: Map<Seq<char>, VersionKind>,
    pub latest_release: Seq<char>,
    pub latest_snapshot: Seq<char>,
}

/// The identifier is one of the two names of the latest release.
pub open spec fn names_latest_release(identifier: Seq<char>) -> bool {
    identifier == ""@ || identifier == "latest"@
}

/// The identifier is one of the two names of the latest snapshot.
pub open spec fn names_latest_snapshot(identifier: Seq<char>) -> bool {
    identifier == "latest_snapshot"@ || identifier == "snapshot"@
}

impl RegistryView {
    /// Every version stands under its own identifier, and both latest
    /// identifiers have a version.
    pub open spec fn sound(self) -> bool {
        &&& forall|id: Seq<char>| #[trigger]
            self.versions.contains_key(id) ==> self.versions[id].record().id == id
        &&& self.versions.contains_key(self.latest_release)
        &&& self.versions.contains_key(self.latest_snapshot)
    }

    /// The key that an identifier is looked up under: a name of the latest
    /// release or snapshot stands for that identifier, and every other
    /// identifier for itself.
    pub open spec fn key_for(self, identifier: Seq<char>) -> Seq<char> {
        if names_latest_release(identifier) {
            self.latest_release
        } else if names_latest_snapshot(identifier) {
            self.latest_snapshot
        } else {
            identifier
        }
    }

    /// The version that an identifier denotes, or the refusal of an
    /// identifier that denotes none.
    pub open spec fn resolved(self, identifier: Seq<char>) -> Result<VersionKind, BadVersion> {
        let key = self.key_for(identifier);
        if self.versions.contains_key(key) {
            Ok(self.versions[key])
        } else {
            Err(BadVersion)
        }
    }
}

impl CompactTable {
    /// Every entry of the table can be read back.
    pub open spec fn readable(self) -> bool {
        forall|id: Seq<char>| #[trigger]
            self.versions.contains_key(id) ==> self.versions[id].readable()
    }

    /// The registry that the table is loaded into.
    pub open spec fn loaded(self) -> RegistryView
        recommends
            self.readable(),
    {
        RegistryView {
            versions: self.versions.map_values(|def: CompactVersion| def.mapped()),
            latest_release: self.latest_release,
            latest_snapshot: self.latest_snapshot,
        }
    }
}

/// The registry: every version by its identifier, read back from the
/// compiled table once and never changed afterwards.
#[derive(Debug)]
pub struct Registry {
    versions: SortedTable<MinecraftVersion>,
    latest_release: String,
    latest_snapshot: String,
}

impl View for Registry {
    type V = RegistryView;

    open spec fn view(&self) -> RegistryView {
        RegistryView {
            versions: self.entries()@.map_values(|version: MinecraftVersion| version@),
            latest_release: self.latest_release_id(),
            latest_snapshot: self.latest_snapshot_id(),
        }
    }
}

impl Registry {
    /// The versions of the registry by identifier.
    pub closed spec fn entries(&self) -> SortedTable<MinecraftVersion> {
        self.versions
    }

    /// The identifier of the latest release.
    pub closed spec fn latest_release_id(&self) -> Seq<char> {
        self.latest_release@
    }

    /// The identifier of the latest snapshot.
    pub closed spec fn latest_snapshot_id(&self) -> Seq<char> {
        self.latest_snapshot@
    }

    /// What every registry satisfies.
    pub open spec fn wf(&self) -> bool {
        &&& self.entries().wf()
        &&& self@.sound()
    }

    /// Reads a compiled table into a registry. This is where the instants
    /// of the table are read back, once for all lookups. A table with an
    /// entry that cannot be read back gives no registry.
    pub fn load(table: &ConstTable) -> (r: Option<Registry>)
        requires
            table.wf(),
        ensures
            r is Some <==> table@.readable(),
            r matches Some(registry) ==> registry.wf() && registry@ == table@.loaded(),
    {
        let defs = table.versions();
        let ghost ids = defs.ids();
        let ghost items = defs.items();
        let mut versions: SortedTable<MinecraftVersion> = SortedTable::new();
        let mut i: usize = 0;
        proof {
            defs.lemma_keys();
        }
        while i < defs.len()
            invariant
                table.wf(),
                *defs == table.defs(),
                ids == defs.ids(),
                items == defs.items(),
                i <= ids.len(),
                versions.wf(),
                holds_prefix(versions@, ids, i as int),
                forall|j: int| 0 <= j < i ==> (#[trigger] items[j])@.readable(),
                forall|j: int|
                    0 <= j < i ==> (#[trigger] versions@[ids[j]])@ == items[j]@.mapped(),
            decreases ids.len() - i,
        {
            let def = defs.item_at(i);
            let ghost before = versions@;
            proof {
                defs.lemma_entry(i as int);
                assert(table@.versions[ids[i as int]] == def@);
            }
            let version = match try_map_version(def.clone()) {
                Some(version) => version,
                None => {
                    return None;
                },
            };
            let ghost entry = version;
            let fresh = versions.insert(defs.id_at(i).to_owned(), version);
            proof {
                if before.contains_key(ids[i as int]) {
                    let j = choose|j: int| 0 <= j < i && ids[j] == ids[i as int];
                    lemma_text_before_irreflexive(ids[j], ids[i as int]);
                }
                lemma_insert_next(before, ids, i as int, entry);
            }
            i = i + 1;
        }
        let registry = Registry {
            versions,
            latest_release: table.latest_release().to_owned(),
            latest_snapshot: table.latest_snapshot().to_owned(),
        };
        proof {
            let expected = table@.loaded();
            assert forall|id: Seq<char>| #[trigger]
                table@.versions.contains_key(id) implies table@.versions[id].readable()
                && registry@.versions.contains_key(id) && registry@.versions[id]
                == expected.versions[id] by {
                let j = defs.ids().index_of(id);
                assert(ids[j] == id);
                defs.lemma_entry(j);
                assert(items[j]@.readable());
                assert(registry.versions@[ids[j]]@ == items[j]@.mapped());
            }
            assert forall|id: Seq<char>| #[trigger]
                registry@.versions.contains_key(id) implies table@.versions.contains_key(id) by {
                let j = choose|j: int| 0 <= j < i && ids[j] == id;
                defs.lemma_entry(j);
            }
            assert(registry@.versions =~= expected.versions);
            assert(registry@ == expected);
        }
        Some(registry)
    }

    /// The identifier of the latest release.
    pub fn latest_release(&self) -> (r: &str)
        ensures
            r@ == self@.latest_release,
    {
        self.latest_release.as_str()
    }

    /// The identifier of the latest snapshot.
    pub fn latest_snapshot(&self) -> (r: &str)
        ensures
            r@ == self@.latest_snapshot,
    {
        self.latest_snapshot.as_str()
    }

    /// The version that the registry holds under `id`, where it stands.
    pub fn get(&self, id: &str) -> (r: Option<&MinecraftVersion>)
        requires
            self.wf(),
        ensures
            r is Some <==> self@.versions.contains_key(id@),
            r matches Some(version) ==> version@ == self@.versions[id@],
    {
        self.versions.get(id)
    }
}

/// Looks an identifier up in the registry, as it stands: no name of a
/// latest version is followed here.
pub fn obtain(registry: &Registry, id: &str) -> (r: Option<MinecraftVersion>)
    requires
        registry.wf(),
    ensures
        r is Some <==> registry@.versions.contains_key(id@),
        r matches Some(version) ==> version@ == registry@.versions[id@],
{
    match registry.get(id) {
        Some(version) => Some(version.clone()),
        None => None,
    }
}

impl MinecraftVersion {
    /// Resolves an identifier that a user wrote: the empty identifier and
    /// `latest` denote the latest release, `latest_snapshot` and `snapshot`
    /// the latest snapshot, and every other identifier the version of that
    /// name. An identifier that denotes no version is refused.
    pub fn from_str(s: &str, registry: &Registry) -> (r: Result<MinecraftVersion, BadVersion>)
        requires
            registry.wf(),
        ensures
            resolution(r) == registry@.resolved(s@),
    {
        let found = if same_text(s, "latest") || same_text(s, "") {
            obtain(registry, registry.latest_release())
        } else if same_text(s, "latest_snapshot") || same_text(s, "snapshot") {
            obtain(registry, registry.latest_snapshot())
        } else {
            obtain(registry, s)
        };
        match found {
            Some(version) => Ok(version),
            None => Err(BadVersion),
        }
    }
}

/// What came of resolving, with the version as a mathematical value.
pub open spec fn resolution(r: Result<MinecraftVersion, BadVersion>) -> Result<
    VersionKind,
    BadVersion,
> {
    match r {
        Ok(version) => Ok(version@),
        Err(error) => Err(error),
    }
}

/// Both names of the latest release resolve to the version that the
/// registry holds under its latest release identifier.
pub proof fn lemma_latest_release_resolves(registry: RegistryView, identifier: Seq<char>)
    requires
        registry.sound(),
        identifier == ""@ || identifier == "latest"@,
    ensures
        registry.resolved(identifier) == Ok::<VersionKind, BadVersion>(
            registry.versions[registry.latest_release],
        ),
{
}

/// Both names of the latest snapshot resolve to the version that the
/// registry holds under its latest snapshot identifier.
pub proof fn lemma_latest_snapshot_resolves(registry: RegistryView, identifier: Seq<char>)
    requires
        registry.sound(),
        identifier == "snapshot"@ || identifier == "latest_snapshot"@,
    ensures
        registry.resolved(identifier) == Ok::<VersionKind, BadVersion>(
            registry.versions[registry.latest_snapshot],
        ),
{
    reveal_strlit("");
    reveal_strlit("latest");
    reveal_strlit("snapshot");
    reveal_strlit("latest_snapshot");
    assert(""@.len() == 0 && "latest"@.len() == 6);
    assert("snapshot"@.len() == 8 && "latest_snapshot"@.len() == 15);
}

/// An identifier that is neither a name of a latest version nor the
/// identifier of a version is refused, and one that is the identifier of a
/// version resolves to that version.
pub proof fn lemma_plain_identifier_resolves(registry: RegistryView, identifier: Seq<char>)
    requires
        !names_latest_release(identifier),
        !names_latest_snapshot(identifier),
    ensures
        !registry.versions.contains_key(identifier) ==> registry.resolved(identifier) == Err::<
            VersionKind,
            BadVersion,
        >(BadVersion),
        registry.versions.contains_key(identifier) ==> registry.resolved(identifier) == Ok::<
            VersionKind,
            BadVersion,
        >(registry.versions[identifier]),
{
}

/// The identifiers of a list of versions, in the order of the list.
pub open spec fn version_ids(versions: Seq<VersionKind>) -> Seq<Seq<char>> {
    versions.map_values(|version: VersionKind| version.record().id)
}

/// The registry that holds the versions of a source, each under its own
/// identifier, beside the latest identifiers of the source.
pub open spec fn registered(source: RegistrySource) -> RegistryView
    recommends
        version_ids(source.versions).no_duplicates(),
{
    let ids = version_ids(source.versions);
    RegistryView {
        versions: Map::new(
            |id: Seq<char>| ids.contains(id),
            |id: Seq<char>| source.versions[ids.index_of(id)],
        ),
        latest_release: source.latest.release,
        latest_snapshot: source.latest.snapshot,
    }
}

/// A table that was compiled from a source loads back into the versions of
/// that source: every entry can be read back, and the registry holds each
/// version of the source, unchanged, under its identifier.
pub proof fn lemma_compiled_table_loads_back(source: RegistrySource)
    requires
        compiled(source) is Ok,
    ensures
        compiled(source)->Ok_0.sound(),
        compiled(source)->Ok_0.readable(),
        compiled(source)->Ok_0.loaded() == registered(source),
        registered(source).sound(),
        version_ids(source.versions).no_duplicates(),
{
    let table = compiled(source)->Ok_0;
    let defs = source.versions.map_values(|v: VersionKind| v.compacted());
    let ids = def_ids(defs);
    let names = version_ids(source.versions);
    assert(ids =~= names);
    assert forall|id: Seq<char>| #[trigger] table.versions.contains_key(id) implies {
        &&& table.versions[id].record().id == id
        &&& table.versions[id].readable()
        &&& table.versions[id].mapped() == source.versions[names.index_of(id)]
    } by {
        let i = ids.index_of(id);
        assert(ids[i] == id);
        assert(source.versions[i].compactable());
        assert(defs[i] == source.versions[i].compacted());
    }
    assert(table.loaded().versions =~= registered(source).versions);
    assert forall|id: Seq<char>| #[trigger]
        registered(source).versions.contains_key(id) implies registered(
        source,
    ).versions[id].record().id == id by {
        let i = names.index_of(id);
        assert(names[i] == id);
    }
}

impl Registry {
    /// Compiles a source and loads the table at once. A source that is
    /// compiled gives a registry of exactly its versions; one that is not
    /// gives the error of compiling.
    pub fn from_source(source: &MinecraftVersions) -> (r: Result<Registry, CompileError>)
        ensures
            r is Ok <==> compiled(source@) is Ok,
            r matches Ok(registry) ==> registry.wf() && registry@ == registered(source@),
            r matches Err(error) ==> compiled(source@) == Err::<CompactTable, CompileError>(error),
    {
        let table = match compile(source) {
            Ok(table) => table,
            Err(error) => {
                return Err(error);
            },
        };
        proof {
            lemma_compiled_table_loads_back(source@);
        }
        match Registry::load(&table) {
            Some(registry) => Ok(registry),
            None => Err(CompileError::UnrepresentableTime),
        }
    }
}

} // verus!
