//! Version records, the two kinds of version that a registry keeps, and the
//! order of records in time.

pub use crate::flavor::ServerFlavor;
use crate::time::Timestamp;
use std::cmp::Ordering;
use vstd::prelude::*;
use vstd::std_specs::cmp::PartialOrdSpec;

verus! {

/// Everything the registry knows of one version.
#[derive(Debug)]
pub struct MinecraftVersionData {
    /// The identifier, such as `1.19.4` or a snapshot label: the key.
    pub id: String,
    /// Where the version's own manifest is found.
    pub url: String,
    pub time: Timestamp,
    /// When the version was released: what records are ordered by.
    pub release_time: Timestamp,
    /// SHA-1 of the version's own manifest.
    pub sha1: String,
    pub compliance_level: u8,
    /// Where the vanilla server of this version is downloaded.
    pub server_url: String,
}

/// A version record as a mathematical value.
pub struct VersionRecord {
    pub id: Seq<char>,
    pub url: Seq<char>,
    pub time: Timestamp,
    pub release_time: Timestamp,
    pub sha1: Seq<char>,
    pub compliance_level: u8,
    pub server_url: Seq<char>,
}

impl View for MinecraftVersionData {
    type V = VersionRecord;

    open spec fn view(&self) -> VersionRecord {
        VersionRecord {
            id: self.id@,
            url: self.url@,
            time: self.time,
            release_time: self.release_time,
            sha1: self.sha1@,
            compliance_level: self.compliance_level,
            server_url: self.server_url@,
        }
    }
}

impl VersionRecord {
    /// `self` was released strictly before `other`.
    pub open spec fn released_before(self, other: VersionRecord) -> bool {
        self.release_time.is_before(other.release_time)
    }
}

impl Clone for MinecraftVersionData {
    fn clone(&self) -> (r: Self)
        ensures
            r@ == self@,
    {
        MinecraftVersionData {
            id: self.id.clone(),
            url: self.url.clone(),
            time: self.time,
            release_time: self.release_time,
            sha1: self.sha1.clone(),
            compliance_level: self.compliance_level,
            server_url: self.server_url.clone(),
        }
    }
}

impl PartialEq for MinecraftVersionData {
    fn eq(&self, other: &Self) -> (r: bool) {
        self.id == other.id && self.url == other.url && self.time == other.time
            && self.release_time == other.release_time && self.sha1 == other.sha1
            && self.compliance_level == other.compliance_level && self.server_url
            == other.server_url
    }
}

impl vstd::std_specs::cmp::PartialEqSpecImpl for MinecraftVersionData {
    open spec fn obeys_eq_spec() -> bool {
        true
    }

    open spec fn eq_spec(&self, other: &Self) -> bool {
        self@ == other@
    }
}

impl Eq for MinecraftVersionData {

}

impl PartialOrd for MinecraftVersionData {
    fn partial_cmp(&self, other: &Self) -> (r: Option<Ordering>) {
        self.release_time.partial_cmp(&other.release_time)
    }
}

impl vstd::std_specs::cmp::PartialOrdSpecImpl for MinecraftVersionData {
    open spec fn obeys_partial_cmp_spec() -> bool {
        true
    }

    open spec fn partial_cmp_spec(&self, other: &Self) -> Option<Ordering> {
        if self.release_time.is_before(other.release_time) {
            Some(Ordering::Less)
        } else if other.release_time.is_before(self.release_time) {
            Some(Ordering::Greater)
        } else {
            Some(Ordering::Equal)
        }
    }
}

impl MinecraftVersionData {
    /// How the record stands to another in the order of release: the total
    /// order that `<` and `>` are read from.
    pub fn cmp(&self, other: &Self) -> (r: Ordering)
        ensures
            Some(r) == self.partial_cmp_spec(other),
            r == Ordering::Less <==> self@.released_before(other@),
            r == Ordering::Greater <==> other@.released_before(self@),
            r == Ordering::Equal <==> self.release_time == other.release_time,
    {
        if self.release_time.before(&other.release_time) {
            Ordering::Less
        } else if other.release_time.before(&self.release_time) {
            Ordering::Greater
        } else {
            Ordering::Equal
        }
    }
}

/// Records are ordered by release time and by nothing else: one record is
/// less than another exactly when it was released earlier, and two records
/// released at the same instant are neither less nor greater.
pub proof fn lemma_records_ordered_by_release_time(a: MinecraftVersionData, b: MinecraftVersionData)
    ensures
        a.partial_cmp_spec(&b) == Some(Ordering::Less) <==> a@.released_before(b@),
        a.partial_cmp_spec(&b) == Some(Ordering::Greater) <==> b@.released_before(a@),
        a.partial_cmp_spec(&b) == Some(Ordering::Equal) <==> a.release_time == b.release_time,
        a.partial_cmp_spec(&b) is Some,
{
}

/// A version of one of the two kinds that a registry keeps.
#[derive(Debug)]
pub enum MinecraftVersion {
    Release(MinecraftVersionData),
    Snapshot(MinecraftVersionData),
}

/// A version of either kind as a mathematical value.
pub enum VersionKind {
    Release(VersionRecord),
    Snapshot(VersionRecord),
}

impl VersionKind {
    /// The record that the version carries, whatever its kind.
    pub open spec fn record(self) -> VersionRecord {
        match self {
            VersionKind::Release(record) => record,
            VersionKind::Snapshot(record) => record,
        }
    }
}

impl View for MinecraftVersion {
    type V = VersionKind;

    open spec fn view(&self) -> VersionKind {
        match self {
            MinecraftVersion::Release(data) => VersionKind::Release(data@),
            MinecraftVersion::Snapshot(data) => VersionKind::Snapshot(data@),
        }
    }
}

impl MinecraftVersion {
    /// The record that the version carries, whatever its kind.
    pub fn data(&self) -> (r: &MinecraftVersionData)
        ensures
            r@ == self@.record(),
    {
        match self {
            MinecraftVersion::Release(data) => data,
            MinecraftVersion::Snapshot(data) => data,
        }
    }
}

impl Clone for MinecraftVersion {
    fn clone(&self) -> (r: Self)
        ensures
            r@ == self@,
    {
        match self {
            MinecraftVersion::Release(data) => MinecraftVersion::Release(data.clone()),
            MinecraftVersion::Snapshot(data) => MinecraftVersion::Snapshot(data.clone()),
        }
    }
}

impl PartialEq for MinecraftVersion {
    fn eq(&self, other: &Self) -> (r: bool) {
        match (self, other) {
            (MinecraftVersion::Release(a), MinecraftVersion::Release(b)) => a == b,
            (MinecraftVersion::Snapshot(a), MinecraftVersion::Snapshot(b)) => a == b,
            _ => false,
        }
    }
}

impl vstd::std_specs::cmp::PartialEqSpecImpl for MinecraftVersion {
    open spec fn obeys_eq_spec() -> bool {
        true
    }

    open spec fn eq_spec(&self, other: &Self) -> bool {
        self@ == other@
    }
}

impl Eq for MinecraftVersion {

}

/// The one way in which resolving an identifier fails: the registry has no
/// version of that name.
#[derive(Clone, Copy, Debug, PartialEq, Eq, Structural)]
pub struct BadVersion;

impl BadVersion {
    /// The message shown to the user.
    pub fn to_string(&self) -> (r: String)
        ensures
            r@ == "bad version"@,
    {
        "bad version".to_owned()
    }
}

} // verus!
