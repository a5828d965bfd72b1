//! From the upstream manifest to the source of a registry: which versions are
//! kept, which documents have to be fetched for them, and how the answers are
//! joined to the records.
//!
//! Fetching itself is left to the caller. The caller asks `detail_urls` what
//! to fetch, fetches each document in that order, and hands the server URL
//! found in each to `assemble`.

use crate::text::texts;
use crate::time::Timestamp;
use crate::time::RELEASE_CUTOFF_SECS;
use crate::version::MinecraftVersion;
use crate::version::MinecraftVersionData;
use crate::version::VersionKind;
use crate::version::VersionRecord;
use vstd::prelude::*;

verus! {

/// The identifiers that the manifest calls the latest of each kind.
#[derive(Debug)]
pub struct Latest {
    pub release: String,
    pub snapshot: String,
}

/// The two latest identifiers as mathematical values.
pub struct LatestIds {
    pub release: Seq<char>,
    pub snapshot: Seq<char>,
}

impl View for Latest {
    type V = LatestIds;

    open spec fn view(&self) -> LatestIds {
        LatestIds { release: self.release@, snapshot: self.snapshot@ }
    }
}

impl Clone for Latest {
    fn clone(&self) -> (r: Self)
        ensures
            r@ == self@,
    {
        Latest { release: self.release.clone(), snapshot: self.snapshot.clone() }
    }
}

/// The kinds of version that the upstream manifest lists.
#[derive(Clone, Copy, Debug, PartialEq, Eq, Structural)]
pub enum UpstreamKind {
    Snapshot,
    Release,
    OldBeta,
    OldAlpha,
}

/// One entry of the upstream manifest.
#[derive(Debug)]
pub struct UpstreamVersion {
    pub kind: UpstreamKind,
    pub id: String,
    /// Where the version's own manifest is found: the document that names
    /// the server download.
    pub url: String,
    pub time: Timestamp,
    pub release_time: Timestamp,
    pub sha1: String,
    pub compliance_level: u8,
}

/// One entry of the upstream manifest as a mathematical value.
pub struct UpstreamRecord {
    pub kind: UpstreamKind,
    pub id: Seq<char>,
    pub url: Seq<char>,
    pub time: Timestamp,
    pub release_time: Timestamp,
    pub sha1: Seq<char>,
    pub compliance_level: u8,
}

impl View for UpstreamVersion {
    type V = UpstreamRecord;

    open spec fn view(&self) -> UpstreamRecord {
        UpstreamRecord {
            kind: self.kind,
            id: self.id@,
            url: self.url@,
            time: self.time,
            release_time: self.release_time,
            sha1: self.sha1@,
            compliance_level: self.compliance_level,
        }
    }
}

/// The instant before which a release is dropped.
pub open spec fn release_cutoff() -> Timestamp {
    Timestamp::at_second(RELEASE_CUTOFF_SECS)
}

impl UpstreamRecord {
    /// Whether the entry enters the registry: a snapshot always does, a
    /// release does unless it is older than the cutoff, and nothing else
    /// does.
    pub open spec fn retained(self) -> bool {
        match self.kind {
            UpstreamKind::Snapshot => true,
            UpstreamKind::Release => self.release_time.is_at_or_after(release_cutoff()),
            UpstreamKind::OldBeta => false,
            UpstreamKind::OldAlpha => false,
        }
    }

    /// The record of the entry once its server URL is known.
    pub open spec fn record(self, server_url: Seq<char>) -> VersionRecord {
        VersionRecord {
            id: self.id,
            url: self.url,
            time: self.time,
            release_time: self.release_time,
            sha1: self.sha1,
            compliance_level: self.compliance_level,
            server_url,
        }
    }

    /// The version that a kept entry becomes once its server URL is known.
    pub open spec fn enriched(self, server_url: Seq<char>) -> VersionKind
        recommends
            self.retained(),
    {
        if self.kind == UpstreamKind::Release {
            VersionKind::Release(self.record(server_url))
        } else {
            VersionKind::Snapshot(self.record(server_url))
        }
    }
}

impl UpstreamVersion {
    /// Whether the entry enters the registry.
    pub fn is_retained(&self) -> (r: bool)
        ensures
            r == self@.retained(),
    {
        match self.kind {
            UpstreamKind::Snapshot => true,
            UpstreamKind::Release => self.release_time.at_or_after(
                &Timestamp::from_secs(RELEASE_CUTOFF_SECS),
            ),
            UpstreamKind::OldBeta => false,
            UpstreamKind::OldAlpha => false,
        }
    }

    /// Joins the server URL to a kept entry; an entry that is not kept gives
    /// nothing.
    pub fn enrich(&self, server_url: String) -> (r: Option<MinecraftVersion>)
        ensures
            r is Some <==> self@.retained(),
            r matches Some(version) ==> version@ == self@.enriched(server_url@),
    {
        if !self.is_retained() {
            return None;
        }
        let data = MinecraftVersionData {
            id: self.id.clone(),
            url: self.url.clone(),
            time: self.time,
            release_time: self.release_time,
            sha1: self.sha1.clone(),
            compliance_level: self.compliance_level,
            server_url,
        };
        match self.kind {
            UpstreamKind::Release => Some(MinecraftVersion::Release(data)),
            _ => Some(MinecraftVersion::Snapshot(data)),
        }
    }
}

/// The upstream manifest: the latest identifiers and every version that
/// upstream knows, in upstream's order.
#[derive(Debug)]
pub struct UpstreamManifest {
    pub latest: Latest,
    pub versions: Vec<UpstreamVersion>,
}

/// The upstream manifest as a mathematical value.
pub struct UpstreamListing {
    pub latest: LatestIds,
    pub versions: Seq<UpstreamRecord>,
}

impl View for UpstreamManifest {
    type V = UpstreamListing;

    open spec fn view(&self) -> UpstreamListing {
        UpstreamListing {
            latest: self.latest@,
            versions: self.versions@.map_values(|v: UpstreamVersion| v@),
        }
    }
}

/// What a registry is compiled from: the latest identifiers and the kept
/// versions, each with its server URL.
#[derive(Debug)]
pub struct MinecraftVersions {
    pub latest: Latest,
    pub versions: Vec<MinecraftVersion>,
}

/// The source of a registry as a mathematical value.
pub struct RegistrySource {
    pub latest: LatestIds,
    pub versions: Seq<VersionKind>,
}

impl View for MinecraftVersions {
    type V = RegistrySource;

    open spec fn view(&self) -> RegistrySource {
        RegistrySource {
            latest: self.latest@,
            versions: self.versions@.map_values(|v: MinecraftVersion| v@),
        }
    }
}

/// The entries that are kept, in upstream's order.
pub open spec fn retained_of(versions: Seq<UpstreamRecord>) -> Seq<UpstreamRecord> {
    versions.filter(|v: UpstreamRecord| v.retained())
}

/// The documents to fetch: one for each kept entry, in upstream's order.
pub open spec fn detail_urls_of(versions: Seq<UpstreamRecord>) -> Seq<Seq<char>> {
    retained_of(versions).map_values(|v: UpstreamRecord| v.url)
}

/// The kept entries, each joined to the server URL at its place in
/// `server_urls`.
pub open spec fn assembled(versions: Seq<UpstreamRecord>, server_urls: Seq<Seq<char>>) -> Seq<
    VersionKind,
>
    recommends
        server_urls.len() == retained_of(versions).len(),
{
    Seq::new(
        retained_of(versions).len(),
        |k: int| retained_of(versions)[k].enriched(server_urls[k]),
    )
}

/// Taking one more entry into account adds it to the kept ones if it is kept
/// and changes nothing otherwise.
pub proof fn lemma_retained_step(versions: Seq<UpstreamRecord>, i: int)
    requires
        0 <= i < versions.len(),
    ensures
        retained_of(versions.take(i + 1)) == if versions[i].retained() {
            retained_of(versions.take(i)).push(versions[i])
        } else {
            retained_of(versions.take(i))
        },
        retained_of(versions.take(i + 1)).len() <= retained_of(versions).len(),
{
    reveal(Seq::filter);
    assert(versions.take(i + 1).drop_last() =~= versions.take(i));
    assert(versions.take(i + 1).last() == versions[i]);
    assert(versions =~= versions.take(i + 1) + versions.skip(i + 1));
    Seq::filter_distributes_over_add(
        versions.take(i + 1),
        versions.skip(i + 1),
        |v: UpstreamRecord| v.retained(),
    );
}

/// Every kept entry is a snapshot, or a release that is not older than the
/// cutoff.
pub proof fn lemma_retained_are_admissible(versions: Seq<UpstreamRecord>, k: int)
    requires
        0 <= k < retained_of(versions).len(),
    ensures
        retained_of(versions)[k].retained(),
        retained_of(versions)[k].kind == UpstreamKind::Release ==> retained_of(
            versions,
        )[k].release_time.is_at_or_after(release_cutoff()),
{
    versions.lemma_filter_pred(|v: UpstreamRecord| v.retained(), k);
}

/// No release that is older than the cutoff is found among the assembled
/// versions, whatever the upstream manifest listed.
pub proof fn lemma_assembled_releases_after_cutoff(
    versions: Seq<UpstreamRecord>,
    server_urls: Seq<Seq<char>>,
    k: int,
)
    requires
        0 <= k < assembled(versions, server_urls).len(),
    ensures
        assembled(versions, server_urls)[k] matches VersionKind::Release(record)
            ==> record.release_time.is_at_or_after(release_cutoff()),
{
    lemma_retained_are_admissible(versions, k);
}

/// The documents to fetch for the manifest: the URL of each kept entry, in
/// upstream's order.
pub fn detail_urls(manifest: &UpstreamManifest) -> (urls: Vec<String>)
    ensures
        texts(urls@) == detail_urls_of(manifest@.versions),
{
    let ghost all = manifest@.versions;
    let mut urls: Vec<String> = Vec::new();
    let mut i: usize = 0;
    proof {
        reveal(Seq::filter);
        assert(all.take(0) =~= Seq::<UpstreamRecord>::empty());
        assert(texts(urls@) =~= detail_urls_of(all.take(0)));
    }
    while i < manifest.versions.len()
        invariant
            i <= manifest.versions@.len(),
            all == manifest@.versions,
            texts(urls@) == detail_urls_of(all.take(i as int)),
        decreases manifest.versions@.len() - i,
    {
        let version = &manifest.versions[i];
        proof {
            lemma_retained_step(all, i as int);
        }
        if version.is_retained() {
            let ghost before = urls@;
            let ghost kept = retained_of(all.take(i as int));
            urls.push(version.url.clone());
            proof {
                assert(all[i as int] == version@);
                assert(texts(urls@) =~= texts(before).push(version.url@));
                assert(detail_urls_of(all.take(i + 1)) =~= kept.map_values(
                    |v: UpstreamRecord| v.url,
                ).push(all[i as int].url));
            }
        }
        i = i + 1;
    }
    proof {
        assert(all.take(i as int) =~= all);
    }
    urls
}

/// Joins the fetched server URLs to the kept entries of the manifest.
///
/// `server_urls` holds the answers in the order of `detail_urls`. Where
/// their number is not that of the kept entries there is no source.
pub fn assemble(manifest: &UpstreamManifest, server_urls: &Vec<String>) -> (r: Option<
    MinecraftVersions,
>)
    ensures
        r is Some <==> server_urls@.len() == retained_of(manifest@.versions).len(),
        r matches Some(source) ==> source@ == (RegistrySource {
            latest: manifest@.latest,
            versions: assembled(manifest@.versions, texts(server_urls@)),
        }),
        r matches Some(source) ==> forall|k: int|
            0 <= k < source@.versions.len() ==> (#[trigger] source@.versions[k]
                matches VersionKind::Release(record) ==> record.release_time.is_at_or_after(
                release_cutoff(),
            )),
{
    let ghost all = manifest@.versions;
    let ghost answers = texts(server_urls@);
    let mut versions: Vec<MinecraftVersion> = Vec::new();
    let mut i: usize = 0;
    let mut k: usize = 0;
    proof {
        reveal(Seq::filter);
        assert(all.take(0) =~= Seq::<UpstreamRecord>::empty());
    }
    while i < manifest.versions.len()
        invariant
            i <= manifest.versions@.len(),
            all == manifest@.versions,
            answers == texts(server_urls@),
            k == retained_of(all.take(i as int)).len(),
            k <= server_urls@.len(),
            versions@.len() == k,
            forall|j: int|
                0 <= j < k ==> (#[trigger] versions@[j])@ == retained_of(
                    all.take(i as int),
                )[j].enriched(answers[j]),
        decreases manifest.versions@.len() - i,
    {
        let version = &manifest.versions[i];
        proof {
            lemma_retained_step(all, i as int);
        }
        if version.is_retained() {
            if k >= server_urls.len() {
                return None;
            }
            match version.enrich(server_urls[k].clone()) {
                Some(joined) => {
                    versions.push(joined);
                },
                None => {
                    return None;
                },
            }
            k = k + 1;
        }
        i = i + 1;
    }
    proof {
        assert(all.take(i as int) =~= all);
    }
    if k != server_urls.len() {
        return None;
    }
    let source = MinecraftVersions { latest: manifest.latest.clone(), versions };
    proof {
        assert(source@.versions =~= assembled(all, answers));
        assert forall|j: int| 0 <= j < source@.versions.len() implies (
        #[trigger] source@.versions[j] matches VersionKind::Release(record)
            ==> record.release_time.is_at_or_after(release_cutoff())) by {
            lemma_assembled_releases_after_cutoff(all, answers, j);
        }
    }
    Some(source)
}

} // verus!
