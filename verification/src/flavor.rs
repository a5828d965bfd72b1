//! Server flavors: which versions a flavor can run, and where its server for
//! a version is downloaded.
//!
//! The range of versions that a flavor runs is read from the registry: it
//! starts at the release time of the version that the registry holds under
//! the flavor's first identifier.

use crate::built::names_latest_release;
use crate::built::names_latest_snapshot;
use crate::built::Registry;
use crate::built::RegistryView;
use crate::time::Timestamp;
use crate::version::BadVersion;
use crate::version::MinecraftVersion;
use crate::version::VersionKind;
use vstd::prelude::*;

verus! {

/// A server distribution.
#[derive(Clone, Copy, Debug, PartialEq, Eq, Structural)]
pub enum ServerFlavor {
    /// The server as upstream ships it.
    Vanilla,
    /// Paper, which takes plugins.
    Paper,
}

/// The identifier of the first version that Paper runs.
pub const PAPER_FIRST: &'static str = "1.12";

/// The release time of the version that the registry holds as Paper's
/// first: Paper runs no release older than that.
pub open spec fn paper_since(registry: RegistryView) -> Timestamp
    recommends
        registry.versions.contains_key(PAPER_FIRST@),
{
    registry.versions[PAPER_FIRST@].record().release_time
}

/// How the URL parser writes the URL that it reads from `text`, or `None`
/// where it reads no absolute URL there.
pub uninterp spec fn parsed_url(text: Seq<char>) -> Option<Seq<char>>;

/// Calls `reqwest::Url::parse` and hands back the serialization of the URL
/// that was read. The contract claims only that the outcome depends on the
/// text alone.
#[verifier::external_body]
fn parse_url(text: &str) -> (r: Option<String>)
    ensures
        match r {
            Some(url) => parsed_url(text@) == Some(url@),
            None => parsed_url(text@) is None,
        },
{
    match reqwest::Url::parse(text) {
        Ok(url) => Some(String::from(url)),
        Err(_) => None,
    }
}

/// A download URL, written as the URL parser writes what it has read.
#[derive(Debug)]
pub struct ServerUrl {
    text: String,
}

impl View for ServerUrl {
    type V = Seq<char>;

    closed spec fn view(&self) -> Seq<char> {
        self.text@
    }
}

impl ServerUrl {
    /// The URL as text.
    pub fn as_str(&self) -> (r: &str)
        ensures
            r@ == self@,
    {
        self.text.as_str()
    }

    /// The URL as text, owned.
    pub fn into_string(self) -> (r: String)
        ensures
            r@ == self@,
    {
        self.text
    }
}

/// The server URL of a version is not an absolute URL.
#[derive(Clone, Copy, Debug, PartialEq, Eq, Structural)]
pub struct MalformedUrl;

/// The text of a URL that may be absent.
pub open spec fn url_text(url: Option<ServerUrl>) -> Option<Seq<char>> {
    match url {
        Some(url) => Some(url@),
        None => None,
    }
}

impl ServerFlavor {
    /// The registry holds the version that the flavor's range starts at.
    /// Vanilla has no range and asks nothing of the registry.
    pub open spec fn ranged_in(self, registry: RegistryView) -> bool {
        self is Paper ==> registry.versions.contains_key(PAPER_FIRST@)
    }

    /// Whether the flavor can run the version. Vanilla runs every version.
    /// Paper runs the releases that are not older than its first version in
    /// the registry, and no snapshot.
    pub open spec fn accepts(self, version: VersionKind, registry: RegistryView) -> bool
        recommends
            self.ranged_in(registry),
    {
        match self {
            ServerFlavor::Vanilla => true,
            ServerFlavor::Paper => version matches VersionKind::Release(record)
                && record.release_time.is_at_or_after(paper_since(registry)),
        }
    }

    /// Where the flavor's server for the version is downloaded: nowhere if
    /// the flavor cannot run the version; for Vanilla the server URL of the
    /// version as the URL parser reads it; for Paper nowhere yet.
    pub open spec fn download_url(self, version: VersionKind, registry: RegistryView) -> Option<
        Seq<char>,
    >
        recommends
            self.ranged_in(registry),
    {
        if !self.accepts(version, registry) {
            None
        } else {
            match self {
                ServerFlavor::Vanilla => parsed_url(version.record().server_url),
                ServerFlavor::Paper => None,
            }
        }
    }

    /// Where a server URL is read for this flavor, the version has one that
    /// is an absolute URL.
    pub open spec fn locatable(self, version: VersionKind) -> bool {
        self is Vanilla ==> parsed_url(version.record().server_url) is Some
    }

    /// Whether the registry holds the version that the flavor's range
    /// starts at.
    pub fn is_ranged_in(&self, registry: &Registry) -> (r: bool)
        requires
            registry.wf(),
        ensures
            r == self.ranged_in(registry@),
    {
        match self {
            ServerFlavor::Vanilla => true,
            ServerFlavor::Paper => registry.get(PAPER_FIRST).is_some(),
        }
    }

    /// Whether the flavor can run the version.
    ///
    /// The registry must hold the version that the flavor's range starts
    /// at: there is no range to check against without it.
    pub fn check_version(&self, version: &MinecraftVersion, registry: &Registry) -> (r: bool)
        requires
            registry.wf(),
            self.ranged_in(registry@),
        ensures
            r == self.accepts(version@, registry@),
            self is Paper ==> registry@.resolved("1.12"@) is Ok && (r <==> version@ is Release
                && version@.record().release_time.is_at_or_after(
                registry@.resolved("1.12"@)->Ok_0.record().release_time,
            )),
    {
        proof {
            if self is Paper {
                lemma_paper_accepts(version@, registry@);
            }
        }
        match self {
            ServerFlavor::Vanilla => true,
            ServerFlavor::Paper => {
                match (version, registry.get(PAPER_FIRST)) {
                    (MinecraftVersion::Release(release), Some(first)) => {
                        release.release_time.at_or_after(&first.data().release_time)
                    },
                    _ => false,
                }
            },
        }
    }

    /// Where the flavor's server for the version is downloaded, if the
    /// flavor can run the version and has a download for it.
    ///
    /// The registry is taken to hold well-formed server URLs only, so the
    /// version's URL must be one; `try_url` takes any.
    pub fn url(self, version: MinecraftVersion, registry: &Registry) -> (r: Option<ServerUrl>)
        requires
            registry.wf(),
            self.ranged_in(registry@),
            self.locatable(version@),
        ensures
            url_text(r) == self.download_url(version@, registry@),
            !self.accepts(version@, registry@) ==> r is None,
            r is Some <==> self is Vanilla,
    {
        if !self.check_version(&version, registry) {
            return None;
        }
        match self {
            ServerFlavor::Vanilla => match parse_url(version.data().server_url.as_str()) {
                Some(text) => Some(ServerUrl { text }),
                None => None,
            },
            ServerFlavor::Paper => None,
        }
    }

    /// Where the flavor's server for the version is downloaded, or the
    /// fault of a version whose server URL would be read and is not an
    /// absolute URL.
    pub fn try_url(self, version: MinecraftVersion, registry: &Registry) -> (r: Result<
        Option<ServerUrl>,
        MalformedUrl,
    >)
        requires
            registry.wf(),
            self.ranged_in(registry@),
        ensures
            r is Ok <==> self.locatable(version@),
            r matches Ok(url) ==> url_text(url) == self.download_url(version@, registry@),
    {
        let locatable = match self {
            ServerFlavor::Vanilla => parse_url(version.data().server_url.as_str()).is_some(),
            ServerFlavor::Paper => true,
        };
        if locatable {
            Ok(self.url(version, registry))
        } else {
            Err(MalformedUrl)
        }
    }
}

/// Paper's first identifier is no name of a latest version, so it resolves
/// to the version that the registry holds under it.
pub proof fn lemma_paper_first_resolves(registry: RegistryView)
    requires
        registry.versions.contains_key(PAPER_FIRST@),
    ensures
        !names_latest_release(PAPER_FIRST@),
        !names_latest_snapshot(PAPER_FIRST@),
        registry.resolved(PAPER_FIRST@) == Ok::<VersionKind, BadVersion>(
            registry.versions[PAPER_FIRST@],
        ),
{
    reveal_strlit("");
    reveal_strlit("latest");
    reveal_strlit("snapshot");
    reveal_strlit("latest_snapshot");
    reveal_strlit("1.12");
    assert(""@.len() == 0 && "latest"@.len() == 6);
    assert("snapshot"@.len() == 8 && "latest_snapshot"@.len() == 15);
    assert(PAPER_FIRST@.len() == 4);
}

/// Paper runs a version exactly when it is a release that is not older than
/// the version that `1.12` resolves to in the registry, however late the
/// release is; it runs no snapshot. Vanilla runs every version.
pub proof fn lemma_paper_accepts(version: VersionKind, registry: RegistryView)
    requires
        registry.versions.contains_key("1.12"@),
    ensures
        registry.resolved("1.12"@) is Ok,
        ServerFlavor::Paper.accepts(version, registry) <==> (version is Release
            && version.record().release_time.is_at_or_after(
            registry.resolved("1.12"@)->Ok_0.record().release_time,
        )),
        version is Snapshot ==> !ServerFlavor::Paper.accepts(version, registry),
        ServerFlavor::Vanilla.accepts(version, registry),
{
    lemma_paper_first_resolves(registry);
}

/// A flavor that cannot run a version has no download for it.
pub proof fn lemma_no_url_without_acceptance(
    flavor: ServerFlavor,
    version: VersionKind,
    registry: RegistryView,
)
    requires
        !flavor.accepts(version, registry),
    ensures
        flavor.download_url(version, registry) is None,
{
}

} // verus!
