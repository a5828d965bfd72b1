use okc::acquire::Latest;
use okc::acquire::MinecraftVersions;
use okc::built::Registry;
use okc::flavor::MalformedUrl;
use okc::flavor::ServerFlavor;
use okc::flavor::PAPER_FIRST;
use okc::time::Timestamp;
use okc::version::MinecraftVersion;
use okc::version::MinecraftVersionData;

const UPSTREAM_1_12: &str = "2017-06-02T13:50:27+00:00";

fn released(id: &str, at: Timestamp, server_url: &str) -> MinecraftVersionData {
    MinecraftVersionData {
        id: id.to_string(),
        url: format!("https://meta.example/{id}.json"),
        time: Timestamp { secs: 0, nanos: 0 },
        release_time: at,
        sha1: "sha".to_string(),
        compliance_level: 1,
        server_url: server_url.to_string(),
    }
}

fn at(secs: i64, nanos: u32) -> Timestamp {
    Timestamp { secs, nanos }
}

fn release(at: Timestamp) -> MinecraftVersion {
    MinecraftVersion::Release(released("x", at, "https://dl.example/x.jar"))
}

fn snapshot(at: Timestamp) -> MinecraftVersion {
    MinecraftVersion::Snapshot(released("x", at, "https://dl.example/x.jar"))
}

/// A registry whose `1.12` was released at `first`.
fn registry_with_first(first: Timestamp) -> Registry {
    let source = MinecraftVersions {
        latest: Latest { release: "1.19.4".to_string(), snapshot: "23w14a".to_string() },
        versions: vec![
            MinecraftVersion::Release(released(
                "1.19.4",
                at(1_678_795_200, 0),
                "https://dl.example/1.19.4.jar",
            )),
            MinecraftVersion::Snapshot(released(
                "23w14a",
                at(1_680_696_317, 0),
                "https://dl.example/23w14a.jar",
            )),
            MinecraftVersion::Release(released("1.12", first, "https://dl.example/1.12.jar")),
        ],
    };
    Registry::from_source(&source).unwrap()
}

fn upstream_registry() -> Registry {
    registry_with_first(Timestamp::parse(UPSTREAM_1_12).unwrap())
}

/// A registry that holds no `1.12`.
fn registry_without_first() -> Registry {
    let source = MinecraftVersions {
        latest: Latest { release: "1.19.4".to_string(), snapshot: "23w14a".to_string() },
        versions: vec![
            MinecraftVersion::Release(released("1.19.4", at(1_678_795_200, 0), "u")),
            MinecraftVersion::Snapshot(released("23w14a", at(1_680_696_317, 0), "u")),
        ],
    };
    Registry::from_source(&source).unwrap()
}

#[test]
fn the_first_version_of_paper_is_1_12() {
    assert_eq!(PAPER_FIRST, "1.12");
}

#[test]
fn vanilla_asks_nothing_of_the_registry() {
    assert!(ServerFlavor::Vanilla.is_ranged_in(&registry_without_first()));
    assert!(ServerFlavor::Vanilla.is_ranged_in(&upstream_registry()));
}

#[test]
fn paper_wants_its_first_version_in_the_registry() {
    assert!(!ServerFlavor::Paper.is_ranged_in(&registry_without_first()));
    assert!(ServerFlavor::Paper.is_ranged_in(&upstream_registry()));
}

#[test]
fn vanilla_runs_every_version() {
    let with = upstream_registry();
    let without = registry_without_first();
    for secs in [i64::MIN, 0, 1_496_411_426, 1_496_411_427, i64::MAX] {
        for registry in [&with, &without] {
            assert!(ServerFlavor::Vanilla.check_version(&release(at(secs, 0)), registry));
            assert!(ServerFlavor::Vanilla.check_version(&snapshot(at(secs, 0)), registry));
        }
    }
}

#[test]
fn paper_runs_releases_from_its_first_version_on() {
    let registry = upstream_registry();
    let first = registry.get("1.12").unwrap().data().release_time;
    assert_eq!(first, at(1_496_411_427, 0));
    assert!(ServerFlavor::Paper.check_version(&release(first), &registry));
    assert!(ServerFlavor::Paper.check_version(&release(at(first.secs, 1)), &registry));
    assert!(ServerFlavor::Paper.check_version(&release(at(1_678_795_200, 0)), &registry));
    assert!(ServerFlavor::Paper.check_version(&release(at(i64::MAX, u32::MAX)), &registry));
    assert!(ServerFlavor::Paper.check_version(registry.get("1.12").unwrap(), &registry));
    assert!(ServerFlavor::Paper.check_version(registry.get("1.19.4").unwrap(), &registry));
}

#[test]
fn paper_runs_no_release_older_than_its_first_version() {
    let registry = upstream_registry();
    let first = registry.get("1.12").unwrap().data().release_time;
    let just_before = at(first.secs - 1, 999_999_999);
    assert!(!ServerFlavor::Paper.check_version(&release(just_before), &registry));
    assert!(!ServerFlavor::Paper.check_version(&release(at(0, 0)), &registry));
    assert!(!ServerFlavor::Paper.check_version(&release(at(i64::MIN, 0)), &registry));
}

#[test]
fn paper_runs_no_snapshot() {
    let registry = upstream_registry();
    for secs in [0, 1_496_411_427, 1_678_795_200, i64::MAX] {
        assert!(!ServerFlavor::Paper.check_version(&snapshot(at(secs, 0)), &registry));
    }
    assert!(!ServerFlavor::Paper.check_version(registry.get("23w14a").unwrap(), &registry));
}

#[test]
fn the_range_of_paper_follows_the_registry() {
    let early = registry_with_first(at(1_000_000_000, 0));
    let late = registry_with_first(at(1_600_000_000, 500));
    let between = release(at(1_200_000_000, 0));
    assert!(ServerFlavor::Paper.check_version(&between, &early));
    assert!(!ServerFlavor::Paper.check_version(&between, &late));
    assert!(ServerFlavor::Paper.check_version(&release(at(1_000_000_000, 0)), &early));
    assert!(!ServerFlavor::Paper.check_version(&release(at(999_999_999, 999_999_999)), &early));
    assert!(ServerFlavor::Paper.check_version(&release(at(1_600_000_000, 500)), &late));
    assert!(!ServerFlavor::Paper.check_version(&release(at(1_600_000_000, 499)), &late));
    assert!(!ServerFlavor::Paper.check_version(&release(at(1_496_411_427, 0)), &late));
}

#[test]
fn the_kind_of_the_first_version_plays_no_part() {
    let source = MinecraftVersions {
        latest: Latest { release: "b".to_string(), snapshot: "1.12".to_string() },
        versions: vec![
            MinecraftVersion::Snapshot(released("1.12", at(100, 0), "u")),
            MinecraftVersion::Release(released("b", at(200, 0), "u")),
        ],
    };
    let registry = Registry::from_source(&source).unwrap();
    assert!(ServerFlavor::Paper.check_version(&release(at(100, 0)), &registry));
    assert!(!ServerFlavor::Paper.check_version(&release(at(99, 0)), &registry));
    assert!(!ServerFlavor::Paper.check_version(registry.get("1.12").unwrap(), &registry));
}

#[test]
fn the_vanilla_url_is_the_server_url_as_the_parser_writes_it() {
    let version = MinecraftVersion::Release(released(
        "x",
        at(1_678_795_200, 0),
        "HTTPS://Piston-Data.Mojang.COM:443/v1/objects/8f3112a/server.jar",
    ));
    let url = ServerFlavor::Vanilla.url(version, &upstream_registry()).unwrap();
    assert_eq!(url.as_str(), "https://piston-data.mojang.com/v1/objects/8f3112a/server.jar");
    assert_eq!(
        url.into_string(),
        "https://piston-data.mojang.com/v1/objects/8f3112a/server.jar"
    );
}

#[test]
fn the_vanilla_url_of_a_snapshot_is_there_too() {
    let version = MinecraftVersion::Snapshot(released("x", at(0, 0), "https://dl.example/a b.jar"));
    let url = ServerFlavor::Vanilla.url(version, &registry_without_first()).unwrap();
    assert_eq!(url.as_str(), "https://dl.example/a%20b.jar");
}

#[test]
fn paper_has_no_url_yet() {
    let registry = upstream_registry();
    let runs = release(at(1_678_795_200, 0));
    assert!(ServerFlavor::Paper.check_version(&runs, &registry));
    assert!(ServerFlavor::Paper.url(runs, &registry).is_none());
}

#[test]
fn there_is_no_url_where_the_flavor_cannot_run_the_version() {
    let registry = upstream_registry();
    let old = release(at(0, 0));
    let snap = snapshot(at(1_678_795_200, 0));
    assert!(!ServerFlavor::Paper.check_version(&old, &registry));
    assert!(ServerFlavor::Paper.url(old, &registry).is_none());
    assert!(!ServerFlavor::Paper.check_version(&snap, &registry));
    assert!(ServerFlavor::Paper.url(snap, &registry).is_none());
}

#[test]
fn try_url_reports_a_server_url_that_is_none() {
    let registry = upstream_registry();
    for text in ["", "server.jar", "/v1/objects/server.jar", "https://", "http://[::1"] {
        let version = MinecraftVersion::Release(released("x", at(1_678_795_200, 0), text));
        assert_eq!(ServerFlavor::Vanilla.try_url(version, &registry).err(), Some(MalformedUrl));
    }
}

#[test]
fn try_url_gives_what_url_gives_where_the_server_url_is_one() {
    let version = MinecraftVersion::Release(released(
        "x",
        at(1_678_795_200, 0),
        "https://dl.example/../s.jar?x=1#top",
    ));
    let url = ServerFlavor::Vanilla.try_url(version, &upstream_registry()).unwrap().unwrap();
    assert_eq!(url.as_str(), "https://dl.example/s.jar?x=1#top");
}

#[test]
fn try_url_does_not_read_the_server_url_for_paper() {
    let version = MinecraftVersion::Release(released("x", at(1_678_795_200, 0), "not a url"));
    assert!(matches!(ServerFlavor::Paper.try_url(version, &upstream_registry()), Ok(None)));
}
