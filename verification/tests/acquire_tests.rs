use okc::acquire::assemble;
use okc::acquire::detail_urls;
use okc::acquire::Latest;
use okc::acquire::UpstreamKind;
use okc::acquire::UpstreamManifest;
use okc::acquire::UpstreamVersion;
use okc::time::Timestamp;
use okc::time::RELEASE_CUTOFF_SECS;
use okc::version::MinecraftVersion;

fn upstream(kind: UpstreamKind, id: &str, release_secs: i64) -> UpstreamVersion {
    UpstreamVersion {
        kind,
        id: id.to_string(),
        url: format!("https://meta.example/{id}.json"),
        time: Timestamp { secs: release_secs + 7, nanos: 0 },
        release_time: Timestamp { secs: release_secs, nanos: 0 },
        sha1: format!("sha-{id}"),
        compliance_level: 1,
    }
}

fn mixed_manifest() -> UpstreamManifest {
    UpstreamManifest {
        latest: Latest { release: "1.19.4".to_string(), snapshot: "23w14a".to_string() },
        versions: vec![
            upstream(UpstreamKind::Snapshot, "23w14a", 1_680_700_000),
            upstream(UpstreamKind::Release, "1.19.4", 1_678_795_200),
            upstream(UpstreamKind::Release, "1.2.5", RELEASE_CUTOFF_SECS),
            upstream(UpstreamKind::Release, "1.2.4", RELEASE_CUTOFF_SECS - 1),
            upstream(UpstreamKind::Snapshot, "11w47a", 1_322_000_000),
            upstream(UpstreamKind::OldBeta, "b1.8.1", 1_316_000_000),
            upstream(UpstreamKind::OldAlpha, "a1.0.4", 1_278_000_000),
            upstream(UpstreamKind::OldBeta, "b-late", 1_700_000_000),
        ],
    }
}

#[test]
fn a_release_at_the_cutoff_is_kept() {
    assert!(upstream(UpstreamKind::Release, "1.2.5", RELEASE_CUTOFF_SECS).is_retained());
}

#[test]
fn a_release_just_before_the_cutoff_is_dropped() {
    let mut version = upstream(UpstreamKind::Release, "1.2.4", RELEASE_CUTOFF_SECS - 1);
    version.release_time.nanos = 999_999_999;
    assert!(!version.is_retained());
}

#[test]
fn a_snapshot_is_kept_whatever_its_age() {
    assert!(upstream(UpstreamKind::Snapshot, "11w47a", 1_322_000_000).is_retained());
    assert!(upstream(UpstreamKind::Snapshot, "old", i64::MIN).is_retained());
}

#[test]
fn old_alpha_and_old_beta_are_dropped_whatever_their_age() {
    assert!(!upstream(UpstreamKind::OldBeta, "b1.8.1", 1_316_000_000).is_retained());
    assert!(!upstream(UpstreamKind::OldAlpha, "a1.0.4", 1_278_000_000).is_retained());
    assert!(!upstream(UpstreamKind::OldBeta, "b-late", 1_700_000_000).is_retained());
    assert!(!upstream(UpstreamKind::OldAlpha, "a-late", i64::MAX).is_retained());
}

#[test]
fn the_time_field_plays_no_part_in_the_filter() {
    let mut version = upstream(UpstreamKind::Release, "x", RELEASE_CUTOFF_SECS - 10);
    version.time = Timestamp { secs: RELEASE_CUTOFF_SECS + 10, nanos: 0 };
    assert!(!version.is_retained());
}

#[test]
fn enrich_joins_the_server_url_and_keeps_the_kind() {
    let release = upstream(UpstreamKind::Release, "1.19.4", 1_678_795_200);
    match release.enrich("https://dl.example/server.jar".to_string()) {
        Some(MinecraftVersion::Release(data)) => {
            assert_eq!(data.id, "1.19.4");
            assert_eq!(data.url, "https://meta.example/1.19.4.json");
            assert_eq!(data.time, Timestamp { secs: 1_678_795_207, nanos: 0 });
            assert_eq!(data.release_time, Timestamp { secs: 1_678_795_200, nanos: 0 });
            assert_eq!(data.sha1, "sha-1.19.4");
            assert_eq!(data.compliance_level, 1);
            assert_eq!(data.server_url, "https://dl.example/server.jar");
        }
        other => panic!("not a release: {other:?}"),
    }
    let snapshot = upstream(UpstreamKind::Snapshot, "23w14a", 1_680_700_000);
    assert!(matches!(snapshot.enrich("u".to_string()), Some(MinecraftVersion::Snapshot(_))));
}

#[test]
fn enrich_gives_nothing_for_a_dropped_entry() {
    assert!(upstream(UpstreamKind::OldBeta, "b1.8.1", 1_316_000_000)
        .enrich("u".to_string())
        .is_none());
    assert!(upstream(UpstreamKind::Release, "1.0", 1_321_000_000)
        .enrich("u".to_string())
        .is_none());
}

#[test]
fn detail_urls_lists_the_kept_entries_in_order() {
    let urls = detail_urls(&mixed_manifest());
    assert_eq!(
        urls,
        vec![
            "https://meta.example/23w14a.json".to_string(),
            "https://meta.example/1.19.4.json".to_string(),
            "https://meta.example/1.2.5.json".to_string(),
            "https://meta.example/11w47a.json".to_string(),
        ]
    );
}

#[test]
fn detail_urls_of_nothing_is_nothing() {
    let manifest = UpstreamManifest {
        latest: Latest { release: String::new(), snapshot: String::new() },
        versions: vec![],
    };
    assert!(detail_urls(&manifest).is_empty());
    let source = assemble(&manifest, &vec![]).unwrap();
    assert!(source.versions.is_empty());
}

#[test]
fn assemble_joins_each_answer_to_its_entry() {
    let manifest = mixed_manifest();
    let answers: Vec<String> =
        ["s0", "s1", "s2", "s3"].iter().map(|s| format!("https://dl.example/{s}.jar")).collect();
    let source = assemble(&manifest, &answers).unwrap();
    assert_eq!(source.latest.release, "1.19.4");
    assert_eq!(source.latest.snapshot, "23w14a");
    assert_eq!(source.versions.len(), 4);
    let ids: Vec<&str> = source.versions.iter().map(|v| v.data().id.as_str()).collect();
    assert_eq!(ids, vec!["23w14a", "1.19.4", "1.2.5", "11w47a"]);
    let servers: Vec<&str> = source.versions.iter().map(|v| v.data().server_url.as_str()).collect();
    assert_eq!(
        servers,
        vec![
            "https://dl.example/s0.jar",
            "https://dl.example/s1.jar",
            "https://dl.example/s2.jar",
            "https://dl.example/s3.jar"
        ]
    );
    assert!(matches!(source.versions[0], MinecraftVersion::Snapshot(_)));
    assert!(matches!(source.versions[1], MinecraftVersion::Release(_)));
    assert!(matches!(source.versions[2], MinecraftVersion::Release(_)));
    assert!(matches!(source.versions[3], MinecraftVersion::Snapshot(_)));
    assert_eq!(source.versions[1].data().sha1, "sha-1.19.4");
    assert_eq!(source.versions[1].data().url, "https://meta.example/1.19.4.json");
}

#[test]
fn assemble_wants_one_answer_for_each_kept_entry() {
    let manifest = mixed_manifest();
    let few: Vec<String> = vec!["a".to_string(), "b".to_string(), "c".to_string()];
    let many: Vec<String> = (0..5).map(|n| n.to_string()).collect();
    assert!(assemble(&manifest, &few).is_none());
    assert!(assemble(&manifest, &many).is_none());
    assert!(assemble(&manifest, &vec![]).is_none());
}

#[test]
fn no_assembled_release_is_older_than_the_cutoff() {
    let manifest = mixed_manifest();
    let answers: Vec<String> = detail_urls(&manifest);
    let source = assemble(&manifest, &answers).unwrap();
    let cutoff = Timestamp { secs: RELEASE_CUTOFF_SECS, nanos: 0 };
    for version in &source.versions {
        if let MinecraftVersion::Release(data) = version {
            assert!(data.release_time >= cutoff);
        }
    }
    assert!(source.versions.iter().any(|v| v.data().release_time < cutoff));
}
