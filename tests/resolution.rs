use factorio_mods::catalog::{find_release, ModRelease, ModResponse};
use factorio_mods::error::Error;
use factorio_mods::mods::{plan_downloads, resolve_release, CatalogReply, ModDetails, ResolutionBatch};

fn release(name: &str, version: &str) -> ModRelease {
    ModRelease {
        download_url: format!("/download/{name}/{version}"),
        file_name: format!("{name}_{version}.zip"),
        released_at: "2024-01-01T00:00:00.000000Z".to_string(),
        version: version.to_string(),
        sha1: "0123456789abcdef0123456789abcdef01234567".to_string(),
    }
}

fn listing(name: &str, versions: &[&str]) -> ModResponse {
    ModResponse {
        downloads_count: 10,
        latest_release: None,
        name: name.to_string(),
        owner: "someone".to_string(),
        releases: versions.iter().map(|v| release(name, v)).collect(),
        summary: "a mod".to_string(),
        title: "A Mod".to_string(),
        category: None,
        thumbnail: None,
    }
}

fn request(name: &str, version: &str) -> ModDetails {
    ModDetails { name: name.to_string(), version: version.to_string() }
}

#[test]
fn find_release_picks_exact_version() {
    let rs = listing("belts", &["1.0.0", "1.1.0"]).releases;
    assert_eq!(find_release(&rs, &"1.1.0".to_string()), Some(1));
    assert_eq!(find_release(&rs, &"1.0.0".to_string()), Some(0));
    assert_eq!(find_release(&rs, &"1.1".to_string()), None);
    assert_eq!(find_release(&Vec::new(), &"1.0.0".to_string()), None);
}

#[test]
fn find_release_takes_first_of_equal_versions() {
    let mut rs = listing("belts", &["1.0.0", "2.0.0", "2.0.0"]).releases;
    rs[2].file_name = "other.zip".to_string();
    assert_eq!(find_release(&rs, &"2.0.0".to_string()), Some(1));
}

#[test]
fn resolve_returns_matching_release() {
    let reply = CatalogReply::Listing(listing("belts", &["1.0.0", "1.1.0"]));
    let r = resolve_release(request("belts", "1.1.0"), reply).unwrap();
    assert_eq!(r.version, "1.1.0");
    assert_eq!(r.file_name, "belts_1.1.0.zip");
    assert_eq!(r.download_url, "/download/belts/1.1.0");
}

#[test]
fn resolve_missing_version_names_mod_and_version() {
    let reply = CatalogReply::Listing(listing("belts", &["1.0.0", "1.1.0"]));
    match resolve_release(request("belts", "2.0.0"), reply) {
        Err(Error::NoMatchingRelease(name, version)) => {
            assert_eq!(name, "belts");
            assert_eq!(version, "2.0.0");
        }
        other => panic!("unexpected {:?}", other),
    }
}

#[test]
fn resolve_catalog_failure_keeps_body() {
    let reply = CatalogReply::Failure("{\"message\":\"Mod not found\"}".to_string());
    match resolve_release(request("nothing", "1.0.0"), reply) {
        Err(Error::FactorioApi(body)) => assert_eq!(body, "{\"message\":\"Mod not found\"}"),
        other => panic!("unexpected {:?}", other),
    }
}

#[test]
fn batch_resolves_in_request_order() {
    let mut batch = ResolutionBatch::new(vec![request("a", "1.0.0"), request("b", "2.0.0")]);
    assert_eq!(batch.next_request().unwrap().name, "a");
    batch.record(CatalogReply::Listing(listing("a", &["0.9.0", "1.0.0"]))).unwrap();
    assert_eq!(batch.next_request().unwrap().name, "b");
    batch.record(CatalogReply::Listing(listing("b", &["2.0.0"]))).unwrap();
    assert!(batch.next_request().is_none());
    let releases = batch.into_releases().unwrap();
    let names: Vec<&str> = releases.iter().map(|r| r.file_name.as_str()).collect();
    assert_eq!(names, vec!["a_1.0.0.zip", "b_2.0.0.zip"]);
}

#[test]
fn empty_batch_is_complete() {
    let batch = ResolutionBatch::new(Vec::new());
    assert!(batch.next_request().is_none());
    assert_eq!(batch.into_releases().unwrap().len(), 0);
}

#[test]
fn batch_fails_before_any_fetch() {
    let mut batch = ResolutionBatch::new(vec![
        request("a", "1.0.0"),
        request("ghost", "1.0.0"),
        request("c", "3.0.0"),
    ]);
    batch.record(CatalogReply::Listing(listing("a", &["1.0.0"]))).unwrap();
    let err = batch.record(CatalogReply::Failure("not found".to_string()));
    assert!(matches!(err, Err(Error::FactorioApi(_))));
    assert!(batch.next_request().is_none());
    assert!(batch.into_releases().is_none());
}

#[test]
fn batch_stops_on_missing_release() {
    let mut batch = ResolutionBatch::new(vec![request("a", "9.9.9"), request("b", "1.0.0")]);
    let err = batch.record(CatalogReply::Listing(listing("a", &["1.0.0"])));
    assert!(matches!(err, Err(Error::NoMatchingRelease(_, _))));
    assert!(batch.next_request().is_none());
    assert!(batch.into_releases().is_none());
}

#[test]
fn plan_skips_present_files() {
    assert_eq!(plan_downloads(&vec![true, false, true, false]), vec![1, 3]);
    assert_eq!(plan_downloads(&vec![false, false]), vec![0, 1]);
    assert_eq!(plan_downloads(&Vec::new()), Vec::<usize>::new());
}

#[test]
fn rerun_with_all_files_present_fetches_nothing() {
    assert_eq!(plan_downloads(&vec![true, true, true]), Vec::<usize>::new());
}

#[test]
fn duplicate_requests_are_not_deduplicated() {
    let mut batch = ResolutionBatch::new(vec![request("a", "1.0.0"), request("a", "1.0.0")]);
    batch.record(CatalogReply::Listing(listing("a", &["1.0.0"]))).unwrap();
    batch.record(CatalogReply::Listing(listing("a", &["1.0.0"]))).unwrap();
    let releases = batch.into_releases().unwrap();
    assert_eq!(releases.len(), 2);
    assert_eq!(releases[0].file_name, releases[1].file_name);
    assert_eq!(plan_downloads(&vec![false, false]), vec![0, 1]);
}
