use hawkbit_fleet::catalog::expected_bundle_name;
use hawkbit_fleet::catalog::Catalog;
use hawkbit_fleet::types::DistributionSet;
use hawkbit_fleet::types::DistributionSetLinks;

fn bundle(id: u64, name: &str, created_at: u64) -> DistributionSet {
    DistributionSet {
        links: DistributionSetLinks { self_link: None },
        complete: true,
        created_at,
        created_by: "tester".to_string(),
        deleted: false,
        description: String::new(),
        id,
        last_modified_at: created_at,
        last_modified_by: "tester".to_string(),
        modules: Vec::new(),
        name: name.to_string(),
        required_migration_step: false,
        ds_type: "os".to_string(),
        type_label: "OS".to_string(),
        valid: true,
        version: "1".to_string(),
    }
}

#[test]
fn newer_bundle_wins_when_listed_last() {
    let catalog = Catalog::build_index(vec![bundle(1, "X", 100), bundle(2, "X", 200)]);
    let held = catalog.get("X").unwrap();
    assert_eq!(held.id, 2);
    assert_eq!(held.created_at, 200);
    assert_eq!(catalog.len(), 1);
}

#[test]
fn newer_bundle_wins_when_listed_first() {
    let catalog = Catalog::build_index(vec![bundle(2, "X", 200), bundle(1, "X", 100)]);
    let held = catalog.get("X").unwrap();
    assert_eq!(held.id, 2);
    assert_eq!(held.created_at, 200);
    assert_eq!(catalog.len(), 1);
}

#[test]
fn of_equally_new_bundles_the_first_stays() {
    let catalog = Catalog::build_index(vec![bundle(7, "X", 100), bundle(8, "X", 100)]);
    assert_eq!(catalog.get("X").unwrap().id, 7);
}

#[test]
fn one_bundle_per_name() {
    let catalog = Catalog::build_index(vec![
        bundle(1, "stable EMMC", 10),
        bundle(2, "beta EMMC", 20),
        bundle(3, "stable EMMC", 30),
        bundle(4, "beta EMMC", 5),
        bundle(5, "nightly EMMC", 1),
    ]);
    assert_eq!(catalog.len(), 3);
    assert_eq!(catalog.get("stable EMMC").unwrap().id, 3);
    assert_eq!(catalog.get("beta EMMC").unwrap().id, 2);
    assert_eq!(catalog.get("nightly EMMC").unwrap().id, 5);
    assert!(catalog.contains("beta EMMC"));
    assert!(!catalog.contains("beta"));
    assert!(catalog.get("gamma EMMC").is_none());
}

#[test]
fn empty_listing_gives_empty_catalog() {
    let catalog = Catalog::build_index(Vec::new());
    assert!(catalog.is_empty());
    assert_eq!(catalog.len(), 0);
    assert!(catalog.get("X").is_none());
}

#[test]
fn bundle_name_of_a_channel() {
    assert_eq!(expected_bundle_name("beta"), "beta EMMC");
    assert_eq!(expected_bundle_name(""), " EMMC");
}
