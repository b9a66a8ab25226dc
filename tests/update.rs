use chart_index::clock::{created_at, Stamper, MAX_MILLIS};
use chart_index::index::{append_to, ChartYaml, Entries, Slot, UpdateError};
use chart_index::load::{is_blank, starts_empty};
use chart_index::model::{build_entry, ChartEntry, Constants, Maintainer, Parameters, Urls};
use chart_index::update::{update_at, update_yaml};

fn create_test_constants() -> Constants {
    Constants {
        api_version: "v2".to_string(),
        app_version: "1.0.0".to_string(),
        description: "Test Chart".to_string(),
        home: "https://example.com".to_string(),
        icon: "https://example.com/icon.png".to_string(),
        keywords: vec!["test".to_string(), "chart".to_string()],
        maintainers: vec![Maintainer {
            email: "test@example.com".to_string(),
            name: "Test Maintainer".to_string(),
            url: "https://example.com".to_string(),
        }],
        name: "test-chart".to_string(),
        sources: vec!["https://github.com/test/chart".to_string()],
        entry_type: "application".to_string(),
    }
}

fn create_test_parameters() -> Parameters {
    Parameters {
        app_version: Some("1.0.1".to_string()),
        digest: "abc123".to_string(),
        version: "0.1.0".to_string(),
        urls: Urls::List(vec!["https://example.com/test-chart-0.1.0.tgz".to_string()]),
    }
}

fn initial_entry() -> ChartEntry {
    ChartEntry {
        api_version: "v2".to_string(),
        app_version: "1.0.0".to_string(),
        created: "2023-01-01T00:00:00.000Z".to_string(),
        description: "Initial Test Chart".to_string(),
        digest: "def456".to_string(),
        home: "https://example.com".to_string(),
        icon: "https://example.com/icon.png".to_string(),
        keywords: vec!["test".to_string(), "chart".to_string()],
        maintainers: vec![Maintainer {
            email: "test@example.com".to_string(),
            name: "Test Maintainer".to_string(),
            url: "https://example.com".to_string(),
        }],
        name: "test-chart".to_string(),
        sources: vec!["https://github.com/test/chart".to_string()],
        entry_type: "application".to_string(),
        urls: vec!["https://example.com/test-chart-0.0.1.tgz".to_string()],
        version: "0.0.1".to_string(),
    }
}

fn list_for<'a>(index: &'a ChartYaml, name: &str) -> &'a Vec<ChartEntry> {
    match &index.entries {
        Entries::ByName(named) => {
            let found = named.iter().find(|kv| kv.0 == name).expect("chart is listed");
            match &found.1 {
                Slot::List(list) => list,
                Slot::Other(_) => panic!("not a list"),
            }
        }
        Entries::Flat(_) => panic!("flat layout"),
    }
}

fn chart_count(index: &ChartYaml) -> usize {
    match &index.entries {
        Entries::ByName(named) => named.len(),
        Entries::Flat(_) => panic!("flat layout"),
    }
}

#[test]
fn test_update_yaml_new_file() {
    let constants = create_test_constants();
    let parameters = create_test_parameters();
    let mut index = ChartYaml::empty();
    let mut stamper = Stamper::new();

    stamper.update_now(&mut index, &constants, &parameters).unwrap();

    assert_eq!(index.api_version, Some("v1".to_string()));
    assert_eq!(chart_count(&index), 1);
    let entries = list_for(&index, "test-chart");
    assert_eq!(entries.len(), 1);

    let entry = &entries[0];
    assert_eq!(entry.api_version, "v2");
    assert_eq!(entry.app_version, "1.0.1");
    assert_eq!(entry.description, "Test Chart");
    assert_eq!(entry.digest, "abc123");
    assert_eq!(entry.version, "0.1.0");
}

#[test]
fn test_update_yaml_existing_file() {
    let mut index = ChartYaml {
        api_version: Some("v1".to_string()),
        entries: Entries::ByName(vec![("test-chart".to_string(), Slot::List(vec![initial_entry()]))]),
    };
    let constants = create_test_constants();
    let parameters = create_test_parameters();
    let mut stamper = Stamper::new();

    stamper.update_now(&mut index, &constants, &parameters).unwrap();

    assert_eq!(index.api_version, Some("v1".to_string()));
    assert_eq!(chart_count(&index), 1);
    let entries = list_for(&index, "test-chart");
    assert_eq!(entries.len(), 2);

    let new_entry = &entries[1];
    assert_eq!(new_entry.api_version, "v2");
    assert_eq!(new_entry.app_version, "1.0.1");
    assert_eq!(new_entry.description, "Test Chart");
    assert_eq!(new_entry.digest, "abc123");
    assert_eq!(new_entry.version, "0.1.0");
}

#[test]
fn first_entry_is_the_full_merge() {
    let constants = create_test_constants();
    let parameters = create_test_parameters();
    let mut index = ChartYaml::empty();
    update_yaml(&mut index, &constants, &parameters, "2024-05-06T07:08:09.010Z".to_string()).unwrap();

    let entries = list_for(&index, "test-chart");
    assert_eq!(entries.len(), 1);
    let e = &entries[0];
    assert_eq!(e.api_version, "v2");
    assert_eq!(e.app_version, "1.0.1");
    assert_eq!(e.created, "2024-05-06T07:08:09.010Z");
    assert_eq!(e.description, "Test Chart");
    assert_eq!(e.digest, "abc123");
    assert_eq!(e.home, "https://example.com");
    assert_eq!(e.icon, "https://example.com/icon.png");
    assert_eq!(e.keywords, vec!["test".to_string(), "chart".to_string()]);
    assert_eq!(e.maintainers.len(), 1);
    assert_eq!(e.maintainers[0].email, "test@example.com");
    assert_eq!(e.maintainers[0].name, "Test Maintainer");
    assert_eq!(e.maintainers[0].url, "https://example.com");
    assert_eq!(e.name, "test-chart");
    assert_eq!(e.sources, vec!["https://github.com/test/chart".to_string()]);
    assert_eq!(e.entry_type, "application");
    assert_eq!(e.urls, vec!["https://example.com/test-chart-0.1.0.tgz".to_string()]);
    assert_eq!(e.version, "0.1.0");
}

#[test]
fn prior_entries_stay_unchanged() {
    let mut index = ChartYaml {
        api_version: Some("v1".to_string()),
        entries: Entries::ByName(vec![("test-chart".to_string(), Slot::List(vec![initial_entry()]))]),
    };
    update_yaml(&mut index, &create_test_constants(), &create_test_parameters(), "2024-01-01T00:00:00.000Z".to_string())
        .unwrap();
    let entries = list_for(&index, "test-chart");
    assert_eq!(entries.len(), 2);
    let first = &entries[0];
    assert_eq!(first.created, "2023-01-01T00:00:00.000Z");
    assert_eq!(first.description, "Initial Test Chart");
    assert_eq!(first.digest, "def456");
    assert_eq!(first.app_version, "1.0.0");
    assert_eq!(first.urls, vec!["https://example.com/test-chart-0.0.1.tgz".to_string()]);
    assert_eq!(first.version, "0.0.1");
    assert_eq!(entries[1].created, "2024-01-01T00:00:00.000Z");
    assert_eq!(entries[1].digest, "abc123");
}

#[test]
fn other_charts_are_kept() {
    let mut index = ChartYaml {
        api_version: Some("v1".to_string()),
        entries: Entries::ByName(vec![
            ("other".to_string(), Slot::List(vec![initial_entry()])),
            ("notes".to_string(), Slot::Other("hello".to_string())),
        ]),
    };
    update_yaml(&mut index, &create_test_constants(), &create_test_parameters(), "x".to_string()).unwrap();
    match &index.entries {
        Entries::ByName(named) => {
            assert_eq!(named.len(), 3);
            assert_eq!(named[0].0, "other");
            assert_eq!(named[1].0, "notes");
            assert!(matches!(&named[1].1, Slot::Other(t) if t == "hello"));
            assert_eq!(named[2].0, "test-chart");
        }
        Entries::Flat(_) => panic!("flat layout"),
    }
    assert_eq!(list_for(&index, "other").len(), 1);
    assert_eq!(list_for(&index, "test-chart").len(), 1);
}

#[test]
fn app_version_falls_back_to_the_chart() {
    let constants = create_test_constants();
    let mut parameters = create_test_parameters();
    parameters.app_version = None;
    let e = build_entry(&constants, &parameters, "t".to_string());
    assert_eq!(e.app_version, "1.0.0");
    parameters.app_version = Some("2.0.0".to_string());
    let e = build_entry(&constants, &parameters, "t".to_string());
    assert_eq!(e.app_version, "2.0.0");
}

#[test]
fn single_url_becomes_a_list() {
    let constants = create_test_constants();
    let mut parameters = create_test_parameters();
    parameters.urls = Urls::Single("https://example.com/one.tgz".to_string());
    let e = build_entry(&constants, &parameters, "t".to_string());
    assert_eq!(e.urls, vec!["https://example.com/one.tgz".to_string()]);
}

#[test]
fn flat_layout_appends_at_the_end() {
    let mut index = ChartYaml { api_version: Some("v1".to_string()), entries: Entries::Flat(vec![initial_entry()]) };
    update_yaml(&mut index, &create_test_constants(), &create_test_parameters(), "c".to_string()).unwrap();
    match &index.entries {
        Entries::Flat(list) => {
            assert_eq!(list.len(), 2);
            assert_eq!(list[0].version, "0.0.1");
            assert_eq!(list[1].version, "0.1.0");
            assert_eq!(list[1].created, "c");
        }
        Entries::ByName(_) => panic!("layout changed"),
    }
}

#[test]
fn non_list_value_is_a_structural_mismatch() {
    let mut index = ChartYaml {
        api_version: Some("v1".to_string()),
        entries: Entries::ByName(vec![("test-chart".to_string(), Slot::Other("42".to_string()))]),
    };
    let r = update_yaml(&mut index, &create_test_constants(), &create_test_parameters(), "c".to_string());
    assert_eq!(r, Err(UpdateError::StructuralMismatch));
    match &index.entries {
        Entries::ByName(named) => {
            assert_eq!(named.len(), 1);
            assert!(matches!(&named[0].1, Slot::Other(t) if t == "42"));
        }
        Entries::Flat(_) => panic!("layout changed"),
    }
}

#[test]
fn created_text_of_fixed_instants() {
    assert_eq!(created_at(0), Some("1970-01-01T00:00:00.000Z".to_string()));
    assert_eq!(created_at(1704067200123), Some("2024-01-01T00:00:00.123Z".to_string()));
    assert_eq!(created_at(MAX_MILLIS), Some("9999-12-31T23:59:59.999Z".to_string()));
    assert_eq!(created_at(MAX_MILLIS + 1), None);
    assert_eq!(created_at(-1), None);
}

#[test]
fn update_at_stamps_the_given_instant() {
    let mut index = ChartYaml::empty();
    update_at(&mut index, &create_test_constants(), &create_test_parameters(), 1704067200123).unwrap();
    assert_eq!(list_for(&index, "test-chart")[0].created, "2024-01-01T00:00:00.123Z");
}

#[test]
fn update_at_rejects_an_instant_out_of_range() {
    let mut index = ChartYaml::empty();
    let r = update_at(&mut index, &create_test_constants(), &create_test_parameters(), -5);
    assert_eq!(r, Err(UpdateError::InstantOutOfRange));
    assert_eq!(chart_count(&index), 0);
}

#[test]
fn stamps_never_go_back() {
    let mut stamper = Stamper::new();
    assert_eq!(stamper.stamp(1000), 1000);
    assert_eq!(stamper.stamp(500), 1000);
    assert_eq!(stamper.stamp(2000), 2000);

    let mut index = ChartYaml::empty();
    let mut s = Stamper::new();
    s.update(&mut index, &create_test_constants(), &create_test_parameters(), 1704067200123).unwrap();
    s.update(&mut index, &create_test_constants(), &create_test_parameters(), 1000).unwrap();
    let entries = list_for(&index, "test-chart");
    assert_eq!(entries.len(), 2);
    assert_eq!(entries[0].created, "2024-01-01T00:00:00.123Z");
    assert_eq!(entries[1].created, "2024-01-01T00:00:00.123Z");
}

#[test]
fn successive_updates_now_are_ordered() {
    let mut index = ChartYaml::empty();
    let mut s = Stamper::new();
    s.update_now(&mut index, &create_test_constants(), &create_test_parameters()).unwrap();
    s.update_now(&mut index, &create_test_constants(), &create_test_parameters()).unwrap();
    let entries = list_for(&index, "test-chart");
    assert_eq!(entries.len(), 2);
    assert_eq!(entries[0].created.len(), 24);
    assert!(entries[0].created.ends_with('Z'));
    assert!(entries[0].created <= entries[1].created);
}

#[test]
fn append_to_creates_a_missing_list() {
    let mut index = ChartYaml::empty();
    let e = build_entry(&create_test_constants(), &create_test_parameters(), "c".to_string());
    append_to(&mut index, &"fresh".to_string(), e).unwrap();
    assert_eq!(list_for(&index, "fresh").len(), 1);
}

#[test]
fn blank_contents_start_empty() {
    assert!(is_blank(""));
    assert!(is_blank(" \t\n\r "));
    assert!(is_blank("\u{3000}\u{a0}"));
    assert!(!is_blank("apiVersion: v1"));
    assert!(!is_blank("  x "));
    assert!(starts_empty(&None));
    assert!(starts_empty(&Some("\n\n".to_string())));
    assert!(!starts_empty(&Some("entries: {}".to_string())));
}

#[test]
fn templates_hold_the_examples() {
    let index = ChartYaml::default();
    assert_eq!(index.api_version, Some("v1".to_string()));
    assert_eq!(chart_count(&index), 0);
    let c = Constants::default();
    assert_eq!(c.api_version, "v2");
    assert_eq!(c.app_version, "1.0.0");
    assert_eq!(c.name, "test-chart");
    assert_eq!(c.maintainers[0].name, "Abdulrhman Alkhodiry");
    assert_eq!(c.keywords, vec!["test".to_string(), "chart".to_string()]);
    let p = Parameters::default();
    assert_eq!(p.app_version, None);
    assert_eq!(p.digest, "abc123");
    assert_eq!(p.version, "0.1.0");
    assert!(matches!(&p.urls, Urls::List(u) if u.len() == 1 && u[0] == "https://example.com/test-chart-0.1.0.tgz"));
}
