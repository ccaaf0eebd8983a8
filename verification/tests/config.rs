use railwind::config::{CollectionOptions, Config};
use railwind::table::Tables;

#[test]
fn default_config_matches_the_documented_run() {
    let config = Config::default();
    assert_eq!(config.content, vec!["index.html".to_string()]);
    assert!(config.extend_collection_options.is_none());
    assert_eq!(config.output, "railwind.css");
}

#[test]
fn collection_option_is_html_only_for_html() {
    assert!(matches!(CollectionOptions::new("html"), CollectionOptions::Html));
    assert!(matches!(CollectionOptions::new("rs"), CollectionOptions::Plain));
    assert!(matches!(CollectionOptions::new(""), CollectionOptions::Plain));
}

#[test]
fn collection_overrides_win_over_the_default() {
    let overrides = vec![("rs".to_string(), CollectionOptions::Html)];
    assert!(matches!(
        CollectionOptions::new_expand("rs", &overrides),
        CollectionOptions::Html
    ));
    assert!(matches!(
        CollectionOptions::new_expand("txt", &overrides),
        CollectionOptions::Plain
    ));
    assert!(matches!(
        CollectionOptions::new_expand("html", &overrides),
        CollectionOptions::Html
    ));
}

#[test]
fn tables_keep_the_first_entry_for_a_key() {
    let mut table = railwind::table::LookupTable::new();
    table.insert("4", "1rem");
    table.insert("4", "2rem");
    assert_eq!(table.get("4"), Some(&"1rem".to_string()));
    assert_eq!(table.get("missing"), None);
    assert_eq!(table.keys_vec(), vec!["4".to_string()]);
}

#[test]
fn the_scale_resolves_documented_entries() {
    let tables = Tables::new();
    assert_eq!(tables.margin.get("4"), Some(&"1rem".to_string()));
    assert_eq!(tables.padding.get("7"), None);
    assert_eq!(tables.space_between.get("0"), Some(&"0px".to_string()));
}
