use attpc_envoy::config::Config;

#[test]
fn new_config_holds_default_fields_in_order() {
    let config = Config::new();
    assert_eq!(config.experiment, "Exp");
    assert_eq!(config.run_number, 0);
    assert_eq!(config.description, "Write here");
    assert_eq!(config.path, "example.yml");
    let names: Vec<&str> = config.fields().iter().map(|(k, _)| k.as_str()).collect();
    let mut sorted = names.clone();
    sorted.sort();
    assert_eq!(names, sorted);
    assert_eq!(names.len(), 11);
    assert!(config.fields().iter().all(|(_, v)| v.is_empty()));
}

#[test]
fn add_field_inserts_in_order_and_replaces() {
    let mut config = Config::new();
    config.add_field(String::from("Aardvark"), String::from("1"));
    config.add_field(String::from("Beam"), String::from("16O"));
    config.add_field(String::from("Zeta"), String::from("z"));
    let fields = config.fields();
    assert_eq!(fields[0], (String::from("Aardvark"), String::from("1")));
    assert_eq!(fields.len(), 13);
    assert_eq!(fields[12], (String::from("Zeta"), String::from("z")));
    assert!(fields.iter().any(|(k, v)| k == "Beam" && v == "16O"));
}

#[test]
fn run_log_lines() {
    let mut config = Config::new();
    config.fields.clear();
    config.add_field(String::from("Beam"), String::from("16O"));
    config.add_field(String::from("Alpha"), String::from("a"));
    config.run_number = 42;
    config.description = String::from("test run");
    assert_eq!(config.table_header(), "Run,Note,Duration,Alpha,Beam\n");
    assert_eq!(config.table_row(3600), "42,test run,3600,a,16O\n");
    config.run_number = -1;
    assert_eq!(config.table_row(0), "-1,test run,0,a,16O\n");
}
