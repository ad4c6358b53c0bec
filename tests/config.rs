use darksky_r::config::{join_path, Config, PersistedConfig};
use darksky_r::context::{ConfigError, Context, Overrides, Setting};

fn no_overrides() -> Overrides {
    Overrides {
        apikey: None,
        loc: None,
        no_history: None,
        tempunit: None,
        visunit: None,
        pressunit: None,
        windunit: None,
        cached: None,
    }
}

fn empty_file() -> PersistedConfig {
    PersistedConfig {
        config_dir: None,
        data_dir: None,
        log_file_name: None,
        cache_file_name: None,
        apikey: None,
        loc: None,
        is_initialized: None,
        updated_from_api: None,
        lastrun: None,
    }
}

fn context() -> Context {
    Context::new("/home/u/.config/darksky-r", "/home/u/.local/share/darksky-r", "/usr/bin/darksky-r", "2020-01-01T00:00:00+00:00")
}

#[test]
fn join_path_cases() {
    assert_eq!(join_path("/a/b", "c.json"), "/a/b/c.json");
    assert_eq!(join_path("/a/b/", "c.json"), "/a/b/c.json");
    assert_eq!(join_path("", "c.json"), "c.json");
    assert_eq!(join_path("/", "c.json"), "/c.json");
}

#[test]
fn defaults_of_a_new_context() {
    let c = context();
    assert_eq!(c.cfg.config_dir, "/home/u/.config/darksky-r");
    assert_eq!(c.cfg.data_dir, "/home/u/.local/share/darksky-r");
    assert_eq!(c.cfg.log_file_name, "/home/u/.local/share/darksky-r/log.log");
    assert_eq!(c.cfg.cache_file_name, "/home/u/.local/share/darksky-r/cache.json");
    assert_eq!(c.cfg.apikey, "FOO");
    assert_eq!(c.cfg.loc, "0000");
    assert!(!c.cfg.is_initialized);
    assert_eq!(c.cfg.updated_from_api, 0);
    assert_eq!(c.cfg.lastrun, "2020-01-01T00:00:00+00:00");
    assert_eq!(c.use_count, 0);
    assert_eq!(c.exe_path, "/usr/bin/darksky-r");
    assert!(!c.json_valid);
    assert_eq!(c.get_config_filename(), "/home/u/.config/darksky-r/conf.json");
    assert_eq!(c.get_log_filename(), "/home/u/.local/share/darksky-r/darksky-r.log");
    assert_eq!(c.get_database_filename(), "/home/u/.local/share/darksky-r/history.sqlite3");
}

#[test]
fn file_fields_replace_defaults_and_missing_ones_keep_them() {
    let mut cfg = Config::defaults("/c", "/d", "now");
    let mut file = empty_file();
    file.apikey = Some("KEY".to_string());
    file.loc = Some("48.2082,16.3738".to_string());
    file.is_initialized = Some(true);
    file.updated_from_api = Some(7);
    cfg.overlay(&file);
    assert_eq!(cfg.apikey, "KEY");
    assert_eq!(cfg.loc, "48.2082,16.3738");
    assert!(cfg.is_initialized);
    assert_eq!(cfg.updated_from_api, 7);
    assert_eq!(cfg.config_dir, "/c");
    assert_eq!(cfg.cache_file_name, "/d/cache.json");
    assert_eq!(cfg.lastrun, "now");
}

#[test]
fn forecast_url_from_key_and_location() {
    let mut cfg = Config::defaults("/c", "/d", "now");
    cfg.apikey = "abc".to_string();
    cfg.loc = "48.2,16.3".to_string();
    assert_eq!(cfg.forecast_url(), "https://api.darksky.net/forecast/abc/48.2,16.3?units=si");
}

#[test]
fn flag_overrides_loaded_temperature_unit() {
    let mut c = context();
    c.data.tempunit = 'C';
    let mut o = no_overrides();
    o.tempunit = Some("F".to_string());
    assert_eq!(c.apply_overrides(&o), Ok(()));
    assert_eq!(c.data.tempunit, 'F');
}

#[test]
fn invalid_flag_changes_nothing() {
    let mut c = context();
    c.data.tempunit = 'C';
    let mut o = no_overrides();
    o.apikey = Some("NEWKEY".to_string());
    o.loc = Some("1,2".to_string());
    o.windunit = Some("knots".to_string());
    o.tempunit = Some("X".to_string());
    assert_eq!(c.apply_overrides(&o), Err(ConfigError::InvalidUnit(Setting::TempUnit)));
    assert_eq!(c.data.tempunit, 'C');
    assert_eq!(c.data.windunit, 'm');
    assert_eq!(c.cfg.apikey, "FOO");
    assert_eq!(c.cfg.loc, "0000");
}

#[test]
fn each_setting_reports_its_own_error() {
    let cases: [(fn(&mut Overrides), Setting); 6] = [
        (|o| o.no_history = Some("maybe".to_string()), Setting::NoHistory),
        (|o| o.tempunit = Some("K".to_string()), Setting::TempUnit),
        (|o| o.visunit = Some("yards".to_string()), Setting::VisUnit),
        (|o| o.pressunit = Some("bar".to_string()), Setting::PressUnit),
        (|o| o.windunit = Some("mps".to_string()), Setting::WindUnit),
        (|o| o.cached = Some("y".to_string()), Setting::Cached),
    ];
    for (set, setting) in cases {
        let mut c = context();
        let mut o = no_overrides();
        set(&mut o);
        assert_eq!(c.apply_overrides(&o), Err(ConfigError::InvalidUnit(setting)));
    }
}

#[test]
fn all_valid_flags_apply() {
    let mut c = context();
    let o = Overrides {
        apikey: Some("K".to_string()),
        loc: Some("1,2".to_string()),
        no_history: Some("true".to_string()),
        tempunit: Some("F".to_string()),
        visunit: Some("miles".to_string()),
        pressunit: Some("inhg".to_string()),
        windunit: Some("km/h".to_string()),
        cached: Some("no".to_string()),
    };
    assert_eq!(c.apply_overrides(&o), Ok(()));
    assert_eq!(c.cfg.apikey, "K");
    assert_eq!(c.cfg.loc, "1,2");
    assert!(!c.data.history);
    assert_eq!(c.data.tempunit, 'F');
    assert_eq!(c.data.visunit, 'm');
    assert_eq!(c.data.pressunit, 'i');
    assert_eq!(c.data.windunit, 'k');
    assert!(!c.data.cached);
    let mut o = no_overrides();
    o.windunit = Some("m/s".to_string());
    o.no_history = Some("false".to_string());
    o.cached = Some("yes".to_string());
    o.pressunit = Some("hpa".to_string());
    o.visunit = Some("km".to_string());
    o.windunit = Some("mph".to_string());
    assert_eq!(c.apply_overrides(&o), Ok(()));
    assert!(c.data.history);
    assert!(c.data.cached);
    assert_eq!(c.data.pressunit, 'h');
    assert_eq!(c.data.visunit, 'k');
    assert_eq!(c.data.windunit, 'm');
    let mut o = no_overrides();
    o.windunit = Some("m/s".to_string());
    assert_eq!(c.apply_overrides(&o), Ok(()));
    assert_eq!(c.data.windunit, 's');
    let mut o = no_overrides();
    o.windunit = Some("knots".to_string());
    assert_eq!(c.apply_overrides(&o), Ok(()));
    assert_eq!(c.data.windunit, 'n');
}

#[test]
fn record_run_sets_timestamp_only() {
    let mut c = context();
    c.record_run("2021-05-05T10:00:00+02:00".to_string());
    assert_eq!(c.cfg.lastrun, "2021-05-05T10:00:00+02:00");
    assert_eq!(c.cfg.apikey, "FOO");
}
