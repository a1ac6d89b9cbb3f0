use middleware_wrapper_atrust::config::general_from_section;
use middleware_wrapper_atrust::config::get_default_entry;
use middleware_wrapper_atrust::config::get_tss;
use middleware_wrapper_atrust::config::parse_config;
use middleware_wrapper_atrust::config::read_config;
use middleware_wrapper_atrust::config::set_config_file;
use middleware_wrapper_atrust::config::set_configs;
use middleware_wrapper_atrust::config::Config;
use middleware_wrapper_atrust::config::ConfigStore;
use middleware_wrapper_atrust::config::ConfigTable;
use middleware_wrapper_atrust::config::GeneralConfig;
use middleware_wrapper_atrust::config::TssType;
use middleware_wrapper_atrust::config::DEFAULT_MAX_AUDIT_LOG_SIZE;
use middleware_wrapper_atrust::config::DEFAULT_MSG_UPLOAD_INTERVAL;
use middleware_wrapper_atrust::config::DEFAULT_NUMBER_OF_RETRIES;
use middleware_wrapper_atrust::config::DEFAULT_TIMEOUT_VALUE;
use middleware_wrapper_atrust::ini::lookup;
use middleware_wrapper_atrust::ini::lookup_owned;
use middleware_wrapper_atrust::ini::Entry;
use middleware_wrapper_atrust::ini::Section;

fn entry(key: &str, value: &str) -> Entry {
    Entry { key: String::from(key), value: String::from(value) }
}

fn section(name: &str, entries: Vec<Entry>) -> Section {
    Section { name: String::from(name), entries }
}

fn device(name: &str, tss_type: &str, scu_url: &str) -> Section {
    section(name, vec![entry("tss_type", tss_type), entry("scu_url", scu_url)])
}

fn loaded(text: &str) -> ConfigStore {
    let mut store = ConfigStore::new();
    assert!(set_config_file(&mut store, "test.conf", Some(text)));
    store
}

#[test]
fn the_defaults_have_their_values() {
    assert_eq!(DEFAULT_TIMEOUT_VALUE, 1500);
    assert_eq!(DEFAULT_NUMBER_OF_RETRIES, 1);
    assert_eq!(DEFAULT_MSG_UPLOAD_INTERVAL, 60 * 60 * 24);
    assert_eq!(DEFAULT_MAX_AUDIT_LOG_SIZE, 128);
    let general = GeneralConfig::default();
    assert_eq!(general.http_proxy, None);
    assert_eq!(general.http_proxy_username, None);
    assert_eq!(general.http_proxy_password, None);
    assert_eq!(general.timeout, 1500);
    assert_eq!(general.retries, 1);
    assert!(!general.logging_enabled);
    assert!(!general.logging_stderr);
    assert!(!general.logging_file);
    assert_eq!(general.log_dir, ".");
    assert_eq!(general.log_level, "trace");
    assert!(general.log_append);
    assert!(!general.log_colors);
    assert!(general.log_details);
    assert!(!general.log_stderr_colors);
    assert_eq!(general.msg_upload_interval, 86_400);
    assert_eq!(general.max_audit_log_size, 128);
    let config = Config::default();
    assert_eq!(config.name, "");
    assert_eq!(config.tss_type, TssType::AsignOnline);
    assert_eq!(config.scu_url, "");
    assert_eq!(config.atrust_vtss_id, None);
    assert_eq!(config.atrust_api_key, None);
    assert_eq!(config.time_admin_id, None);
    assert_eq!(config.time_admin_pwd, None);
}

#[test]
fn a_fresh_store_has_no_devices() {
    let store = ConfigStore::new();
    assert!(!read_config(&store));
    assert!(get_tss(&store, "default").is_none());
    assert_eq!(store.config_file, "asigntseonline.conf");
    assert!(store.ini.is_none());
    assert_eq!(store.general_settings(), GeneralConfig::default());
}

#[test]
fn a_declared_default_device_is_resolved() {
    let store = loaded("[default]\ntss_type = 1\nscu_url = http://scu.local\n");
    assert!(read_config(&store));
    assert_eq!(store.config_file, "test.conf");
    let config = get_tss(&store, "default").unwrap();
    assert_eq!(config.name, "default");
    assert_eq!(config.scu_url, "http://scu.local");
    assert_eq!(config.tss_type, TssType::AsignOnline);
    assert_eq!(config.atrust_vtss_id, None);
    assert!(get_tss(&store, "other").is_none());
    assert!(get_tss(&store, "").is_none());
    assert!(get_tss(&store, "Default").is_none());
}

#[test]
fn every_declared_device_resolves_to_its_url() {
    let text = "\
[config]
timeout = 20
[default]
tss_type = 1
scu_url = http://default.local
[tse1]
tss_type = 1
scu_url = http://one.local
atrust_vtss_id = vtss-1
atrust_api_key = key-1
time_admin_id = admin
time_admin_pwd = secret
[tse2]
tss_type = 2
scu_url = https://two.local:8443/scu
";
    let store = loaded(text);
    let default = get_tss(&store, "default").unwrap();
    assert_eq!(default.scu_url, "http://default.local");
    let one = get_tss(&store, "tse1").unwrap();
    assert_eq!(one.name, "tse1");
    assert_eq!(one.scu_url, "http://one.local");
    assert_eq!(one.tss_type, TssType::AsignOnline);
    assert_eq!(one.atrust_vtss_id, Some(String::from("vtss-1")));
    assert_eq!(one.atrust_api_key, Some(String::from("key-1")));
    assert_eq!(one.time_admin_id, Some(String::from("admin")));
    assert_eq!(one.time_admin_pwd, Some(String::from("secret")));
    let two = get_tss(&store, "tse2").unwrap();
    assert_eq!(two.scu_url, "https://two.local:8443/scu");
    assert_eq!(two.tss_type, TssType::CryptoVision);
    assert!(get_tss(&store, "tse3").is_none());
    assert!(get_tss(&store, "config").is_none());
    assert_eq!(store.general.timeout, 20);
}

#[test]
fn the_only_device_section_is_the_default() {
    let store = loaded("[tse1]\ntss_type = 2\nscu_url = http://one.local\n");
    let default = get_tss(&store, "default").unwrap();
    assert_eq!(default.name, "tse1");
    assert_eq!(default.scu_url, "http://one.local");
    assert_eq!(default.tss_type, TssType::CryptoVision);
    let one = get_tss(&store, "tse1").unwrap();
    assert_eq!(one.name, "tse1");
    assert_eq!(one.scu_url, "http://one.local");
}

#[test]
fn the_config_section_does_not_count_as_a_device_section() {
    let store = loaded("[config]\nretries = 3\n[tse1]\ntss_type = 1\nscu_url = http://one.local\n");
    let default = get_tss(&store, "default").unwrap();
    assert_eq!(default.name, "tse1");
    assert_eq!(default.scu_url, "http://one.local");
    assert_eq!(store.general.retries, 3);
}

#[test]
fn two_device_sections_give_no_default() {
    let text = "[a]\ntss_type = 1\nscu_url = http://a.local\n[b]\ntss_type = 1\nscu_url = http://b.local\n";
    let store = loaded(text);
    assert!(get_tss(&store, "default").is_none());
    assert_eq!(get_tss(&store, "a").unwrap().scu_url, "http://a.local");
    assert_eq!(get_tss(&store, "b").unwrap().scu_url, "http://b.local");
}

#[test]
fn an_explicit_default_wins_over_the_only_device_section() {
    let text = "[tse1]\ntss_type = 1\nscu_url = http://one.local\n[default]\ntss_type = 2\nscu_url = http://d.local\n";
    let store = loaded(text);
    let default = get_tss(&store, "default").unwrap();
    assert_eq!(default.name, "default");
    assert_eq!(default.scu_url, "http://d.local");
    assert_eq!(default.tss_type, TssType::CryptoVision);
}

#[test]
fn a_default_section_that_declares_no_device_gives_no_default() {
    let text = "[default]\nscu_url = http://d.local\n[tse1]\ntss_type = 1\nscu_url = http://one.local\n";
    let store = loaded(text);
    assert!(get_tss(&store, "default").is_none());
    assert!(get_tss(&store, "tse1").is_some());
}

#[test]
fn an_entry_needs_a_known_type_and_a_url() {
    let text = "\
[no_type]
scu_url = http://a.local
[no_url]
tss_type = 1
[other_type]
tss_type = 3
scu_url = http://c.local
[empty_type]
tss_type =
scu_url = http://d.local
[good]
tss_type = 1
scu_url = http://e.local
[also_good]
tss_type = 2
scu_url = http://f.local
";
    let store = loaded(text);
    assert!(get_tss(&store, "no_type").is_none());
    assert!(get_tss(&store, "no_url").is_none());
    assert!(get_tss(&store, "other_type").is_none());
    assert!(get_tss(&store, "empty_type").is_none());
    assert!(get_tss(&store, "good").is_some());
    assert!(get_tss(&store, "also_good").is_some());
    assert!(get_tss(&store, "default").is_none());
}

#[test]
fn a_name_line_sets_the_name_of_the_device() {
    let text = "[section]\nname = kasse\ntss_type = 1\nscu_url = http://k.local\n[x]\ntss_type = 1\nscu_url = http://x.local\n";
    let store = loaded(text);
    assert!(get_tss(&store, "section").is_none());
    let config = get_tss(&store, "kasse").unwrap();
    assert_eq!(config.name, "kasse");
    assert_eq!(config.scu_url, "http://k.local");
}

#[test]
fn a_later_device_of_the_same_name_replaces_the_earlier() {
    let text = "[a]\ntss_type = 1\nscu_url = http://first.local\n[b]\nname = a\ntss_type = 2\nscu_url = http://second.local\n";
    let store = loaded(text);
    let config = get_tss(&store, "a").unwrap();
    assert_eq!(config.scu_url, "http://second.local");
    assert_eq!(config.tss_type, TssType::CryptoVision);
    assert!(get_tss(&store, "b").is_none());
}

#[test]
fn a_device_named_default_replaces_the_default_device() {
    let text = "[default]\ntss_type = 1\nscu_url = http://d.local\n[x]\nname = default\ntss_type = 1\nscu_url = http://x.local\n";
    let store = loaded(text);
    assert_eq!(get_tss(&store, "default").unwrap().scu_url, "http://x.local");
}

#[test]
fn the_general_settings_are_read_from_the_config_section() {
    let text = "\
[config]
http_proxy = http://proxy.local:3128
http_proxy_username = user
http_proxy_password = pass
timeout = 3000
retries = 5
logging_enabled = true
logging_stderr = true
logging_file = true
log_dir = /var/log/tse
log_level = info
log_append = false
log_colors = true
log_details = true
log_stderr_colors = true
msg_upload_interval = 600
max_audit_log_size = 256
";
    let store = loaded(text);
    let general = store.general_settings();
    assert_eq!(general.http_proxy, Some(String::from("http://proxy.local:3128")));
    assert_eq!(general.http_proxy_username, Some(String::from("user")));
    assert_eq!(general.http_proxy_password, Some(String::from("pass")));
    assert_eq!(general.timeout, 3000);
    assert_eq!(general.retries, 5);
    assert!(general.logging_enabled);
    assert!(general.logging_stderr);
    assert!(general.logging_file);
    assert_eq!(general.log_dir, "/var/log/tse");
    assert_eq!(general.log_level, "info");
    assert!(!general.log_append);
    assert!(general.log_colors);
    assert!(general.log_details);
    assert!(general.log_stderr_colors);
    assert_eq!(general.msg_upload_interval, 600);
    assert_eq!(general.max_audit_log_size, 256);
    assert!(!read_config(&store));
}

#[test]
fn a_config_section_gives_defaults_to_what_it_leaves_out() {
    let general = general_from_section(&vec![entry("log_level", "debug")]);
    assert_eq!(general.http_proxy, None);
    assert_eq!(general.timeout, 1500);
    assert_eq!(general.retries, 1);
    assert!(!general.logging_enabled);
    assert_eq!(general.log_dir, ".");
    assert_eq!(general.log_level, "debug");
    assert!(general.log_append);
    assert!(!general.log_colors);
    assert!(!general.log_details);
    assert!(!general.log_stderr_colors);
    assert_eq!(general.msg_upload_interval, 86_400);
    assert_eq!(general.max_audit_log_size, 128);
}

#[test]
fn a_setting_that_cannot_be_read_gets_its_default() {
    let entries = vec![
        entry("timeout", "soon"),
        entry("retries", "-1"),
        entry("msg_upload_interval", "18446744073709551616"),
        entry("max_audit_log_size", "4294967296"),
        entry("logging_enabled", "yes"),
        entry("logging_stderr", "TRUE"),
        entry("logging_file", "1"),
        entry("log_append", "no"),
        entry("log_colors", " true"),
    ];
    let general = general_from_section(&entries);
    assert_eq!(general.timeout, 1500);
    assert_eq!(general.retries, 1);
    assert_eq!(general.msg_upload_interval, 86_400);
    assert_eq!(general.max_audit_log_size, 128);
    assert!(!general.logging_enabled);
    assert!(!general.logging_stderr);
    assert!(!general.logging_file);
    assert!(general.log_append);
    assert!(!general.log_colors);
}

#[test]
fn numbers_are_read_at_their_limits() {
    let entries = vec![
        entry("timeout", "18446744073709551615"),
        entry("retries", "+7"),
        entry("msg_upload_interval", "0"),
        entry("max_audit_log_size", "4294967295"),
    ];
    let general = general_from_section(&entries);
    assert_eq!(general.timeout, u64::MAX);
    assert_eq!(general.retries, 7);
    assert_eq!(general.msg_upload_interval, 0);
    assert_eq!(general.max_audit_log_size, u32::MAX);
    let odd = vec![entry("timeout", "+"), entry("retries", ""), entry("msg_upload_interval", "007")];
    let general = general_from_section(&odd);
    assert_eq!(general.timeout, 1500);
    assert_eq!(general.retries, 1);
    assert_eq!(general.msg_upload_interval, 7);
}

#[test]
fn a_file_without_config_section_keeps_the_general_settings() {
    let mut store = loaded("[config]\ntimeout = 99\n[a]\ntss_type = 1\nscu_url = http://a.local\n");
    assert_eq!(store.general.timeout, 99);
    assert!(set_config_file(&mut store, "next.conf", Some("[b]\ntss_type = 1\nscu_url = http://b.local\n")));
    assert_eq!(store.general.timeout, 99);
    assert_eq!(store.config_file, "next.conf");
}

#[test]
fn a_reload_leaves_nothing_of_the_earlier_file() {
    let mut store = loaded("[a]\ntss_type = 1\nscu_url = http://a.local\n[b]\ntss_type = 1\nscu_url = http://b.local\n");
    assert!(get_tss(&store, "a").is_some());
    assert!(get_tss(&store, "b").is_some());
    assert!(set_config_file(&mut store, "next.conf", Some("[c]\ntss_type = 1\nscu_url = http://c.local\n")));
    assert!(get_tss(&store, "a").is_none());
    assert!(get_tss(&store, "b").is_none());
    assert_eq!(get_tss(&store, "c").unwrap().scu_url, "http://c.local");
    assert_eq!(get_tss(&store, "default").unwrap().scu_url, "http://c.local");
}

#[test]
fn a_file_that_cannot_be_read_leaves_the_store_as_it_was() {
    let mut store = loaded("[config]\ntimeout = 99\n[a]\ntss_type = 1\nscu_url = http://a.local\n");
    assert!(!set_config_file(&mut store, "missing.conf", None));
    assert!(!set_config_file(&mut store, "broken.conf", Some("[a]\nthis line is neither\n")));
    assert!(!set_config_file(&mut store, "broken.conf", Some("[unclosed\n")));
    assert!(!set_config_file(&mut store, "broken.conf", Some("[a]\n= value without key\n")));
    assert_eq!(store.config_file, "test.conf");
    assert_eq!(store.general.timeout, 99);
    assert_eq!(get_tss(&store, "a").unwrap().scu_url, "http://a.local");
    assert!(read_config(&store));
}

#[test]
fn an_empty_file_is_a_file_without_devices() {
    let mut store = loaded("[a]\ntss_type = 1\nscu_url = http://a.local\n");
    assert!(set_config_file(&mut store, "empty.conf", Some("")));
    assert!(!read_config(&store));
    assert!(get_tss(&store, "a").is_none());
    assert_eq!(store.config_file, "empty.conf");
}

#[test]
fn comments_and_blanks_are_passed_over() {
    let text = "; a comment\n\n# another\n[tse1] ; the first\n  tss_type = 1   \nscu_url=http://one.local # where it is\n";
    let store = loaded(text);
    let config = get_tss(&store, "tse1").unwrap();
    assert_eq!(config.scu_url, "http://one.local");
    assert_eq!(config.tss_type, TssType::AsignOnline);
}

#[test]
fn a_later_line_replaces_an_earlier_line_of_the_same_key() {
    let store = loaded("[a]\ntss_type = 1\nscu_url = http://first.local\nscu_url = http://second.local\n");
    assert_eq!(get_tss(&store, "a").unwrap().scu_url, "http://second.local");
    let entries = vec![entry("k", "1"), entry("other", "x"), entry("k", "2")];
    assert_eq!(lookup(&entries, "k"), Some(&String::from("2")));
    assert_eq!(lookup_owned(&entries, "other"), Some(String::from("x")));
    assert_eq!(lookup(&entries, "missing"), None);
    assert_eq!(lookup(&Vec::new(), "k"), None);
}

#[test]
fn the_table_holds_one_device_under_each_name() {
    let mut table = ConfigTable::new();
    assert!(table.is_empty());
    assert!(table.get("a").is_none());
    let mut first = Config::default();
    first.scu_url = String::from("http://first.local");
    table.insert(String::from("a"), first);
    assert!(!table.is_empty());
    assert_eq!(table.get("a").unwrap().scu_url, "http://first.local");
    let mut second = Config::default();
    second.scu_url = String::from("http://second.local");
    table.insert(String::from("b"), second);
    let mut third = Config::default();
    third.scu_url = String::from("http://third.local");
    table.insert(String::from("a"), third);
    assert_eq!(table.get("a").unwrap().scu_url, "http://third.local");
    assert_eq!(table.get("b").unwrap().scu_url, "http://second.local");
    assert!(table.get("c").is_none());
}

#[test]
fn sections_are_parsed_without_a_file() {
    let doc = vec![
        section("config", vec![entry("retries", "9"), entry("tss_type", "1"), entry("scu_url", "http://c.local")]),
        device("tse1", "1", "http://one.local"),
    ];
    let mut general = GeneralConfig::default();
    let table = parse_config(Some(&doc), &mut general);
    assert_eq!(general.retries, 9);
    assert!(!general.log_details);
    assert!(table.get("config").is_none());
    assert_eq!(table.get("tse1").unwrap().scu_url, "http://one.local");
    assert_eq!(table.get("default").unwrap().scu_url, "http://one.local");
    assert_eq!(get_default_entry(Some(&doc)).unwrap().name, "tse1");
    assert!(get_default_entry(None).is_none());
    assert!(get_default_entry(Some(&Vec::new())).is_none());
    let mut untouched = GeneralConfig::default();
    untouched.timeout = 5;
    let empty = parse_config(None, &mut untouched);
    assert!(empty.is_empty());
    assert_eq!(untouched.timeout, 5);
}

#[test]
fn the_store_is_rebuilt_from_its_sections() {
    let mut store = ConfigStore::new();
    store.ini = Some(vec![device("tse1", "2", "http://one.local")]);
    assert!(!read_config(&store));
    set_configs(&mut store);
    assert!(read_config(&store));
    assert_eq!(get_tss(&store, "tse1").unwrap().tss_type, TssType::CryptoVision);
    store.ini = None;
    set_configs(&mut store);
    assert!(!read_config(&store));
}

#[test]
fn the_proxy_is_set_in_the_general_settings() {
    let mut store = loaded("[config]\ntimeout = 7\n[a]\ntss_type = 1\nscu_url = http://a.local\n");
    store.set_http_proxy(String::from("http://proxy.local"));
    assert_eq!(store.general.http_proxy, Some(String::from("http://proxy.local")));
    assert_eq!(store.general.http_proxy_username, None);
    assert_eq!(store.general.timeout, 7);
    store.set_http_proxy_with_username_and_password(
        String::from("https://other.local"),
        String::from("user"),
        String::from("pass"),
    );
    assert_eq!(store.general.http_proxy, Some(String::from("https://other.local")));
    assert_eq!(store.general.http_proxy_username, Some(String::from("user")));
    assert_eq!(store.general.http_proxy_password, Some(String::from("pass")));
    assert_eq!(store.general.timeout, 7);
    assert!(get_tss(&store, "a").is_some());
}

#[test]
fn sections_become_the_configuration() {
    let mut store = loaded("[config]\ntimeout = 99\n[a]\ntss_type = 1\nscu_url = http://a.local\n");
    assert!(!middleware_wrapper_atrust::config::load_document(&mut store, "none.conf", None));
    assert_eq!(store.config_file, "test.conf");
    assert!(get_tss(&store, "a").is_some());
    let doc = vec![device("b", "2", "http://b.local")];
    assert!(middleware_wrapper_atrust::config::load_document(&mut store, "b.conf", Some(doc)));
    assert_eq!(store.config_file, "b.conf");
    assert!(get_tss(&store, "a").is_none());
    assert_eq!(get_tss(&store, "b").unwrap().scu_url, "http://b.local");
    assert_eq!(get_tss(&store, "default").unwrap().name, "b");
    assert_eq!(store.general.timeout, 99);
    assert_eq!(store.ini.as_ref().unwrap().len(), 1);
}
