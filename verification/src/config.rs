//! The devices and the general settings that a configuration file declares.
//!
//! A file has one section per device and a reserved section `config` for the
//! settings of the whole process. A device is looked up by name. The name
//! `default` stands for the section of that name or, where the file has none,
//! for the only device section there is.

use vstd::prelude::*;
use vstd::string::StringExecFns;
use crate::ini::Entry;
use crate::ini::Section;
use crate::ini::document_view;
use crate::ini::entries_view;
use crate::ini::ini_document;
use crate::ini::lookup;
use crate::ini::lookup_owned;
use crate::ini::read_document;
use crate::ini::value_of;
use crate::text::parse_bool;
use crate::text::parse_u32;
use crate::text::parse_u64;
use crate::text::text_view;
use crate::text::truth_value;
use crate::text::unsigned_decimal;

verus! {

/// The kind of signing device behind an entry.
#[derive(Debug, Clone, Copy, PartialEq, Eq, Structural)]
pub enum TssType {
    AsignOnline,
    CryptoVision,
}

/// One signing device: where it is reached and with which credentials.
#[derive(Debug, PartialEq, Eq)]
pub struct Config {
    pub name: String,
    pub tss_type: TssType,
    pub scu_url: String,
    pub atrust_vtss_id: Option<String>,
    pub atrust_api_key: Option<String>,
    pub time_admin_id: Option<String>,
    pub time_admin_pwd: Option<String>,
}

/// What a `Config` holds, as plain text.
pub struct ConfigView {
    pub name: Seq<char>,
    pub tss_type: TssType,
    pub scu_url: Seq<char>,
    pub atrust_vtss_id: Option<Seq<char>>,
    pub atrust_api_key: Option<Seq<char>>,
    pub time_admin_id: Option<Seq<char>>,
    pub time_admin_pwd: Option<Seq<char>>,
}

impl View for Config {
    type V = ConfigView;

    open spec fn view(&self) -> ConfigView {
        ConfigView {
            name: self.name@,
            tss_type: self.tss_type,
            scu_url: self.scu_url@,
            atrust_vtss_id: text_view(self.atrust_vtss_id),
            atrust_api_key: text_view(self.atrust_api_key),
            time_admin_id: text_view(self.time_admin_id),
            time_admin_pwd: text_view(self.time_admin_pwd),
        }
    }
}

impl Clone for Config {
    fn clone(&self) -> (c: Config)
        ensures
            c == *self,
    {
        Config {
            name: self.name.clone(),
            tss_type: self.tss_type,
            scu_url: self.scu_url.clone(),
            atrust_vtss_id: self.atrust_vtss_id.clone(),
            atrust_api_key: self.atrust_api_key.clone(),
            time_admin_id: self.time_admin_id.clone(),
            time_admin_pwd: self.time_admin_pwd.clone(),
        }
    }
}

impl Default for Config {
    fn default() -> (c: Config)
        ensures
            c@ == (ConfigView {
                name: Seq::empty(),
                tss_type: TssType::AsignOnline,
                scu_url: Seq::empty(),
                atrust_vtss_id: None,
                atrust_api_key: None,
                time_admin_id: None,
                time_admin_pwd: None,
            }),
    {
        Config {
            name: String::new(),
            tss_type: TssType::AsignOnline,
            scu_url: String::new(),
            atrust_vtss_id: None,
            atrust_api_key: None,
            time_admin_id: None,
            time_admin_pwd: None,
        }
    }
}

/// The settings of the whole process.
#[derive(Debug, PartialEq, Eq)]
pub struct GeneralConfig {
    pub http_proxy: Option<String>,
    pub http_proxy_username: Option<String>,
    pub http_proxy_password: Option<String>,
    pub timeout: u64,
    pub retries: u64,
    pub logging_enabled: bool,
    pub logging_stderr: bool,
    pub logging_file: bool,
    pub log_dir: String,
    pub log_level: String,
    pub log_append: bool,
    pub log_colors: bool,
    pub log_details: bool,
    pub log_stderr_colors: bool,
    pub msg_upload_interval: u64,
    pub max_audit_log_size: u32,
}

/// What a `GeneralConfig` holds, as plain text and numbers.
pub struct GeneralView {
    pub http_proxy: Option<Seq<char>>,
    pub http_proxy_username: Option<Seq<char>>,
    pub http_proxy_password: Option<Seq<char>>,
    pub timeout: u64,
    pub retries: u64,
    pub logging_enabled: bool,
    pub logging_stderr: bool,
    pub logging_file: bool,
    pub log_dir: Seq<char>,
    pub log_level: Seq<char>,
    pub log_append: bool,
    pub log_colors: bool,
    pub log_details: bool,
    pub log_stderr_colors: bool,
    pub msg_upload_interval: u64,
    pub max_audit_log_size: u32,
}

impl View for GeneralConfig {
    type V = GeneralView;

    open spec fn view(&self) -> GeneralView {
        GeneralView {
            http_proxy: text_view(self.http_proxy),
            http_proxy_username: text_view(self.http_proxy_username),
            http_proxy_password: text_view(self.http_proxy_password),
            timeout: self.timeout,
            retries: self.retries,
            logging_enabled: self.logging_enabled,
            logging_stderr: self.logging_stderr,
            logging_file: self.logging_file,
            log_dir: self.log_dir@,
            log_level: self.log_level@,
            log_append: self.log_append,
            log_colors: self.log_colors,
            log_details: self.log_details,
            log_stderr_colors: self.log_stderr_colors,
            msg_upload_interval: self.msg_upload_interval,
            max_audit_log_size: self.max_audit_log_size,
        }
    }
}

/// Milliseconds that a request may take where the file says nothing.
pub const DEFAULT_TIMEOUT_VALUE: u64 = 1_500;

/// Times a request is repeated where the file says nothing.
pub const DEFAULT_NUMBER_OF_RETRIES: u64 = 1;

/// Seconds between two uploads of messages where the file says nothing: one day.
pub const DEFAULT_MSG_UPLOAD_INTERVAL: u64 = 86_400;

/// Largest size of the audit log where the file says nothing.
pub const DEFAULT_MAX_AUDIT_LOG_SIZE: u32 = 128;

/// The name of the configuration file where none was set.
pub open spec fn default_config_file() -> Seq<char> {
    "asigntseonline.conf"@
}

/// The settings of a process that has read no file.
pub open spec fn initial_general() -> GeneralView {
    GeneralView {
        http_proxy: None,
        http_proxy_username: None,
        http_proxy_password: None,
        timeout: DEFAULT_TIMEOUT_VALUE,
        retries: DEFAULT_NUMBER_OF_RETRIES,
        logging_enabled: false,
        logging_stderr: false,
        logging_file: false,
        log_dir: "."@,
        log_level: "trace"@,
        log_append: true,
        log_colors: false,
        log_details: true,
        log_stderr_colors: false,
        msg_upload_interval: DEFAULT_MSG_UPLOAD_INTERVAL,
        max_audit_log_size: DEFAULT_MAX_AUDIT_LOG_SIZE,
    }
}

impl GeneralConfig {
    /// The settings of a process that has read no file.
    pub fn default() -> (g: GeneralConfig)
        ensures
            g@ == initial_general(),
    {
        GeneralConfig {
            logging_enabled: false,
            logging_stderr: false,
            logging_file: false,
            log_dir: String::from_str("."),
            log_level: String::from_str("trace"),
            log_append: true,
            log_colors: false,
            log_details: true,
            log_stderr_colors: false,
            http_proxy: None,
            http_proxy_username: None,
            http_proxy_password: None,
            timeout: DEFAULT_TIMEOUT_VALUE,
            retries: DEFAULT_NUMBER_OF_RETRIES,
            msg_upload_interval: DEFAULT_MSG_UPLOAD_INTERVAL,
            max_audit_log_size: DEFAULT_MAX_AUDIT_LOG_SIZE,
        }
    }
}

impl Clone for GeneralConfig {
    fn clone(&self) -> (g: GeneralConfig)
        ensures
            g == *self,
    {
        GeneralConfig {
            http_proxy: self.http_proxy.clone(),
            http_proxy_username: self.http_proxy_username.clone(),
            http_proxy_password: self.http_proxy_password.clone(),
            timeout: self.timeout,
            retries: self.retries,
            logging_enabled: self.logging_enabled,
            logging_stderr: self.logging_stderr,
            logging_file: self.logging_file,
            log_dir: self.log_dir.clone(),
            log_level: self.log_level.clone(),
            log_append: self.log_append,
            log_colors: self.log_colors,
            log_details: self.log_details,
            log_stderr_colors: self.log_stderr_colors,
            msg_upload_interval: self.msg_upload_interval,
            max_audit_log_size: self.max_audit_log_size,
        }
    }
}

/// Whether a section name is kept for something other than a device of its
/// own: `default` for the default device, `config` for the general settings.
pub open spec fn is_reserved(name: Seq<char>) -> bool {
    name == "default"@ || name == "config"@
}

/// The kind of device that a type code of the file stands for.
pub open spec fn tss_type_of(code: Seq<char>) -> Option<TssType> {
    if code == "1"@ {
        Some(TssType::AsignOnline)
    } else if code == "2"@ {
        Some(TssType::CryptoVision)
    } else {
        None
    }
}

/// The device that the lines of a section declare, under `name`. The lines
/// declare one where they give a known type code and a backend URL.
pub open spec fn device_named(name: Seq<char>, entries: Seq<(Seq<char>, Seq<char>)>) -> Option<
    ConfigView,
> {
    match (value_of(entries, "tss_type"@), value_of(entries, "scu_url"@)) {
        (Some(code), Some(url)) => match tss_type_of(code) {
            Some(tss_type) => Some(
                ConfigView {
                    name,
                    tss_type,
                    scu_url: url,
                    atrust_vtss_id: value_of(entries, "atrust_vtss_id"@),
                    atrust_api_key: value_of(entries, "atrust_api_key"@),
                    time_admin_id: value_of(entries, "time_admin_id"@),
                    time_admin_pwd: value_of(entries, "time_admin_pwd"@),
                },
            ),
            None => None,
        },
        _ => None,
    }
}

/// The name under which the device of a section is looked up: what its `name`
/// line says or, without such a line, the name of the section.
pub open spec fn device_name(section: (Seq<char>, Seq<(Seq<char>, Seq<char>)>)) -> Seq<char> {
    match value_of(section.1, "name"@) {
        Some(name) => name,
        None => section.0,
    }
}

/// The device that a section adds to the table. A reserved section adds none.
pub open spec fn device_of(section: (Seq<char>, Seq<(Seq<char>, Seq<char>)>)) -> Option<ConfigView> {
    if is_reserved(section.0) {
        None
    } else {
        device_named(device_name(section), section.1)
    }
}

/// The last section of a document with the given name.
pub open spec fn section_named(
    doc: Seq<(Seq<char>, Seq<(Seq<char>, Seq<char>)>)>,
    name: Seq<char>,
) -> Option<(Seq<char>, Seq<(Seq<char>, Seq<char>)>)>
    decreases doc.len(),
{
    if doc.len() == 0 {
        None
    } else if doc.last().0 == name {
        Some(doc.last())
    } else {
        section_named(doc.drop_last(), name)
    }
}

/// How many sections of a document are not reserved.
pub open spec fn plain_count(doc: Seq<(Seq<char>, Seq<(Seq<char>, Seq<char>)>)>) -> nat
    decreases doc.len(),
{
    if doc.len() == 0 {
        0
    } else if is_reserved(doc.last().0) {
        plain_count(doc.drop_last())
    } else {
        plain_count(doc.drop_last()) + 1
    }
}

/// The last section of a document that is not reserved.
pub open spec fn last_plain(doc: Seq<(Seq<char>, Seq<(Seq<char>, Seq<char>)>)>) -> Option<
    (Seq<char>, Seq<(Seq<char>, Seq<char>)>),
>
    decreases doc.len(),
{
    if doc.len() == 0 {
        None
    } else if is_reserved(doc.last().0) {
        last_plain(doc.drop_last())
    } else {
        Some(doc.last())
    }
}

/// The section that stands for the default device: the section `default`
/// where there is one; else the only section that is not reserved, where there
/// is exactly one.
pub open spec fn default_section(doc: Seq<(Seq<char>, Seq<(Seq<char>, Seq<char>)>)>) -> Option<
    (Seq<char>, Seq<(Seq<char>, Seq<char>)>),
> {
    match section_named(doc, "default"@) {
        Some(section) => Some(section),
        None => if plain_count(doc) == 1 {
            last_plain(doc)
        } else {
            None
        },
    }
}

/// The default device of a document. It carries the name of its section.
pub open spec fn default_entry(doc: Seq<(Seq<char>, Seq<(Seq<char>, Seq<char>)>)>) -> Option<
    ConfigView,
> {
    match default_section(doc) {
        Some(section) => device_named(section.0, section.1),
        None => None,
    }
}

/// A table after the devices of a document were put into it in the order of
/// the file, a later device replacing an earlier one of the same name.
pub open spec fn with_devices(
    table: Map<Seq<char>, ConfigView>,
    doc: Seq<(Seq<char>, Seq<(Seq<char>, Seq<char>)>)>,
) -> Map<Seq<char>, ConfigView>
    decreases doc.len(),
{
    if doc.len() == 0 {
        table
    } else {
        let earlier = with_devices(table, doc.drop_last());
        match device_of(doc.last()) {
            Some(config) => earlier.insert(config.name, config),
            None => earlier,
        }
    }
}

/// The table of a document: its default device under `default`, then each
/// device under its own name.
pub open spec fn table_of(doc: Seq<(Seq<char>, Seq<(Seq<char>, Seq<char>)>)>) -> Map<
    Seq<char>,
    ConfigView,
> {
    let start = match default_entry(doc) {
        Some(config) => Map::<Seq<char>, ConfigView>::empty().insert("default"@, config),
        None => Map::<Seq<char>, ConfigView>::empty(),
    };
    with_devices(start, doc)
}

/// The truth value that the lines of a section give to `key`, or `default`
/// where they give none or one that cannot be read.
pub open spec fn flag_of(entries: Seq<(Seq<char>, Seq<char>)>, key: Seq<char>, default: bool) -> bool {
    match value_of(entries, key) {
        Some(text) => match truth_value(text) {
            Some(flag) => flag,
            None => default,
        },
        None => default,
    }
}

/// The number of at most `max` that the lines of a section give to `key`, or
/// `default` where they give none or one that cannot be read.
pub open spec fn number_of(
    entries: Seq<(Seq<char>, Seq<char>)>,
    key: Seq<char>,
    max: nat,
    default: nat,
) -> nat {
    match value_of(entries, key) {
        Some(text) => match unsigned_decimal(text, max) {
            Some(number) => number,
            None => default,
        },
        None => default,
    }
}

/// The text that the lines of a section give to `key`, or `default`.
pub open spec fn text_of(entries: Seq<(Seq<char>, Seq<char>)>, key: Seq<char>, default: Seq<char>) -> Seq<
    char,
> {
    match value_of(entries, key) {
        Some(text) => text,
        None => default,
    }
}

/// The general settings that the lines of a `config` section declare.
pub open spec fn general_from(entries: Seq<(Seq<char>, Seq<char>)>) -> GeneralView {
    GeneralView {
        http_proxy: value_of(entries, "http_proxy"@),
        http_proxy_username: value_of(entries, "http_proxy_username"@),
        http_proxy_password: value_of(entries, "http_proxy_password"@),
        timeout: number_of(entries, "timeout"@, u64::MAX as nat, DEFAULT_TIMEOUT_VALUE as nat) as u64,
        retries: number_of(entries, "retries"@, u64::MAX as nat, DEFAULT_NUMBER_OF_RETRIES as nat) as u64,
        logging_enabled: flag_of(entries, "logging_enabled"@, false),
        logging_stderr: flag_of(entries, "logging_stderr"@, false),
        logging_file: flag_of(entries, "logging_file"@, false),
        log_dir: text_of(entries, "log_dir"@, "."@),
        log_level: text_of(entries, "log_level"@, "trace"@),
        log_append: flag_of(entries, "log_append"@, true),
        log_colors: flag_of(entries, "log_colors"@, false),
        log_details: flag_of(entries, "log_details"@, false),
        log_stderr_colors: flag_of(entries, "log_stderr_colors"@, false),
        msg_upload_interval: number_of(
            entries,
            "msg_upload_interval"@,
            u64::MAX as nat,
            DEFAULT_MSG_UPLOAD_INTERVAL as nat,
        ) as u64,
        max_audit_log_size: number_of(
            entries,
            "max_audit_log_size"@,
            u32::MAX as nat,
            DEFAULT_MAX_AUDIT_LOG_SIZE as nat,
        ) as u32,
    }
}

/// The general settings after a document was read: those of its last
/// `config` section or, without such a section, those from before.
pub open spec fn general_of(
    previous: GeneralView,
    doc: Seq<(Seq<char>, Seq<(Seq<char>, Seq<char>)>)>,
) -> GeneralView {
    match section_named(doc, "config"@) {
        Some(section) => general_from(section.1),
        None => previous,
    }
}

/// The sections behind a handle. A missing handle stands for no sections.
pub open spec fn handle_view(ini_handle: Option<&Vec<Section>>) -> Seq<
    (Seq<char>, Seq<(Seq<char>, Seq<char>)>),
> {
    match ini_handle {
        Some(doc) => document_view(doc@),
        None => Seq::empty(),
    }
}

/// The devices of a configuration, each under the name by which it is looked
/// up. No name occurs twice.
#[derive(Debug)]
pub struct ConfigTable {
    entries: Vec<(String, Config)>,
}

impl View for ConfigTable {
    type V = Map<Seq<char>, ConfigView>;

    closed spec fn view(&self) -> Map<Seq<char>, ConfigView> {
        Map::new(
            |name: Seq<char>| self.holds(name),
            |name: Seq<char>| self.entries@[self.position(name)].1@,
        )
    }
}

impl ConfigTable {
    #[verifier::type_invariant]
    spec fn names_distinct(&self) -> bool {
        forall|i: int, j: int|
            0 <= i < j < self.entries@.len() ==> self.entries@[i].0@ != self.entries@[j].0@
    }

    spec fn is_at(&self, name: Seq<char>, i: int) -> bool {
        0 <= i < self.entries@.len() && self.entries@[i].0@ == name
    }

    spec fn holds(&self, name: Seq<char>) -> bool {
        exists|i: int| self.is_at(name, i)
    }

    spec fn position(&self, name: Seq<char>) -> int {
        choose|i: int| self.is_at(name, i)
    }

    /// A table without devices.
    pub fn new() -> (table: ConfigTable)
        ensures
            table@ == Map::<Seq<char>, ConfigView>::empty(),
    {
        let table = ConfigTable { entries: Vec::new() };
        assert(table@ =~= Map::<Seq<char>, ConfigView>::empty()) by {
            assert forall|name: Seq<char>| !table.holds(name) by {
                assert forall|i: int| !table.is_at(name, i) by {}
            }
        }
        table
    }

    /// Whether the table is without devices.
    pub fn is_empty(&self) -> (empty: bool)
        ensures
            empty == (self@ == Map::<Seq<char>, ConfigView>::empty()),
    {
        let empty = self.entries.len() == 0;
        proof {
            if empty {
                assert forall|name: Seq<char>| !self.holds(name) by {
                    assert forall|i: int| !self.is_at(name, i) by {}
                }
                assert(self@ =~= Map::<Seq<char>, ConfigView>::empty());
            } else {
                assert(self.is_at(self.entries@[0].0@, 0));
                assert(self@.contains_key(self.entries@[0].0@));
            }
        }
        empty
    }

    fn find(&self, name: &String) -> (found: Option<usize>)
        ensures
            match found {
                Some(i) => self.is_at(name@, i as int),
                None => !self.holds(name@),
            },
    {
        let mut i: usize = 0;
        while i < self.entries.len()
            invariant
                i <= self.entries.len(),
                forall|j: int| 0 <= j < i ==> self.entries@[j].0@ != name@,
            decreases self.entries.len() - i,
        {
            if self.entries[i].0 == *name {
                return Some(i);
            }
            i = i + 1;
        }
        assert forall|j: int| !self.is_at(name@, j) by {}
        None
    }

    /// The device under `name`, if the table has one.
    pub fn get(&self, name: &str) -> (config: Option<&Config>)
        ensures
            match config {
                Some(c) => self@.contains_key(name@) && self@[name@] == c@,
                None => !self@.contains_key(name@),
            },
    {
        let wanted = String::from_str(name);
        match self.find(&wanted) {
            Some(i) => {
                proof {
                    use_type_invariant(self);
                    assert(self.is_at(name@, self.position(name@)));
                }
                Some(&self.entries[i].1)
            },
            None => None,
        }
    }

    /// Puts `config` under `name`, in place of what was there.
    pub fn insert(&mut self, name: String, config: Config)
        ensures
            final(self)@ == old(self)@.insert(name@, config@),
    {
        proof {
            use_type_invariant(&*self);
        }
        let ghost before = *self;
        let ghost key = name@;
        let ghost value = config@;
        let found = self.find(&name);
        let mut entries: Vec<(String, Config)> = Vec::new();
        core::mem::swap(&mut self.entries, &mut entries);
        match found {
            Some(i) => {
                entries.set(i, (name, config));
            },
            None => {
                entries.push((name, config));
            },
        }
        proof {
            assert forall|j: int| 0 <= j < before.entries@.len() && found is None implies before.entries@[j].0@
                != key by {
                assert(!before.is_at(key, j));
            }
            assert forall|i: int, j: int| 0 <= i < j < entries@.len() implies entries@[i].0@
                != entries@[j].0@ by {}
        }
        core::mem::swap(&mut self.entries, &mut entries);
        proof {
            match found {
                Some(i) => {
                    assert forall|q: Seq<char>, j: int| self.is_at(q, j) <==> before.is_at(q, j) by {}
                    assert forall|q: Seq<char>| self.holds(q) <==> before.holds(q) by {
                        if self.holds(q) {
                            assert(before.is_at(q, self.position(q)));
                        }
                        if before.holds(q) {
                            assert(self.is_at(q, before.position(q)));
                        }
                    }
                    assert(before.is_at(key, i as int));
                    assert forall|q: Seq<char>| #[trigger] self.holds(q) implies self@[q]
                        == before@.insert(key, value)[q] by {
                        assert(self.is_at(q, self.position(q)));
                        assert(before.is_at(q, self.position(q)));
                        assert(before.is_at(q, before.position(q)));
                    }
                },
                None => {
                    let last = before.entries@.len() as int;
                    assert(self.is_at(key, last));
                    assert forall|q: Seq<char>| self.holds(q) <==> (q == key || before.holds(q)) by {
                        if self.holds(q) && q != key {
                            assert(before.is_at(q, self.position(q)));
                        }
                        if before.holds(q) {
                            assert(self.is_at(q, before.position(q)));
                        }
                    }
                    assert forall|q: Seq<char>| #[trigger] self.holds(q) implies self@[q]
                        == before@.insert(key, value)[q] by {
                        assert(self.is_at(q, self.position(q)));
                        if q != key {
                            assert(before.is_at(q, self.position(q)));
                            assert(before.is_at(q, before.position(q)));
                        }
                    }
                },
            }
            assert(self@ =~= before@.insert(key, value));
        }
    }
}

fn tss_type_from(code: &String) -> (tss_type: Option<TssType>)
    ensures
        tss_type == tss_type_of(code@),
{
    if *code == String::from_str("1") {
        Some(TssType::AsignOnline)
    } else if *code == String::from_str("2") {
        Some(TssType::CryptoVision)
    } else {
        None
    }
}

fn device_from(name: String, entries: &Vec<Entry>) -> (device: Option<Config>)
    ensures
        match device {
            Some(config) => device_named(name@, entries_view(entries@)) == Some(config@),
            None => device_named(name@, entries_view(entries@)) is None,
        },
{
    let code = match lookup(entries, "tss_type") {
        Some(code) => code,
        None => return None,
    };
    let scu_url = match lookup(entries, "scu_url") {
        Some(url) => url.clone(),
        None => return None,
    };
    let tss_type = match tss_type_from(code) {
        Some(tss_type) => tss_type,
        None => return None,
    };
    Some(
        Config {
            name,
            tss_type,
            scu_url,
            atrust_vtss_id: lookup_owned(entries, "atrust_vtss_id"),
            atrust_api_key: lookup_owned(entries, "atrust_api_key"),
            time_admin_id: lookup_owned(entries, "time_admin_id"),
            time_admin_pwd: lookup_owned(entries, "time_admin_pwd"),
        },
    )
}

/// The default device of a configuration: the device of the section `default`
/// or, where the file has no such section, of its only device section.
pub fn get_default_entry(ini_handle: Option<&Vec<Section>>) -> (entry: Option<Config>)
    ensures
        match entry {
            Some(config) => default_entry(handle_view(ini_handle)) == Some(config@),
            None => default_entry(handle_view(ini_handle)) is None,
        },
{
    let doc = match ini_handle {
        Some(doc) => doc,
        None => {
            return None;
        },
    };
    let ghost sections = document_view(doc@);
    let default_name = String::from_str("default");
    let config_name = String::from_str("config");
    let mut named: Option<usize> = None;
    let mut plain: usize = 0;
    let mut only: Option<usize> = None;
    let mut i: usize = 0;
    assert(sections.take(0).len() == 0);
    while i < doc.len()
        invariant
            i <= doc.len(),
            sections == document_view(doc@),
            default_name@ == "default"@,
            config_name@ == "config"@,
            plain <= i,
            plain == plain_count(sections.take(i as int)),
            match named {
                Some(k) => k < i && section_named(sections.take(i as int), "default"@) == Some(
                    sections[k as int],
                ),
                None => section_named(sections.take(i as int), "default"@) is None,
            },
            match only {
                Some(k) => k < i && last_plain(sections.take(i as int)) == Some(sections[k as int]),
                None => last_plain(sections.take(i as int)) is None,
            },
        decreases doc.len() - i,
    {
        proof {
            let next = sections.take(i + 1);
            assert(next.drop_last() == sections.take(i as int));
            assert(next.last() == sections[i as int]);
            assert(sections[i as int].0 == doc@[i as int].name@);
        }
        if doc[i].name == default_name {
            named = Some(i);
        } else if !(doc[i].name == config_name) {
            plain = plain + 1;
            only = Some(i);
        }
        i = i + 1;
    }
    assert(sections.take(i as int) == sections);
    let chosen = match named {
        Some(k) => Some(k),
        None => if plain == 1 {
            only
        } else {
            None
        },
    };
    match chosen {
        Some(k) => {
            assert(sections[k as int] == doc@[k as int]@);
            device_from(doc[k].name.clone(), &doc[k].entries)
        },
        None => None,
    }
}

fn flag(entries: &Vec<Entry>, key: &str, default: bool) -> (value: bool)
    ensures
        value == flag_of(entries_view(entries@), key@, default),
{
    match lookup(entries, key) {
        Some(text) => match parse_bool(text.as_str()) {
            Some(value) => value,
            None => default,
        },
        None => default,
    }
}

fn number(entries: &Vec<Entry>, key: &str, default: u64) -> (value: u64)
    ensures
        value == number_of(entries_view(entries@), key@, u64::MAX as nat, default as nat),
{
    match lookup(entries, key) {
        Some(text) => match parse_u64(text.as_str()) {
            Some(value) => value,
            None => default,
        },
        None => default,
    }
}

fn small_number(entries: &Vec<Entry>, key: &str, default: u32) -> (value: u32)
    ensures
        value == number_of(entries_view(entries@), key@, u32::MAX as nat, default as nat),
{
    match lookup(entries, key) {
        Some(text) => match parse_u32(text.as_str()) {
            Some(value) => value,
            None => default,
        },
        None => default,
    }
}

fn text(entries: &Vec<Entry>, key: &str, default: &str) -> (value: String)
    ensures
        value@ == text_of(entries_view(entries@), key@, default@),
{
    match lookup(entries, key) {
        Some(text) => text.clone(),
        None => String::from_str(default),
    }
}

/// Reads the general settings out of the lines of a `config` section. What
/// the lines leave out, or give in a form that cannot be read, gets its
/// default.
pub fn general_from_section(entries: &Vec<Entry>) -> (general: GeneralConfig)
    ensures
        general@ == general_from(entries_view(entries@)),
{
    GeneralConfig {
        http_proxy: lookup_owned(entries, "http_proxy"),
        http_proxy_username: lookup_owned(entries, "http_proxy_username"),
        http_proxy_password: lookup_owned(entries, "http_proxy_password"),
        timeout: number(entries, "timeout", DEFAULT_TIMEOUT_VALUE),
        retries: number(entries, "retries", DEFAULT_NUMBER_OF_RETRIES),
        logging_enabled: flag(entries, "logging_enabled", false),
        logging_stderr: flag(entries, "logging_stderr", false),
        logging_file: flag(entries, "logging_file", false),
        log_dir: text(entries, "log_dir", "."),
        log_level: text(entries, "log_level", "trace"),
        log_append: flag(entries, "log_append", true),
        log_colors: flag(entries, "log_colors", false),
        log_details: flag(entries, "log_details", false),
        log_stderr_colors: flag(entries, "log_stderr_colors", false),
        msg_upload_interval: number(entries, "msg_upload_interval", DEFAULT_MSG_UPLOAD_INTERVAL),
        max_audit_log_size: small_number(entries, "max_audit_log_size", DEFAULT_MAX_AUDIT_LOG_SIZE),
    }
}

/// Builds the table of devices of a configuration and, where the
/// configuration has a `config` section, replaces the general settings by
/// those of that section.
pub fn parse_config(ini_handle: Option<&Vec<Section>>, gconf: &mut GeneralConfig) -> (table:
    ConfigTable)
    ensures
        table@ == table_of(handle_view(ini_handle)),
        final(gconf)@ == general_of(old(gconf)@, handle_view(ini_handle)),
{
    let mut table = ConfigTable::new();
    if let Some(default_cfg) = get_default_entry(ini_handle) {
        table.insert(String::from_str("default"), default_cfg);
    }
    let doc = match ini_handle {
        Some(doc) => doc,
        None => {
            return table;
        },
    };
    let ghost sections = document_view(doc@);
    let ghost start = table@;
    let default_name = String::from_str("default");
    let config_name = String::from_str("config");
    let mut i: usize = 0;
    assert(sections.take(0).len() == 0);
    while i < doc.len()
        invariant
            i <= doc.len(),
            sections == document_view(doc@),
            default_name@ == "default"@,
            config_name@ == "config"@,
            table@ == with_devices(start, sections.take(i as int)),
            gconf@ == general_of(old(gconf)@, sections.take(i as int)),
        decreases doc.len() - i,
    {
        proof {
            let next = sections.take(i + 1);
            assert(next.drop_last() == sections.take(i as int));
            assert(next.last() == sections[i as int]);
            assert(sections[i as int] == doc@[i as int]@);
        }
        let section = &doc[i];
        if section.name == config_name {
            *gconf = general_from_section(&section.entries);
        } else if !(section.name == default_name) {
            let name = match lookup(&section.entries, "name") {
                Some(name) => name.clone(),
                None => section.name.clone(),
            };
            if let Some(config) = device_from(name.clone(), &section.entries) {
                table.insert(name, config);
            }
        }
        i = i + 1;
    }
    assert(sections.take(i as int) == sections);
    table
}

/// The configuration of a process: the file it was read from, what the file
/// held, and the settings and devices that follow from it.
#[derive(Debug)]
pub struct ConfigStore {
    pub config_file: String,
    pub ini: Option<Vec<Section>>,
    pub general: GeneralConfig,
    pub configs: ConfigTable,
}

impl ConfigStore {
    /// The configuration of a process that has read no file yet.
    pub fn new() -> (store: ConfigStore)
        ensures
            store.config_file@ == default_config_file(),
            store.ini is None,
            store.general@ == initial_general(),
            store.configs@ == Map::<Seq<char>, ConfigView>::empty(),
    {
        ConfigStore {
            config_file: String::from_str("asigntseonline.conf"),
            ini: None,
            general: GeneralConfig::default(),
            configs: ConfigTable::new(),
        }
    }

    /// The sections that the store holds. A store without a file holds none.
    pub open spec fn sections(&self) -> Seq<(Seq<char>, Seq<(Seq<char>, Seq<char>)>)> {
        match self.ini {
            Some(doc) => document_view(doc@),
            None => Seq::empty(),
        }
    }

    /// A copy of the general settings as they are now.
    pub fn general_settings(&self) -> (general: GeneralConfig)
        ensures
            general@ == self.general@,
    {
        self.general.clone()
    }

    /// Sets the proxy through which the devices are reached.
    pub fn set_http_proxy(&mut self, proxy_url: String)
        ensures
            final(self).general@ == (GeneralView { http_proxy: Some(proxy_url@), ..old(self).general@ }),
            final(self).config_file == old(self).config_file,
            final(self).ini == old(self).ini,
            final(self).configs == old(self).configs,
    {
        self.general.http_proxy = Some(proxy_url);
    }

    /// Sets the proxy through which the devices are reached, and the name and
    /// password that it asks for.
    pub fn set_http_proxy_with_username_and_password(
        &mut self,
        proxy_url: String,
        proxy_username: String,
        proxy_password: String,
    )
        ensures
            final(self).general@ == (GeneralView {
                http_proxy: Some(proxy_url@),
                http_proxy_username: Some(proxy_username@),
                http_proxy_password: Some(proxy_password@),
                ..old(self).general@
            }),
            final(self).config_file == old(self).config_file,
            final(self).ini == old(self).ini,
            final(self).configs == old(self).configs,
    {
        self.general.http_proxy = Some(proxy_url);
        self.general.http_proxy_username = Some(proxy_username);
        self.general.http_proxy_password = Some(proxy_password);
    }
}

/// Builds the devices and the general settings of a store anew from the
/// sections that it holds.
pub fn set_configs(store: &mut ConfigStore)
    ensures
        final(store).configs@ == table_of(old(store).sections()),
        final(store).general@ == general_of(old(store).general@, old(store).sections()),
        final(store).config_file == old(store).config_file,
        final(store).ini == old(store).ini,
{
    let mut general = store.general.clone();
    let table = match &store.ini {
        Some(doc) => parse_config(Some(doc), &mut general),
        None => parse_config(None, &mut general),
    };
    store.general = general;
    store.configs = table;
}

/// Looks a device up by its name and hands out a copy of it.
pub fn get_tss(store: &ConfigStore, name: &str) -> (config: Option<Config>)
    ensures
        match config {
            Some(c) => store.configs@.contains_key(name@) && store.configs@[name@] == c@,
            None => !store.configs@.contains_key(name@),
        },
{
    match store.configs.get(name) {
        Some(c) => Some(c.clone()),
        None => None,
    }
}

/// Whether the store holds at least one device.
pub fn read_config(store: &ConfigStore) -> (read: bool)
    ensures
        read == (store.configs@ != Map::<Seq<char>, ConfigView>::empty()),
{
    !store.configs.is_empty()
}

/// Makes the sections that were read out of the file at `path` the
/// configuration of the store; a file that could not be read as sections has
/// none.
///
/// With sections, the store takes the path, the sections, the devices that
/// they declare and, from a `config` section, the general settings, and the
/// answer is `true`. The devices from before are gone: no device of the
/// earlier file is left beside those of the new one. Without sections the
/// store stays as it was and the answer is `false`.
pub fn load_document(store: &mut ConfigStore, path: &str, document: Option<Vec<Section>>) -> (loaded:
    bool)
    ensures
        loaded == (document is Some),
        loaded ==> {
            &&& final(store).config_file@ == path@
            &&& final(store).ini == document
            &&& final(store).configs@ == table_of(document_view(document->0@))
            &&& final(store).general@ == general_of(old(store).general@, document_view(document->0@))
        },
        !loaded ==> *final(store) == *old(store),
{
    let doc = match document {
        Some(doc) => doc,
        None => {
            return false;
        },
    };
    store.config_file = String::from_str(path);
    store.ini = Some(doc);
    set_configs(store);
    true
}

/// Loads the configuration file at `path`, whose text is `contents`; a file
/// that could not be read has none.
///
/// Where the text can be read as sections, they become the configuration of
/// the store and the answer is `true`. Where there is no text, or it cannot be
/// read as sections, the store stays as it was and the answer is `false`.
pub fn set_config_file(store: &mut ConfigStore, path: &str, contents: Option<&str>) -> (loaded: bool)
    ensures
        loaded == (contents is Some && ini_document(contents->0@) is Some),
        loaded ==> {
            &&& final(store).config_file@ == path@
            &&& final(store).sections() == ini_document(contents->0@)->0
            &&& final(store).configs@ == table_of(final(store).sections())
            &&& final(store).general@ == general_of(old(store).general@, final(store).sections())
        },
        !loaded ==> *final(store) == *old(store),
{
    let document = match contents {
        Some(text) => read_document(text),
        None => None,
    };
    load_document(store, path, document)
}

/// Whether a section declares a device under `name`.
pub open spec fn declares(section: (Seq<char>, Seq<(Seq<char>, Seq<char>)>), name: Seq<char>) -> bool {
    device_of(section) matches Some(config) && config.name == name
}

proof fn lemma_undeclared_name_is_kept(
    table: Map<Seq<char>, ConfigView>,
    doc: Seq<(Seq<char>, Seq<(Seq<char>, Seq<char>)>)>,
    name: Seq<char>,
)
    requires
        forall|j: int| 0 <= j < doc.len() ==> !declares(#[trigger] doc[j], name),
    ensures
        with_devices(table, doc).contains_key(name) == table.contains_key(name),
        table.contains_key(name) ==> with_devices(table, doc)[name] == table[name],
    decreases doc.len(),
{
    if doc.len() > 0 {
        let earlier = doc.drop_last();
        assert forall|j: int| 0 <= j < earlier.len() implies !declares(#[trigger] earlier[j], name) by {
            assert(earlier[j] == doc[j]);
        }
        lemma_undeclared_name_is_kept(table, earlier, name);
        assert(!declares(doc[doc.len() - 1], name));
    }
}

proof fn lemma_last_declaration_wins(
    table: Map<Seq<char>, ConfigView>,
    doc: Seq<(Seq<char>, Seq<(Seq<char>, Seq<char>)>)>,
    i: int,
)
    requires
        0 <= i < doc.len(),
        device_of(doc[i]) is Some,
        forall|j: int| i < j < doc.len() ==> !declares(#[trigger] doc[j], device_of(doc[i])->0.name),
    ensures
        with_devices(table, doc).contains_key(device_of(doc[i])->0.name),
        with_devices(table, doc)[device_of(doc[i])->0.name] == device_of(doc[i])->0,
    decreases doc.len(),
{
    let name = device_of(doc[i])->0.name;
    if i < doc.len() - 1 {
        let earlier = doc.drop_last();
        assert(earlier[i] == doc[i]);
        assert forall|j: int| i < j < earlier.len() implies !declares(#[trigger] earlier[j], name) by {
            assert(earlier[j] == doc[j]);
        }
        lemma_last_declaration_wins(table, earlier, i);
        assert(!declares(doc[doc.len() - 1], name));
    }
}

/// A device that a section of a loaded file declares is found under its name,
/// with the backend URL that the section gives, unless a later section
/// declares a device of the same name.
pub proof fn lemma_declared_device_resolves(doc: Seq<(Seq<char>, Seq<(Seq<char>, Seq<char>)>)>, i: int)
    requires
        0 <= i < doc.len(),
        device_of(doc[i]) is Some,
        forall|j: int| i < j < doc.len() ==> !declares(#[trigger] doc[j], device_of(doc[i])->0.name),
    ensures
        table_of(doc).contains_key(device_name(doc[i])),
        table_of(doc)[device_name(doc[i])] == device_of(doc[i])->0,
        value_of(doc[i].1, "scu_url"@) == Some(table_of(doc)[device_name(doc[i])].scu_url),
{
    let start = match default_entry(doc) {
        Some(config) => Map::<Seq<char>, ConfigView>::empty().insert("default"@, config),
        None => Map::<Seq<char>, ConfigView>::empty(),
    };
    lemma_last_declaration_wins(start, doc, i);
}

/// The default device of a loaded file is found under `default`, with the
/// backend URL that its section gives, unless a section declares a device of
/// that name.
pub proof fn lemma_default_device_resolves(doc: Seq<(Seq<char>, Seq<(Seq<char>, Seq<char>)>)>)
    requires
        default_entry(doc) is Some,
        forall|j: int| 0 <= j < doc.len() ==> !declares(#[trigger] doc[j], "default"@),
    ensures
        table_of(doc).contains_key("default"@),
        table_of(doc)["default"@] == default_entry(doc)->0,
        default_section(doc) matches Some(section) && value_of(section.1, "scu_url"@) == Some(
            table_of(doc)["default"@].scu_url,
        ),
{
    let start = Map::<Seq<char>, ConfigView>::empty().insert("default"@, default_entry(doc)->0);
    lemma_undeclared_name_is_kept(start, doc, "default"@);
}

/// A name that no section of a loaded file declares a device under is not
/// found. For the name `default` this holds where the file has no default
/// device either.
pub proof fn lemma_undeclared_device_is_absent(
    doc: Seq<(Seq<char>, Seq<(Seq<char>, Seq<char>)>)>,
    name: Seq<char>,
)
    requires
        forall|j: int| 0 <= j < doc.len() ==> !declares(#[trigger] doc[j], name),
        name == "default"@ ==> default_entry(doc) is None,
    ensures
        !table_of(doc).contains_key(name),
{
    let start = match default_entry(doc) {
        Some(config) => Map::<Seq<char>, ConfigView>::empty().insert("default"@, config),
        None => Map::<Seq<char>, ConfigView>::empty(),
    };
    lemma_undeclared_name_is_kept(start, doc, name);
}

/// Every device of the table of a file is declared by that file: by one of
/// its sections or, under `default`, as its default device. After a reload no
/// device of an earlier file is left.
pub proof fn lemma_every_device_is_declared(
    doc: Seq<(Seq<char>, Seq<(Seq<char>, Seq<char>)>)>,
    name: Seq<char>,
)
    requires
        table_of(doc).contains_key(name),
    ensures
        (name == "default"@ && default_entry(doc) is Some) || (exists|j: int|
            0 <= j < doc.len() && declares(#[trigger] doc[j], name)),
{
    if !(name == "default"@ && default_entry(doc) is Some) && !(exists|j: int|
        0 <= j < doc.len() && declares(#[trigger] doc[j], name)) {
        lemma_undeclared_device_is_absent(doc, name);
    }
}

} // verus!
