//! The settings of one run.
//!
//! They come from a TOML document with these keys: `vet_components` and
//! `ignore_local_packages` at the top; `url`, `path`, `fetch` and `stale` in
//! the table `database`; `quiet` in the table `output`. Every key may be
//! left out. The document is read by `toml`, key by key, into an [`Entry`]
//! each; this module says what the settings are then.

use vstd::prelude::*;

verus! {

/// The settings of one run, fixed before any component is looked at.
pub struct AuditConfiguration {
    /// Where the advisory database is fetched from; `None` for the default.
    pub database_url: Option<String>,
    /// Where the advisory database is kept on disk; `None` for the default.
    pub database_path: Option<String>,
    /// Whether the database is fetched before the audit, or opened as it is.
    pub fetch: bool,
    /// Whether a database that has not been updated for long is accepted.
    pub stale: bool,
    /// Whether progress messages are left out.
    pub quiet: bool,
    /// Whether a component that is not vetted fails its audit.
    pub require_vet: bool,
    /// Whether packages that came from no registry are let through.
    pub ignore_local_packages: bool,
}

impl Default for AuditConfiguration {
    /// The settings of an empty document: the default database, fetched
    /// afresh and announced, vetting not required, local packages not
    /// tolerated.
    fn default() -> (config: AuditConfiguration)
        ensures
            config.database_url is None,
            config.database_path is None,
            config.fetch,
            !config.stale,
            !config.quiet,
            !config.require_vet,
            !config.ignore_local_packages,
    {
        AuditConfiguration {
            database_url: None,
            database_path: None,
            fetch: true,
            stale: false,
            quiet: false,
            require_vet: false,
            ignore_local_packages: false,
        }
    }
}

/// What a document holds under one key.
pub enum Entry {
    /// The key is not there.
    Absent,
    /// A boolean.
    Flag(bool),
    /// A string.
    Text(String),
    /// A value of any other type.
    Other,
}

/// What an [`Entry`] holds, as mathematical values.
pub enum EntryModel {
    Absent,
    Flag(bool),
    Text(Seq<char>),
    Other,
}

impl View for Entry {
    type V = EntryModel;

    open spec fn view(&self) -> EntryModel {
        match *self {
            Entry::Absent => EntryModel::Absent,
            Entry::Flag(flag) => EntryModel::Flag(flag),
            Entry::Text(text) => EntryModel::Text(text@),
            Entry::Other => EntryModel::Other,
        }
    }
}

/// The keys of the document.
#[derive(Clone, Copy, Debug, PartialEq, Eq, Structural)]
pub enum Key {
    VetComponents,
    IgnoreLocalPackages,
    DatabaseUrl,
    DatabasePath,
    DatabaseFetch,
    DatabaseStale,
    OutputQuiet,
}

/// The name of the table that holds a key, `None` for a key at the top of
/// the document.
pub open spec fn table_name(key: Key) -> Option<Seq<char>> {
    match key {
        Key::VetComponents | Key::IgnoreLocalPackages => None,
        Key::DatabaseUrl | Key::DatabasePath | Key::DatabaseFetch | Key::DatabaseStale => Some(
            "database"@,
        ),
        Key::OutputQuiet => Some("output"@),
    }
}

/// The name of a key inside its table.
pub open spec fn key_name(key: Key) -> Seq<char> {
    match key {
        Key::VetComponents => "vet_components"@,
        Key::IgnoreLocalPackages => "ignore_local_packages"@,
        Key::DatabaseUrl => "url"@,
        Key::DatabasePath => "path"@,
        Key::DatabaseFetch => "fetch"@,
        Key::DatabaseStale => "stale"@,
        Key::OutputQuiet => "quiet"@,
    }
}

impl Key {
    /// The table that holds the key, or `None` for a key at the top of the
    /// document.
    pub fn table(self) -> (name: Option<&'static str>)
        ensures
            match name {
                Some(name) => table_name(self) == Some(name@),
                None => table_name(self) is None,
            },
    {
        match self {
            Key::VetComponents | Key::IgnoreLocalPackages => None,
            Key::DatabaseUrl | Key::DatabasePath | Key::DatabaseFetch | Key::DatabaseStale => {
                Some("database")
            },
            Key::OutputQuiet => Some("output"),
        }
    }

    /// The name of the key inside its table.
    pub fn name(self) -> (name: &'static str)
        ensures
            name@ == key_name(self),
    {
        match self {
            Key::VetComponents => "vet_components",
            Key::IgnoreLocalPackages => "ignore_local_packages",
            Key::DatabaseUrl => "url",
            Key::DatabasePath => "path",
            Key::DatabaseFetch => "fetch",
            Key::DatabaseStale => "stale",
            Key::OutputQuiet => "quiet",
        }
    }
}

/// What a document holds under each of its keys.
pub struct Entries {
    pub vet_components: Entry,
    pub ignore_local_packages: Entry,
    pub database_url: Entry,
    pub database_path: Entry,
    pub database_fetch: Entry,
    pub database_stale: Entry,
    pub output_quiet: Entry,
}

/// What [`Entries`] hold, as mathematical values.
pub struct EntriesModel {
    pub vet_components: EntryModel,
    pub ignore_local_packages: EntryModel,
    pub database_url: EntryModel,
    pub database_path: EntryModel,
    pub database_fetch: EntryModel,
    pub database_stale: EntryModel,
    pub output_quiet: EntryModel,
}

impl View for Entries {
    type V = EntriesModel;

    open spec fn view(&self) -> EntriesModel {
        EntriesModel {
            vet_components: self.vet_components@,
            ignore_local_packages: self.ignore_local_packages@,
            database_url: self.database_url@,
            database_path: self.database_path@,
            database_fetch: self.database_fetch@,
            database_stale: self.database_stale@,
            output_quiet: self.output_quiet@,
        }
    }
}

/// Why a document gives no settings.
#[derive(Clone, Copy, Debug, PartialEq, Eq, Structural)]
pub enum ConfigError {
    /// The document is not TOML.
    Syntax,
    /// The key must hold a boolean and holds something else.
    NotAFlag(Key),
    /// The key must hold a string and holds something else.
    NotText(Key),
}

/// `toml::de::Error`: why a text is not TOML.
#[verifier::external_type_specification]
#[verifier::external_body]
pub struct ExTomlError(toml::de::Error);

/// What `toml` finds under `key` at the top of `document`: `None` where the
/// text is not TOML, else the entry.
pub uninterp spec fn toml_entry(document: Seq<char>, key: Seq<char>) -> Option<EntryModel>;

/// What `toml` finds under `key` in the table `table` of `document`: `None`
/// where the text is not TOML, else the entry, which is absent also where
/// `table` is missing or is no table.
pub uninterp spec fn toml_table_entry(
    document: Seq<char>,
    table: Seq<char>,
    key: Seq<char>,
) -> Option<EntryModel>;

/// What a document holds under one of its keys, `None` where the text is
/// not TOML.
pub open spec fn entry_in(document: Seq<char>, key: Key) -> Option<EntryModel> {
    match table_name(key) {
        None => toml_entry(document, key_name(key)),
        Some(table) => toml_table_entry(document, table, key_name(key)),
    }
}

/// What a document holds under each of its keys, `None` where the text is
/// not TOML.
pub open spec fn entries_in(document: Seq<char>) -> Option<EntriesModel> {
    if entry_in(document, Key::VetComponents) is Some && entry_in(
        document,
        Key::IgnoreLocalPackages,
    ) is Some && entry_in(document, Key::DatabaseUrl) is Some && entry_in(
        document,
        Key::DatabasePath,
    ) is Some && entry_in(document, Key::DatabaseFetch) is Some && entry_in(
        document,
        Key::DatabaseStale,
    ) is Some && entry_in(document, Key::OutputQuiet) is Some {
        Some(
            EntriesModel {
                vet_components: entry_in(document, Key::VetComponents)->0,
                ignore_local_packages: entry_in(document, Key::IgnoreLocalPackages)->0,
                database_url: entry_in(document, Key::DatabaseUrl)->0,
                database_path: entry_in(document, Key::DatabasePath)->0,
                database_fetch: entry_in(document, Key::DatabaseFetch)->0,
                database_stale: entry_in(document, Key::DatabaseStale)->0,
                output_quiet: entry_in(document, Key::OutputQuiet)->0,
            },
        )
    } else {
        None
    }
}

/// Whether an entry can stand for a boolean setting.
pub open spec fn is_flag_entry(entry: EntryModel) -> bool {
    entry is Absent || entry is Flag
}

/// Whether an entry can stand for a string setting.
pub open spec fn is_text_entry(entry: EntryModel) -> bool {
    entry is Absent || entry is Text
}

/// The boolean that an entry stands for: its own, or the default.
pub open spec fn flag_of(entry: EntryModel, default: bool) -> bool {
    match entry {
        EntryModel::Flag(flag) => flag,
        _ => default,
    }
}

/// The string that an entry stands for, if it holds one.
pub open spec fn text_of(entry: EntryModel) -> Option<Seq<char>> {
    match entry {
        EntryModel::Text(text) => Some(text),
        _ => None,
    }
}

/// The first key, in the order of [`Key`], whose entry is of the wrong type.
pub open spec fn first_fault(entries: EntriesModel) -> Option<ConfigError> {
    if !is_flag_entry(entries.vet_components) {
        Some(ConfigError::NotAFlag(Key::VetComponents))
    } else if !is_flag_entry(entries.ignore_local_packages) {
        Some(ConfigError::NotAFlag(Key::IgnoreLocalPackages))
    } else if !is_text_entry(entries.database_url) {
        Some(ConfigError::NotText(Key::DatabaseUrl))
    } else if !is_text_entry(entries.database_path) {
        Some(ConfigError::NotText(Key::DatabasePath))
    } else if !is_flag_entry(entries.database_fetch) {
        Some(ConfigError::NotAFlag(Key::DatabaseFetch))
    } else if !is_flag_entry(entries.database_stale) {
        Some(ConfigError::NotAFlag(Key::DatabaseStale))
    } else if !is_flag_entry(entries.output_quiet) {
        Some(ConfigError::NotAFlag(Key::OutputQuiet))
    } else {
        None
    }
}

/// The view of an optional string.
pub open spec fn optional_text(text: Option<String>) -> Option<Seq<char>> {
    match text {
        Some(text) => Some(text@),
        None => None,
    }
}

/// Whether `config` holds what `entries` say, with the default for each key
/// that is left out.
pub open spec fn configured_by(config: AuditConfiguration, entries: EntriesModel) -> bool {
    &&& config.require_vet == flag_of(entries.vet_components, false)
    &&& config.ignore_local_packages == flag_of(entries.ignore_local_packages, false)
    &&& optional_text(config.database_url) == text_of(entries.database_url)
    &&& optional_text(config.database_path) == text_of(entries.database_path)
    &&& config.fetch == flag_of(entries.database_fetch, true)
    &&& config.stale == flag_of(entries.database_stale, false)
    &&& config.quiet == flag_of(entries.output_quiet, false)
}

/// Why a document gives no settings, if it gives none: it is not TOML, or
/// one of its keys holds a value of the wrong type.
pub open spec fn fault_in(document: Seq<char>) -> Option<ConfigError> {
    match entries_in(document) {
        None => Some(ConfigError::Syntax),
        Some(entries) => first_fault(entries),
    }
}

/// How the advisory database is to be had.
pub enum DatabaseAction {
    /// Fetch it from `url` into `path`, each `None` for its default.
    Fetch { url: Option<String>, path: Option<String>, ensure_fresh: bool, announce: bool },
    /// Open what lies at `path`, `None` for the default.
    Open { path: Option<String> },
}

/// Parses `document` into a `toml::Table` and copies what `Table::get`
/// finds under `key`: a boolean, a string, anything else, or nothing.
///
/// Trusted: the outcome depends on `document` and `key` alone.
#[verifier::external_body]
pub(crate) fn read_toml_entry(document: &str, key: &str) -> (entry: Result<Entry, toml::de::Error>)
    ensures
        match entry {
            Ok(entry) => toml_entry(document@, key@) == Some(entry@),
            Err(_) => toml_entry(document@, key@) is None,
        },
{
    let parsed: toml::Table = document.parse()?;
    Ok(match parsed.get(key) {
        None => Entry::Absent,
        Some(toml::Value::Boolean(flag)) => Entry::Flag(*flag),
        Some(toml::Value::String(text)) => Entry::Text(text.clone()),
        Some(_) => Entry::Other,
    })
}

/// Parses `document` into a `toml::Table`, takes what it holds under
/// `table` with `Value::as_table`, and copies what `Table::get` finds there
/// under `key`: a boolean, a string, anything else, or nothing.
///
/// Trusted: the outcome depends on `document`, `table` and `key` alone.
#[verifier::external_body]
pub(crate) fn read_toml_table_entry(document: &str, table: &str, key: &str) -> (entry: Result<
    Entry,
    toml::de::Error,
>)
    ensures
        match entry {
            Ok(entry) => toml_table_entry(document@, table@, key@) == Some(entry@),
            Err(_) => toml_table_entry(document@, table@, key@) is None,
        },
{
    let parsed: toml::Table = document.parse()?;
    Ok(match parsed.get(table).and_then(toml::Value::as_table).and_then(|inner| inner.get(key)) {
        None => Entry::Absent,
        Some(toml::Value::Boolean(flag)) => Entry::Flag(*flag),
        Some(toml::Value::String(text)) => Entry::Text(text.clone()),
        Some(_) => Entry::Other,
    })
}

/// Reads what a document holds under one of its keys.
pub fn read_entry(document: &str, key: Key) -> (entry: Result<Entry, ConfigError>)
    ensures
        match entry {
            Ok(entry) => entry_in(document@, key) == Some(entry@),
            Err(error) => entry_in(document@, key) is None && error == ConfigError::Syntax,
        },
{
    let found = match key.table() {
        None => read_toml_entry(document, key.name()),
        Some(table) => read_toml_table_entry(document, table, key.name()),
    };
    match found {
        Ok(entry) => Ok(entry),
        Err(_) => Err(ConfigError::Syntax),
    }
}

/// Reads what a document holds under each of its keys.
pub fn read_entries(document: &str) -> (entries: Result<Entries, ConfigError>)
    ensures
        match entries {
            Ok(entries) => entries_in(document@) == Some(entries@),
            Err(error) => entries_in(document@) is None && error == ConfigError::Syntax,
        },
{
    let vet_components = match read_entry(document, Key::VetComponents) {
        Ok(entry) => entry,
        Err(error) => {
            return Err(error);
        },
    };
    let ignore_local_packages = match read_entry(document, Key::IgnoreLocalPackages) {
        Ok(entry) => entry,
        Err(error) => {
            return Err(error);
        },
    };
    let database_url = match read_entry(document, Key::DatabaseUrl) {
        Ok(entry) => entry,
        Err(error) => {
            return Err(error);
        },
    };
    let database_path = match read_entry(document, Key::DatabasePath) {
        Ok(entry) => entry,
        Err(error) => {
            return Err(error);
        },
    };
    let database_fetch = match read_entry(document, Key::DatabaseFetch) {
        Ok(entry) => entry,
        Err(error) => {
            return Err(error);
        },
    };
    let database_stale = match read_entry(document, Key::DatabaseStale) {
        Ok(entry) => entry,
        Err(error) => {
            return Err(error);
        },
    };
    let output_quiet = match read_entry(document, Key::OutputQuiet) {
        Ok(entry) => entry,
        Err(error) => {
            return Err(error);
        },
    };
    Ok(
        Entries {
            vet_components,
            ignore_local_packages,
            database_url,
            database_path,
            database_fetch,
            database_stale,
            output_quiet,
        },
    )
}

/// Reads a boolean setting from its entry.
pub fn read_flag(entry: &Entry, default: bool, key: Key) -> (flag: Result<bool, ConfigError>)
    ensures
        flag == if is_flag_entry(entry@) {
            Ok::<bool, ConfigError>(flag_of(entry@, default))
        } else {
            Err(ConfigError::NotAFlag(key))
        },
{
    match entry {
        Entry::Absent => Ok(default),
        Entry::Flag(flag) => Ok(*flag),
        _ => Err(ConfigError::NotAFlag(key)),
    }
}

/// Reads a string setting from its entry.
pub fn read_text(entry: &Entry, key: Key) -> (text: Result<Option<String>, ConfigError>)
    ensures
        match text {
            Ok(text) => is_text_entry(entry@) && optional_text(text) == text_of(entry@),
            Err(error) => !is_text_entry(entry@) && error == ConfigError::NotText(key),
        },
{
    match entry {
        Entry::Absent => Ok(None),
        Entry::Text(text) => Ok(Some(text.clone())),
        _ => Err(ConfigError::NotText(key)),
    }
}

/// Builds the settings from what a document holds under each key.
///
/// A key that is left out has its default. A key that holds a value of the
/// wrong type gives no settings at all: the error names the first such key.
pub fn configure(entries: &Entries) -> (config: Result<AuditConfiguration, ConfigError>)
    ensures
        match config {
            Ok(config) => first_fault(entries@) is None && configured_by(config, entries@),
            Err(error) => first_fault(entries@) == Some(error),
        },
{
    let require_vet = match read_flag(&entries.vet_components, false, Key::VetComponents) {
        Ok(flag) => flag,
        Err(error) => {
            return Err(error);
        },
    };
    let ignore_local_packages = match read_flag(
        &entries.ignore_local_packages,
        false,
        Key::IgnoreLocalPackages,
    ) {
        Ok(flag) => flag,
        Err(error) => {
            return Err(error);
        },
    };
    let database_url = match read_text(&entries.database_url, Key::DatabaseUrl) {
        Ok(text) => text,
        Err(error) => {
            return Err(error);
        },
    };
    let database_path = match read_text(&entries.database_path, Key::DatabasePath) {
        Ok(text) => text,
        Err(error) => {
            return Err(error);
        },
    };
    let fetch = match read_flag(&entries.database_fetch, true, Key::DatabaseFetch) {
        Ok(flag) => flag,
        Err(error) => {
            return Err(error);
        },
    };
    let stale = match read_flag(&entries.database_stale, false, Key::DatabaseStale) {
        Ok(flag) => flag,
        Err(error) => {
            return Err(error);
        },
    };
    let quiet = match read_flag(&entries.output_quiet, false, Key::OutputQuiet) {
        Ok(flag) => flag,
        Err(error) => {
            return Err(error);
        },
    };
    Ok(
        AuditConfiguration {
            database_url,
            database_path,
            fetch,
            stale,
            quiet,
            require_vet,
            ignore_local_packages,
        },
    )
}

/// Reads the settings of one run from a TOML document.
///
/// Every key may be left out and then has its default. A text that is not
/// TOML, or a key that holds a value of the wrong type, gives no settings.
pub fn load_configuration(document: &str) -> (config: Result<AuditConfiguration, ConfigError>)
    ensures
        match config {
            Ok(config) => fault_in(document@) is None && configured_by(
                config,
                entries_in(document@)->0,
            ),
            Err(error) => fault_in(document@) == Some(error),
        },
{
    match read_entries(document) {
        Ok(entries) => configure(&entries),
        Err(error) => Err(error),
    }
}

/// Says how the advisory database is to be had under `config`: fetched,
/// insisting on a fresh copy unless a stale one is accepted and announcing
/// the fetch unless quiet, or opened as it lies on disk.
pub fn database_action(config: &AuditConfiguration) -> (action: DatabaseAction)
    ensures
        config.fetch ==> action == (DatabaseAction::Fetch {
            url: config.database_url,
            path: config.database_path,
            ensure_fresh: !config.stale,
            announce: !config.quiet,
        }),
        !config.fetch ==> action == (DatabaseAction::Open { path: config.database_path }),
{
    if config.fetch {
        DatabaseAction::Fetch {
            url: copy_text(&config.database_url),
            path: copy_text(&config.database_path),
            ensure_fresh: !config.stale,
            announce: !config.quiet,
        }
    } else {
        DatabaseAction::Open { path: copy_text(&config.database_path) }
    }
}

/// Copies an optional string.
fn copy_text(text: &Option<String>) -> (copy: Option<String>)
    ensures
        copy == *text,
{
    match text {
        Some(text) => Some(text.clone()),
        None => None,
    }
}

} // verus!
