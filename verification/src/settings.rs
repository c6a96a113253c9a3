use vstd::prelude::*;

verus! {

/// A parsed TOML document (or any TOML value).
#[verifier::external_type_specification]
#[verifier::external_body]
pub struct ExTomlValue(toml::Value);

/// The error that the TOML parser reports.
#[verifier::external_type_specification]
#[verifier::external_body]
pub struct ExTomlError(toml::de::Error);

/// What a setting in a TOML table holds, as the settings logic reads it:
/// integers, booleans and strings with their value, the other kinds by kind.
pub enum SettingEntry {
    Integer(i64),
    Boolean(bool),
    Text(Seq<char>),
    Float,
    Datetime,
    Array,
    Table,
}

/// The top-level entries of a TOML value: the key/value pairs when it is a
/// table, nothing when it is any other kind of value.
pub uninterp spec fn toml_table_entries(doc: toml::Value) -> Map<Seq<char>, SettingEntry>;

/// The top-level entries of the TOML document `text`, or `None` when `text`
/// is not a valid TOML document.
pub uninterp spec fn toml_document(text: Seq<char>) -> Option<Map<Seq<char>, SettingEntry>>;

/// A setting as read from a TOML table.
#[derive(Debug)]
pub enum Setting {
    Integer(i64),
    Boolean(bool),
    Text(String),
    Float,
    Datetime,
    Array,
    Table,
}

impl Setting {
    pub open spec fn entry(&self) -> SettingEntry {
        match self {
            Setting::Integer(i) => SettingEntry::Integer(*i),
            Setting::Boolean(b) => SettingEntry::Boolean(*b),
            Setting::Text(s) => SettingEntry::Text(s@),
            Setting::Float => SettingEntry::Float,
            Setting::Datetime => SettingEntry::Datetime,
            Setting::Array => SettingEntry::Array,
            Setting::Table => SettingEntry::Table,
        }
    }
}

/// The entry stored under `key`, if any.
pub open spec fn config_entry(config: toml::Value, key: Seq<char>) -> Option<SettingEntry> {
    if toml_table_entries(config).dom().contains(key) {
        Some(toml_table_entries(config)[key])
    } else {
        None
    }
}

pub open spec fn entry_of(found: Option<Setting>) -> Option<SettingEntry> {
    match found {
        Some(s) => Some(s.entry()),
        None => None,
    }
}

/// Calls `str::parse::<toml::Value>`, which parses `text` as a TOML document.
/// Whether it parses and what it holds are named, not stated.
#[verifier::external_body]
pub(crate) fn parse_toml(text: &str) -> (r: Result<toml::Value, toml::de::Error>)
    ensures
        r is Ok <==> toml_document(text@) is Some,
        r matches Ok(doc) ==> toml_document(text@) == Some(toml_table_entries(doc)),
{
    text.parse::<toml::Value>()
}

/// Calls `toml::Value::get` with a string key and reports what the entry
/// holds. The source looks the key up in the table (and finds nothing in a
/// value of any other kind).
#[verifier::external_body]
fn toml_get(config: &toml::Value, key: &str) -> (r: Option<Setting>)
    ensures
        entry_of(r) == config_entry(*config, key@),
{
    match config.get(key) {
        None => None,
        Some(toml::Value::Integer(i)) => Some(Setting::Integer(*i)),
        Some(toml::Value::Boolean(b)) => Some(Setting::Boolean(*b)),
        Some(toml::Value::String(s)) => Some(Setting::Text(s.clone())),
        Some(toml::Value::Float(_)) => Some(Setting::Float),
        Some(toml::Value::Datetime(_)) => Some(Setting::Datetime),
        Some(toml::Value::Array(_)) => Some(Setting::Array),
        Some(toml::Value::Table(_)) => Some(Setting::Table),
    }
}

/// Why a setting could not be used.
#[derive(PartialEq, Eq, Structural, Debug, Clone, Copy)]
pub enum Problem {
    NotAnInteger,
    NotABoolean,
    NotAString,
    Missing,
}


/// An integer setting: the default when absent, the integer when present.
pub open spec fn integer_or(found: Option<SettingEntry>, default: i64) -> Result<i64, Problem> {
    match found {
        None => Ok(default),
        Some(SettingEntry::Integer(i)) => Ok(i),
        Some(_) => Err(Problem::NotAnInteger),
    }
}

/// An integer setting cast to `usize` (two's-complement truncation, as `as`
/// does).
pub open spec fn usize_or(found: Option<SettingEntry>, default: i64) -> Result<usize, Problem> {
    match integer_or(found, default) {
        Ok(i) => Ok(i as usize),
        Err(p) => Err(p),
    }
}

/// An integer setting cast to `u32` (truncation, as `as` does).
pub open spec fn u32_or(found: Option<SettingEntry>, default: i64) -> Result<u32, Problem> {
    match integer_or(found, default) {
        Ok(i) => Ok(i as u32),
        Err(p) => Err(p),
    }
}

/// A boolean setting: the default when absent, the boolean when present.
pub open spec fn bool_or(found: Option<SettingEntry>, default: bool) -> Result<bool, Problem> {
    match found {
        None => Ok(default),
        Some(SettingEntry::Boolean(b)) => Ok(b),
        Some(_) => Err(Problem::NotABoolean),
    }
}

/// A string setting: the default when absent, the string when present.
pub open spec fn text_or(found: Option<SettingEntry>, default: Seq<char>) -> Result<Seq<char>, Problem> {
    match found {
        None => Ok(default),
        Some(SettingEntry::Text(t)) => Ok(t),
        Some(_) => Err(Problem::NotAString),
    }
}

/// A string setting that has no default.
pub open spec fn required_text(found: Option<SettingEntry>) -> Result<Seq<char>, Problem> {
    match found {
        None => Err(Problem::Missing),
        Some(SettingEntry::Text(t)) => Ok(t),
        Some(_) => Err(Problem::NotAString),
    }
}

pub open spec fn text_view(r: Result<String, Problem>) -> Result<Seq<char>, Problem> {
    match r {
        Ok(s) => Ok(s@),
        Err(p) => Err(p),
    }
}

/// Resolves a looked-up integer setting against its default.
pub fn resolve_integer(found: Option<Setting>, default: i64) -> (r: Result<i64, Problem>)
    ensures
        r == integer_or(entry_of(found), default),
{
    match found {
        None => Ok(default),
        Some(Setting::Integer(i)) => Ok(i),
        Some(_) => Err(Problem::NotAnInteger),
    }
}

/// Resolves a looked-up integer setting and casts it to `usize`.
pub fn resolve_usize(found: Option<Setting>, default: i64) -> (r: Result<usize, Problem>)
    ensures
        r == usize_or(entry_of(found), default),
{
    match resolve_integer(found, default) {
        Ok(i) => Ok(i as usize),
        Err(p) => Err(p),
    }
}

/// Resolves a looked-up integer setting and casts it to `u32`.
pub fn resolve_u32(found: Option<Setting>, default: i64) -> (r: Result<u32, Problem>)
    ensures
        r == u32_or(entry_of(found), default),
{
    match resolve_integer(found, default) {
        Ok(i) => Ok(i as u32),
        Err(p) => Err(p),
    }
}

/// Resolves a looked-up boolean setting against its default.
pub fn resolve_bool(found: Option<Setting>, default: bool) -> (r: Result<bool, Problem>)
    ensures
        r == bool_or(entry_of(found), default),
{
    match found {
        None => Ok(default),
        Some(Setting::Boolean(b)) => Ok(b),
        Some(_) => Err(Problem::NotABoolean),
    }
}

/// Resolves a looked-up string setting against its default.
pub fn resolve_text(found: Option<Setting>, default: &str) -> (r: Result<String, Problem>)
    ensures
        text_view(r) == text_or(entry_of(found), default@),
{
    match found {
        None => Ok(default.to_owned()),
        Some(Setting::Text(t)) => Ok(t),
        Some(_) => Err(Problem::NotAString),
    }
}

/// Resolves a looked-up string setting that must be present.
pub fn resolve_required_text(found: Option<Setting>) -> (r: Result<String, Problem>)
    ensures
        text_view(r) == required_text(entry_of(found)),
{
    match found {
        None => Err(Problem::Missing),
        Some(Setting::Text(t)) => Ok(t),
        Some(_) => Err(Problem::NotAString),
    }
}

/// Parses the text of a configuration file.
pub fn parse_config(text: &str) -> (r: Option<toml::Value>)
    ensures
        r is Some <==> toml_document(text@) is Some,
        r matches Some(doc) ==> toml_document(text@) == Some(toml_table_entries(doc)),
{
    match parse_toml(text) {
        Ok(doc) => Some(doc),
        Err(_) => None,
    }
}

/// The setting under `key` as an `i64`, or `default` when it is absent.
pub fn integer_setting(config: &toml::Value, key: &str, default: i64) -> (r: Result<i64, Problem>)
    ensures
        r == integer_or(config_entry(*config, key@), default),
{
    resolve_integer(toml_get(config, key), default)
}

/// The setting under `key` cast to `usize`, or `default` when it is absent.
pub fn usize_setting(config: &toml::Value, key: &str, default: i64) -> (r: Result<usize, Problem>)
    ensures
        r == usize_or(config_entry(*config, key@), default),
{
    resolve_usize(toml_get(config, key), default)
}

/// The setting under `key` cast to `u32`, or `default` when it is absent.
pub fn u32_setting(config: &toml::Value, key: &str, default: i64) -> (r: Result<u32, Problem>)
    ensures
        r == u32_or(config_entry(*config, key@), default),
{
    resolve_u32(toml_get(config, key), default)
}

/// The boolean setting under `key`, or `default` when it is absent.
pub fn bool_setting(config: &toml::Value, key: &str, default: bool) -> (r: Result<bool, Problem>)
    ensures
        r == bool_or(config_entry(*config, key@), default),
{
    resolve_bool(toml_get(config, key), default)
}

/// The string setting under `key`, or `default` when it is absent.
pub fn text_setting(config: &toml::Value, key: &str, default: &str) -> (r: Result<String, Problem>)
    ensures
        text_view(r) == text_or(config_entry(*config, key@), default@),
{
    resolve_text(toml_get(config, key), default)
}

/// The string setting under `key`, which must be present.
pub fn required_text_setting(config: &toml::Value, key: &str) -> (r: Result<String, Problem>)
    ensures
        text_view(r) == required_text(config_entry(*config, key@)),
{
    resolve_required_text(toml_get(config, key))
}

} // verus!
