//! The configuration file: a TOML document of which four keys are read.
//!
//! The TOML grammar is the `toml` crate's. What this module adds is the
//! shape that a configuration file must have: each of the four keys is
//! either absent or holds a string, and every other key is ignored. It
//! also keeps from the parser any text that nests too deep for it.

use vstd::prelude::*;
use crate::error::{ConfigError, ConfigErrorView};
use crate::layer::Layer;
use crate::nesting::{nesting_depth, nests_within_limit, MAX_NESTING};

verus! {

/// A parsed TOML document, opaque to the verifier.
#[verifier::external_type_specification]
#[verifier::external_body]
pub struct ExTomlValue(toml::Value);

/// What a `toml::Value` holds at its top level, as far as this library
/// reads it: the keys of its table, each with the text under it where the
/// key holds a string, and with `None` where it holds a value of any other
/// kind. A value that is no table has no keys.
pub uninterp spec fn document_entries(doc: toml::Value) -> Map<Seq<char>, Option<Seq<char>>>;

/// What `toml::from_str` makes of a text: the entries of the document that
/// it reads from the text, or `None` where it refuses the text as no TOML
/// document.
pub uninterp spec fn toml_document(text: Seq<char>) -> Option<Map<Seq<char>, Option<Seq<char>>>>;

/// What a document holds under one key.
#[derive(Debug, Clone, PartialEq, Eq)]
pub enum Entry {
    /// The document has no such key.
    Missing,
    /// The key holds this string.
    Text(String),
    /// The key holds a value that is no string.
    Other,
}

/// The mathematical value of an [`Entry`].
pub ghost enum EntryView {
    Missing,
    Text(Seq<char>),
    Other,
}

impl View for Entry {
    type V = EntryView;

    open spec fn view(&self) -> EntryView {
        match self {
            Entry::Missing => EntryView::Missing,
            Entry::Text(text) => EntryView::Text(text@),
            Entry::Other => EntryView::Other,
        }
    }
}

impl Entry {
    /// Whether the key holds a value that is no string.
    pub fn is_other(&self) -> (other: bool)
        ensures
            other == (self@ is Other),
    {
        matches!(self, Entry::Other)
    }
}

/// The entry that a table holds under a key.
pub open spec fn entry_at(entries: Map<Seq<char>, Option<Seq<char>>>, key: Seq<char>) -> EntryView {
    if !entries.contains_key(key) {
        EntryView::Missing
    } else {
        match entries[key] {
            Some(text) => EntryView::Text(text),
            None => EntryView::Other,
        }
    }
}

/// Calls `toml::from_str` for a `toml::Value`. The contract claims that the
/// outcome is a function of the text alone: `Some` with the document where
/// the crate accepts the text, `None` where it reports an error. Nothing is
/// claimed about which texts it accepts. The parser recurses on arrays,
/// inline tables and dotted names, so `requires` bounds their depth.
#[verifier::external_body]
fn parse_document(text: &str) -> (doc: Option<toml::Value>)
    requires
        nesting_depth(text@) <= MAX_NESTING,
    ensures
        doc matches Some(parsed) ==> toml_document(text@) == Some(document_entries(parsed)),
        doc is None ==> toml_document(text@) is None,
{
    match toml::from_str::<toml::Value>(text) {
        Ok(doc) => Some(doc),
        Err(_) => None,
    }
}

/// Calls `toml::Value::get` with a string key, and `toml::Value::as_str` on
/// what it finds. The contract claims that the result is the entry of the
/// document's table under that key: `Missing` where `get` finds nothing,
/// the string where `as_str` gives one, `Other` where it gives none.
#[verifier::external_body]
fn lookup(doc: &toml::Value, key: &str) -> (entry: Entry)
    ensures
        entry@ == entry_at(document_entries(*doc), key@),
{
    match doc.get(key) {
        None => Entry::Missing,
        Some(value) => match value.as_str() {
            Some(text) => Entry::Text(text.to_string()),
            None => Entry::Other,
        },
    }
}

/// The values that a configuration file supplies.
#[derive(Debug, Clone, PartialEq, Eq)]
pub struct FileValues {
    /// The string under `SECRET_KEY`.
    pub secret_key: Option<String>,
    /// The string under `API_KEY`.
    pub api_key: Option<String>,
    /// The string under `log_path`.
    pub log_path: Option<String>,
    /// The string under `default_quote_asset`.
    pub default_quote_asset: Option<String>,
}

impl View for FileValues {
    type V = Layer;

    open spec fn view(&self) -> Layer {
        Layer {
            secret_key: self.secret_key.deep_view(),
            api_key: self.api_key.deep_view(),
            log_path: self.log_path.deep_view(),
            default_quote_asset: self.default_quote_asset.deep_view(),
        }
    }
}

/// The text that an entry supplies to its field.
pub open spec fn supplied_text(entry: EntryView) -> Option<Seq<char>> {
    match entry {
        EntryView::Text(text) => Some(text),
        _ => None,
    }
}

/// The layer that the four entries of a configuration file make up. It is
/// `InvalidConfigFormat` where one of them holds something other than a
/// string.
pub open spec fn layer_of_entries(
    secret_key: EntryView,
    api_key: EntryView,
    log_path: EntryView,
    default_quote_asset: EntryView,
) -> Result<Layer, ConfigErrorView> {
    if secret_key is Other || api_key is Other || log_path is Other
        || default_quote_asset is Other {
        Err(ConfigErrorView::InvalidConfigFormat)
    } else {
        Ok(
            Layer {
                secret_key: supplied_text(secret_key),
                api_key: supplied_text(api_key),
                log_path: supplied_text(log_path),
                default_quote_asset: supplied_text(default_quote_asset),
            },
        )
    }
}

/// The layer that a table's entries make up: the entries under the four
/// keys of a configuration file, whatever else the table holds.
pub open spec fn layer_of_table(entries: Map<Seq<char>, Option<Seq<char>>>) -> Result<
    Layer,
    ConfigErrorView,
> {
    layer_of_entries(
        entry_at(entries, "SECRET_KEY"@),
        entry_at(entries, "API_KEY"@),
        entry_at(entries, "log_path"@),
        entry_at(entries, "default_quote_asset"@),
    )
}

/// The layer that a file's text denotes. It is `InvalidConfigFormat` where
/// the text is no configuration file: it nests deeper than [`MAX_NESTING`],
/// it is not a TOML document, or one of the four keys holds something other
/// than a string.
pub open spec fn file_layer(text: Seq<char>) -> Result<Layer, ConfigErrorView> {
    if nesting_depth(text) > MAX_NESTING {
        Err(ConfigErrorView::InvalidConfigFormat)
    } else {
        match toml_document(text) {
            Some(entries) => layer_of_table(entries),
            None => Err(ConfigErrorView::InvalidConfigFormat),
        }
    }
}

/// A TOML document that nests no deeper than [`MAX_NESTING`] is read for
/// what it holds under the four keys: nothing else about its text decides.
pub proof fn lemma_document_is_read(text: Seq<char>, entries: Map<Seq<char>, Option<Seq<char>>>)
    requires
        toml_document(text) == Some(entries),
        nesting_depth(text) <= MAX_NESTING,
    ensures
        file_layer(text) == layer_of_table(entries),
{
}

/// The mathematical value of the result of reading a configuration file.
pub open spec fn values_view(values: Result<FileValues, ConfigError>) -> Result<
    Layer,
    ConfigErrorView,
> {
    match values {
        Ok(found) => Ok(found@),
        Err(error) => Err(error@),
    }
}

/// The string that an entry supplies to its field.
fn into_text(entry: Entry) -> (text: Option<String>)
    ensures
        text.deep_view() == supplied_text(entry@),
{
    match entry {
        Entry::Text(text) => Some(text),
        _ => None,
    }
}

/// Collects the four entries of a configuration file. Fails with
/// `InvalidConfigFormat` exactly when one of them is `Other`.
pub fn file_values_from_entries(
    secret_key: Entry,
    api_key: Entry,
    log_path: Entry,
    default_quote_asset: Entry,
) -> (values: Result<FileValues, ConfigError>)
    ensures
        values_view(values) == layer_of_entries(
            secret_key@,
            api_key@,
            log_path@,
            default_quote_asset@,
        ),
{
    if secret_key.is_other() || api_key.is_other() || log_path.is_other()
        || default_quote_asset.is_other() {
        return Err(ConfigError::InvalidConfigFormat);
    }
    Ok(
        FileValues {
            secret_key: into_text(secret_key),
            api_key: into_text(api_key),
            log_path: into_text(log_path),
            default_quote_asset: into_text(default_quote_asset),
        },
    )
}

/// Reads the text of a configuration file. Succeeds exactly when the text
/// nests no deeper than [`MAX_NESTING`] and is a TOML document in which each
/// of the four keys is absent or holds a string, and then returns the
/// strings found; every other text fails with `InvalidConfigFormat`. A text
/// that nests deeper is refused unread.
pub fn parse_config_file(text: &str) -> (values: Result<FileValues, ConfigError>)
    ensures
        values_view(values) == file_layer(text@),
{
    if !nests_within_limit(text) {
        return Err(ConfigError::InvalidConfigFormat);
    }
    match parse_document(text) {
        None => Err(ConfigError::InvalidConfigFormat),
        Some(doc) => {
            let secret_key = lookup(&doc, "SECRET_KEY");
            let api_key = lookup(&doc, "API_KEY");
            let log_path = lookup(&doc, "log_path");
            let default_quote_asset = lookup(&doc, "default_quote_asset");
            file_values_from_entries(secret_key, api_key, log_path, default_quote_asset)
        },
    }
}

} // verus!
