//! The configuration record and the layering rules that produce it.

use vstd::prelude::*;
use crate::cli::CliArguments;
use crate::config_file::{
    entry_at, file_layer, parse_config_file, supplied_text, toml_document, FileValues,
};
use crate::layer::{apply, defaults, empty_layer, overlay, ConfigurationView, Layer};
use crate::nesting::{nesting_depth, MAX_NESTING};

verus! {

/// The effective settings of one run of the client.
#[derive(Debug, Clone, PartialEq, Eq)]
pub struct Configuration {
    /// Secret half of the API credential; empty unless supplied.
    pub secret_key: String,
    /// Public half of the API credential; empty unless supplied.
    pub api_key: String,
    /// Where log output goes, if anywhere.
    pub log_path: Option<String>,
    /// The asset that other assets are bought with or sold for.
    pub default_quote_asset: String,
}

impl View for Configuration {
    type V = ConfigurationView;

    open spec fn view(&self) -> ConfigurationView {
        ConfigurationView {
            secret_key: self.secret_key@,
            api_key: self.api_key@,
            log_path: self.log_path.deep_view(),
            default_quote_asset: self.default_quote_asset@,
        }
    }
}

/// The built-in quote asset.
pub fn default_sell_to_asset() -> (asset: String)
    ensures
        asset@ == "USD"@,
{
    "USD".to_owned()
}

impl Default for Configuration {
    fn default() -> (config: Self)
        ensures
            config@ == defaults(),
    {
        Configuration {
            api_key: String::new(),
            secret_key: String::new(),
            log_path: None,
            default_quote_asset: default_sell_to_asset(),
        }
    }
}

/// The layer that the configuration file contributes. A file that is
/// missing or unreadable (`None`) contributes nothing, and so does a text
/// that is no configuration file: neither is an error.
pub open spec fn layer_of_file(file: Option<Seq<char>>) -> Layer {
    match file {
        Some(text) => match file_layer(text) {
            Ok(layer) => layer,
            Err(_) => empty_layer(),
        },
        None => empty_layer(),
    }
}

/// The effective configuration: the defaults, under the file's layer, under
/// the command line's.
pub open spec fn resolved(file: Option<Seq<char>>, cli: Layer) -> ConfigurationView {
    apply(apply(defaults(), layer_of_file(file)), cli)
}

impl Configuration {
    /// Resolves the effective configuration from the contents of the
    /// configuration file and the command line.
    ///
    /// `file` is `None` where no file was named or the named file could not
    /// be read. Resolution never fails: a file that cannot be parsed is
    /// passed over in silence, as a missing one is, and the defaults stand
    /// in its place.
    pub fn new(file: Option<&str>, cli: &CliArguments) -> (config: Self)
        ensures
            config@ == resolved(file.deep_view(), cli@),
    {
        let mut config = match file {
            Some(text) => match parse_config_file(text) {
                Ok(values) => Configuration::from_file_values(values),
                Err(_) => Configuration::default(),
            },
            None => Configuration::default(),
        };
        config.update_config(cli);
        config
    }

    /// The configuration that a file's values give: each value that the
    /// file supplies, and the default for every field that it leaves out.
    pub fn from_file_values(values: FileValues) -> (config: Self)
        ensures
            config@ == apply(defaults(), values@),
    {
        let mut config = Configuration::default();
        if let Some(value) = values.secret_key {
            config.secret_key = value;
        }
        if let Some(value) = values.api_key {
            config.api_key = value;
        }
        if let Some(value) = values.log_path {
            config.log_path = Some(value);
        }
        if let Some(value) = values.default_quote_asset {
            config.default_quote_asset = value;
        }
        config
    }

    /// Puts the command line over this configuration: each option that the
    /// user supplied replaces the field it names, and every other field
    /// keeps its value.
    pub fn update_config(&mut self, cli: &CliArguments)
        ensures
            final(self)@ == apply(old(self)@, cli@),
    {
        if let Some(value) = cli.api_key.supplied_value() {
            self.api_key = value.clone();
        }
        if let Some(value) = cli.secret_key.supplied_value() {
            self.secret_key = value.clone();
        }
        if let Some(value) = cli.log_path.supplied_value() {
            self.log_path = Some(value.clone());
        }
        if let Some(value) = cli.default_quote_asset.supplied_value() {
            self.default_quote_asset = value.clone();
        }
    }
}

/// With nothing supplied on the command line, a valid configuration file
/// decides: each field holds the file's string where the file has the
/// field's key, and the built-in default where the file leaves the key out.
/// A file is valid where its text is a TOML document that nests no deeper
/// than [`MAX_NESTING`] and in which none of the four keys holds something
/// other than a string.
pub proof fn lemma_file_over_defaults(
    text: Seq<char>,
    entries: Map<Seq<char>, Option<Seq<char>>>,
    cli: CliArguments,
)
    requires
        toml_document(text) == Some(entries),
        nesting_depth(text) <= MAX_NESTING,
        !(entry_at(entries, "SECRET_KEY"@) is Other),
        !(entry_at(entries, "API_KEY"@) is Other),
        !(entry_at(entries, "log_path"@) is Other),
        !(entry_at(entries, "default_quote_asset"@) is Other),
        cli@ == empty_layer(),
    ensures
        ({
            let config = resolved(Some(text), cli@);
            &&& config.secret_key == overlay(
                defaults().secret_key,
                supplied_text(entry_at(entries, "SECRET_KEY"@)),
            )
            &&& config.api_key == overlay(
                defaults().api_key,
                supplied_text(entry_at(entries, "API_KEY"@)),
            )
            &&& config.log_path == supplied_text(entry_at(entries, "log_path"@))
            &&& config.default_quote_asset == overlay(
                defaults().default_quote_asset,
                supplied_text(entry_at(entries, "default_quote_asset"@)),
            )
        }),
{
}

/// An option that the user supplied on the command line decides its field,
/// whatever the configuration file holds and whatever the default is.
pub proof fn lemma_supplied_option_wins(file: Option<Seq<char>>, cli: CliArguments)
    ensures
        ({
            let config = resolved(file, cli@);
            &&& cli.secret_key.supplied() matches Some(text) ==> config.secret_key == text
            &&& cli.api_key.supplied() matches Some(text) ==> config.api_key == text
            &&& cli.log_path.supplied() matches Some(text) ==> config.log_path == Some(text)
            &&& cli.default_quote_asset.supplied() matches Some(text)
                ==> config.default_quote_asset == text
        }),
{
}

/// An option that the user did not supply leaves its field as the
/// configuration file and the defaults give it.
pub proof fn lemma_unsupplied_option_keeps_field(file: Option<Seq<char>>, cli: CliArguments)
    ensures
        ({
            let config = resolved(file, cli@);
            let below = resolved(file, empty_layer());
            &&& cli.secret_key.supplied() is None ==> config.secret_key == below.secret_key
            &&& cli.api_key.supplied() is None ==> config.api_key == below.api_key
            &&& cli.log_path.supplied() is None ==> config.log_path == below.log_path
            &&& cli.default_quote_asset.supplied() is None ==> config.default_quote_asset
                == below.default_quote_asset
        }),
{
}

/// Without a file and with nothing supplied on the command line, the
/// effective configuration is the built-in one.
pub proof fn lemma_defaults_alone(cli: CliArguments)
    requires
        cli@ == empty_layer(),
    ensures
        resolved(None, cli@) == defaults(),
{
}

/// Without a file, the effective configuration is the built-in one under
/// the command line.
pub proof fn lemma_missing_file(cli: CliArguments)
    ensures
        resolved(None, cli@) == apply(defaults(), cli@),
{
}

} // verus!
