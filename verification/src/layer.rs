//! The mathematical model of layered settings.

use vstd::prelude::*;

verus! {

/// The mathematical value of a configuration: its texts as sequences of
/// characters.
pub ghost struct ConfigurationView {
    pub secret_key: Seq<char>,
    pub api_key: Seq<char>,
    pub log_path: Option<Seq<char>>,
    pub default_quote_asset: Seq<char>,
}

/// One layer of settings: for each field the text that the layer supplies,
/// or `None` where it leaves the field to the layers below.
pub ghost struct Layer {
    pub secret_key: Option<Seq<char>>,
    pub api_key: Option<Seq<char>>,
    pub log_path: Option<Seq<char>>,
    pub default_quote_asset: Option<Seq<char>>,
}

/// The layer that supplies nothing.
pub open spec fn empty_layer() -> Layer {
    Layer { secret_key: None, api_key: None, log_path: None, default_quote_asset: None }
}

/// The configuration that holds when no layer says anything: empty
/// credentials, no log path, quote asset `USD`.
pub open spec fn defaults() -> ConfigurationView {
    ConfigurationView {
        secret_key: Seq::empty(),
        api_key: Seq::empty(),
        log_path: None,
        default_quote_asset: "USD"@,
    }
}

/// A field after a layer has been put over it: the layer's text where it
/// supplies one, else the text that was there.
pub open spec fn overlay(below: Seq<char>, above: Option<Seq<char>>) -> Seq<char> {
    match above {
        Some(text) => text,
        None => below,
    }
}

/// A configuration after a layer has been put over it, field by field.
pub open spec fn apply(below: ConfigurationView, above: Layer) -> ConfigurationView {
    ConfigurationView {
        secret_key: overlay(below.secret_key, above.secret_key),
        api_key: overlay(below.api_key, above.api_key),
        log_path: match above.log_path {
            Some(path) => Some(path),
            None => below.log_path,
        },
        default_quote_asset: overlay(below.default_quote_asset, above.default_quote_asset),
    }
}

} // verus!
