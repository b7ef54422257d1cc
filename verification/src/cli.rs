//! The command line, as far as it bears on the configuration.

use vstd::prelude::*;
use crate::layer::Layer;

verus! {

/// One option of the command line, as the argument parser reports it.
#[derive(Debug, Clone, PartialEq, Eq)]
pub struct CliOption {
    /// The value that the parser holds for the option, whatever its source.
    pub value: Option<String>,
    /// Whether the user supplied that value. It is `false` where the value
    /// is only the default that the parser itself gives the option.
    pub explicit: bool,
}

impl CliOption {
    /// The text by which this option overrides the layers below it: its
    /// value where the user supplied one, nothing otherwise.
    pub open spec fn supplied(&self) -> Option<Seq<char>> {
        if self.explicit {
            self.value.deep_view()
        } else {
            None
        }
    }

    /// An option as an argument parser reports it. `occurrences` counts how
    /// often the option stood on the command line, and `has_default` says
    /// whether the parser gives the option a value of its own. A value
    /// counts as the user's where the option stood on the command line, or
    /// where the parser has no default that it could have come from.
    pub fn reported(value: Option<String>, occurrences: u64, has_default: bool) -> (option: Self)
        ensures
            option.value == value,
            option.explicit == (occurrences > 0 || !has_default),
    {
        CliOption { value, explicit: occurrences > 0 || !has_default }
    }

    /// The value that the user supplied, if there is one.
    pub fn supplied_value(&self) -> (value: Option<&String>)
        ensures
            value.deep_view() == self.supplied(),
    {
        if self.explicit {
            self.value.as_ref()
        } else {
            None
        }
    }
}

/// The options of the command line that bear on the configuration.
#[derive(Debug, Clone, PartialEq, Eq)]
pub struct CliArguments {
    pub api_key: CliOption,
    pub secret_key: CliOption,
    pub log_path: CliOption,
    pub default_quote_asset: CliOption,
}

impl View for CliArguments {
    type V = Layer;

    /// The command line as a layer: what the user supplied, and nothing of
    /// what the parser filled in by itself.
    open spec fn view(&self) -> Layer {
        Layer {
            secret_key: self.secret_key.supplied(),
            api_key: self.api_key.supplied(),
            log_path: self.log_path.supplied(),
            default_quote_asset: self.default_quote_asset.supplied(),
        }
    }
}

} // verus!
