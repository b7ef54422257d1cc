//! What can go wrong while the command line and the configuration file are
//! read.

use vstd::prelude::*;

verus! {

/// A failure of this library.
#[derive(Debug, Clone, PartialEq, Eq)]
pub enum ConfigError {
    /// The configuration file is there but is not a document of the
    /// expected shape.
    InvalidConfigFormat,
    /// A quantity is not a decimal number.
    InvalidQuantity {
        /// The text that was given as a quantity.
        text: String,
        /// Why it was refused.
        reason: String,
    },
}

/// The mathematical value of a [`ConfigError`].
pub ghost enum ConfigErrorView {
    InvalidConfigFormat,
    InvalidQuantity { text: Seq<char>, reason: Seq<char> },
}

impl ConfigErrorView {
    /// The message that describes the failure to the user. For a quantity
    /// it names the offending text and the parser's reason.
    pub open spec fn message(self) -> Seq<char> {
        match self {
            ConfigErrorView::InvalidConfigFormat => "invalid configuration file"@,
            ConfigErrorView::InvalidQuantity { text, reason } => "QUANTITY "@ + text + ": "@
                + reason,
        }
    }
}

impl View for ConfigError {
    type V = ConfigErrorView;

    open spec fn view(&self) -> ConfigErrorView {
        match self {
            ConfigError::InvalidConfigFormat => ConfigErrorView::InvalidConfigFormat,
            ConfigError::InvalidQuantity { text, reason } => ConfigErrorView::InvalidQuantity {
                text: text@,
                reason: reason@,
            },
        }
    }
}

impl ConfigError {
    /// The message that describes the failure to the user.
    pub fn message(&self) -> (message: String)
        ensures
            message@ == self@.message(),
    {
        match self {
            ConfigError::InvalidConfigFormat => "invalid configuration file".to_owned(),
            ConfigError::InvalidQuantity { text, reason } => {
                let mut message = "QUANTITY ".to_owned();
                message.append(text.as_str());
                message.append(": ");
                message.append(reason.as_str());
                message
            },
        }
    }
}

} // verus!
