//! The errors of the registry.

use vstd::prelude::*;

use crate::blockchain::{Bundled, DepGroupId, Network};

verus! {

/// The error with which `toml` refuses a document.
#[verifier::external_type_specification]
#[verifier::external_body]
pub struct ExTomlError(toml::de::Error);

/// The error of an input or output operation.
#[verifier::external_type_specification]
#[verifier::external_body]
pub struct ExIoError(std::io::Error);

/// The text that `toml` shows for one of its errors.
pub uninterp spec fn toml_error_message(error: toml::de::Error) -> Seq<char>;

/// `ToString::to_string` of a `toml` error: the text that its `Display`
/// writes.
#[verifier::external_body]
fn toml_error_text(error: &toml::de::Error) -> (text: String)
    ensures
        text@ == toml_error_message(*error),
{
    error.to_string()
}

/// `ToString::to_string` of an input or output error: the text that its
/// `Display` writes, which may depend on the system.
#[verifier::external_body]
fn io_error_text(error: &std::io::Error) -> String {
    error.to_string()
}

#[derive(Debug)]
pub enum RegistryError {
    /// A state that a sound table or codec never reaches.
    Unreachable(String),
    /// Reading a file failed.
    IO(std::io::Error),
    /// A document is no TOML.
    Toml(toml::de::Error),
    /// A text names nothing of the given category.
    Unknown(&'static str, String),
    /// The table has no record of the resource on the network.
    UnknownSystemCell(Network, Bundled),
    /// The table has no record of the group on the network.
    UnknownDepGroup(Network, DepGroupId),
}

impl RegistryError {
    /// Whether `text` is a message of the error: for each variant but
    /// `IO` there is exactly one, and for `IO` the message begins with
    /// `io error: `.
    pub open spec fn spec_is_message(self, text: Seq<char>) -> bool {
        match self {
            RegistryError::Unreachable(reason) => text
                == "internal error: should be unreachable, "@ + reason@,
            RegistryError::IO(_) => "io error: "@.is_prefix_of(text),
            RegistryError::Toml(error) => text == "toml error: "@ + toml_error_message(error),
            RegistryError::Unknown(kind, value) => text == "unknown "@ + kind@ + " '"@ + value@
                + "'"@,
            RegistryError::UnknownSystemCell(network, key) => text == "unknown system cell: "@
                + network.spec_display() + ", "@ + key.spec_debug(),
            RegistryError::UnknownDepGroup(network, key) => text == "unknown dep group: "@
                + network.spec_display() + ", "@ + key.spec_debug(),
        }
    }

    /// The message of the error.
    pub fn to_string(&self) -> (text: String)
        ensures
            self.spec_is_message(text@),
    {
        match self {
            RegistryError::Unreachable(reason) => {
                let mut text: String = "internal error: should be unreachable, ".to_owned();
                text.append(reason.as_str());
                text
            },
            RegistryError::IO(error) => {
                let mut text: String = "io error: ".to_owned();
                let inner = io_error_text(error);
                text.append(inner.as_str());
                assert("io error: "@ =~= text@.subrange(0, "io error: "@.len() as int));
                text
            },
            RegistryError::Toml(error) => {
                let mut text: String = "toml error: ".to_owned();
                let inner = toml_error_text(error);
                text.append(inner.as_str());
                text
            },
            RegistryError::Unknown(kind, value) => {
                let mut text: String = "unknown ".to_owned();
                text.append(kind);
                text.append(" '");
                text.append(value.as_str());
                text.append("'");
                text
            },
            RegistryError::UnknownSystemCell(network, key) => {
                let mut text: String = "unknown system cell: ".to_owned();
                let name = network.to_string();
                text.append(name.as_str());
                text.append(", ");
                text.append(key.debug_name());
                text
            },
            RegistryError::UnknownDepGroup(network, key) => {
                let mut text: String = "unknown dep group: ".to_owned();
                let name = network.to_string();
                text.append(name.as_str());
                text.append(", ");
                text.append(key.debug_name());
                text
            },
        }
    }
}

} // verus!
