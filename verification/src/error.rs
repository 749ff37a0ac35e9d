//! The ways in which locating, reading or writing a configuration can fail.
//!
//! The errors of the codecs and of the file system are opaque here: a value of
//! one is wrapped, carried and handed back unchanged, never inspected.

use vstd::prelude::*;
use vstd::std_specs::convert::FromSpecImpl;

verus! {

/// `serde_json::Error`, the error of the JSON codec. It is declared so that it can
/// be carried; nothing is claimed of what it holds.
#[verifier::external_type_specification]
#[verifier::external_body]
pub struct ExJsonError(serde_json::Error);

/// `serde_yaml::Error`, the error of the YAML codec. It is declared so that it can
/// be carried; nothing is claimed of what it holds.
#[verifier::external_type_specification]
#[verifier::external_body]
pub struct ExYamlError(serde_yaml::Error);

/// `toml::de::Error`, the error of the TOML decoder. It is declared so that it can
/// be carried; nothing is claimed of what it holds.
#[verifier::external_type_specification]
#[verifier::external_body]
pub struct ExTomlDecodeError(toml::de::Error);

/// `toml::ser::Error`, the error of the TOML encoder. It is declared so that it can
/// be carried; nothing is claimed of what it holds.
#[verifier::external_type_specification]
#[verifier::external_body]
pub struct ExTomlEncodeError(toml::ser::Error);

/// `corn::error::Error`, the error of the Corn parser. It is declared so that it can
/// be carried; nothing is claimed of what it holds.
#[verifier::external_type_specification]
#[verifier::external_body]
pub struct ExCornError(corn::error::Error);

/// `serde_xml_rs::Error`, the error of the XML codec. It is declared so that it can
/// be carried; nothing is claimed of what it holds.
#[verifier::external_type_specification]
#[verifier::external_body]
pub struct ExXmlError(serde_xml_rs::Error);

/// `std::io::Error`, the error of the file system. It is declared so that it can
/// be carried; nothing is claimed of what it holds.
#[verifier::external_type_specification]
#[verifier::external_body]
pub struct ExIoError(std::io::Error);

/// `std::str::Utf8Error`, the error of the UTF-8 check. It is declared so that it can
/// be carried; nothing is claimed of what it holds.
#[verifier::external_type_specification]
#[verifier::external_body]
pub struct ExUtf8Error(std::str::Utf8Error);

/// Why a file's content could not be turned into a value.
#[derive(Debug)]
pub enum DeserializationError {
    /// The JSON decoder refused the text.
    Json(serde_json::Error),
    /// The YAML decoder refused the text.
    Yaml(serde_yaml::Error),
    /// The TOML decoder refused the text.
    Toml(toml::de::Error),
    /// The Corn decoder refused the text.
    Corn(corn::error::Error),
    /// The XML decoder refused the text.
    Xml(serde_xml_rs::Error),
    /// No decoder is registered for the file's extension, which is carried.
    UnsupportedExtension(String),
}

/// Why a value could not be turned into text.
#[derive(Debug)]
pub enum SerializationError {
    /// The JSON encoder refused the value.
    Json(serde_json::Error),
    /// The YAML encoder refused the value.
    Yaml(serde_yaml::Error),
    /// The TOML encoder refused the value.
    Toml(toml::ser::Error),
    /// The Corn codec refused the value.
    Corn(corn::error::Error),
    /// The XML encoder refused the value.
    Xml(serde_xml_rs::Error),
    /// No encoder is registered for the format, whose extension is carried.
    UnsupportedExtension(String),
}

/// Every failure of the loader. Each is final: nothing is retried, and no
/// other directory or format is tried in its place.
#[derive(Debug)]
pub enum UniversalConfigError {
    /// No directory could be determined: none was configured, and the host
    /// knows neither a configuration directory nor a home directory.
    MissingUserDir,
    /// The directory holds no file under any of the candidate extensions.
    FileNotFound,
    /// Reading, writing or creating a directory failed.
    Io(std::io::Error),
    /// A file's content was not valid UTF-8.
    Encoding(std::str::Utf8Error),
    /// The file was found and read, but could not be decoded.
    Deserialization(DeserializationError),
    /// The value could not be encoded.
    Serialization(SerializationError),
}

impl DeserializationError {
    /// The extension that was refused, where the error is
    /// `UnsupportedExtension`.
    pub open spec fn unsupported(self) -> Option<Seq<char>> {
        match self {
            DeserializationError::UnsupportedExtension(extension) => Some(extension@),
            _ => None,
        }
    }
}

impl SerializationError {
    /// The extension that was refused, where the error is
    /// `UnsupportedExtension`.
    pub open spec fn unsupported(self) -> Option<Seq<char>> {
        match self {
            SerializationError::UnsupportedExtension(extension) => Some(extension@),
            _ => None,
        }
    }
}

impl From<serde_json::Error> for DeserializationError {
    /// Wraps the error in `Json`, unchanged.
    fn from(error: serde_json::Error) -> (wrapped: Self) {
        DeserializationError::Json(error)
    }
}

impl FromSpecImpl<serde_json::Error> for DeserializationError {
    open spec fn obeys_from_spec() -> bool {
        true
    }

    open spec fn from_spec(error: serde_json::Error) -> Self {
        DeserializationError::Json(error)
    }
}

impl From<serde_yaml::Error> for DeserializationError {
    /// Wraps the error in `Yaml`, unchanged.
    fn from(error: serde_yaml::Error) -> (wrapped: Self) {
        DeserializationError::Yaml(error)
    }
}

impl FromSpecImpl<serde_yaml::Error> for DeserializationError {
    open spec fn obeys_from_spec() -> bool {
        true
    }

    open spec fn from_spec(error: serde_yaml::Error) -> Self {
        DeserializationError::Yaml(error)
    }
}

impl From<toml::de::Error> for DeserializationError {
    /// Wraps the error in `Toml`, unchanged.
    fn from(error: toml::de::Error) -> (wrapped: Self) {
        DeserializationError::Toml(error)
    }
}

impl FromSpecImpl<toml::de::Error> for DeserializationError {
    open spec fn obeys_from_spec() -> bool {
        true
    }

    open spec fn from_spec(error: toml::de::Error) -> Self {
        DeserializationError::Toml(error)
    }
}

impl From<corn::error::Error> for DeserializationError {
    /// Wraps the error in `Corn`, unchanged.
    fn from(error: corn::error::Error) -> (wrapped: Self) {
        DeserializationError::Corn(error)
    }
}

impl FromSpecImpl<corn::error::Error> for DeserializationError {
    open spec fn obeys_from_spec() -> bool {
        true
    }

    open spec fn from_spec(error: corn::error::Error) -> Self {
        DeserializationError::Corn(error)
    }
}

impl From<serde_xml_rs::Error> for DeserializationError {
    /// Wraps the error in `Xml`, unchanged.
    fn from(error: serde_xml_rs::Error) -> (wrapped: Self) {
        DeserializationError::Xml(error)
    }
}

impl FromSpecImpl<serde_xml_rs::Error> for DeserializationError {
    open spec fn obeys_from_spec() -> bool {
        true
    }

    open spec fn from_spec(error: serde_xml_rs::Error) -> Self {
        DeserializationError::Xml(error)
    }
}

impl From<serde_json::Error> for SerializationError {
    /// Wraps the error in `Json`, unchanged.
    fn from(error: serde_json::Error) -> (wrapped: Self) {
        SerializationError::Json(error)
    }
}

impl FromSpecImpl<serde_json::Error> for SerializationError {
    open spec fn obeys_from_spec() -> bool {
        true
    }

    open spec fn from_spec(error: serde_json::Error) -> Self {
        SerializationError::Json(error)
    }
}

impl From<serde_yaml::Error> for SerializationError {
    /// Wraps the error in `Yaml`, unchanged.
    fn from(error: serde_yaml::Error) -> (wrapped: Self) {
        SerializationError::Yaml(error)
    }
}

impl FromSpecImpl<serde_yaml::Error> for SerializationError {
    open spec fn obeys_from_spec() -> bool {
        true
    }

    open spec fn from_spec(error: serde_yaml::Error) -> Self {
        SerializationError::Yaml(error)
    }
}

impl From<toml::ser::Error> for SerializationError {
    /// Wraps the error in `Toml`, unchanged.
    fn from(error: toml::ser::Error) -> (wrapped: Self) {
        SerializationError::Toml(error)
    }
}

impl FromSpecImpl<toml::ser::Error> for SerializationError {
    open spec fn obeys_from_spec() -> bool {
        true
    }

    open spec fn from_spec(error: toml::ser::Error) -> Self {
        SerializationError::Toml(error)
    }
}

impl From<corn::error::Error> for SerializationError {
    /// Wraps the error in `Corn`, unchanged.
    fn from(error: corn::error::Error) -> (wrapped: Self) {
        SerializationError::Corn(error)
    }
}

impl FromSpecImpl<corn::error::Error> for SerializationError {
    open spec fn obeys_from_spec() -> bool {
        true
    }

    open spec fn from_spec(error: corn::error::Error) -> Self {
        SerializationError::Corn(error)
    }
}

impl From<serde_xml_rs::Error> for SerializationError {
    /// Wraps the error in `Xml`, unchanged.
    fn from(error: serde_xml_rs::Error) -> (wrapped: Self) {
        SerializationError::Xml(error)
    }
}

impl FromSpecImpl<serde_xml_rs::Error> for SerializationError {
    open spec fn obeys_from_spec() -> bool {
        true
    }

    open spec fn from_spec(error: serde_xml_rs::Error) -> Self {
        SerializationError::Xml(error)
    }
}

impl From<std::io::Error> for UniversalConfigError {
    /// Wraps the error in `Io`, unchanged.
    fn from(error: std::io::Error) -> (wrapped: Self) {
        UniversalConfigError::Io(error)
    }
}

impl FromSpecImpl<std::io::Error> for UniversalConfigError {
    open spec fn obeys_from_spec() -> bool {
        true
    }

    open spec fn from_spec(error: std::io::Error) -> Self {
        UniversalConfigError::Io(error)
    }
}

impl From<std::str::Utf8Error> for UniversalConfigError {
    /// Wraps the error in `Encoding`, unchanged.
    fn from(error: std::str::Utf8Error) -> (wrapped: Self) {
        UniversalConfigError::Encoding(error)
    }
}

impl FromSpecImpl<std::str::Utf8Error> for UniversalConfigError {
    open spec fn obeys_from_spec() -> bool {
        true
    }

    open spec fn from_spec(error: std::str::Utf8Error) -> Self {
        UniversalConfigError::Encoding(error)
    }
}

impl From<DeserializationError> for UniversalConfigError {
    /// Wraps the error in `Deserialization`, unchanged.
    fn from(error: DeserializationError) -> (wrapped: Self) {
        UniversalConfigError::Deserialization(error)
    }
}

impl FromSpecImpl<DeserializationError> for UniversalConfigError {
    open spec fn obeys_from_spec() -> bool {
        true
    }

    open spec fn from_spec(error: DeserializationError) -> Self {
        UniversalConfigError::Deserialization(error)
    }
}

impl From<SerializationError> for UniversalConfigError {
    /// Wraps the error in `Serialization`, unchanged.
    fn from(error: SerializationError) -> (wrapped: Self) {
        UniversalConfigError::Serialization(error)
    }
}

impl FromSpecImpl<SerializationError> for UniversalConfigError {
    open spec fn obeys_from_spec() -> bool {
        true
    }

    open spec fn from_spec(error: SerializationError) -> Self {
        UniversalConfigError::Serialization(error)
    }
}

} // verus!
