//! The supported formats and the table that maps file extensions to codecs.
//!
//! | extension     | decoder | encoder                |
//! |---------------|---------|------------------------|
//! | `json`        | JSON    | JSON, pretty-printed   |
//! | `yaml`, `yml` | YAML    | YAML, written `yaml`   |
//! | `toml`        | TOML    | TOML, pretty-printed   |
//! | `corn`        | Corn    | none                   |
//! | `xml`         | XML     | XML                    |
//!
//! The table is keyed by lower-case text. An extension read off a path is
//! lower-cased before it is looked up, so `config.JSON` is a JSON file; an
//! extension handed in directly is matched as it stands.

use vstd::prelude::*;
use crate::error::{DeserializationError, SerializationError};
use crate::path::{extension, extension_of, is_plain};
use crate::text::{lower_case, same_text};

verus! {

/// A serialization syntax in which a configuration file may be written.
#[derive(Clone, Copy, Debug, PartialEq, Eq, Structural)]
pub enum Format {
    /// `.json` files.
    Json,
    /// `.yaml` or `.yml` files.
    Yaml,
    /// `.toml` files.
    Toml,
    /// `.corn` files.
    Corn,
    /// `.xml` files.
    Xml,
}

/// The encoder that writes a format.
#[derive(Clone, Copy, Debug, PartialEq, Eq, Structural)]
pub enum Encoder {
    /// JSON, pretty-printed.
    JsonPretty,
    /// YAML.
    Yaml,
    /// TOML, pretty-printed.
    TomlPretty,
    /// XML.
    Xml,
}

/// Every supported format, in the order in which a loader tries them unless
/// told otherwise.
pub open spec fn all_formats() -> Seq<Format> {
    seq![Format::Json, Format::Yaml, Format::Toml, Format::Corn, Format::Xml]
}

/// The format whose decoder is registered for `extension`, if there is one.
pub open spec fn format_for(extension: Seq<char>) -> Option<Format> {
    if extension == "json"@ {
        Some(Format::Json)
    } else if extension == "yaml"@ || extension == "yml"@ {
        Some(Format::Yaml)
    } else if extension == "toml"@ {
        Some(Format::Toml)
    } else if extension == "corn"@ {
        Some(Format::Corn)
    } else if extension == "xml"@ {
        Some(Format::Xml)
    } else {
        None
    }
}

impl Format {
    /// The one extension with which a file of this format is written.
    pub open spec fn canonical_extension(self) -> Seq<char> {
        match self {
            Format::Json => "json"@,
            Format::Yaml => "yaml"@,
            Format::Toml => "toml"@,
            Format::Corn => "corn"@,
            Format::Xml => "xml"@,
        }
    }

    /// The extensions under which a file of this format is looked for, in the
    /// order in which they are tried. The canonical extension comes first.
    pub open spec fn recognized_extensions(self) -> Seq<Seq<char>> {
        match self {
            Format::Yaml => seq!["yaml"@, "yml"@],
            _ => seq![self.canonical_extension()],
        }
    }

    /// The encoder registered for this format, if there is one.
    pub open spec fn registered_encoder(self) -> Option<Encoder> {
        match self {
            Format::Json => Some(Encoder::JsonPretty),
            Format::Yaml => Some(Encoder::Yaml),
            Format::Toml => Some(Encoder::TomlPretty),
            Format::Corn => None,
            Format::Xml => Some(Encoder::Xml),
        }
    }

    /// The format's canonical file extension, without a leading dot.
    pub fn extension(&self) -> (ext: &'static str)
        ensures
            ext@ == self.canonical_extension(),
    {
        match self {
            Format::Json => "json",
            Format::Yaml => "yaml",
            Format::Toml => "toml",
            Format::Corn => "corn",
            Format::Xml => "xml",
        }
    }

    /// Looks an extension up in the table.
    pub fn from_extension(extension: &str) -> (format: Option<Format>)
        ensures
            format == format_for(extension@),
    {
        if same_text(extension, "json") {
            Some(Format::Json)
        } else if same_text(extension, "yaml") || same_text(extension, "yml") {
            Some(Format::Yaml)
        } else if same_text(extension, "toml") {
            Some(Format::Toml)
        } else if same_text(extension, "corn") {
            Some(Format::Corn)
        } else if same_text(extension, "xml") {
            Some(Format::Xml)
        } else {
            None
        }
    }

    /// The encoder that writes this format. Corn has none: asking for it
    /// fails with `UnsupportedExtension("corn")`.
    pub fn encoder(&self) -> (encoder: Result<Encoder, SerializationError>)
        ensures
            match self.registered_encoder() {
                Some(registered) => encoder == Ok::<Encoder, SerializationError>(registered),
                None => encoder matches Err(error) && error.unsupported() == Some(
                    self.canonical_extension(),
                ),
            },
    {
        match self {
            Format::Json => Ok(Encoder::JsonPretty),
            Format::Yaml => Ok(Encoder::Yaml),
            Format::Toml => Ok(Encoder::TomlPretty),
            Format::Corn => Err(SerializationError::UnsupportedExtension("corn".to_owned())),
            Format::Xml => Ok(Encoder::Xml),
        }
    }
}

/// Chooses the decoder for a file by its extension: the format registered for
/// it, or `UnsupportedExtension` carrying the extension as it was given.
pub fn decoder_for(extension: &str) -> (decoder: Result<Format, DeserializationError>)
    ensures
        match format_for(extension@) {
            Some(format) => decoder == Ok::<Format, DeserializationError>(format),
            None => decoder matches Err(error) && error.unsupported() == Some(extension@),
        },
{
    match Format::from_extension(extension) {
        Some(format) => Ok(format),
        None => Err(DeserializationError::UnsupportedExtension(extension.to_owned())),
    }
}

/// Chooses the decoder for the file at `path`, by the path's extension alone:
/// the file is not looked at.
pub fn decoder_for_path(path: &str) -> (decoder: Result<Format, DeserializationError>)
    ensures
        match format_for(extension_of(path@)) {
            Some(format) => decoder == Ok::<Format, DeserializationError>(format),
            None => decoder matches Err(error) && error.unsupported() == Some(
                extension_of(path@),
            ),
        },
{
    let found = extension(path);
    decoder_for(found.as_str())
}

/// The six extensions of the table, spelled out.
proof fn lemma_extensions_spelled()
    ensures
        "json"@ == seq!['j', 's', 'o', 'n'],
        "yaml"@ == seq!['y', 'a', 'm', 'l'],
        "yml"@ == seq!['y', 'm', 'l'],
        "toml"@ == seq!['t', 'o', 'm', 'l'],
        "corn"@ == seq!['c', 'o', 'r', 'n'],
        "xml"@ == seq!['x', 'm', 'l'],
{
    reveal_strlit("json");
    reveal_strlit("yaml");
    reveal_strlit("yml");
    reveal_strlit("toml");
    reveal_strlit("corn");
    reveal_strlit("xml");
}

/// No two extensions of the table are the same text.
proof fn lemma_extensions_differ()
    ensures
        "json"@ != "yaml"@ && "json"@ != "yml"@ && "json"@ != "toml"@ && "json"@ != "corn"@
            && "json"@ != "xml"@,
        "yaml"@ != "yml"@ && "yaml"@ != "toml"@ && "yaml"@ != "corn"@ && "yaml"@ != "xml"@,
        "yml"@ != "toml"@ && "yml"@ != "corn"@ && "yml"@ != "xml"@,
        "toml"@ != "corn"@ && "toml"@ != "xml"@,
        "corn"@ != "xml"@,
{
    lemma_extensions_spelled();
}

/// The table reads the same in both directions: an extension selects a format
/// exactly if files of that format are looked for under that extension.
pub proof fn lemma_selected_iff_recognized(extension: Seq<char>, format: Format)
    ensures
        format_for(extension) == Some(format) <==> format.recognized_extensions().contains(
            extension,
        ),
{
    lemma_extensions_differ();
    let recognized = format.recognized_extensions();
    if format_for(extension) == Some(format) && extension != "yml"@ {
        assert(recognized[0] == extension);
    }
}

/// A format's canonical extension selects that format, and is the first
/// extension under which its files are looked for.
pub proof fn lemma_canonical_selects_itself(format: Format)
    ensures
        format_for(format.canonical_extension()) == Some(format),
        format.recognized_extensions()[0] == format.canonical_extension(),
{
    lemma_extensions_differ();
}

/// Every extension in the table is lower-case and holds neither a dot nor a
/// slash.
pub proof fn lemma_recognized_is_plain(format: Format, index: int)
    requires
        0 <= index < format.recognized_extensions().len(),
    ensures
        is_plain(format.recognized_extensions()[index]),
        lower_case(format.recognized_extensions()[index]) == format.recognized_extensions()[index],
{
    lemma_extensions_spelled();
}

} // verus!
