use vstd::prelude::*;

verus! {

/// Everything that can go wrong while locating the configuration, scanning
/// the theme directory, editing the document or saving it.
#[derive(Debug, PartialEq, Eq)]
pub enum ConfigError {
    /// The host operating system is none of Linux, macOS and Windows; holds its name.
    UnsupportedPlatform(String),
    /// No candidate location of the configuration file exists.
    NotFound,
    /// The configuration file exists but could not be read.
    ReadFailure,
    /// The themes directory does not exist.
    DirectoryMissing,
    /// The themes directory could not be listed.
    ScanFailure,
    /// The configuration text is not TOML; holds the parser's message.
    ParseFailure(String),
    /// The document's `import` entry is not an array of strings.
    MalformedDocument,
    /// The edited document could not be written back.
    WriteFailure,
}

} // verus!
