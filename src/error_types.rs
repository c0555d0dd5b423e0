use vstd::prelude::*;

verus! {

/// The ways in which loading a model can end without a model.
#[derive(Clone, Copy, Debug, PartialEq, Eq, Structural)]
pub enum XpsError {
    /// The source could not be opened.
    StreamNotOpened,
    /// The binary magic number did not match.
    InvalidHeader,
    /// Not yet classified.
    Unknown,
    /// The file name carries no suffix that selects a decoder.
    FileNotLoaded,
    /// A texture path has no parent component.
    PathGetParent,
    /// A texture path's parent cannot be written as text.
    PathToStr,
    /// The mesh section of a text model could not be decoded.
    MeshReadAscii,
    /// The mesh section of a binary model could not be decoded.
    MeshReadBin,
    /// No error: the status of a model that was decoded.
    NoError,
}

impl XpsError {
    /// The variant's name.
    pub fn name(&self) -> (r: &'static str)
        ensures
            r@ == match self {
                XpsError::StreamNotOpened => "StreamNotOpened"@,
                XpsError::InvalidHeader => "InvalidHeader"@,
                XpsError::Unknown => "Unknown"@,
                XpsError::FileNotLoaded => "FileNotLoaded"@,
                XpsError::PathGetParent => "PathGetParent"@,
                XpsError::PathToStr => "PathToStr"@,
                XpsError::MeshReadAscii => "MeshReadAscii"@,
                XpsError::MeshReadBin => "MeshReadBin"@,
                XpsError::NoError => "NoError"@,
            },
    {
        match self {
            XpsError::StreamNotOpened => "StreamNotOpened",
            XpsError::InvalidHeader => "InvalidHeader",
            XpsError::Unknown => "Unknown",
            XpsError::FileNotLoaded => "FileNotLoaded",
            XpsError::PathGetParent => "PathGetParent",
            XpsError::PathToStr => "PathToStr",
            XpsError::MeshReadAscii => "MeshReadAscii",
            XpsError::MeshReadBin => "MeshReadBin",
            XpsError::NoError => "NoError",
        }
    }
}

impl Default for XpsError {
    fn default() -> (r: XpsError)
        ensures
            r == XpsError::Unknown,
    {
        XpsError::Unknown
    }
}

} // verus!
