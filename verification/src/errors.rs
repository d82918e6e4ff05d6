use vstd::prelude::*;

verus! {

/// The external tools that the engine drives; named so that a tool failure
/// can report which step went wrong.
#[derive(Clone, Copy, Debug, PartialEq, Eq, Structural)]
pub enum Tool {
    RasterConverter,
    CursorCompiler,
}

/// Everything that can go wrong while materializing a cursor theme.
#[derive(Clone, Copy, Debug, PartialEq, Eq, Structural)]
pub enum EngineError {
    /// The source image could not be parsed as the expected animated format.
    DecodeError,
    /// An external tool was missing or exited with a non-zero status.
    ExternalToolError(Tool),
    /// A directory, symlink or file operation failed.
    FilesystemError,
    /// The desktop identity is unknown; the theme is installed but the
    /// session must be switched to it manually.
    UnsupportedEnvironment,
}

} // verus!
