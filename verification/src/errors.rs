//! The pipeline's fatal conditions.  A binary without a bundle section
//! is not among them: that is a successful no-op, reported through
//! `Option`, not through this enum.

use vstd::prelude::*;

verus! {

/// Every way the pipeline can fail for one input file.
/// `ModuleCompileFailed` names the module whose code generation failed.
#[derive(Debug)]
pub enum ErrorKind {
    /// The input is not the single-architecture binary shape the
    /// pipeline understands (fat/archive/symbol-table containers).
    UnsupportedBinaryFormat,
    /// Reading the bundle bytes out of the binary, or dumping the
    /// archive's table of contents, failed.
    ExtractionFailed,
    /// The manifest markup could not be parsed.
    ManifestParseFailed,
    /// The manifest names a platform outside the supported table.
    UnsupportedPlatform,
    /// An SDK override path does not exist on disk.
    InvalidSdkPath,
    /// An SDK override path exists but does not name the platform.
    PlatformMismatch,
    /// No override was given and the platform's default SDK is absent.
    SdkNotFound,
    /// A toolchain override path does not exist on disk.
    InvalidToolchainPath,
    /// No override was given and the default toolchain is absent.
    ToolchainNotFound,
    /// Extracting the bundle archive's members failed.
    ArchiveExtractFailed,
    /// One module's code generation exited non-zero; carries its name.
    ModuleCompileFailed(String),
    /// The runtime-support archive was not found under the toolchain.
    RuntimeLibraryNotFound,
    /// The final link exited non-zero.
    LinkFailed,
}

impl ErrorKind {
    /// A one-line diagnostic for the error stream.
    pub fn describe(&self) -> (r: String)
        ensures
            match self {
                ErrorKind::UnsupportedBinaryFormat => r@ == "unsupported binary format"@,
                ErrorKind::ExtractionFailed => r@ == "bundle extraction failed"@,
                ErrorKind::ManifestParseFailed => r@ == "manifest parse failed"@,
                ErrorKind::UnsupportedPlatform => r@ == "no support platform"@,
                ErrorKind::InvalidSdkPath => r@ == "sdk path does not exist"@,
                ErrorKind::PlatformMismatch => r@ == "the sdk is inconsistent with the platform"@,
                ErrorKind::SdkNotFound => r@ == "no sdk path"@,
                ErrorKind::InvalidToolchainPath => r@ == "toolchain path does not exist"@,
                ErrorKind::ToolchainNotFound => r@ == "no toolchain path"@,
                ErrorKind::ArchiveExtractFailed => r@ == "archive extraction failed"@,
                ErrorKind::ModuleCompileFailed(name) => r@ == "module failed to compile: "@
                    + name@,
                ErrorKind::RuntimeLibraryNotFound => r@ == "runtime library not found"@,
                ErrorKind::LinkFailed => r@ == "link failed"@,
            },
    {
        match self {
            ErrorKind::UnsupportedBinaryFormat => String::from_str("unsupported binary format"),
            ErrorKind::ExtractionFailed => String::from_str("bundle extraction failed"),
            ErrorKind::ManifestParseFailed => String::from_str("manifest parse failed"),
            ErrorKind::UnsupportedPlatform => String::from_str("no support platform"),
            ErrorKind::InvalidSdkPath => String::from_str("sdk path does not exist"),
            ErrorKind::PlatformMismatch => String::from_str(
                "the sdk is inconsistent with the platform",
            ),
            ErrorKind::SdkNotFound => String::from_str("no sdk path"),
            ErrorKind::InvalidToolchainPath => String::from_str("toolchain path does not exist"),
            ErrorKind::ToolchainNotFound => String::from_str("no toolchain path"),
            ErrorKind::ArchiveExtractFailed => String::from_str("archive extraction failed"),
            ErrorKind::ModuleCompileFailed(name) => String::from_str(
                "module failed to compile: ",
            ).concat(name.as_str()),
            ErrorKind::RuntimeLibraryNotFound => String::from_str("runtime library not found"),
            ErrorKind::LinkFailed => String::from_str("link failed"),
        }
    }
}

} // verus!
