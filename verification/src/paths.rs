//! The paths of the files that each stage of compilation writes.

use vstd::prelude::*;
use vstd::string::StringExecFns;

verus! {

/// The extension of preprocessed source files.
pub const PREPROCESSED_EXTENSION: &'static str = "i";

/// The extension that the compilation stub gives its output, as it passes it to
/// `set_extension` (the leading dot is kept).
pub const ASSEMBLY_EXTENSION: &'static str = ".s";

/// The extension of emitted assembly files.
pub const ASM_EXTENSION: &'static str = "s";

/// The path that `camino::Utf8PathBuf::set_extension` makes of `path` with `extension`,
/// or nothing when `path` has no file name.
pub uninterp spec fn path_with_extension(path: Seq<char>, extension: Seq<char>) -> Option<
    Seq<char>,
>;

/// `extension` holds no path separator (neither `/` nor `\\`).
pub open spec fn no_separator(extension: Seq<char>) -> bool {
    !extension.contains('/') && !extension.contains('\\')
}

/// Calls `camino::Utf8PathBuf::set_extension` on `path`; its result is named by
/// [`path_with_extension`], a function of the two strings alone. That method hands the
/// extension to `std::path::PathBuf::set_extension`, which panics on an extension that
/// holds a path separator, so such an extension is not admitted.
#[verifier::external_body]
fn set_extension(path: &str, extension: &str) -> (r: Option<String>)
    requires
        no_separator(extension@),
    ensures
        match path_with_extension(path@, extension@) {
            Some(p) => r matches Some(s) && s@ == p,
            None => r is None,
        },
{
    let mut output_path = camino::Utf8PathBuf::from(path);
    if output_path.set_extension(extension) {
        Some(output_path.into_string())
    } else {
        None
    }
}

/// Why no output path could be made.
#[derive(Clone, Copy, Debug, PartialEq, Eq, Structural)]
pub enum OutputPathError {
    /// The input path has no file name.
    NoInputFileName,
    /// The preprocessed file's path has no file name.
    NoPreprocessedFileName,
}

impl OutputPathError {
    /// The message that describes this error.
    pub fn to_string(&self) -> (s: String)
        ensures
            s@ == (match self {
                OutputPathError::NoInputFileName => "no input file name given"@,
                OutputPathError::NoPreprocessedFileName => "no preprocessed file name given"@,
            }),
    {
        let mut s = String::new();
        match self {
            OutputPathError::NoInputFileName => s.append("no input file name given"),
            OutputPathError::NoPreprocessedFileName => s.append("no preprocessed file name given"),
        }
        s
    }
}

/// `r` is the path with the extension, or `err` when the path has no file name.
pub open spec fn is_output_path(
    path: Seq<char>,
    extension: Seq<char>,
    r: Result<String, OutputPathError>,
    err: OutputPathError,
) -> bool {
    match path_with_extension(path, extension) {
        Some(p) => r matches Ok(s) && s@ == p,
        None => r == Err::<String, OutputPathError>(err),
    }
}

fn output_path(path: &str, extension: &str, err: OutputPathError) -> (r: Result<
    String,
    OutputPathError,
>)
    requires
        no_separator(extension@),
    ensures
        is_output_path(path@, extension@, r, err),
{
    match set_extension(path, extension) {
        Some(p) => Ok(p),
        None => Err(err),
    }
}

/// The file that preprocessing `path` writes: `path` with the extension `i`.
pub fn preprocessed_path(path: &str) -> (r: Result<String, OutputPathError>)
    ensures
        is_output_path(path@, PREPROCESSED_EXTENSION@, r, OutputPathError::NoInputFileName),
{
    proof {
        reveal_strlit("i");
        assert(!"i"@.contains('/') && !"i"@.contains('\\')) by {
            assert(forall|i: int| 0 <= i < "i"@.len() ==> #[trigger] "i"@[i] != '/' && "i"@[i] != '\\');
        }
    }
    output_path(path, PREPROCESSED_EXTENSION, OutputPathError::NoInputFileName)
}

/// The file that the compilation stub writes for the preprocessed file `path`.
pub fn compiled_path(path: &str) -> (r: Result<String, OutputPathError>)
    ensures
        is_output_path(path@, ASSEMBLY_EXTENSION@, r, OutputPathError::NoPreprocessedFileName),
{
    proof {
        reveal_strlit(".s");
        assert(!".s"@.contains('/') && !".s"@.contains('\\')) by {
            assert(forall|i: int| 0 <= i < ".s"@.len() ==> #[trigger] ".s"@[i] != '/' && ".s"@[i] != '\\');
        }
    }
    output_path(path, ASSEMBLY_EXTENSION, OutputPathError::NoPreprocessedFileName)
}

/// The assembly file that emitting code for the input file `path` writes: `path` with
/// the extension `s`.
pub fn assembly_path(path: &str) -> (r: Result<String, OutputPathError>)
    ensures
        is_output_path(path@, ASM_EXTENSION@, r, OutputPathError::NoInputFileName),
{
    proof {
        reveal_strlit("s");
        assert(!"s"@.contains('/') && !"s"@.contains('\\')) by {
            assert(forall|i: int| 0 <= i < "s"@.len() ==> #[trigger] "s"@[i] != '/' && "s"@[i] != '\\');
        }
    }
    output_path(path, ASM_EXTENSION, OutputPathError::NoInputFileName)
}

/// The executable that assembling and linking the assembly file `path` writes: `path`
/// without its extension.
pub fn executable_path(path: &str) -> (r: Result<String, OutputPathError>)
    ensures
        is_output_path(path@, ""@, r, OutputPathError::NoInputFileName),
{
    proof {
        reveal_strlit("");
    }
    output_path(path, "", OutputPathError::NoInputFileName)
}

} // verus!
