use vstd::prelude::*;
use vstd::string::*;
use crate::errors::{EngineError, Tool};

verus! {

/// The raster-conversion invocation: the converter reads the source image
/// and writes one `cursor*.png` per frame into the working directory.
pub open spec fn spec_converter_command(source: Seq<char>, out_png: Seq<char>) -> Seq<Seq<char>> {
    seq!["convert"@, source, out_png]
}

/// The cursor-compiler invocation: the compiler reads the config text from
/// its standard input, resolves frame files against the working directory,
/// and writes the canonical cursor binary.
pub open spec fn spec_compiler_command(workdir: Seq<char>, out: Seq<char>) -> Seq<Seq<char>> {
    seq!["xcursorgen"@, "-p"@, workdir, "-"@, out]
}

/// Builds the raster-converter command line for a source image and the
/// `cursor.png` output path.
pub fn converter_command(source: &String, out_png: &String) -> (r: Vec<String>)
    ensures
        r@.map_values(|s: String| s@) == spec_converter_command(source@, out_png@),
{
    let mut c: Vec<String> = Vec::new();
    c.push(String::from_str("convert"));
    c.push(source.clone());
    c.push(out_png.clone());
    proof {
        assert(c@.map_values(|s: String| s@) =~= spec_converter_command(source@, out_png@));
    }
    c
}

/// Builds the cursor-compiler command line for a working directory and the
/// canonical output path.
pub fn compiler_command(workdir: &String, out: &String) -> (r: Vec<String>)
    ensures
        r@.map_values(|s: String| s@) == spec_compiler_command(workdir@, out@),
{
    let mut c: Vec<String> = Vec::new();
    c.push(String::from_str("xcursorgen"));
    c.push(String::from_str("-p"));
    c.push(workdir.clone());
    c.push(String::from_str("-"));
    c.push(out.clone());
    proof {
        assert(c@.map_values(|s: String| s@) =~= spec_compiler_command(workdir@, out@));
    }
    c
}

/// Maps an external tool's exit status to success or failure: only a
/// reported exit code of zero counts as success; a non-zero code, or a
/// missing one (the tool was killed or never ran), names the failing tool.
pub fn interpret_exit(tool: Tool, exit_code: Option<i32>) -> (r: Result<(), EngineError>)
    ensures
        exit_code == Some(0i32) ==> r == Ok::<(), EngineError>(()),
        exit_code != Some(0i32) ==> r == Err::<(), EngineError>(EngineError::ExternalToolError(
            tool,
        )),
{
    match exit_code {
        Some(c) => {
            if c == 0 {
                Ok(())
            } else {
                Err(EngineError::ExternalToolError(tool))
            }
        },
        None => Err(EngineError::ExternalToolError(tool)),
    }
}

} // verus!
