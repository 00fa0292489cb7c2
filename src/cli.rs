//! The command line's options as plain data, and the parsing of the bit
//! depth option.

use vstd::prelude::*;
use vstd::string::StringExecFns;

use std::path::PathBuf;

use crate::naming::Name;

verus! {

#[verifier::external_type_specification]
#[verifier::external_body]
pub struct ExPathBuf(PathBuf);

/// Priority of the encoder threads.
#[derive(Debug, Copy, Clone, PartialEq, Eq, Structural)]
pub enum ThreadNice {
    Max,
    Min,
    Default,
}

impl ThreadNice {
    /// The cross-platform priority value (0 to 99).
    pub fn value(self) -> (v: u8)
        ensures
            v == match self {
                ThreadNice::Max => 0u8,
                ThreadNice::Min => 99u8,
                ThreadNice::Default => 55u8,
            },
    {
        match self {
            ThreadNice::Max => 0,
            ThreadNice::Min => 99,
            ThreadNice::Default => 55,
        }
    }
}

/// Converts files or directories of images to AVIF.
#[derive(Debug)]
pub struct Avif {
    /// Files or directories containing images to convert.
    pub path: Vec<PathBuf>,
    /// Encode without writing any file.
    pub benchmark: bool,
    /// Where to write the single output file.
    pub output_file: Option<PathBuf>,
    /// Send a desktop notification when all jobs are finished.
    pub notify: bool,
}

/// Watches a directory and converts the image files created in it.
#[derive(Debug)]
pub struct Watch {
    pub path: PathBuf,
}

/// The subcommands.
#[derive(Debug)]
pub enum Commands {
    Avif(Avif),
    Watch(Watch),
}

/// Options shared by all subcommands.
#[derive(Debug)]
pub struct Args {
    pub command: Commands,
    pub quality: u8,
    pub speed: u8,
    pub name_type: Name,
    /// Encoded image bit depth.
    pub bit_depth: u8,
    /// Threads; 0 for one per CPU.
    pub threads: usize,
    /// How many images to keep in memory at once.
    pub batch_size: Option<usize>,
    /// Suppress console messages.
    pub quiet: bool,
    /// Keep the original file.
    pub keep: bool,
    /// Composite transparent images onto black before encoding.
    pub remove_alpha: bool,
    /// Encoder threads priority.
    pub priority: ThreadNice,
}

/// The value of a string of decimal digits.
pub open spec fn digits_value(d: Seq<char>) -> int
    decreases d.len(),
{
    if d.len() == 0 {
        0
    } else {
        digits_value(d.drop_last()) * 10 + (d.last() as u32 - 48)
    }
}

/// What `str::parse::<u8>` makes of `s`: an optional `+` followed by at
/// least one decimal digit, with a value of at most 255.
pub open spec fn parsed_u8(s: Seq<char>) -> Option<u8> {
    let d = if s.len() > 1 && s[0] == '+' {
        s.drop_first()
    } else {
        s
    };
    if d.len() > 0 && (forall|i: int| 0 <= i < d.len() ==> '0' <= #[trigger] d[i] <= '9')
        && digits_value(d) <= 255 {
        Some(digits_value(d) as u8)
    } else {
        None
    }
}

/// Relies on `<u8 as FromStr>::from_str` (std's `from_str_radix` with radix
/// 10): an optional `+`, then one or more ASCII digits, rejected on
/// overflow.
#[verifier::external_body]
fn parse_u8(s: &str) -> (r: Option<u8>)
    ensures
        r == parsed_u8(s@),
{
    s.parse::<u8>().ok()
}

/// Parses the bit depth option: 8, 10 or 12.
pub fn bit_values(s: &str) -> (r: Result<u8, String>)
    ensures
        parsed_u8(s@) is None ==> (r matches Err(e) && e@ == "`"@ + s@ + "` isn't a valid number"@),
        parsed_u8(s@) matches Some(d) ==> (d == 8 || d == 10 || d == 12 ==> r == Ok::<u8, String>(d)),
        parsed_u8(s@) matches Some(d) ==> (!(d == 8 || d == 10 || d == 12) ==> (r matches Err(e)
            && e@ == "bit depth must be either 8, 10 or 12"@)),
{
    match parse_u8(s) {
        None => {
            let mut e = String::from_str("`");
            e.append(s);
            e.append("` isn't a valid number");
            Err(e)
        },
        Some(depth) => {
            if depth == 8 || depth == 10 || depth == 12 {
                Ok(depth)
            } else {
                Err(String::from_str("bit depth must be either 8, 10 or 12"))
            }
        },
    }
}

/// What is known of a source file before it is decoded.
#[derive(Debug)]
pub struct FileMetadata {
    pub path: PathBuf,
    /// File name with extension.
    pub filename: String,
    /// File name without extension.
    pub name: String,
    pub extension: String,
    /// Size in bytes.
    pub size: u64,
}

} // verus!
