//! The command-line options: a single positional argument naming the file to
//! open, with the literal token `-` meaning "read from standard input".

use vstd::prelude::*;

verus! {

/// The options the process is started with.
pub struct Opts {
    /// The file to open; `-` reads from standard input when piping.
    pub file: String,
}

/// Where the encoded bytes come from.
#[derive(Clone, Copy, Debug, PartialEq, Eq, Structural)]
pub enum InputOrigin {
    /// The argument was the marker `-`: read standard input to its end.
    Stdin,
    /// The argument names a file to read.
    NamedFile,
}

/// The origin a file argument selects: standard input exactly when the
/// argument is the one-character marker `-`.
pub open spec fn spec_origin(file: Seq<char>) -> InputOrigin {
    if file == "-"@ {
        InputOrigin::Stdin
    } else {
        InputOrigin::NamedFile
    }
}

impl Opts {
    pub fn new(file: String) -> (opts: Self)
        ensures
            opts.file@ == file@,
    {
        Opts { file }
    }

    /// Decides between standard input and a named file.
    pub fn origin(&self) -> (o: InputOrigin)
        ensures
            o == spec_origin(self.file@),
    {
        let f = self.file.as_str();
        proof {
            reveal_strlit("-");
        }
        if f.unicode_len() == 1 && f.get_char(0) == '-' {
            proof {
                assert(self.file@ =~= "-"@);
            }
            InputOrigin::Stdin
        } else {
            InputOrigin::NamedFile
        }
    }
}

} // verus!
