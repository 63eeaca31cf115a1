//! Log output selection.
//!
//! The bridge writes its log either for humans or as JSON lines; the
//! choice is made by name on the command line.  Only the parsing of
//! that name lives here; building the actual log drain is I/O and
//! stays with the program around the library.

use vstd::prelude::*;
use crate::text::str_eq;

verus! {

/// The two supported log output formats.
#[derive(Debug, Clone, Copy, PartialEq, Eq, Structural)]
pub enum Output {
    Human,
    Json,
}

impl Output {
    /// Parses an output name: `"human"` and `"json"` are the only
    /// accepted values; any other name is rejected and handed back so
    /// the caller can report it.
    pub fn from_str(s: &str) -> (r: Result<Output, String>)
        ensures
            r is Ok <==> (s@ == "human"@ || s@ == "json"@),
            s@ == "human"@ ==> r == Ok::<Output, String>(Output::Human),
            s@ == "json"@ ==> r == Ok::<Output, String>(Output::Json),
            r is Err ==> r->Err_0@ == s@,
    {
        proof {
            reveal_strlit("human");
            reveal_strlit("json");
            assert("human"@.len() == 5);
            assert("json"@.len() == 4);
        }
        if str_eq(s, "human") {
            Ok(Output::Human)
        } else if str_eq(s, "json") {
            Ok(Output::Json)
        } else {
            Err(s.to_owned())
        }
    }
}

} // verus!
