//! Reading a tool's version from what its `--version` run printed.
use vstd::prelude::*;
use crate::report::ProcessOutput;
use crate::text::{chars_of, trim, trim_bounds};

verus! {

/// The printed version, trimmed, when the tool exited cleanly.
pub fn version_from_output(out: &ProcessOutput) -> (r: Option<String>)
    ensures
        out.success ==> r is Some && r->0@ == trim(out.stdout@),
        !out.success ==> r is None,
{
    if !out.success {
        return None;
    }
    let chars = chars_of(out.stdout.as_str());
    let (i, j) = trim_bounds(&chars, 0, chars.len());
    assert(chars@.subrange(0, chars@.len() as int) =~= out.stdout@);
    Some(String::from_str(out.stdout.as_str().substring_char(i, j)))
}

} // verus!
