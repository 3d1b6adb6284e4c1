use vstd::prelude::*;
use vstd::string::StringExecFns;

verus! {

/// The one line sent to a running server: the work item's path and a line feed.
pub fn handoff_line(work_item: &str) -> (r: String)
    ensures
        r@ == work_item@.push('\n'),
{
    let mut line = String::from_str(work_item);
    line.append("\n");
    proof {
        reveal_strlit("\n");
    }
    assert(line@ =~= work_item@.push('\n'));
    line
}

} // verus!
