//! Rendering a group of merge requests as report text: a header line, then
//! one bullet per item with its title, link and author, and indented lines
//! for labels and blockers where the item has any.

use vstd::prelude::*;
use vstd::string::StringExecFns;

use crate::classify::blockers_spec;
use crate::text::{join_spec, join_strings, view_fn};
use crate::types::MergeRequest;

verus! {

/// The report line(s) of one item: the bullet with title, link and author,
/// an indented labels line where the item has labels, and an indented
/// blocker line where anything blocks it.
pub open spec fn line_spec(mr: MergeRequest) -> Seq<char> {
    "    * ["@ + mr.title@ + "]("@ + mr.web_url@ + ") ("@ + mr.author.username@ + ")\n"@ + (
    if mr.labels@.len() > 0 {
        "        * Labels: "@ + join_spec(mr.labels@.map_values(view_fn()), ", "@) + "\n"@
    } else {
        Seq::<char>::empty()
    }) + (if blockers_spec(mr).len() > 0 {
        "        * "@ + join_spec(blockers_spec(mr), ", "@) + "\n"@
    } else {
        Seq::<char>::empty()
    })
}

/// The lines of all items, in the order given.
pub open spec fn lines_spec(mrs: Seq<MergeRequest>) -> Seq<char>
    decreases mrs.len(),
{
    if mrs.len() == 0 {
        Seq::empty()
    } else {
        lines_spec(mrs.drop_last()) + line_spec(mrs.last())
    }
}

/// The whole group report: the emphasized header, then the items' lines.
pub open spec fn slack_format_spec(header: Seq<char>, mrs: Seq<MergeRequest>) -> Seq<char> {
    "* *"@ + header + "*\n"@ + lines_spec(mrs)
}

fn format_line(mr: &MergeRequest) -> (r: String)
    ensures
        r@ == line_spec(*mr),
{
    let mut line = "    * [".to_owned();
    line.append(mr.title.as_str());
    line.append("](");
    line.append(mr.web_url.as_str());
    line.append(") (");
    line.append(mr.author.username.as_str());
    line.append(")\n");
    proof {
        assert(line@ =~= "    * ["@ + mr.title@ + "]("@ + mr.web_url@ + ") ("@
            + mr.author.username@ + ")\n"@);
    }

    if mr.labels.len() > 0 {
        line.append("        * Labels: ");
        let joined = join_strings(&mr.labels, ", ");
        line.append(joined.as_str());
        line.append("\n");
    }

    let blockers = mr.blockers();
    if blockers.len() > 0 {
        line.append("        * ");
        let joined = join_strings(&blockers, ", ");
        line.append(joined.as_str());
        line.append("\n");
    }
    proof {
        assert(blockers@.map_values(view_fn()).len() == blockers@.len());
        assert(line@ =~= line_spec(*mr));
    }
    line
}

/// Renders one group of items under a header.
pub fn slack_format(header: &str, mrs: &Vec<MergeRequest>) -> (r: String)
    ensures
        r@ == slack_format_spec(header@, mrs@),
{
    let mut out = "* *".to_owned();
    out.append(header);
    out.append("*\n");
    let mut i: usize = 0;
    while i < mrs.len()
        invariant
            0 <= i <= mrs@.len(),
            out@ == slack_format_spec(header@, mrs@.take(i as int)),
        decreases mrs@.len() - i,
    {
        let mr = &mrs[i];
        let line = format_line(mr);
        out.append(line.as_str());
        proof {
            assert(mrs@.take(i as int + 1).drop_last() =~= mrs@.take(i as int));
            assert(mrs@.take(i as int + 1).last() == mrs@[i as int]);
            assert(out@ =~= slack_format_spec(header@, mrs@.take(i as int + 1)));
        }
        i = i + 1;
    }
    proof {
        assert(mrs@.take(mrs@.len() as int) =~= mrs@);
    }
    out
}

} // verus!
