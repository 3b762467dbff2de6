//! `tags`: what the tag listing shows.
use crate::text::{concat2, decimal, decimal_string, strings_view};
use vstd::prelude::*;

verus! {

/// The lines of `tags list`: a count, then one indented line per tag.
pub open spec fn tag_list(tags: Seq<Seq<char>>) -> Seq<Seq<char>> {
    seq![decimal(tags.len()) + " tag(s):"@] + tags.map_values(|t: Seq<char>| "  "@ + t)
}

/// The lines printed by `tags list`.
pub fn tag_list_lines(tags: &Vec<String>) -> (lines: Vec<String>)
    ensures
        strings_view(lines@) == tag_list(strings_view(tags@)),
{
    let n = tags.len();
    let mut lines: Vec<String> = Vec::new();
    lines.push(concat2(decimal_string(n as u64).as_str(), " tag(s):"));
    let mut i: usize = 0;
    while i < n
        invariant
            n == tags@.len(),
            i <= n,
            strings_view(lines@) == seq![decimal(n as nat) + " tag(s):"@] + strings_view(
                tags@,
            ).take(i as int).map_values(|t: Seq<char>| "  "@ + t),
        decreases n - i,
    {
        let line = concat2("  ", tags[i].as_str());
        let ghost before = strings_view(lines@);
        lines.push(line);
        assert(strings_view(tags@).take(i + 1).map_values(|t: Seq<char>| "  "@ + t) =~= strings_view(
            tags@,
        ).take(i as int).map_values(|t: Seq<char>| "  "@ + t).push("  "@ + tags@[i as int]@));
        assert(strings_view(lines@) =~= before.push(line@));
        i = i + 1;
    }
    assert(strings_view(tags@).take(n as int) =~= strings_view(tags@));
    lines
}

} // verus!
