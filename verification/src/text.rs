use vstd::prelude::*;

verus! {

/// The character sequences of a list of diagnostic lines, for stating the
/// exact output of a function that produces several lines at once.
pub open spec fn lines_view(lines: Seq<String>) -> Seq<Seq<char>> {
    lines.map_values(|s: String| s@)
}

/// Exact equality of two string slices, decided by comparing owned copies.
pub fn str_equal(a: &str, b: &str) -> (r: bool)
    ensures
        r == (a@ == b@),
{
    let owned_a: String = a.to_owned();
    let owned_b: String = b.to_owned();
    owned_a == owned_b
}

} // verus!
