use vstd::prelude::*;

verus! {

/// What opens the dump file: the start of an array literal that numeric
/// tools read back as a matrix.
pub fn dump_header() -> (s: &'static str)
    ensures
        s@ == "data = [\n"@,
{
    "data = [\n"
}

/// What follows spectrum `i` of `count` in the dump file: a separator after
/// every spectrum but the last, and the end of the array after the last.
pub fn dump_separator(i: usize, count: usize) -> (s: &'static str)
    requires
        i < count,
    ensures
        s@ == (if i + 1 == count { "];\n"@ } else { ",\n"@ }),
{
    if i != count - 1 {
        ",\n"
    } else {
        "];\n"
    }
}

} // verus!
