use vstd::prelude::*;

verus! {

/// The parts written one after the other, with `separator` between neighbours.
pub open spec fn join_seq(parts: Seq<Seq<char>>, separator: Seq<char>) -> Seq<char>
    decreases parts.len(),
{
    if parts.len() == 0 {
        Seq::empty()
    } else if parts.len() == 1 {
        parts[0]
    } else {
        join_seq(parts.drop_last(), separator) + separator + parts.last()
    }
}

/// The texts of a list of strings.
pub open spec fn strings_view(v: Seq<String>) -> Seq<Seq<char>> {
    Seq::new(v.len(), |i: int| v[i]@)
}

/// Calls `itertools::Itertools::join` on the strings of `parts`. Believed, not
/// proved: the result is empty for no part, and otherwise the first part
/// followed, for each further part, by `separator` and that part.
#[verifier::external_body]
pub(crate) fn join_display(parts: &Vec<String>, separator: &str) -> (r: String)
    ensures
        r@ == join_seq(strings_view(parts@), separator@),
{
    itertools::Itertools::join(&mut parts.iter(), separator)
}

/// The strings of `parts` written one after the other with `separator`
/// between neighbours.
pub fn join_strings(parts: &Vec<String>, separator: &str) -> (r: String)
    ensures
        r@ == join_seq(strings_view(parts@), separator@),
{
    let mut r = String::new();
    let mut i: usize = 0;
    while i < parts.len()
        invariant
            i <= parts@.len(),
            r@ == join_seq(strings_view(parts@).subrange(0, i as int), separator@),
        decreases parts@.len() - i,
    {
        let ghost before = strings_view(parts@).subrange(0, i as int);
        let ghost after = strings_view(parts@).subrange(0, i + 1);
        if i > 0 {
            r.append(separator);
        }
        r.append(parts[i].as_str());
        proof {
            assert(after.drop_last() == before);
            assert(after.last() == parts@[i as int]@);
            if i == 0 {
                assert(r@ == after[0]);
            }
        }
        i = i + 1;
    }
    proof {
        assert(strings_view(parts@).subrange(0, parts@.len() as int) == strings_view(parts@));
    }
    r
}

} // verus!
