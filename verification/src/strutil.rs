//! Joining string pieces with a separator, specified at the level of
//! character sequences.
//!
//! The command builder lowers every sub-command to a vector of argument
//! words; the remote execution path then joins those words with single
//! spaces, and attribute values are joined with commas.  `join_sep` is the
//! mathematical statement of that joining, and `join_strings` the verified
//! executable form.

use vstd::prelude::*;

verus! {

/// The views of a sequence of owned strings.
pub open spec fn views_of(parts: Seq<String>) -> Seq<Seq<char>> {
    parts.map_values(|s: String| s@)
}

/// `parts` interleaved with `sep`: empty for no parts, and otherwise the
/// parts in order with one separator between each adjacent pair.
pub open spec fn join_sep(parts: Seq<Seq<char>>, sep: Seq<char>) -> Seq<char>
    decreases parts.len(),
{
    if parts.len() == 0 {
        Seq::<char>::empty()
    } else if parts.len() == 1 {
        parts[0]
    } else {
        parts[0] + sep + join_sep(parts.drop_first(), sep)
    }
}

/// Appending one more part extends the joined text by one separator and
/// that part (or is just that part when nothing was joined yet).
pub proof fn lemma_join_push(parts: Seq<Seq<char>>, sep: Seq<char>, last: Seq<char>)
    ensures
        join_sep(parts.push(last), sep) == if parts.len() == 0 {
            last
        } else {
            (join_sep(parts, sep) + sep + last)
        },
    decreases parts.len(),
{
    if parts.len() == 0 {
        assert(parts.push(last).len() == 1);
        assert(parts.push(last)[0] == last);
    } else if parts.len() == 1 {
        assert(parts.push(last).len() == 2);
        assert(parts.push(last)[0] == parts[0]);
        assert(parts.push(last).drop_first() =~~= seq![last]);
        assert(join_sep(seq![last], sep) == last);
        assert(join_sep(parts.push(last), sep) == parts[0] + sep + last);
    } else {
        lemma_join_push(parts.drop_first(), sep, last);
        assert(parts.push(last).drop_first() =~~= parts.drop_first().push(last));
        assert(join_sep(parts, sep) == parts[0] + sep + join_sep(parts.drop_first(), sep));
        assert(join_sep(parts.push(last), sep) == parts[0] + sep + join_sep(
            parts.drop_first().push(last),
            sep,
        ));
        assert(parts[0] + sep + (join_sep(parts.drop_first(), sep) + sep + last) =~= (parts[0] + sep
            + join_sep(parts.drop_first(), sep)) + sep + last);
    }
}

/// Join the given strings with the separator, in order.
pub fn join_strings(parts: &Vec<String>, sep: &str) -> (r: String)
    ensures
        r@ == join_sep(views_of(parts@), sep@),
{
    let mut r = String::new();
    let mut i: usize = 0;
    while i < parts.len()
        invariant
            i <= parts@.len(),
            r@ == join_sep(views_of(parts@).take(i as int), sep@),
        decreases parts@.len() - i,
    {
        if i > 0 {
            r.append(sep);
        }
        r.append(parts[i].as_str());
        proof {
            let vs = views_of(parts@);
            assert(vs.take(i + 1) =~~= vs.take(i as int).push(vs[i as int]));
            lemma_join_push(vs.take(i as int), sep@, vs[i as int]);
        }
        i += 1;
    }
    proof {
        assert(views_of(parts@).take(parts@.len() as int) =~~= views_of(parts@));
    }
    r
}

} // verus!
