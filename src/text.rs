use vstd::prelude::*;
use vstd::string::*;

verus! {

/// The character sequences held by a sequence of strings.
pub open spec fn views(v: Seq<String>) -> Seq<Seq<char>> {
    v.map_values(|x: String| x@)
}

/// The pieces of `s` between occurrences of `sep`, in order. There is always at
/// least one piece: an empty `s` gives one empty piece, and two adjacent
/// separators give an empty piece between them.
pub open spec fn split_on(s: Seq<char>, sep: char) -> Seq<Seq<char>>
    decreases s.len(),
{
    if s.len() == 0 {
        seq![seq![]]
    } else {
        let init = split_on(s.drop_last(), sep);
        if s.last() == sep {
            init.push(seq![])
        } else {
            init.update(init.len() - 1, init.last().push(s.last()))
        }
    }
}

/// The parts joined into one sequence, with `sep` between each two neighbours.
pub open spec fn join_with(parts: Seq<Seq<char>>, sep: char) -> Seq<char>
    decreases parts.len(),
{
    if parts.len() == 0 {
        seq![]
    } else if parts.len() == 1 {
        parts[0]
    } else {
        join_with(parts.drop_last(), sep).push(sep) + parts.last()
    }
}

proof fn lemma_views_push(v: Seq<String>, x: String)
    ensures
        views(v.push(x)) == views(v).push(x@),
{
    assert(views(v.push(x)) =~= views(v).push(x@));
}

/// Splits `s` at every occurrence of `sep`.
pub fn split_on_char(s: &str, sep: char) -> (r: Vec<String>)
    ensures
        views(r@) == split_on(s@, sep),
{
    let n = s.unicode_len();
    let mut pieces: Vec<String> = Vec::new();
    let mut start: usize = 0;
    let mut i: usize = 0;
    proof {
        assert(s@.subrange(0, 0) =~= Seq::<char>::empty());
        assert(views(pieces@) =~= Seq::<Seq<char>>::empty());
        assert(split_on(s@.subrange(0, 0), sep) =~= views(pieces@).push(s@.subrange(0, 0)));
    }
    while i < n
        invariant
            n == s@.len(),
            start <= i <= n,
            split_on(s@.subrange(0, i as int), sep) == views(pieces@).push(
                s@.subrange(start as int, i as int),
            ),
        decreases n - i,
    {
        let c = s.get_char(i);
        let ghost cur = s@.subrange(start as int, i as int);
        proof {
            assert(s@.subrange(0, i + 1).drop_last() =~= s@.subrange(0, i as int));
            assert(s@.subrange(0, i + 1).last() == c);
        }
        if c == sep {
            let piece = s.substring_char(start, i).to_owned();
            proof {
                lemma_views_push(pieces@, piece);
            }
            pieces.push(piece);
            start = i + 1;
            proof {
                assert(s@.subrange(start as int, i + 1) =~= Seq::<char>::empty());
            }
        } else {
            proof {
                assert(s@.subrange(start as int, i + 1) =~= cur.push(c));
                assert(views(pieces@).push(cur).update(views(pieces@).len() as int, cur.push(c))
                    =~= views(pieces@).push(cur.push(c)));
            }
        }
        i = i + 1;
    }
    let last = s.substring_char(start, n).to_owned();
    proof {
        assert(s@.subrange(0, n as int) =~= s@);
        lemma_views_push(pieces@, last);
    }
    pieces.push(last);
    pieces
}

/// The parts joined into one string, separated by commas.
pub fn join_comma(parts: &Vec<String>) -> (r: String)
    ensures
        r@ == join_with(views(parts@), ','),
{
    let mut out = String::new();
    let mut i: usize = 0;
    while i < parts.len()
        invariant
            i <= parts@.len(),
            out@ == join_with(views(parts@.subrange(0, i as int)), ','),
        decreases parts@.len() - i,
    {
        proof {
            assert(views(parts@.subrange(0, i + 1)).drop_last() =~= views(
                parts@.subrange(0, i as int),
            ));
            assert(views(parts@.subrange(0, i + 1)).last() == parts@[i as int]@);
        }
        if i > 0 {
            proof {
                reveal_strlit(",");
            }
            out.append(",");
        }
        out.append(parts[i].as_str());
        proof {
            if i == 0 {
                assert(out@ =~= views(parts@.subrange(0, 1))[0]);
            }
        }
        i = i + 1;
    }
    assert(parts@.subrange(0, parts@.len() as int) =~= parts@);
    out
}

} // verus!
