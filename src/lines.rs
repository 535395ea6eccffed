use vstd::prelude::*;

verus! {

/// The pieces of `s` between newline characters: what splitting at every
/// `'\n'` gives, always at least one (possibly empty) piece.
pub open spec fn pieces(s: Seq<char>) -> Seq<Seq<char>>
    decreases s.len(),
{
    if s.len() == 0 {
        seq![Seq::empty()]
    } else {
        let p = pieces(s.drop_last());
        if s.last() == '\n' {
            p.push(Seq::empty())
        } else {
            p.update(p.len() - 1, p.last().push(s.last()))
        }
    }
}

/// A line without the carriage return that ended it, if any.
pub open spec fn strip_cr(l: Seq<char>) -> Seq<char> {
    if l.len() > 0 && l.last() == '\r' {
        l.drop_last()
    } else {
        l
    }
}

/// The lines of `s`: every piece that a newline ends, without a `"\r"` before
/// that newline, then the last piece unless it is empty. A final newline
/// therefore adds no empty line, and a `'\r'` not followed by `'\n'` stays.
pub open spec fn lines_of(s: Seq<char>) -> Seq<Seq<char>> {
    let p = pieces(s);
    let ended = p.drop_last().map_values(|l: Seq<char>| strip_cr(l));
    if p.last().len() == 0 {
        ended
    } else {
        ended.push(p.last())
    }
}

/// Splits `text` into its lines.
pub fn split_lines(text: &str) -> (r: Vec<String>)
    ensures
        r@.map_values(|l: String| l@) == lines_of(text@),
{
    let mut chars: Vec<char> = Vec::new();
    for c in it: text.chars()
        invariant
            chars@ == it.seq().subrange(0, it.index() as int),
    {
        chars.push(c);
    }
    assert(chars@ =~= text@);
    let n = chars.len();
    let mut out: Vec<String> = Vec::new();
    let mut start: usize = 0;
    let mut i: usize = 0;
    proof {
        assert(text@.subrange(0, 0) =~= Seq::<char>::empty());
        assert(pieces(text@.subrange(0, 0)).drop_last() =~= Seq::<Seq<char>>::empty());
        assert(out@.map_values(|l: String| l@) =~= Seq::<Seq<char>>::empty());
    }
    while i < n
        invariant
            chars@ == text@,
            n == text@.len(),
            start <= i <= n,
            pieces(text@.subrange(0, i as int)).len() >= 1,
            pieces(text@.subrange(0, i as int)).last() == text@.subrange(start as int, i as int),
            out@.map_values(|l: String| l@) == pieces(text@.subrange(0, i as int)).drop_last().map_values(
                |l: Seq<char>| strip_cr(l),
            ),
        decreases n - i,
    {
        let ghost prev = text@.subrange(0, i as int);
        let ghost next = text@.subrange(0, i + 1);
        let ghost p = pieces(prev);
        assert(next.drop_last() =~= prev);
        assert(next.last() == text@[i as int]);
        if chars[i] == '\n' {
            let end: usize = if i > start && chars[i - 1] == '\r' {
                i - 1
            } else {
                i
            };
            let line = text.substring_char(start, end).to_owned();
            proof {
                let cur = text@.subrange(start as int, i as int);
                assert(line@ == strip_cr(cur)) by {
                    if i > start && text@[i - 1] == '\r' {
                        assert(cur.drop_last() =~= text@.subrange(start as int, end as int));
                    }
                }
                assert(pieces(next) == p.push(Seq::empty()));
                assert(pieces(next).drop_last() =~= p);
                assert(p =~= p.drop_last().push(p.last()));
            }
            out.push(line);
            start = i + 1;
            proof {
                assert(pieces(next).last() =~= text@.subrange(start as int, i + 1));
                assert(out@.map_values(|l: String| l@) =~= p.drop_last().map_values(
                    |l: Seq<char>| strip_cr(l),
                ).push(strip_cr(p.last())));
                assert(p.map_values(|l: Seq<char>| strip_cr(l)) =~= p.drop_last().map_values(
                    |l: Seq<char>| strip_cr(l),
                ).push(strip_cr(p.last())));
            }
        } else {
            proof {
                assert(pieces(next) == p.update(p.len() - 1, p.last().push(text@[i as int])));
                assert(pieces(next).drop_last() =~= p.drop_last());
                assert(pieces(next).last() =~= text@.subrange(start as int, i + 1));
            }
        }
        i = i + 1;
    }
    assert(text@.subrange(0, n as int) =~= text@);
    if start < n {
        let line = text.substring_char(start, n).to_owned();
        out.push(line);
        proof {
            let p = pieces(text@);
            assert(out@.map_values(|l: String| l@) =~= p.drop_last().map_values(
                |l: Seq<char>| strip_cr(l),
            ).push(p.last()));
        }
    }
    out
}

} // verus!
