//! The RPC names offered to the operator, read from a newline-separated list.

use vstd::prelude::*;
use crate::text::char_vec;

verus! {

/// `s` cut at each `'\n'`: one piece more than it has newlines.
pub open spec fn split_pieces(s: Seq<char>) -> Seq<Seq<char>>
    decreases s.len(),
{
    if s.len() == 0 {
        seq![Seq::empty()]
    } else {
        let p = split_pieces(s.drop_last());
        if s.last() == '\n' {
            p.push(Seq::empty())
        } else {
            p.update(p.len() - 1, p.last().push(s.last()))
        }
    }
}

/// A piece that a newline ended, without the `'\r'` of a `"\r\n"` ending.
pub open spec fn line_text(p: Seq<char>) -> Seq<char> {
    if p.len() > 0 && p.last() == '\r' {
        p.drop_last()
    } else {
        p
    }
}

/// The non-empty lines among pieces that a newline ended, in order.
pub open spec fn kept_lines(ps: Seq<Seq<char>>) -> Seq<Seq<char>>
    decreases ps.len(),
{
    if ps.len() == 0 {
        Seq::empty()
    } else {
        let c = kept_lines(ps.drop_last());
        let l = line_text(ps.last());
        if l.len() > 0 {
            c.push(l)
        } else {
            c
        }
    }
}

/// The choices that the text `s` of the name list offers: its non-empty
/// lines, in order, as `str::lines` reads them (a `"\r\n"` ending counts as a
/// newline; the last line needs no ending).
pub open spec fn rpc_choice_list(s: Seq<char>) -> Seq<Seq<char>> {
    let ps = split_pieces(s);
    let done = kept_lines(ps.drop_last());
    if ps.last().len() > 0 {
        done.push(ps.last())
    } else {
        done
    }
}

proof fn lemma_split_pieces_nonempty(s: Seq<char>)
    ensures
        split_pieces(s).len() >= 1,
    decreases s.len(),
{
    if s.len() > 0 {
        lemma_split_pieces_nonempty(s.drop_last());
    }
}

/// The RPC names offered, one per non-empty line of `text`, in order.
pub fn rpc_choices(text: &str) -> (r: Vec<String>)
    ensures
        r@.len() == rpc_choice_list(text@).len(),
        forall|j: int| 0 <= j < r@.len() ==> #[trigger] r@[j]@ == rpc_choice_list(text@)[j],
{
    let cs = char_vec(text);
    let n = cs.len();
    let mut out: Vec<String> = Vec::new();
    let ghost mut done: Seq<Seq<char>> = Seq::empty();
    let mut start: usize = 0;
    let mut i: usize = 0;
    proof {
        assert(text@.subrange(0, 0) =~= Seq::<char>::empty());
        assert(split_pieces(text@.subrange(0, 0)) =~= done.push(text@.subrange(0, 0)));
    }
    while i < n
        invariant
            cs@ == text@,
            n == cs@.len(),
            start <= i <= n,
            split_pieces(text@.subrange(0, i as int)) == done.push(
                text@.subrange(start as int, i as int),
            ),
            out@.len() == kept_lines(done).len(),
            forall|j: int| 0 <= j < out@.len() ==> #[trigger] out@[j]@ == kept_lines(done)[j],
        decreases n - i,
    {
        let ghost pre = text@.subrange(0, i as int);
        let ghost next = text@.subrange(0, i + 1);
        assert(next.drop_last() =~= pre);
        proof {
            lemma_split_pieces_nonempty(pre);
        }
        if cs[i] == '\n' {
            let ghost piece = text@.subrange(start as int, i as int);
            let end: usize = if i > start && cs[i - 1] == '\r' {
                i - 1
            } else {
                i
            };
            assert(text@.subrange(start as int, end as int) == line_text(piece)) by {
                if i > start && cs@[i - 1] == '\r' {
                    assert(piece.drop_last() =~= text@.subrange(start as int, end as int));
                }
            }
            let ghost old_done = done;
            proof {
                done = done.push(piece);
                assert(done.drop_last() =~= old_done);
            }
            if end > start {
                let l = text.substring_char(start, end);
                out.push(String::from_str(l));
            }
            start = i + 1;
            proof {
                assert(text@.subrange(start as int, i + 1) =~= Seq::<char>::empty());
                assert(split_pieces(next) =~= done.push(text@.subrange(start as int, i + 1)));
            }
        } else {
            proof {
                assert(text@.subrange(start as int, i + 1) =~= text@.subrange(
                    start as int,
                    i as int,
                ).push(cs@[i as int]));
                assert(split_pieces(next) =~= done.push(text@.subrange(start as int, i + 1)));
            }
        }
        i += 1;
    }
    assert(text@.subrange(0, n as int) =~= text@);
    let ghost ps = split_pieces(text@);
    assert(ps.drop_last() =~= done);
    if n > start {
        let l = text.substring_char(start, n);
        out.push(String::from_str(l));
    }
    out
}

} // verus!
