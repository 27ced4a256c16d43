use vstd::prelude::*;

verus! {

/// Whether a character separates the segments of a path.
pub open spec fn is_separator(c: char) -> bool {
    c == '\\' || c == '/'
}

/// The pieces that the separators cut a text into, empty ones included:
/// a text with `k` separators has `k + 1` pieces.
pub open spec fn pieces(s: Seq<char>) -> Seq<Seq<char>>
    decreases s.len(),
{
    if s.len() == 0 {
        seq![Seq::<char>::empty()]
    } else {
        let before = pieces(s.drop_last());
        if is_separator(s.last()) {
            before.push(Seq::<char>::empty())
        } else {
            before.drop_last().push(before.last().push(s.last()))
        }
    }
}

/// The piece `.`, which stands for the directory it is found in.
pub open spec fn is_current_ref(piece: Seq<char>) -> bool {
    piece.len() == 1 && piece[0] == '.'
}

/// The piece `..`, which would climb out of a directory.
pub open spec fn is_parent_ref(piece: Seq<char>) -> bool {
    piece.len() == 2 && piece[0] == '.' && piece[1] == '.'
}

/// Whether a piece names something: it is neither empty nor `.`.
pub open spec fn survives(piece: Seq<char>) -> bool {
    piece.len() > 0 && !is_current_ref(piece)
}

/// The pieces that survive, in their order.
pub open spec fn surviving(ps: Seq<Seq<char>>) -> Seq<Seq<char>>
    decreases ps.len(),
{
    if ps.len() == 0 {
        Seq::<Seq<char>>::empty()
    } else if survives(ps.last()) {
        surviving(ps.drop_last()).push(ps.last())
    } else {
        surviving(ps.drop_last())
    }
}

/// The segments of a relative path: its pieces but for the empty ones and `.`.
pub open spec fn segments(rel: Seq<char>) -> Seq<Seq<char>> {
    surviving(pieces(rel))
}

/// Whether some piece among `ps` is `..`.
pub open spec fn any_parent_ref(ps: Seq<Seq<char>>) -> bool {
    exists|i: int| 0 <= i < ps.len() && is_parent_ref(#[trigger] ps[i])
}

/// Whether a relative path holds a `..` segment.
pub open spec fn has_parent_ref(rel: Seq<char>) -> bool {
    any_parent_ref(pieces(rel))
}

/// Whether a segment may stand in a remote path: it is not empty, holds no
/// separator, and is neither `.` nor `..`.
pub open spec fn valid_segment(seg: Seq<char>) -> bool {
    &&& seg.len() > 0
    &&& !is_current_ref(seg)
    &&& !is_parent_ref(seg)
    &&& forall|k: int| 0 <= k < seg.len() ==> !is_separator(#[trigger] seg[k])
}

/// A text without the backslashes at its end.
pub open spec fn without_trailing_backslashes(s: Seq<char>) -> Seq<char>
    decreases s.len(),
{
    if s.len() > 0 && s.last() == '\\' {
        without_trailing_backslashes(s.drop_last())
    } else {
        s
    }
}

/// A base followed by each segment in turn, a single backslash before each.
pub open spec fn joined(base: Seq<char>, segs: Seq<Seq<char>>) -> Seq<char>
    decreases segs.len(),
{
    if segs.len() == 0 {
        base
    } else {
        joined(base, segs.drop_last()) + seq!['\\'] + segs.last()
    }
}

/// The text of the remote path that segments under a share root denote:
/// the root itself where there is no segment, else the segments joined onto
/// the root without its trailing backslashes.
pub open spec fn rendered(root: Seq<char>, segs: Seq<Seq<char>>) -> Seq<char> {
    if segs.len() == 0 {
        root
    } else {
        joined(without_trailing_backslashes(root), segs)
    }
}

/// A text without the separators at its start and at its end.
pub open spec fn trimmed(s: Seq<char>) -> Seq<char>
    decreases s.len(),
{
    if s.len() > 0 && is_separator(s.last()) {
        trimmed(s.drop_last())
    } else if s.len() > 0 && is_separator(s[0]) {
        trimmed(s.drop_first())
    } else {
        s
    }
}

/// The texts that a sequence of character vectors holds.
pub open spec fn texts(v: Seq<Vec<char>>) -> Seq<Seq<char>> {
    Seq::new(v.len(), |i: int| v[i]@)
}

/// A text always has at least one piece.
pub proof fn lemma_pieces_nonempty(s: Seq<char>)
    ensures
        pieces(s).len() >= 1,
    decreases s.len(),
{
    if s.len() > 0 {
        lemma_pieces_nonempty(s.drop_last());
    }
}

/// No piece of a text holds a separator.
pub proof fn lemma_pieces_hold_no_separator(s: Seq<char>)
    ensures
        forall|i: int, k: int|
            0 <= i < pieces(s).len() && 0 <= k < pieces(s)[i].len() ==> !is_separator(
                #[trigger] pieces(s)[i][k],
            ),
    decreases s.len(),
{
    if s.len() > 0 {
        lemma_pieces_hold_no_separator(s.drop_last());
        lemma_pieces_nonempty(s.drop_last());
    }
}

/// Every surviving piece is one of the pieces, and survives.
pub proof fn lemma_surviving_members(ps: Seq<Seq<char>>)
    ensures
        forall|j: int|
            0 <= j < surviving(ps).len() ==> survives(#[trigger] surviving(ps)[j]) && exists|i: int|
                0 <= i < ps.len() && ps[i] == surviving(ps)[j],
    decreases ps.len(),
{
    if ps.len() > 0 {
        lemma_surviving_members(ps.drop_last());
        assert forall|j: int| 0 <= j < surviving(ps).len() implies survives(
            #[trigger] surviving(ps)[j],
        ) && exists|i: int| 0 <= i < ps.len() && ps[i] == surviving(ps)[j] by {
            if j < surviving(ps.drop_last()).len() {
                let i = choose|i: int|
                    0 <= i < ps.drop_last().len() && ps.drop_last()[i] == surviving(
                        ps.drop_last(),
                    )[j];
                assert(ps[i] == surviving(ps)[j]);
            } else {
                assert(ps[ps.len() - 1] == surviving(ps)[j]);
            }
        }
    }
}

/// The segments of a relative path without a `..` are all valid.
pub proof fn lemma_segments_valid(rel: Seq<char>)
    requires
        !has_parent_ref(rel),
    ensures
        forall|j: int| 0 <= j < segments(rel).len() ==> valid_segment(#[trigger] segments(rel)[j]),
{
    lemma_surviving_members(pieces(rel));
    lemma_pieces_hold_no_separator(rel);
    assert forall|j: int| 0 <= j < segments(rel).len() implies valid_segment(
        #[trigger] segments(rel)[j],
    ) by {
        let seg = segments(rel)[j];
        let i = choose|i: int| 0 <= i < pieces(rel).len() && pieces(rel)[i] == seg;
        assert(!is_parent_ref(pieces(rel)[i]));
        assert forall|k: int| 0 <= k < seg.len() implies !is_separator(#[trigger] seg[k]) by {
            assert(seg[k] == pieces(rel)[i][k]);
        }
    }
}

/// Whether a character separates the segments of a path.
pub fn separates(c: char) -> (yes: bool)
    ensures
        yes == is_separator(c),
{
    c == '\\' || c == '/'
}

/// Closes the piece `cur`: keeps it among `done` if it survives, and says
/// whether it is `..`.
fn close_piece(done: &mut Vec<Vec<char>>, cur: Vec<char>) -> (parent: bool)
    ensures
        parent == is_parent_ref(cur@),
        texts(final(done)@) == if survives(cur@) {
            texts(old(done)@).push(cur@)
        } else {
            texts(old(done)@)
        },
{
    let n = cur.len();
    let parent = n == 2 && cur[0] == '.' && cur[1] == '.';
    let current = n == 1 && cur[0] == '.';
    if n > 0 && !current {
        let ghost before = done@;
        done.push(cur);
        assert(texts(done@) =~= texts(before).push(cur@));
    }
    parent
}

/// The segments of a relative path, or `None` where one of its pieces is `..`.
pub fn split_segments(rel: &Vec<char>) -> (out: Option<Vec<Vec<char>>>)
    ensures
        match out {
            Some(segs) => !has_parent_ref(rel@) && texts(segs@) == segments(rel@),
            None => has_parent_ref(rel@),
        },
{
    let n = rel.len();
    let mut done: Vec<Vec<char>> = Vec::new();
    let mut cur: Vec<char> = Vec::new();
    let mut escaped = false;
    let ghost mut closed: Seq<Seq<char>> = Seq::empty();
    let mut i: usize = 0;
    assert(rel@.take(0) =~= Seq::<char>::empty());
    assert(pieces(rel@.take(0)) =~= closed.push(cur@));
    assert(texts(done@) =~= surviving(closed));
    while i < n
        invariant
            i <= n,
            n == rel.len(),
            pieces(rel@.take(i as int)) == closed.push(cur@),
            texts(done@) == surviving(closed),
            escaped == any_parent_ref(closed),
        decreases n - i,
    {
        let c = rel[i];
        let ghost prefix = rel@.take(i as int);
        let ghost next = rel@.take(i + 1);
        proof {
            assert(next.drop_last() =~= prefix);
            assert(next.last() == c);
            assert(closed.push(cur@).drop_last() =~= closed);
        }
        if separates(c) {
            let ghost grown = closed.push(cur@);
            let piece = cur;
            cur = Vec::new();
            let parent = close_piece(&mut done, piece);
            proof {
                assert(grown.drop_last() =~= closed);
                assert(pieces(next) =~= grown.push(cur@));
                if parent {
                    assert(is_parent_ref(grown[closed.len() as int]));
                } else if any_parent_ref(grown) {
                    let k = choose|k: int| 0 <= k < grown.len() && is_parent_ref(#[trigger] grown[k]);
                    assert(grown[k] == closed[k]);
                }
                if any_parent_ref(closed) {
                    let k = choose|k: int|
                        0 <= k < closed.len() && is_parent_ref(#[trigger] closed[k]);
                    assert(grown[k] == closed[k]);
                }
                closed = grown;
            }
            escaped = escaped || parent;
        } else {
            cur.push(c);
            proof {
                assert(pieces(next) =~= closed.push(cur@));
            }
        }
        i += 1;
    }
    assert(rel@.take(n as int) =~= rel@);
    let ghost all = closed.push(cur@);
    let parent = close_piece(&mut done, cur);
    proof {
        assert(all.drop_last() =~= closed);
        if parent {
            assert(is_parent_ref(all[closed.len() as int]));
        } else if any_parent_ref(all) {
            let k = choose|k: int| 0 <= k < all.len() && is_parent_ref(#[trigger] all[k]);
            assert(all[k] == closed[k]);
        }
        if any_parent_ref(closed) {
            let k = choose|k: int| 0 <= k < closed.len() && is_parent_ref(#[trigger] closed[k]);
            assert(all[k] == closed[k]);
        }
    }
    if escaped || parent {
        None
    } else {
        Some(done)
    }
}

/// A text without the separators at its start and at its end.
pub fn trim_separators(text: &Vec<char>) -> (out: Vec<char>)
    ensures
        out@ == trimmed(text@),
{
    let mut end: usize = text.len();
    assert(text@.take(end as int) =~= text@);
    while end > 0 && separates(text[end - 1])
        invariant
            end <= text.len(),
            trimmed(text@) == trimmed(text@.take(end as int)),
        decreases end,
    {
        assert(text@.take(end as int).drop_last() =~= text@.take(end - 1));
        end -= 1;
    }
    let mut start: usize = 0;
    assert(text@.subrange(0, end as int) =~= text@.take(end as int));
    while start < end && separates(text[start])
        invariant
            start <= end <= text.len(),
            end > 0 ==> !is_separator(text@[end - 1]),
            trimmed(text@) == trimmed(text@.subrange(start as int, end as int)),
        decreases end - start,
    {
        assert(text@.subrange(start as int, end as int).drop_first() =~= text@.subrange(
            start + 1,
            end as int,
        ));
        start += 1;
    }
    let mut out: Vec<char> = Vec::new();
    let mut i: usize = start;
    assert(text@.subrange(start as int, start as int) =~= Seq::<char>::empty());
    while i < end
        invariant
            start <= i <= end <= text.len(),
            out@ == text@.subrange(start as int, i as int),
        decreases end - i,
    {
        out.push(text[i]);
        assert(text@.subrange(start as int, i + 1) =~= text@.subrange(
            start as int,
            i as int,
        ).push(text@[i as int]));
        i += 1;
    }
    out
}

} // verus!
