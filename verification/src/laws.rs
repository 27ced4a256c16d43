use vstd::prelude::*;
use crate::address::{address_parts, address_text, first_separator, lemma_first_separator};
use crate::path::{
    any_parent_ref, has_parent_ref, is_parent_ref, is_separator, joined, lemma_pieces_nonempty,
    pieces, rendered, segments, surviving, survives, trimmed, without_trailing_backslashes,
};

verus! {

/// How the pieces of a text go on when more text follows.
///
/// All pieces but the last stay as they are. The last one stays too if
/// what follows starts with a separator, and it grows by what follows if
/// that holds no separator.
pub proof fn lemma_pieces_extend(s: Seq<char>, v: Seq<char>)
    ensures
        pieces(s + v).len() >= pieces(s).len() >= 1,
        forall|i: int| 0 <= i < pieces(s).len() - 1 ==> pieces(s + v)[i] == pieces(s)[i],
        v.len() > 0 && is_separator(v[0]) ==> pieces(s + v).len() > pieces(s).len() && pieces(
            s + v,
        )[pieces(s).len() - 1] == pieces(s).last(),
        (forall|k: int| 0 <= k < v.len() ==> !is_separator(v[k])) ==> pieces(s + v).len()
            == pieces(s).len() && pieces(s + v).last() == pieces(s).last() + v,
    decreases v.len(),
{
    lemma_pieces_nonempty(s);
    if v.len() == 0 {
        assert(s + v =~= s);
        assert(pieces(s).last() + v =~= pieces(s).last());
    } else {
        let shorter = v.drop_last();
        lemma_pieces_extend(s, shorter);
        assert((s + v).drop_last() =~= s + shorter);
        assert((s + v).last() == v.last());
        let before = pieces(s + shorter);
        if v.len() == 1 {
            assert(s + shorter =~= s);
        } else {
            assert(shorter[0] == v[0]);
        }
        if forall|k: int| 0 <= k < v.len() ==> !is_separator(v[k]) {
            assert forall|k: int| 0 <= k < shorter.len() implies !is_separator(shorter[k]) by {
                assert(shorter[k] == v[k]);
            }
            assert(!is_separator(v.last()));
            assert(before.last().push(v.last()) =~= pieces(s).last() + v);
        }
    }
}

/// Path resolution refuses `..` wherever it stands: a relative path in
/// which `..` stands between two separators, of either style, or between a
/// separator and an end of the path, or alone, holds a `..` segment.
pub proof fn law_parent_ref_anywhere(before: Seq<char>, after: Seq<char>)
    requires
        before.len() == 0 || is_separator(before.last()),
        after.len() == 0 || is_separator(after[0]),
    ensures
        has_parent_ref(before + seq!['.', '.'] + after),
{
    let dots = seq!['.', '.'];
    let head = before + dots;
    lemma_pieces_extend(before, dots);
    lemma_pieces_nonempty(before);
    assert(pieces(before).last() =~= Seq::<char>::empty());
    assert(pieces(head).last() =~= dots);
    let at = pieces(head).len() - 1;
    assert(is_parent_ref(pieces(head)[at]));
    if after.len() == 0 {
        assert(head + after =~= head);
    } else {
        lemma_pieces_extend(head, after);
        assert(is_parent_ref(pieces(head + after)[at]));
    }
}

/// A text without separators is its own single piece.
pub proof fn law_pieces_of_plain_text(s: Seq<char>)
    requires
        forall|k: int| 0 <= k < s.len() ==> !is_separator(#[trigger] s[k]),
    ensures
        pieces(s) == seq![s],
    decreases s.len(),
{
    if s.len() == 0 {
        assert(s =~= Seq::<char>::empty());
    } else {
        let shorter = s.drop_last();
        assert forall|k: int| 0 <= k < shorter.len() implies !is_separator(
            #[trigger] shorter[k],
        ) by {
            assert(shorter[k] == s[k]);
        }
        law_pieces_of_plain_text(shorter);
        assert(!is_separator(s[s.len() - 1]));
        assert(shorter.push(s.last()) =~= s);
        assert(seq![shorter].drop_last() =~= Seq::<Seq<char>>::empty());
        assert(seq![shorter].last() == shorter);
        assert(pieces(s) =~= seq![s]);
    }
}

/// A separator cuts a text in two: the pieces of the whole are the pieces
/// of what stands before the separator, then the pieces of what stands
/// behind it.
pub proof fn law_pieces_split_at_separator(before: Seq<char>, separator: char, after: Seq<char>)
    requires
        is_separator(separator),
    ensures
        pieces(before + seq![separator] + after) == pieces(before) + pieces(after),
    decreases after.len(),
{
    let whole = before + seq![separator] + after;
    if after.len() == 0 {
        assert(whole.drop_last() =~= before);
        assert(pieces(whole) =~= pieces(before) + pieces(after));
    } else {
        let shorter = after.drop_last();
        law_pieces_split_at_separator(before, separator, shorter);
        lemma_pieces_nonempty(shorter);
        assert(whole.drop_last() =~= before + seq![separator] + shorter);
        assert(whole.last() == after.last());
        let joint = pieces(before) + pieces(shorter);
        assert(joint.last() == pieces(shorter).last());
        assert(joint.drop_last() =~= pieces(before) + pieces(shorter).drop_last());
        assert(pieces(whole) =~= pieces(before) + pieces(after));
    }
}

/// The pieces of a text that starts with a separator are an empty piece
/// and the pieces of the rest.
pub proof fn lemma_pieces_after_separator(s: Seq<char>)
    requires
        s.len() > 0,
        is_separator(s[0]),
    ensures
        pieces(s) == seq![Seq::<char>::empty()] + pieces(s.drop_first()),
{
    let empty = Seq::<char>::empty();
    law_pieces_split_at_separator(empty, s[0], s.drop_first());
    assert(empty + seq![s[0]] + s.drop_first() =~= s);
    assert(pieces(empty) =~= seq![empty]);
}

/// An empty piece in front changes neither which pieces survive nor
/// whether one of them is `..`.
pub proof fn lemma_leading_empty_piece(ps: Seq<Seq<char>>)
    ensures
        surviving(seq![Seq::<char>::empty()] + ps) == surviving(ps),
        any_parent_ref(seq![Seq::<char>::empty()] + ps) == any_parent_ref(ps),
    decreases ps.len(),
{
    let empty = Seq::<char>::empty();
    let all = seq![empty] + ps;
    if ps.len() == 0 {
        assert(all.drop_last() =~= ps);
        assert(!survives(all.last()));
        assert(surviving(all) == surviving(all.drop_last()));
    } else {
        lemma_leading_empty_piece(ps.drop_last());
        assert(all.drop_last() =~= seq![empty] + ps.drop_last());
        assert(all.last() == ps.last());
    }
    if any_parent_ref(all) {
        let i = choose|i: int| 0 <= i < all.len() && is_parent_ref(#[trigger] all[i]);
        assert(i > 0);
        assert(is_parent_ref(ps[i - 1]));
    }
    if any_parent_ref(ps) {
        let i = choose|i: int| 0 <= i < ps.len() && is_parent_ref(#[trigger] ps[i]);
        assert(is_parent_ref(all[i + 1]));
    }
}

/// Separators at the start and at the end of a relative path change
/// nothing: the path has the segments that it has without them, and holds
/// a `..` segment exactly if it does without them.
pub proof fn law_trimming_changes_nothing(rel: Seq<char>)
    ensures
        segments(trimmed(rel)) == segments(rel),
        has_parent_ref(trimmed(rel)) == has_parent_ref(rel),
    decreases rel.len(),
{
    if rel.len() > 0 && is_separator(rel.last()) {
        let shorter = rel.drop_last();
        law_trimming_changes_nothing(shorter);
        let ps = pieces(shorter);
        let all = ps.push(Seq::<char>::empty());
        assert(pieces(rel) == all);
        assert(all.drop_last() =~= ps);
        if any_parent_ref(all) {
            let i = choose|i: int| 0 <= i < all.len() && is_parent_ref(#[trigger] all[i]);
            assert(is_parent_ref(ps[i]));
        }
        if any_parent_ref(ps) {
            let i = choose|i: int| 0 <= i < ps.len() && is_parent_ref(#[trigger] ps[i]);
            assert(is_parent_ref(all[i]));
        }
    } else if rel.len() > 0 && is_separator(rel[0]) {
        law_trimming_changes_nothing(rel.drop_first());
        lemma_pieces_after_separator(rel);
        lemma_leading_empty_piece(pieces(rel.drop_first()));
    }
}

/// A relative path that is empty once trimmed resolves to the share's
/// root, unchanged.
pub proof fn law_empty_path_is_root(root: Seq<char>, rel: Seq<char>)
    requires
        trimmed(rel).len() == 0,
    ensures
        !has_parent_ref(rel),
        segments(rel).len() == 0,
        rendered(root, segments(rel)) == root,
{
    law_trimming_changes_nothing(rel);
    let empty = Seq::<char>::empty();
    assert(trimmed(rel) =~= empty);
    assert(pieces(empty) =~= seq![empty]);
    lemma_leading_empty_piece(Seq::<Seq<char>>::empty());
    assert(seq![empty] + Seq::<Seq<char>>::empty() =~= seq![empty]);
    assert(surviving(Seq::<Seq<char>>::empty()).len() == 0);
    if any_parent_ref(pieces(empty)) {
        let i = choose|i: int|
            0 <= i < pieces(empty).len() && is_parent_ref(#[trigger] pieces(empty)[i]);
        assert(pieces(empty)[i] == empty);
    }
}

/// The first separator of a text that starts with a run without
/// separators stands behind that run.
pub proof fn lemma_first_separator_skips(run: Seq<char>, rest: Seq<char>)
    requires
        forall|i: int| 0 <= i < run.len() ==> !is_separator(#[trigger] run[i]),
    ensures
        first_separator(run + rest) == run.len() + first_separator(rest),
    decreases run.len(),
{
    if run.len() == 0 {
        assert(run + rest =~= rest);
    } else {
        assert((run + rest)[0] == run[0]);
        assert((run + rest).drop_first() =~= run.drop_first() + rest);
        assert forall|i: int| 0 <= i < run.drop_first().len() implies !is_separator(
            #[trigger] run.drop_first()[i],
        ) by {
            assert(run.drop_first()[i] == run[i + 1]);
        }
        lemma_first_separator_skips(run.drop_first(), rest);
    }
}

/// Stripping the trailing backslashes of a text never reaches into a
/// start of it that does not end in a backslash: what is left is that
/// start and the first `kept` characters of what follows it.
pub proof fn lemma_strip_keeps_start(start: Seq<char>, more: Seq<char>) -> (kept: int)
    requires
        start.len() > 0,
        start.last() != '\\',
    ensures
        0 <= kept <= more.len(),
        without_trailing_backslashes(start + more) == start + more.take(kept),
    decreases more.len(),
{
    if more.len() == 0 {
        assert(start + more =~= start);
        assert(start + more.take(0) =~= start);
        0
    } else if more.last() == '\\' {
        assert((start + more).last() == more.last());
        assert((start + more).drop_last() =~= start + more.drop_last());
        let kept = lemma_strip_keeps_start(start, more.drop_last());
        assert(more.drop_last().take(kept) =~= more.take(kept));
        kept
    } else {
        assert((start + more).last() == more.last());
        assert(more.take(more.len() as int) =~= more);
        more.len() as int
    }
}

/// Joining segments onto a base appends to the base what joining them
/// onto nothing gives, and that starts with a backslash.
pub proof fn lemma_joined_appends(base: Seq<char>, segs: Seq<Seq<char>>)
    ensures
        joined(base, segs) == base + joined(Seq::<char>::empty(), segs),
        segs.len() > 0 ==> joined(Seq::<char>::empty(), segs).len() > 0 && joined(
            Seq::<char>::empty(),
            segs,
        )[0] == '\\',
    decreases segs.len(),
{
    let empty = Seq::<char>::empty();
    if segs.len() == 0 {
        assert(base + empty =~= base);
    } else {
        lemma_joined_appends(base, segs.drop_last());
        let before = joined(empty, segs.drop_last());
        assert(joined(base, segs) =~= base + (before + seq!['\\'] + segs.last()));
        if segs.len() == 1 {
            assert(before =~= empty);
            assert((before + seq!['\\'] + segs.last())[0] == '\\');
        } else {
            assert((before + seq!['\\'] + segs.last())[0] == before[0]);
        }
    }
}

/// Neither the server nor the share of an address holds a separator.
pub proof fn lemma_parts_hold_no_separator(address: Seq<char>)
    requires
        address_parts(address) is Some,
    ensures
        forall|i: int|
            0 <= i < address_parts(address)->0.server.len() ==> !is_separator(
                #[trigger] address_parts(address)->0.server[i],
            ),
        address_parts(address)->0.share matches Some(share) ==> forall|i: int|
            0 <= i < share.len() ==> !is_separator(#[trigger] share[i]),
{
    let root = address_parts(address)->0;
    let rest = address.skip(2);
    let a = first_separator(rest);
    lemma_first_separator(rest);
    assert forall|i: int| 0 <= i < root.server.len() implies !is_separator(
        #[trigger] root.server[i],
    ) by {
        assert(root.server[i] == rest[i]);
    }
    if let Some(share) = root.share {
        let tail = rest.skip(a + 1);
        lemma_first_separator(tail);
        assert forall|i: int| 0 <= i < share.len() implies !is_separator(#[trigger] share[i]) by {
            assert(share[i] == tail[i]);
        }
    }
}

/// The text of a path below a root keeps a start of the root that does
/// not end in a backslash; what follows that start is empty or starts
/// with a backslash, if that holds of the root.
pub proof fn lemma_resolved_keeps_start(start: Seq<char>, more: Seq<char>, segs: Seq<Seq<char>>) -> (follows:
    Seq<char>)
    requires
        start.len() > 0,
        start.last() != '\\',
        more.len() > 0 ==> more[0] == '\\',
    ensures
        rendered(start + more, segs) == start + follows,
        follows.len() > 0 ==> follows[0] == '\\',
{
    let empty = Seq::<char>::empty();
    if segs.len() == 0 {
        more
    } else {
        let kept = lemma_strip_keeps_start(start, more);
        lemma_joined_appends(start + more.take(kept), segs);
        let follows = more.take(kept) + joined(empty, segs);
        assert(rendered(start + more, segs) =~= start + follows);
        if kept > 0 {
            assert(follows[0] == more[0]);
        } else {
            assert(more.take(0) =~= empty);
            assert(follows =~= joined(empty, segs));
        }
        follows
    }
}

/// An address made of a server, a share and something behind them that is
/// empty or starts with a separator reads back as that server and share.
pub proof fn lemma_reads_back(server: Seq<char>, share: Seq<char>, follows: Seq<char>)
    requires
        forall|i: int| 0 <= i < server.len() ==> !is_separator(#[trigger] server[i]),
        forall|i: int| 0 <= i < share.len() ==> !is_separator(#[trigger] share[i]),
        follows.len() > 0 ==> is_separator(follows[0]),
    ensures
        address_parts(seq!['\\', '\\'] + server + seq!['\\'] + share + follows) matches Some(
            found,
        ) && found.server == server && found.share == Some(share),
{
    let text = seq!['\\', '\\'] + server + seq!['\\'] + share + follows;
    let rest = text.skip(2);
    let behind = seq!['\\'] + share + follows;
    assert(rest =~= server + behind);
    lemma_first_separator_skips(server, behind);
    assert(is_separator(behind[0]));
    assert(first_separator(rest) == server.len());
    assert(rest.take(server.len() as int) =~= server);
    let tail = rest.skip(server.len() as int + 1);
    assert(tail =~= share + follows);
    lemma_first_separator_skips(share, follows);
    assert(first_separator(follows) == 0);
    if follows.len() > 0 {
        assert(tail.take(share.len() as int) =~= share);
    } else {
        assert(tail =~= share);
    }
}

/// Every remote path stays on the share it was resolved against: where
/// the root names a share, the text of a path below it, read as an address
/// again, names the same server and the same share.
pub proof fn law_resolved_stays_on_share(address: Seq<char>, segs: Seq<Seq<char>>)
    requires
        address_parts(address) matches Some(root) && root.share matches Some(share) && share.len()
            > 0,
    ensures
        address_parts(rendered(address_text(address_parts(address)->0), segs)) matches Some(found)
            && found.server == address_parts(address)->0.server && found.share == address_parts(
            address,
        )->0.share,
{
    let root = address_parts(address)->0;
    let share = root.share->0;
    lemma_parts_hold_no_separator(address);
    let start = seq!['\\', '\\'] + root.server + seq!['\\'] + share;
    let more = match root.path {
        Some(path) => seq!['\\'] + path,
        None => Seq::<char>::empty(),
    };
    assert(address_text(root) =~= start + more);
    assert(start.last() == share[share.len() - 1]);
    let follows = lemma_resolved_keeps_start(start, more, segs);
    lemma_reads_back(root.server, share, follows);
}

} // verus!
