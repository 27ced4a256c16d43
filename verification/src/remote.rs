use vstd::prelude::*;
use crate::address::ShareRoot;
use crate::failure::{ErrorKind, Failure};
use crate::path::{
    has_parent_ref, joined, lemma_segments_valid, rendered, segments, split_segments, texts,
    valid_segment, without_trailing_backslashes,
};
use crate::text::{chars_of, string_of};

verus! {

/// Appends the characters of `more` to `out`.
pub fn push_all(out: &mut Vec<char>, more: &Vec<char>)
    ensures
        final(out)@ == old(out)@ + more@,
{
    let ghost start = out@;
    let mut i: usize = 0;
    assert(out@ =~= start + more@.take(0));
    while i < more.len()
        invariant
            i <= more.len(),
            out@ == start + more@.take(i as int),
        decreases more.len() - i,
    {
        out.push(more[i]);
        assert(out@ =~= start + more@.take(i + 1));
        i += 1;
    }
    assert(more@.take(more.len() as int) =~= more@);
}

/// A text without the backslashes at its end.
pub fn strip_trailing_backslashes(text: &Vec<char>) -> (out: Vec<char>)
    ensures
        out@ == without_trailing_backslashes(text@),
{
    let mut end: usize = text.len();
    assert(text@.take(end as int) =~= text@);
    while end > 0 && text[end - 1] == '\\'
        invariant
            end <= text.len(),
            without_trailing_backslashes(text@) == without_trailing_backslashes(
                text@.take(end as int),
            ),
        decreases end,
    {
        assert(text@.take(end as int).drop_last() =~= text@.take(end - 1));
        end -= 1;
    }
    let mut out: Vec<char> = Vec::new();
    let mut i: usize = 0;
    while i < end
        invariant
            i <= end <= text.len(),
            out@ == text@.take(i as int),
        decreases end - i,
    {
        out.push(text[i]);
        assert(text@.take(i + 1) =~= text@.take(i as int).push(text@[i as int]));
        i += 1;
    }
    out
}

/// A base followed by the first `count` segments, a backslash before each.
fn join(base: &Vec<char>, segs: &Vec<Vec<char>>, count: usize) -> (out: Vec<char>)
    requires
        count <= segs.len(),
    ensures
        out@ == joined(base@, texts(segs@).take(count as int)),
{
    let mut out: Vec<char> = Vec::new();
    push_all(&mut out, base);
    assert(out@ =~= base@);
    let mut i: usize = 0;
    while i < count
        invariant
            i <= count <= segs.len(),
            out@ == joined(base@, texts(segs@).take(i as int)),
        decreases count - i,
    {
        let ghost had = texts(segs@).take(i as int);
        let ghost has = texts(segs@).take(i + 1);
        out.push('\\');
        push_all(&mut out, &segs[i]);
        proof {
            assert(has.drop_last() =~= had);
            assert(has.last() == segs@[i as int]@);
            assert(out@ =~= joined(base@, had) + seq!['\\'] + segs@[i as int]@);
        }
        i += 1;
    }
    out
}

/// The path of an object on a share: the share's root, and below it the
/// segments that lead to the object.
#[derive(Debug)]
pub struct RemotePath {
    root: Vec<char>,
    segments: Vec<Vec<char>>,
}

impl RemotePath {
    /// The text of the share's root.
    pub closed spec fn root(&self) -> Seq<char> {
        self.root@
    }

    /// The segments below the root, outermost first.
    pub closed spec fn segments(&self) -> Seq<Seq<char>> {
        texts(self.segments@)
    }

    /// Every segment is a name: none is empty, `.` or `..`, and none holds a
    /// separator.
    pub open spec fn wf(&self) -> bool {
        forall|i: int|
            0 <= i < self.segments().len() ==> valid_segment(#[trigger] self.segments()[i])
    }

    /// The path as text.
    pub open spec fn text(&self) -> Seq<char> {
        rendered(self.root(), self.segments())
    }

    /// The text of the path's ancestor that is `count` segments below the
    /// root; the path itself where it has no more segments than that.
    pub open spec fn ancestor_text(&self, count: nat) -> Seq<char> {
        if count >= self.segments().len() {
            self.text()
        } else {
            rendered(self.root(), self.segments().take(count as int))
        }
    }

    /// How many segments the path has below the root.
    pub fn depth(&self) -> (n: usize)
        ensures
            n == self.segments().len(),
    {
        self.segments.len()
    }

    /// Whether the path is the share's root itself.
    pub fn is_root(&self) -> (yes: bool)
        ensures
            yes == (self.segments().len() == 0),
    {
        self.segments.len() == 0
    }

    /// The text of the ancestor that is `count` segments below the root.
    pub fn ancestor(&self, count: usize) -> (out: String)
        ensures
            out@ == self.ancestor_text(count as nat),
    {
        let n = if count >= self.segments.len() {
            self.segments.len()
        } else {
            count
        };
        proof {
            if count >= self.segments.len() {
                assert(self.segments().take(n as int) =~= self.segments());
            }
        }
        if n == 0 {
            assert(self.segments().take(0).len() == 0);
            string_of(&self.root)
        } else {
            let base = strip_trailing_backslashes(&self.root);
            let chars = join(&base, &self.segments, n);
            string_of(&chars)
        }
    }

    /// The path as text.
    pub fn to_text(&self) -> (out: String)
        ensures
            out@ == self.text(),
    {
        self.ancestor(self.segments.len())
    }
}

/// Resolves a path given relative to a share's root.
///
/// The relative path is cut at its separators, `\` and `/` alike. Empty
/// pieces and `.` are dropped, so separators at either end, or several in a
/// row, change nothing. A `..` anywhere makes the path a `BadPath`. What is
/// left are the segments of the remote path below the root.
pub fn resolve(root: &ShareRoot, rel: &str) -> (r: Result<RemotePath, Failure>)
    ensures
        match r {
            Ok(p) => {
                &&& !has_parent_ref(rel@)
                &&& p.root() == root.text()
                &&& p.segments() == segments(rel@)
                &&& p.wf()
            },
            Err(f) => has_parent_ref(rel@) && f.is_bare(ErrorKind::BadPath),
        },
{
    let chars = chars_of(rel);
    match split_segments(&chars) {
        Some(segs) => {
            proof {
                lemma_segments_valid(rel@);
            }
            Ok(RemotePath { root: root.to_chars(), segments: segs })
        },
        None => Err(Failure::bare(ErrorKind::BadPath)),
    }
}

} // verus!
