//! Path virtualization: normalizing a slash-delimited path into a sequence of
//! plain segments rooted at the storage area's root.
//!
//! A separator closes the segment read so far; empty segments and
//! current-directory markers are dropped; a parent-directory marker anywhere
//! is rejected, so every resolved path stays confined under the root.

use vstd::prelude::*;

use crate::error::Error;
use crate::error::ErrorKind;

verus! {

/// The current-directory marker, as a segment.
pub open spec fn current_marker() -> Seq<char> {
    seq!['.']
}

/// The parent-directory marker, as a segment.
pub open spec fn parent_marker() -> Seq<char> {
    seq!['.', '.']
}

/// A closed raw segment is kept when it is non-empty and is neither marker.
pub open spec fn keep_segment(seg: Seq<char>) -> bool {
    seg.len() > 0 && seg != current_marker() && seg != parent_marker()
}

/// A segment that may stand in a virtual path: kept, and free of separators.
pub open spec fn valid_segment(seg: Seq<char>) -> bool {
    keep_segment(seg) && forall|j: int| 0 <= j < seg.len() ==> seg[j] != '/'
}

/// The scanning state after reading a prefix of the path: the segments
/// already closed and kept, and the raw segment currently being read.
pub open spec fn scan(s: Seq<char>) -> (Seq<Seq<char>>, Seq<char>)
    decreases s.len(),
{
    if s.len() == 0 {
        (Seq::empty(), Seq::empty())
    } else {
        let (done, cur) = scan(s.drop_last());
        if s.last() == '/' {
            (if keep_segment(cur) { done.push(cur) } else { done }, Seq::<char>::empty())
        } else {
            (done, cur.push(s.last()))
        }
    }
}

/// The virtual segments of a whole path: the closed kept segments, plus the
/// final raw segment if it is kept.
pub open spec fn virtual_segments(s: Seq<char>) -> Seq<Seq<char>> {
    let (done, cur) = scan(s);
    if keep_segment(cur) {
        done.push(cur)
    } else {
        done
    }
}

/// Whether some segment closed by a separator is the parent-directory marker.
pub open spec fn closed_parent_marker(s: Seq<char>) -> bool
    decreases s.len(),
{
    if s.len() == 0 {
        false
    } else {
        closed_parent_marker(s.drop_last()) || (s.last() == '/' && scan(s.drop_last()).1
            == parent_marker())
    }
}

/// Whether virtualization rejects the path: some component, closed or final,
/// is the parent-directory marker.
pub open spec fn rejects(s: Seq<char>) -> bool {
    closed_parent_marker(s) || scan(s).1 == parent_marker()
}

/// A sub-sequence is the parent marker exactly when it is two
/// current-directory characters long.
proof fn lemma_is_parent(s: Seq<char>, start: int, end: int)
    requires
        0 <= start <= end <= s.len(),
    ensures
        (s.subrange(start, end) == parent_marker()) <==> (end - start == 2 && s[start] == '.'
            && s[start + 1] == '.'),
{
    let cur = s.subrange(start, end);
    assert(parent_marker().len() == 2);
    assert(parent_marker()[0] == '.');
    assert(parent_marker()[1] == '.');
    if end - start == 2 && s[start] == '.' && s[start + 1] == '.' {
        assert(cur =~= parent_marker());
    }
    if cur == parent_marker() {
        assert(cur[0] == s[start]);
        assert(cur[1] == s[start + 1]);
    }
}

/// A sub-sequence is the current-directory marker exactly when it is that one
/// character.
proof fn lemma_is_current(s: Seq<char>, start: int, end: int)
    requires
        0 <= start <= end <= s.len(),
    ensures
        (s.subrange(start, end) == current_marker()) <==> (end - start == 1 && s[start] == '.'),
{
    let cur = s.subrange(start, end);
    assert(current_marker().len() == 1);
    assert(current_marker()[0] == '.');
    if end - start == 1 && s[start] == '.' {
        assert(cur =~= current_marker());
    }
    if cur == current_marker() {
        assert(cur[0] == s[start]);
    }
}

/// A parent marker closed in a prefix stays closed in the whole path.
proof fn lemma_closed_parent_marker_prefix(s: Seq<char>, i: int)
    requires
        0 <= i <= s.len(),
        closed_parent_marker(s.take(i)),
    ensures
        closed_parent_marker(s),
    decreases s.len() - i,
{
    if i == s.len() {
        assert(s.take(i) =~= s);
    } else {
        assert(s.take(i + 1).drop_last() =~= s.take(i));
        lemma_closed_parent_marker_prefix(s, i + 1);
    }
}

/// An ordered sequence of non-empty, marker-free, separator-free path
/// segments, rooted at the storage area's root.
#[derive(Debug)]
pub struct VirtualPath {
    segments: Vec<String>,
}

impl View for VirtualPath {
    type V = Seq<Seq<char>>;

    closed spec fn view(&self) -> Seq<Seq<char>> {
        self.segments.deep_view()
    }
}

impl VirtualPath {
    /// Every segment of a constructed virtual path is valid.
    pub open spec fn wf(self) -> bool {
        forall|k: int| 0 <= k < self@.len() ==> valid_segment(#[trigger] self@[k])
    }

    /// The segments, in order from the root.
    pub fn segments(&self) -> (r: &Vec<String>)
        ensures
            r.deep_view() == self@,
    {
        &self.segments
    }

    /// The directory segments: every segment but the final one, which names
    /// the file itself.
    pub fn dir_segments(&self) -> (r: &[String])
        ensures
            self@.len() > 0 ==> r.deep_view() == self@.take(self@.len() - 1),
            self@.len() == 0 ==> r.deep_view() == Seq::<Seq<char>>::empty(),
    {
        let end = if self.segments.len() == 0 {
            0
        } else {
            self.segments.len() - 1
        };
        let r = vstd::slice::slice_subrange(self.segments.as_slice(), 0, end);
        proof {
            if self@.len() > 0 {
                assert(r.deep_view() =~= self@.take(self@.len() - 1));
            } else {
                assert(r.deep_view() =~= Seq::<Seq<char>>::empty());
            }
        }
        r
    }

    /// The final segment: the name of the file itself, if any.
    pub fn file_name(&self) -> (r: Option<&String>)
        ensures
            match r {
                Some(name) => self@.len() > 0 && name@ == self@.last(),
                None => self@.len() == 0,
            },
    {
        if self.segments.len() == 0 {
            None
        } else {
            Some(&self.segments[self.segments.len() - 1])
        }
    }
}

/// Construct the normalized, root-confined form of the input path.
///
/// A separator closes the segment read so far; an empty or current-directory
/// segment is dropped; a parent-directory segment is rejected as invalid
/// input; every other segment is kept literally.
pub fn virtualize_path(path: &str) -> (r: Result<VirtualPath, Error>)
    ensures
        match r {
            Ok(vp) => !rejects(path@) && vp@ == virtual_segments(path@) && vp.wf(),
            Err(e) => rejects(path@) && e.chain() == seq![
                (ErrorKind::InvalidInput, "only normal path components are supported"@),
            ],
        },
{
    let ghost s = path@;
    let n = path.unicode_len();
    let mut segments: Vec<String> = Vec::new();
    let mut start: usize = 0;
    let mut i: usize = 0;
    while i < n
        invariant
            n == s.len(),
            0 <= start <= i <= n,
            s == path@,
            scan(s.take(i as int)).0 == segments.deep_view(),
            scan(s.take(i as int)).1 == s.subrange(start as int, i as int),
            forall|j: int| start <= j < i ==> s[j] != '/',
            !closed_parent_marker(s.take(i as int)),
            forall|k: int| 0 <= k < segments.deep_view().len() ==> valid_segment(
                #[trigger] segments.deep_view()[k],
            ),
        decreases n - i,
    {
        let c = path.get_char(i);
        proof {
            assert(s.take(i + 1).drop_last() =~= s.take(i as int));
            assert(s.take(i + 1).last() == s[i as int]);
        }
        if c == '/' {
            let closing_parent = i - start == 2 && path.get_char(start) == '.' && path.get_char(
                start + 1,
            ) == '.';
            proof {
                lemma_is_parent(s, start as int, i as int);
                lemma_is_current(s, start as int, i as int);
            }
            if closing_parent {
                proof {
                    lemma_closed_parent_marker_prefix(s, i + 1);
                }
                return Err(
                    Error::new(
                        ErrorKind::InvalidInput,
                        "only normal path components are supported".to_owned(),
                    ),
                );
            }
            let keep = i - start >= 1 && !(i - start == 1 && path.get_char(start) == '.');
            if keep {
                let seg = path.substring_char(start, i).to_owned();
                segments.push(seg);
                proof {
                    assert(segments.deep_view() =~= scan(s.take(i + 1)).0);
                }
            }
            start = i + 1;
            proof {
                assert(scan(s.take(i + 1)).1 =~= s.subrange(start as int, i + 1));
            }
        } else {
            proof {
                assert(scan(s.take(i + 1)).1 =~= s.subrange(start as int, i + 1));
            }
        }
        i += 1;
    }
    proof {
        assert(s.take(n as int) =~= s);
    }
    let final_parent = n - start == 2 && path.get_char(start) == '.' && path.get_char(start + 1)
        == '.';
    proof {
        lemma_is_parent(s, start as int, n as int);
        lemma_is_current(s, start as int, n as int);
    }
    if final_parent {
        return Err(
            Error::new(
                ErrorKind::InvalidInput,
                "only normal path components are supported".to_owned(),
            ),
        );
    }
    let keep = n - start >= 1 && !(n - start == 1 && path.get_char(start) == '.');
    if keep {
        let seg = path.substring_char(start, n).to_owned();
        segments.push(seg);
        proof {
            assert(segments.deep_view() =~= virtual_segments(s));
        }
    }
    Ok(VirtualPath { segments })
}

} // verus!
