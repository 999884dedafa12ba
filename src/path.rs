//! Absolute directory paths, held as the sequence of their segments.

use vstd::prelude::*;

verus! {

/// The characters of one segment of a path string, split on `'/'`, with
/// the segments finished so far and the one being read.
pub open spec fn split_state(s: Seq<char>) -> (Seq<Seq<char>>, Seq<char>)
    decreases s.len(),
{
    if s.len() == 0 {
        (Seq::empty(), Seq::empty())
    } else {
        let (done, cur) = split_state(s.drop_last());
        if s.last() == '/' {
            if cur.len() > 0 {
                (done.push(cur), Seq::empty())
            } else {
                (done, Seq::empty())
            }
        } else {
            (done, cur.push(s.last()))
        }
    }
}

/// The non-empty `'/'`-separated segments of a path string, in order.
pub open spec fn segments_of(s: Seq<char>) -> Seq<Seq<char>> {
    let (done, cur) = split_state(s);
    if cur.len() > 0 {
        done.push(cur)
    } else {
        done
    }
}

/// The segments written out with a `'/'` before each.
pub open spec fn joined(p: Seq<Seq<char>>) -> Seq<char>
    decreases p.len(),
{
    if p.len() == 0 {
        Seq::empty()
    } else {
        joined(p.drop_last()) + seq!['/'] + p.last()
    }
}

/// The absolute path string of a segment sequence: `"/"` for the root.
pub open spec fn render(p: Seq<Seq<char>>) -> Seq<char> {
    if p.len() == 0 {
        seq!['/']
    } else {
        joined(p)
    }
}

/// An absolute directory path.
pub struct DirPath {
    pub segments: Vec<String>,
}

impl View for DirPath {
    type V = Seq<Seq<char>>;

    open spec fn view(&self) -> Seq<Seq<char>> {
        self.segments@.map_values(|s: String| s@)
    }
}

/// Relies on `String::push`: the character is added at the end.
#[verifier::external_body]
fn push_char(s: &mut String, c: char)
    ensures
        final(s)@ == old(s)@.push(c),
{
    s.push(c)
}

impl DirPath {
    /// The filesystem root.
    pub fn root() -> (r: DirPath)
        ensures
            r@ == Seq::<Seq<char>>::empty(),
    {
        DirPath { segments: Vec::new() }
    }

    /// The path that a path string names: its non-empty segments between
    /// slashes, so that `"/home//user/"` names the same path as `"/home/user"`.
    pub fn parse(s: &str) -> (r: DirPath)
        ensures
            r@ == segments_of(s@),
    {
        let mut done: Vec<String> = Vec::new();
        let mut cur = String::new();
        for c in it: s.chars()
            invariant
                it.seq() == s@,
                (done@.map_values(|x: String| x@), cur@) == split_state(s@.take(it.index() as int)),
        {
            let ghost k = it.index() as int;
            assert(s@.take(k + 1).drop_last() == s@.take(k));
            if c == '/' {
                if !cur.as_str().is_empty() {
                    done.push(cur);
                    cur = String::new();
                }
            } else {
                push_char(&mut cur, c);
            }
            assert(done@.map_values(|x: String| x@) == split_state(s@.take(k + 1)).0);
        }
        if !cur.as_str().is_empty() {
            done.push(cur);
        }
        assert(s@.take(s@.len() as int) == s@);
        DirPath { segments: done }
    }

    /// A path equal to this one.
    pub fn copy(&self) -> (r: DirPath)
        ensures
            r@ == self@,
    {
        let mut segments: Vec<String> = Vec::new();
        for i in 0..self.segments.len()
            invariant
                segments@.map_values(|x: String| x@) == self@.take(i as int),
        {
            segments.push(self.segments[i].clone());
            assert(self@.take(i + 1) == self@.take(i as int).push(self@[i as int]));
        }
        assert(self@.take(self@.len() as int) == self@);
        DirPath { segments }
    }

    /// Whether the two paths name the same directory.
    pub fn same_as(&self, other: &DirPath) -> (r: bool)
        ensures
            r == (self@ == other@),
    {
        if self.segments.len() != other.segments.len() {
            assert(self@.len() != other@.len());
            return false;
        }
        for i in 0..self.segments.len()
            invariant
                self.segments.len() == other.segments.len(),
                forall|j: int| 0 <= j < i ==> self@[j] == other@[j],
        {
            if self.segments[i] != other.segments[i] {
                assert(self@[i as int] != other@[i as int]);
                return false;
            }
        }
        assert(self@ == other@);
        true
    }

    /// Whether this is the filesystem root, which has no segment to remove.
    pub fn is_root(&self) -> (r: bool)
        ensures
            r == (self@.len() == 0),
    {
        self.segments.len() == 0
    }

    /// The path of the child `name` of this directory.
    pub fn child(&self, name: &String) -> (r: DirPath)
        ensures
            r@ == self@.push(name@),
    {
        let mut r = self.copy();
        r.segments.push(name.clone());
        r
    }

    /// This path without its last segment; the root stays the root.
    pub fn parent(&self) -> (r: DirPath)
        ensures
            r@ == if self@.len() == 0 { self@ } else { self@.drop_last() },
    {
        let mut r = self.copy();
        if r.segments.len() > 0 {
            r.segments.pop();
        }
        r
    }

    /// The absolute path string: `"/"` for the root, else `"/"` before
    /// each segment.
    pub fn render(&self) -> (r: String)
        ensures
            r@ == render(self@),
    {
        proof {
            reveal_strlit("/");
        }
        if self.segments.len() == 0 {
            return String::from_str("/");
        }
        let mut r = String::new();
        for i in 0..self.segments.len()
            invariant
                r@ == joined(self@.take(i as int)),
        {
            proof {
                reveal_strlit("/");
            }
            r.append("/");
            r.append(self.segments[i].as_str());
            assert(self@.take(i + 1).drop_last() == self@.take(i as int));
            assert(self@.take(i + 1).last() == self@[i as int]);
        }
        assert(self@.take(self@.len() as int) == self@);
        r
    }
}

} // verus!
