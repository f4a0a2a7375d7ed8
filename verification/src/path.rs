//! Paths: the dotted addresses of questions and answers.

use vstd::prelude::*;
use crate::text::{chars_of, push_char, str_eq};

verus! {

/// The address of a node in the tree: field-name segments from the root
/// down. The path without segments is the root.
#[derive(Debug)]
pub struct ResponsePath {
    segments: Vec<String>,
}

/// The segments joined by dots.
pub open spec fn dotted(segments: Seq<Seq<char>>) -> Seq<char>
    decreases segments.len(),
{
    if segments.len() == 0 {
        Seq::empty()
    } else if segments.len() == 1 {
        segments[0]
    } else {
        dotted(segments.drop_last()) + seq!['.'] + segments.last()
    }
}

/// The runs between the dots of `text`, read from the left: a dot closes
/// the run before it and opens an empty one, any other character extends the
/// run that is open.
pub open spec fn split(text: Seq<char>) -> Seq<Seq<char>>
    decreases text.len(),
{
    if text.len() == 0 {
        seq![Seq::empty()]
    } else if text.last() == '.' {
        split(text.drop_last()).push(Seq::empty())
    } else {
        let before = split(text.drop_last());
        before.drop_last().push(before.last().push(text.last()))
    }
}

/// The segments of a dotted text: the runs between its dots. The empty text
/// has none.
pub open spec fn segments_of(text: Seq<char>) -> Seq<Seq<char>> {
    if text.len() == 0 {
        Seq::empty()
    } else {
        split(text)
    }
}

/// Splitting a text at its dots and joining the runs by dots again gives the
/// text back.
pub proof fn lemma_split_then_join(text: Seq<char>)
    ensures
        split(text).len() >= 1,
        dotted(split(text)) == text,
        dotted(segments_of(text)) == text,
    decreases text.len(),
{
    if text.len() == 0 {
        assert(dotted(split(text)) =~= text);
        assert(dotted(segments_of(text)) =~= text);
    } else {
        let before = split(text.drop_last());
        lemma_split_then_join(text.drop_last());
        if text.last() == '.' {
            let now = before.push(Seq::empty());
            assert(now.drop_last() =~= before);
            assert(dotted(now) =~= text);
        } else {
            let now = before.drop_last().push(before.last().push(text.last()));
            assert(text =~= text.drop_last().push(text.last()));
            if before.len() == 1 {
                assert(now.len() == 1);
                assert(dotted(before) == before[0]);
                assert(dotted(now) == now[0]);
                assert(dotted(now) =~= text);
            } else {
                assert(now.drop_last() =~= before.drop_last());
                assert(dotted(before) == dotted(before.drop_last()) + seq!['.'] + before.last());
                assert(dotted(now) == dotted(now.drop_last()) + seq!['.'] + now.last());
                assert(dotted(now) =~= text);
            }
        }
    }
}

impl View for ResponsePath {
    type V = Seq<Seq<char>>;

    closed spec fn view(&self) -> Seq<Seq<char>> {
        Seq::new(self.segments@.len(), |i: int| self.segments@[i]@)
    }
}

impl ResponsePath {
    /// The root: the path without segments.
    pub fn root() -> (r: Self)
        ensures
            r@ == Seq::<Seq<char>>::empty(),
    {
        let r = ResponsePath { segments: Vec::new() };
        assert(r@ =~= Seq::<Seq<char>>::empty());
        r
    }

    /// The path with the given segments.
    pub fn new(segments: Vec<String>) -> (r: Self)
        ensures
            r@ == Seq::new(segments@.len(), |i: int| segments@[i]@),
    {
        ResponsePath { segments }
    }

    /// The number of segments.
    pub fn len(&self) -> (r: usize)
        ensures
            r == self@.len(),
    {
        self.segments.len()
    }

    /// Whether this is the root.
    pub fn is_root(&self) -> (r: bool)
        ensures
            r == (self@.len() == 0),
    {
        self.segments.len() == 0
    }

    /// The segment at position `i`.
    pub fn segment(&self, i: usize) -> (r: &str)
        requires
            i < self@.len(),
        ensures
            r@ == self@[i as int],
    {
        self.segments[i].as_str()
    }

    /// The last segment: the name of the field itself.
    pub fn last(&self) -> (r: Option<&str>)
        ensures
            match r {
                Some(s) => self@.len() > 0 && s@ == self@.last(),
                None => self@.len() == 0,
            },
    {
        if self.segments.len() == 0 {
            None
        } else {
            Some(self.segments[self.segments.len() - 1].as_str())
        }
    }

    /// The path without its last segment; the root is its own parent.
    pub fn parent(&self) -> (r: Self)
        ensures
            r@ == if self@.len() == 0 {
                self@
            } else {
                self@.drop_last()
            },
    {
        let mut segments: Vec<String> = Vec::new();
        let n: usize = if self.segments.len() == 0 {
            0
        } else {
            self.segments.len() - 1
        };
        let mut i: usize = 0;
        while i < n
            invariant
                segments@.len() == i,
                i <= n <= self.segments@.len(),
                forall|j: int| 0 <= j < i ==> segments@[j]@ == self.segments@[j]@,
            decreases n - i,
        {
            segments.push(self.segments[i].clone());
            i += 1;
        }
        let r = ResponsePath { segments };
        assert(r@ =~= if self@.len() == 0 {
            self@
        } else {
            self@.drop_last()
        });
        r
    }

    /// The path of the field `name` below this one.
    pub fn child(&self, name: &str) -> (r: Self)
        ensures
            r@ == self@.push(name@),
    {
        let mut segments: Vec<String> = Vec::new();
        let mut i: usize = 0;
        while i < self.segments.len()
            invariant
                segments@.len() == i,
                i <= self.segments@.len(),
                forall|j: int| 0 <= j < i ==> segments@[j]@ == self.segments@[j]@,
            decreases self.segments@.len() - i,
        {
            segments.push(self.segments[i].clone());
            i += 1;
        }
        segments.push(name.to_owned());
        let r = ResponsePath { segments };
        assert(r@ =~= self@.push(name@));
        r
    }

    /// The segments joined by dots: the key of the answers.
    pub fn join(&self) -> (r: String)
        ensures
            r@ == dotted(self@),
    {
        let mut r = String::new();
        let mut i: usize = 0;
        while i < self.segments.len()
            invariant
                i <= self.segments@.len(),
                r@ == dotted(self@.take(i as int)),
            decreases self.segments@.len() - i,
        {
            if i > 0 {
                push_char(&mut r, '.');
            }
            r.append(self.segments[i].as_str());
            proof {
                let now = self@.take(i + 1);
                assert(now.drop_last() =~= self@.take(i as int));
                assert(now.last() == self@[i as int]);
                if i > 0 {
                    assert(r@ =~= dotted(now.drop_last()) + seq!['.'] + now.last());
                } else {
                    assert(r@ =~= now[0]);
                }
            }
            i += 1;
        }
        assert(self@.take(self@.len() as int) =~= self@);
        r
    }

    /// Whether the two paths have the same segments.
    pub fn same(&self, other: &ResponsePath) -> (r: bool)
        ensures
            r == (self@ == other@),
    {
        if self.segments.len() != other.segments.len() {
            assert(self@.len() != other@.len());
            return false;
        }
        let mut i: usize = 0;
        while i < self.segments.len()
            invariant
                i <= self.segments@.len(),
                self.segments@.len() == other.segments@.len(),
                forall|j: int| 0 <= j < i ==> self@[j] == other@[j],
            decreases self.segments@.len() - i,
        {
            if !str_eq(self.segments[i].as_str(), other.segments[i].as_str()) {
                assert(self@[i as int] != other@[i as int]);
                return false;
            }
            i += 1;
        }
        assert(self@ =~= other@);
        true
    }

    /// The path that a dotted text spells.
    pub fn from_dotted(text: &str) -> (r: Self)
        ensures
            r@ == segments_of(text@),
    {
        let chars = chars_of(text);
        let mut segments: Vec<String> = Vec::new();
        if chars.len() == 0 {
            let r = ResponsePath { segments };
            assert(r@ =~= segments_of(text@));
            return r;
        }
        let mut current = String::new();
        let mut i: usize = 0;
        assert(split(chars@.take(0)) =~= Self::spelled(segments@).push(current@));
        while i < chars.len()
            invariant
                chars@ == text@,
                i <= chars@.len(),
                split(chars@.take(i as int)) == Self::spelled(segments@).push(current@),
            decreases chars@.len() - i,
        {
            let c = chars[i];
            proof {
                let now = chars@.take(i + 1);
                assert(now.drop_last() =~= chars@.take(i as int));
                assert(now.last() == c);
                assert(Self::spelled(segments@).push(current@).drop_last() =~= Self::spelled(
                    segments@,
                ));
            }
            if c == '.' {
                proof {
                    assert(Self::spelled(segments@.push(current)) =~= Self::spelled(
                        segments@,
                    ).push(current@));
                }
                segments.push(current);
                current = String::new();
            } else {
                push_char(&mut current, c);
            }
            i += 1;
        }
        proof {
            assert(chars@.take(chars@.len() as int) =~= chars@);
            assert(Self::spelled(segments@.push(current)) =~= Self::spelled(segments@).push(
                current@,
            ));
        }
        segments.push(current);
        let r = ResponsePath { segments };
        assert(r@ =~= Self::spelled(r.segments@));
        r
    }

    pub closed spec fn spelled(segments: Seq<String>) -> Seq<Seq<char>> {
        Seq::new(segments.len(), |i: int| segments[i]@)
    }
}

} // verus!
