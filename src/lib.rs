//! Range addressing: half-open intervals `[offset, offset + length)` over
//! `usize` indices, with intersection, shrinking and an attached payload.
use vstd::prelude::*;

verus! {

/// A range of indices `[offset, offset + length)`.
///
/// The type parameter carries data that belongs to the range.
///
/// Constructors store what they are given. The operations that compute the
/// end of a range ask the caller, through `wf`, that `offset + length` fits in
/// a `usize`, so no index arithmetic here can overflow.
#[derive(Copy, Clone, PartialEq, Eq, Hash, Debug)]
pub struct Range<T = ()> {
    /// The first index of the range.
    pub offset: usize,
    /// The number of indices in the range.
    pub length: usize,
    /// The data described within the range.
    pub data: T,
}

impl<T> Range<T> {
    /// The exclusive end of the range.
    pub open spec fn end(self) -> int {
        self.offset + self.length
    }

    /// The end of the range is representable as a `usize`.
    pub open spec fn wf(self) -> bool {
        self.end() <= usize::MAX
    }

    /// Returns the next offset, the first index after the range.
    pub fn next_offset(&self) -> (r: usize)
        requires
            self.wf(),
        ensures
            r == self.end(),
    {
        self.offset + self.length
    }

    /// Index `i` lies within the range.
    pub open spec fn contains(self, i: int) -> bool {
        self.offset <= i < self.end()
    }

    /// Returns true if the range holds no index.
    pub fn is_empty(&self) -> (r: bool)
        ensures
            r == (self.length == 0),
    {
        self.length == 0
    }

    /// Returns an iterator over the indices of the range, in ascending order.
    pub fn iter(&self) -> (r: std::ops::Range<usize>)
        requires
            self.wf(),
        ensures
            r.start == self.offset,
            r.end == self.end(),
    {
        self.offset..self.offset + self.length
    }

    /// The plain range and the data, taken apart.
    pub open spec fn decoupled(self) -> (Range, T) {
        (Range { offset: self.offset, length: self.length, data: () }, self.data)
    }

    /// Unwraps the data.
    pub fn unwrap(self) -> (r: T)
        ensures
            r == self.data,
    {
        self.data
    }

    /// Decouples range and data.
    pub fn decouple(self) -> (r: (Range, T))
        ensures
            r == self.decoupled(),
    {
        (Range { offset: self.offset, length: self.length, data: () }, self.data)
    }
}

impl Range {
    /// The range from the later of the two starts to the earlier of the two ends.
    pub open spec fn common(self, other: Range) -> Range {
        let lo = vstd::math::max(self.offset as int, other.offset as int);
        let hi = vstd::math::min(self.end(), other.end());
        Range { offset: lo as usize, length: (hi - lo) as usize, data: () }
    }

    /// Overlap with ends excluded: ranges that only touch have none.
    pub open spec fn intersection(self, other: Range) -> Option<Range> {
        if other.end() <= self.offset || other.offset >= self.end() {
            None
        } else {
            Some(self.common(other))
        }
    }

    /// Overlap with ends included: ranges that touch meet in an empty range.
    pub open spec fn ends_intersection(self, other: Range) -> Option<Range> {
        if other.end() < self.offset || other.offset > self.end() {
            None
        } else {
            Some(self.common(other))
        }
    }

    /// Intersects a range with another, where ends are excluded.
    pub fn intersect(&self, other: &Range) -> (r: Option<Range>)
        requires
            self.wf(),
            other.wf(),
        ensures
            r == self.intersection(*other),
            r matches Some(x) ==> x.wf() && forall|i: int| #[trigger]
                x.contains(i) <==> self.contains(i) && other.contains(i),
    {
        if other.next_offset() <= self.offset || other.offset >= self.next_offset() {
            None
        } else {
            let offset = if self.offset >= other.offset { self.offset } else { other.offset };
            let end = if self.next_offset() <= other.next_offset() {
                self.next_offset()
            } else {
                other.next_offset()
            };
            Some(Range::new(offset, end - offset))
        }
    }

    /// Intersects a range with another, where ends are included.
    pub fn ends_intersect(&self, other: &Range) -> (r: Option<Range>)
        requires
            self.wf(),
            other.wf(),
        ensures
            r == self.ends_intersection(*other),
            r matches Some(x) ==> x.wf() && forall|i: int| #[trigger]
                x.contains(i) <==> self.contains(i) && other.contains(i),
    {
        if other.next_offset() < self.offset || other.offset > self.next_offset() {
            None
        } else {
            let offset = if self.offset >= other.offset { self.offset } else { other.offset };
            let end = if self.next_offset() <= other.next_offset() {
                self.next_offset()
            } else {
                other.next_offset()
            };
            Some(Range::new(offset, end - offset))
        }
    }

    /// Creates a new range with the given offset and length.
    pub fn new(offset: usize, length: usize) -> (r: Range)
        ensures
            r == (Range { offset, length, data: () }),
    {
        Range { offset: offset, length: length, data: () }
    }

    /// Creates an empty range at an offset.
    pub fn empty(offset: usize) -> (r: Range)
        ensures
            r == (Range { offset, length: 0, data: () }),
    {
        Range { offset: offset, length: 0, data: () }
    }

    /// The same range, carrying `data`.
    pub open spec fn wrapped<T>(self, data: T) -> Range<T> {
        Range { offset: self.offset, length: self.length, data }
    }

    /// Wraps some data in the range.
    pub fn wrap<T>(self, data: T) -> (r: Range<T>)
        ensures
            r == self.wrapped(data),
    {
        Range { offset: self.offset, length: self.length, data: data }
    }

    /// The range with `n` indices taken off each end, if it has that many.
    pub open spec fn shrunk(self, n: int) -> Option<Range> {
        if self.length < 2 * n {
            None
        } else {
            Some(Range { offset: (self.offset + n) as usize, length: (self.length - 2 * n) as usize, data: () })
        }
    }

    /// Shrinks the range at both ends by `n` items.
    pub fn shrink_n(&self, n: usize) -> (r: Option<Range>)
        requires
            self.wf(),
        ensures
            r == self.shrunk(n as int),
            r matches Some(x) ==> x.wf(),
    {
        if n > self.length / 2 {
            None
        } else {
            Some(Range::new(self.offset + n, self.length - 2 * n))
        }
    }

    /// Shrinks the range at both ends by one item.
    pub fn shrink(&self) -> (r: Option<Range>)
        requires
            self.wf(),
        ensures
            r == self.shrunk(1),
            r matches Some(x) ==> x.wf(),
    {
        self.shrink_n(1)
    }
}

impl<T> From<(Range, T)> for Range<T> {
    fn from(pair: (Range, T)) -> (r: Range<T>)
        ensures
            r == pair.0.wrapped(pair.1),
    {
        let (range, data) = pair;
        Range { offset: range.offset, length: range.length, data: data }
    }
}

impl<T> vstd::std_specs::convert::FromSpecImpl<(Range, T)> for Range<T> {
    open spec fn obeys_from_spec() -> bool {
        true
    }

    open spec fn from_spec(pair: (Range, T)) -> Range<T> {
        pair.0.wrapped(pair.1)
    }
}

/// A range made from `offset` and `length` is well formed when their sum fits,
/// and its next offset is `offset + length`.
pub proof fn lemma_new_next_offset(offset: usize, length: usize)
    requires
        offset + length <= usize::MAX,
    ensures
        (Range { offset, length, data: () }).wf(),
        (Range { offset, length, data: () }).end() == offset + length,
{
}

/// An empty range at `offset` is empty and its next offset is `offset`.
pub proof fn lemma_empty(offset: usize)
    ensures
        (Range { offset, length: 0, data: () }).wf(),
        (Range { offset, length: 0, data: () }).length == 0,
        (Range { offset, length: 0, data: () }).end() == offset,
{
}

/// Wrapping data into a range and decoupling it gives back the range and the data.
pub proof fn lemma_wrap_decouple<T>(r: Range, data: T)
    ensures
        r.wrapped(data).decoupled() == (r, data),
{
    assert(r.data == ());
}

/// Both intersections are commutative.
pub proof fn lemma_intersect_commutative(a: Range, b: Range)
    ensures
        a.intersection(b) == b.intersection(a),
        a.ends_intersection(b) == b.ends_intersection(a),
{
}

} // verus!
