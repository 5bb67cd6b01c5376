//! The dynamic array itself: an owned contiguous buffer sized to the
//! capacity, with a logical length bounded by that capacity.

use vstd::prelude::*;

verus! {

use crate::elem::{DefaultValue, Render, spec_decimal};
use vstd::string::StringExecFns;

/// The capacity that `Vector::new` starts with.
pub const DEFAULT_CAPACITY: usize = 10;

/// A growable, indexable sequence container.
///
/// The backing buffer always holds exactly `capacity` slots; the slots at
/// indices `length..capacity` hold the element type's default value, so no
/// slot is ever observably uninitialized.
pub struct Vector<T> {
    buffer: Vec<T>,
    len: usize,
}

impl<T> View for Vector<T> {
    type V = Seq<T>;

    /// The logical contents: the first `length` slots of the buffer.
    closed spec fn view(&self) -> Seq<T> {
        self.buffer@.take(self.len as int)
    }
}

impl<T: DefaultValue> Vector<T> {
    /// The number of allocated slots.
    pub closed spec fn spec_cap(&self) -> nat {
        self.buffer@.len()
    }

    /// Well-formedness: the length never exceeds the capacity, and every
    /// slot past the logical length holds the default value.
    pub closed spec fn wf(&self) -> bool {
        &&& self.len <= self.buffer@.len()
        &&& forall|i: int|
            self.len <= i < self.buffer@.len() ==> self.buffer@[i] == T::spec_default()
    }

    /// Builds a buffer of `cap` default-initialized slots.
    fn default_buffer(cap: usize) -> (b: Vec<T>)
        ensures
            b@.len() == cap,
            forall|i: int| 0 <= i < cap ==> b@[i] == T::spec_default(),
    {
        let mut b: Vec<T> = Vec::new();
        while b.len() < cap
            invariant
                b@.len() <= cap,
                forall|i: int| 0 <= i < b@.len() ==> b@[i] == T::spec_default(),
            decreases cap - b@.len(),
        {
            b.push(T::default_value());
        }
        b
    }

    /// Creates an empty container with `cap` default-initialized slots.
    pub fn new_with_capacity(cap: usize) -> (v: Vector<T>)
        ensures
            v.wf(),
            v@ == Seq::<T>::empty(),
            v.spec_cap() == cap,
    {
        let v = Vector { buffer: Self::default_buffer(cap), len: 0 };
        proof {
            assert(v@ =~= Seq::<T>::empty());
        }
        v
    }

    /// Creates an empty container with the default starting capacity.
    pub fn new() -> (v: Vector<T>)
        ensures
            v.wf(),
            v@ == Seq::<T>::empty(),
            v.spec_cap() == DEFAULT_CAPACITY,
    {
        Vector::new_with_capacity(DEFAULT_CAPACITY)
    }

    /// Creates a container of logical length `len` whose elements are all
    /// the default value, with twice that many slots as headroom for
    /// appends to come.
    pub fn new_with_length(len: usize) -> (v: Vector<T>)
        requires
            len <= usize::MAX / 2,
        ensures
            v.wf(),
            v@ == Seq::new(len as nat, |i: int| T::spec_default()),
            v@.len() == len,
            v.spec_cap() == 2 * len,
    {
        let v = Vector { buffer: Self::default_buffer(2 * len), len };
        proof {
            assert(v@ =~= Seq::new(len as nat, |i: int| T::spec_default()));
        }
        v
    }

    /// The logical length. Pure accessor.
    pub fn len(&self) -> (n: usize)
        requires
            self.wf(),
        ensures
            n == self@.len(),
    {
        self.len
    }

    /// The capacity. Pure accessor.
    pub fn cap(&self) -> (n: usize)
        ensures
            n == self.spec_cap(),
    {
        self.buffer.len()
    }

    /// Changes the capacity to exactly `new_capacity`.
    ///
    /// Growth default-initializes every new slot and preserves all
    /// elements; shrinking clamps the length to `new_capacity` and
    /// discards the elements beyond it.
    pub fn resize(&mut self, new_capacity: usize)
        requires
            old(self).wf(),
        ensures
            final(self).wf(),
            final(self).spec_cap() == new_capacity,
            final(self)@.len() == vstd::math::min(old(self)@.len() as int, new_capacity as int),
            new_capacity >= old(self)@.len() ==> final(self)@ == old(self)@,
            new_capacity < old(self)@.len() ==> final(self)@ == old(self)@.take(
                new_capacity as int,
            ),
            forall|i: int| 0 <= i < final(self)@.len() ==> final(self)@[i] == old(self)@[i],
    {
        if new_capacity > self.buffer.len() {
            while self.buffer.len() < new_capacity
                invariant
                    old(self).wf(),
                    self.len == old(self).len,
                    old(self).buffer@.len() <= self.buffer@.len() <= new_capacity,
                    self.buffer@.subrange(0, old(self).buffer@.len() as int) == old(
                        self,
                    ).buffer@,
                    forall|i: int|
                        old(self).buffer@.len() <= i < self.buffer@.len() ==> self.buffer@[i]
                            == T::spec_default(),
                decreases new_capacity - self.buffer@.len(),
            {
                self.buffer.push(T::default_value());
                proof {
                    assert(self.buffer@.subrange(0, old(self).buffer@.len() as int) =~= old(
                        self,
                    ).buffer@);
                }
            }
            proof {
                let pre = old(self).buffer@.len() as int;
                assert forall|i: int| 0 <= i < pre implies self.buffer@[i] == old(
                    self,
                ).buffer@[i] by {
                    assert(self.buffer@.subrange(0, pre)[i] == self.buffer@[i]);
                }
                assert(final(self)@ =~= old(self)@);
            }
        } else {
            self.buffer.truncate(new_capacity);
            if new_capacity < self.len {
                self.len = new_capacity;
            }
            proof {
                if new_capacity >= old(self)@.len() {
                    assert(final(self)@ =~= old(self)@);
                } else {
                    assert(final(self)@ =~= old(self)@.take(new_capacity as int));
                }
            }
        }
    }

    /// Appends `value` as the new last element, growing the capacity
    /// first whenever the write would otherwise land in the very last
    /// free slot: the container keeps one slot of headroom past the
    /// logical length, and growth doubles the capacity (or jumps to the
    /// new length where doubling is not enough).
    pub fn push(&mut self, value: T)
        requires
            old(self).wf(),
            old(self)@.len() < usize::MAX,
        ensures
            final(self).wf(),
            final(self)@ == old(self)@.push(value),
            final(self)@.len() == old(self)@.len() + 1,
            final(self)@.last() == value,
            forall|i: int| 0 <= i < old(self)@.len() ==> final(self)@[i] == old(self)@[i],
            final(self).spec_cap() >= old(self).spec_cap(),
            old(self)@.len() + 1 < old(self).spec_cap() ==> final(self).spec_cap() == old(
                self,
            ).spec_cap(),
    {
        let ind: usize = self.len;
        if ind + 1 >= self.buffer.len() {
            let doubled: usize = if self.buffer.len() <= usize::MAX / 2 {
                self.buffer.len() * 2
            } else {
                usize::MAX
            };
            let target: usize = if doubled >= ind + 1 {
                doubled
            } else {
                ind + 1
            };
            self.resize(target);
        }
        self.buffer[ind] = value;
        self.len = ind + 1;
        proof {
            assert(final(self)@ =~= old(self)@.push(value));
        }
    }

    /// Borrows the element at index `i`. An index at or past the logical
    /// length is outside the container's contract: callers must
    /// range-check first.
    pub fn index(&self, i: usize) -> (r: &T)
        requires
            self.wf(),
            i < self@.len(),
        ensures
            *r == self@[i as int],
    {
        &self.buffer[i]
    }

    /// Mutably borrows the element at index `i`, so that the slot's
    /// value may be replaced in place. The same bounds contract as for
    /// the shared borrow applies.
    pub fn index_mut(&mut self, i: usize) -> (r: &mut T)
        requires
            old(self).wf(),
            i < old(self)@.len(),
        ensures
            *r == old(self)@[i as int],
            final(self)@ == old(self)@.update(i as int, *final(r)),
            final(self).wf(),
            final(self).spec_cap() == old(self).spec_cap(),
    {
        &mut self.buffer[i]
    }

    /// Builds a container from an explicit list of elements, pushing
    /// each onto a fresh default-capacity container in left-to-right
    /// order.
    pub fn from_vec(elems: Vec<T>) -> (v: Vector<T>)
        requires
            elems@.len() < usize::MAX,
        ensures
            v.wf(),
            v@ == elems@,
    {
        let ghost orig = elems@;
        let mut rest = elems;
        let mut v = Vector::new();
        while rest.len() > 0
            invariant
                v.wf(),
                v@ + rest@ == orig,
                orig.len() < usize::MAX,
            decreases rest@.len(),
        {
            let e = rest.remove(0);
            v.push(e);
            proof {
                assert(v@ + rest@ =~= orig);
            }
        }
        proof {
            assert(v@ =~= orig);
        }
        v
    }
}

impl<T: DefaultValue + Copy> Vector<T> {
    /// Builds a container holding `count` copies of `value`, pushed one
    /// by one onto a fresh default-capacity container.
    pub fn from_elem(value: T, count: usize) -> (v: Vector<T>)
        requires
            count < usize::MAX,
        ensures
            v.wf(),
            v@ == Seq::new(count as nat, |i: int| value),
    {
        let mut v = Vector::new();
        let mut k: usize = 0;
        while k < count
            invariant
                v.wf(),
                k <= count,
                count < usize::MAX,
                v@ == Seq::new(k as nat, |i: int| value),
            decreases count - k,
        {
            v.push(value);
            k = k + 1;
            proof {
                assert(v@ =~= Seq::new(k as nat, |i: int| value));
            }
        }
        v
    }
}

/// The rendering of a sequence of elements: comma-space separated, in
/// order.
pub open spec fn spec_render_elems<T: Render>(s: Seq<T>) -> Seq<char>
    decreases s.len(),
{
    if s.len() == 0 {
        Seq::empty()
    } else if s.len() == 1 {
        s[0].spec_render()
    } else {
        spec_render_elems(s.drop_last()) + ", "@ + s.last().spec_render()
    }
}

/// The rendering of a whole container: its elements between brackets.
pub open spec fn spec_render_vector<T: Render>(s: Seq<T>) -> Seq<char> {
    "["@ + spec_render_elems(s) + "]"@
}

/// The structured debug rendering: the length, the true capacity, and
/// the rendered elements, as labeled fields.
pub open spec fn spec_debug_render<T: Render>(s: Seq<T>, cap: nat) -> Seq<char> {
    "Vector { length: "@ + spec_decimal(s.len()) + ", capacity: "@ + spec_decimal(cap)
        + ", elements: "@ + spec_render_vector(s) + " }"@
}

/// Law: a well-formed container's length never exceeds its capacity.
pub proof fn lemma_length_bounded<T: DefaultValue>(v: &Vector<T>)
    requires
        v.wf(),
    ensures
        v@.len() <= v.spec_cap(),
{
}

/// Law: writing `value` at index `i` of the contents and then reading
/// index `i` yields exactly that value.
pub proof fn lemma_write_then_read<T>(s: Seq<T>, i: int, value: T)
    requires
        0 <= i < s.len(),
    ensures
        s.update(i, value)[i] == value,
{
}

/// Law: a container of length zero renders as an empty pair of
/// brackets.
pub proof fn lemma_empty_render<T: Render>(s: Seq<T>)
    requires
        s.len() == 0,
    ensures
        spec_render_vector(s) == "[]"@,
{
    reveal_strlit("[");
    reveal_strlit("]");
    reveal_strlit("[]");
    assert(spec_render_vector(s) =~= "[]"@);
}

impl<T: DefaultValue + Render> Vector<T> {
    /// Renders the contents as `[e0, e1, ..., e(n-1)]`; a container of
    /// length zero renders as `[]`.
    pub fn to_string(&self) -> (r: String)
        requires
            self.wf(),
        ensures
            r@ == spec_render_vector(self@),
            self@.len() == 0 ==> r@ == "[]"@,
    {
        let mut r = String::from_str("[");
        proof {
            assert(r@ =~= "["@ + spec_render_elems(self@.take(0)));
        }
        let mut i: usize = 0;
        while i < self.len
            invariant
                self.wf(),
                i <= self@.len(),
                r@ == "["@ + spec_render_elems(self@.take(i as int)),
            decreases self@.len() - i,
        {
            if i > 0 {
                r.append(", ");
            }
            r.append(self.index(i).render().as_str());
            i = i + 1;
            proof {
                assert(self@.take(i as int).drop_last() =~= self@.take(i - 1));
                assert(self@.take(i as int).last() == self@[i - 1]);
                assert(r@ =~= "["@ + spec_render_elems(self@.take(i as int)));
            }
        }
        r.append("]");
        proof {
            assert(self@.take(self@.len() as int) =~= self@);
            assert(r@ =~= spec_render_vector(self@));
            if self@.len() == 0 {
                lemma_empty_render(self@);
            }
        }
        r
    }

    /// Renders the structured debug form, surfacing the length and the
    /// true capacity as labeled fields beside the rendered elements.
    pub fn debug_string(&self) -> (r: String)
        requires
            self.wf(),
        ensures
            r@ == spec_debug_render(self@, self.spec_cap()),
    {
        let mut r = String::from_str("Vector { length: ");
        r.append(self.len().render().as_str());
        r.append(", capacity: ");
        r.append(self.cap().render().as_str());
        r.append(", elements: ");
        r.append(self.to_string().as_str());
        r.append(" }");
        proof {
            assert(r@ =~= spec_debug_render(self@, self.spec_cap()));
        }
        r
    }
}

} // verus!
