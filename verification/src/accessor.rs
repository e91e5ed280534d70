//! Typed access to a fixed array of words inside the main program region.
//!
//! The game keeps several static tables — names, descriptors — at known
//! offsets from the main program base. An accessor carries the offset and
//! element count and reads elements as typed values out of a [`World`].

use vstd::prelude::*;

use crate::world::{wadd, wmul, World};

verus! {

/// Values that can be read out of one word of a static array.
pub trait FromArrayAddress: Sized {
    /// The value a word decodes to.
    spec fn from_word_spec(word: u64) -> Self;

    /// Decodes a word.
    fn from_word(word: u64) -> (r: Self)
        ensures
            r == Self::from_word_spec(word),
    ;
}

impl FromArrayAddress for u64 {
    open spec fn from_word_spec(word: u64) -> u64 {
        word
    }

    fn from_word(word: u64) -> (r: u64) {
        word
    }
}

impl FromArrayAddress for u32 {
    open spec fn from_word_spec(word: u64) -> u32 {
        word as u32
    }

    fn from_word(word: u64) -> (r: u32) {
        #[verifier::truncate] (word as u32)
    }
}

impl FromArrayAddress for i32 {
    open spec fn from_word_spec(word: u64) -> i32 {
        word as i32
    }

    fn from_word(word: u64) -> (r: i32) {
        #[verifier::truncate] (word as i32)
    }
}

/// A static array of `count` words at `offset` from the main program base.
pub struct StaticArrayAccessor<T: FromArrayAddress> {
    /// Offset of the array from the main program base.
    pub offset: u64,
    /// Number of elements.
    pub count: usize,
    /// Marker tying the accessor to its element type.
    pub element: core::marker::PhantomData<T>,
}

/// The word address of one element of such an array.
pub open spec fn element_addr(main_base: u64, offset: u64, index: u64) -> u64 {
    wadd(wadd(main_base, offset), wmul(8, index))
}

impl<T: FromArrayAddress> StaticArrayAccessor<T> {
    /// An accessor for the array of `count` elements at `offset` from the
    /// main program base.
    pub fn new(offset: u64, count: usize) -> (r: StaticArrayAccessor<T>)
        ensures
            r.offset == offset,
            r.count == count,
    {
        StaticArrayAccessor { offset, count, element: core::marker::PhantomData }
    }

    /// The element at `index`, or `None` past the end of the array.
    pub fn get(&self, w: &World, index: usize) -> (r: Option<T>)
        ensures
            r == (if index < self.count {
                Option::Some(
                    T::from_word_spec(w@.word(element_addr(w@.main_base, self.offset, index as u64))),
                )
            } else {
                Option::<T>::None
            }),
    {
        if index < self.count {
            let addr = w.main_base().wrapping_add(self.offset).wrapping_add(
                8u64.wrapping_mul(index as u64),
            );
            Option::Some(T::from_word(w.read_word(addr)))
        } else {
            Option::None
        }
    }

    /// An iterator over the array's elements, starting at the first.
    pub fn iter(&self) -> (r: StaticArrayIterator<T>)
        ensures
            r.accessor == self,
            r.current == 0,
    {
        StaticArrayIterator { accessor: self, current: 0 }
    }
}

/// A cursor over a static array.
pub struct StaticArrayIterator<'a, T: FromArrayAddress> {
    /// The array walked over.
    pub accessor: &'a StaticArrayAccessor<T>,
    /// Index of the next element.
    pub current: usize,
}

impl<'a, T: FromArrayAddress> StaticArrayIterator<'a, T> {
    /// The next element, advancing the cursor; `None` once past the end.
    pub fn next(&mut self, w: &World) -> (r: Option<T>)
        ensures
            final(self).accessor == old(self).accessor,
            old(self).current < old(self).accessor.count ==> {
                &&& r == Option::Some(
                    T::from_word_spec(
                        w@.word(
                            element_addr(
                                w@.main_base,
                                old(self).accessor.offset,
                                old(self).current as u64,
                            ),
                        ),
                    ),
                )
                &&& final(self).current == old(self).current + 1
            },
            old(self).current >= old(self).accessor.count ==> r is None && final(self).current
                == old(self).current,
    {
        let r = self.accessor.get(w, self.current);
        match r {
            Option::Some(_) => {
                self.current += 1;
            },
            Option::None => {
            },
        }
        r
    }
}

} // verus!
