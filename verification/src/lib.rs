//! A handful of sample items of the kinds that a documentation bundle shows:
//! a record with two public fields, a tagged union, and a capability with an
//! associated type, two required operations and one provided operation.
//!
//! Where a conversion or a product could go more than one way, counts wrap:
//! a negative integer read as a count is taken modulo the size of `usize`'s
//! range ([`count_of`]), and so is a doubled count that no longer fits
//! ([`doubled`]).

use vstd::prelude::*;
use crate::lemmas::lemma_doubled_is_residue;

pub mod demo_module;
pub mod lemmas;

verus! {

/// An integer read as a count: itself where it is not negative, else raised
/// by the size of `usize`'s range.
pub open spec fn count_of(n: i32) -> usize {
    if n >= 0 {
        n as usize
    } else {
        (n + usize::MAX + 1) as usize
    }
}

/// Twice a count: the double where it fits in `usize`, else the double
/// lowered by the size of `usize`'s range.
pub open spec fn doubled(count: usize) -> usize {
    if 2 * count <= usize::MAX {
        (2 * count) as usize
    } else {
        (2 * count - usize::MAX - 1) as usize
    }
}

/// A record of one integer and one optional text.
pub struct DemoStruct {
    /// The integer.
    pub field_one: i32,
    /// The text, where there is one.
    pub field_two: Option<String>,
}

/// What a [`DemoStruct`] holds, as mathematical values.
pub struct DemoStructView {
    /// The integer.
    pub one: int,
    /// The characters of the text, where there is one.
    pub two: Option<Seq<char>>,
}

impl DemoStructView {
    /// The characters of the text; none where there is no text.
    pub open spec fn text(self) -> Seq<char> {
        match self.two {
            Some(chars) => chars,
            None => Seq::empty(),
        }
    }
}

impl View for DemoStruct {
    type V = DemoStructView;

    open spec fn view(&self) -> DemoStructView {
        DemoStructView {
            one: self.field_one as int,
            two: match self.field_two {
                Some(text) => Some(text@),
                None => None,
            },
        }
    }
}

impl DemoStruct {
    /// The count that this record stands for: its integer read as a count.
    pub open spec fn count(&self) -> usize {
        count_of(self.field_one)
    }

    /// The record that [`DemoStruct::new`] makes.
    pub open spec fn spec_new(one: i32, two: String) -> DemoStruct {
        DemoStruct { field_one: one, field_two: Some(two) }
    }

    /// The record that [`DemoStruct::new_just_one`] makes.
    pub open spec fn spec_new_just_one(one: i32) -> DemoStruct {
        DemoStruct { field_one: one, field_two: None }
    }

    /// Makes a record that holds `one` and the text `two`, both as given.
    #[verifier::when_used_as_spec(spec_new)]
    pub fn new(one: i32, two: String) -> (made: DemoStruct)
        ensures
            made.field_one == one,
            made.field_two == Some(two),
            made == Self::spec_new(one, two),
    {
        DemoStruct { field_one: one, field_two: Some(two) }
    }

    /// Makes a record that holds `one` as given and no text.
    #[verifier::when_used_as_spec(spec_new_just_one)]
    pub fn new_just_one(one: i32) -> (made: DemoStruct)
        ensures
            made.field_one == one,
            made.field_two.is_none(),
            made == Self::spec_new_just_one(one),
    {
        DemoStruct { field_one: one, field_two: None }
    }
}

/// A value that is either a [`DemoStruct`] or a named amount.
pub enum DemoEnum {
    /// A record.
    VariantOne(DemoStruct),
    /// A named amount.
    VariantTwo {
        /// The name of the item.
        item: String,
        /// How many items there are.
        amount: usize,
    },
}

/// What a [`DemoEnum`] holds, as mathematical values.
pub enum DemoEnumView {
    /// A record.
    VariantOne(DemoStructView),
    /// A named amount.
    VariantTwo {
        /// The characters of the item's name.
        item: Seq<char>,
        /// How many items there are.
        amount: nat,
    },
}

impl View for DemoEnum {
    type V = DemoEnumView;

    open spec fn view(&self) -> DemoEnumView {
        match *self {
            DemoEnum::VariantOne(record) => DemoEnumView::VariantOne(record@),
            DemoEnum::VariantTwo { item, amount } => DemoEnumView::VariantTwo {
                item: item@,
                amount: amount as nat,
            },
        }
    }
}

/// A capability with two required operations and one provided operation.
pub trait DemoTrait {
    /// What `tare` hands out.
    type Qwop;

    /// Reports the count that this value stands for.
    fn frob(&self) -> usize;

    /// Hands out what stands for this value.
    fn tare(&self) -> Self::Qwop;

    /// Reports twice a count that `frob` reports for this value; where the
    /// double does not fit in `usize`, it wraps.
    fn girp(&self) -> (count: usize)
        ensures
            exists|once: usize| call_ensures(Self::frob, (self,), once) && count == doubled(once),
    {
        let once: usize = self.frob();
        proof {
            lemma_doubled_is_residue(once);
        }
        once.wrapping_mul(2)
    }
}

/// A record counts as its integer, which wraps where it is negative, and
/// tares to its text, or to the empty text where it has none.
impl DemoTrait for DemoStruct {
    type Qwop = String;

    /// Reports the integer as a count. An integer that is not negative is
    /// reported as it is; a negative one wraps, as the cast to `usize` has it.
    fn frob(&self) -> (count: usize)
        ensures
            count == self.count(),
    {
        let one: i32 = self.field_one;
        proof {
            // The cast keeps the low bits of the sign-extended integer.
            assert(usize::BITS == 32 ==> (one as usize) == one as int % 0x1_0000_0000)
                by (bit_vector);
            assert(usize::BITS == 64 ==> (one as usize) == one as int % 0x1_0000_0000_0000_0000)
                by (bit_vector);
        }
        #[verifier::truncate]
        (one as usize)
    }

    /// Hands out a copy of the text, or the empty text where there is none.
    fn tare(&self) -> (out: String)
        ensures
            out@ == self@.text(),
    {
        self.field_two.as_ref().cloned().unwrap_or_else(String::new)
    }
}

} // verus!
