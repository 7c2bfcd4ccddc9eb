//! What holds between the constructors and the operations.

use vstd::prelude::*;
use vstd::arithmetic::div_mod::lemma_fundamental_div_mod_converse;
use crate::{count_of, doubled, DemoEnum, DemoEnumView, DemoStruct, DemoStructView, DemoTrait};

verus! {

/// An integer read as a count is the integer's residue modulo the size of
/// `usize`'s range.
pub proof fn lemma_count_of_is_residue(n: i32)
    ensures
        count_of(n) == (n as int) % (usize::MAX + 1),
{
    let quotient: int = if n >= 0 { 0 } else { -1 };
    lemma_fundamental_div_mod_converse(n as int, usize::MAX + 1, quotient, count_of(n) as int);
}

/// Twice a count, as `doubled` has it, is the double's residue modulo the
/// size of `usize`'s range.
pub proof fn lemma_doubled_is_residue(count: usize)
    ensures
        doubled(count) == (2 * count) % (usize::MAX + 1),
{
    let quotient: int = if 2 * count <= usize::MAX { 0 } else { 1 };
    lemma_fundamental_div_mod_converse(2 * count, usize::MAX + 1, quotient, doubled(count) as int);
}

/// Whatever `frob`, `tare` and `girp` may return for a record is what the
/// record's count and text say: the count, the text, and twice the count.
pub proof fn lemma_operations_of_record(record: DemoStruct)
    ensures
        forall|count: usize| #[trigger]
            call_ensures(DemoStruct::frob, (&record,), count) ==> count == record.count(),
        forall|out: String| #[trigger]
            call_ensures(DemoStruct::tare, (&record,), out) ==> out@ == record@.text(),
        forall|count: usize| #[trigger]
            call_ensures(DemoStruct::girp, (&record,), count) ==> count == doubled(record.count()),
{
}

/// A record made with a text tares to that text, whatever its integer.
pub proof fn lemma_new_tares_to_given_text(one: i32, two: String)
    ensures
        DemoStruct::new(one, two)@.text() == two@,
        forall|out: String| #[trigger]
            call_ensures(DemoStruct::tare, (&DemoStruct::new(one, two),), out) ==> out@ == two@,
{
}

/// A record made without a text tares to the empty text, whatever its
/// integer.
pub proof fn lemma_new_just_one_tares_to_empty_text(one: i32)
    ensures
        DemoStruct::new_just_one(one)@.text() == Seq::<char>::empty(),
        forall|out: String| #[trigger]
            call_ensures(DemoStruct::tare, (&DemoStruct::new_just_one(one),), out) ==> out@
                == Seq::<char>::empty(),
{
}

/// A record made with an integer that is not negative counts as that
/// integer, with a text or without one.
pub proof fn lemma_count_of_non_negative(one: i32, two: String)
    requires
        one >= 0,
    ensures
        DemoStruct::new(one, two).count() == one,
        DemoStruct::new_just_one(one).count() == one,
        forall|count: usize| #[trigger]
            call_ensures(DemoStruct::frob, (&DemoStruct::new(one, two),), count) ==> count == one,
{
}

/// Twice the count of a record made with an integer that is not negative is
/// twice that integer: nothing wraps.
pub proof fn lemma_doubled_count_of_non_negative(one: i32, two: String)
    requires
        one >= 0,
    ensures
        doubled(DemoStruct::new(one, two).count()) == 2 * one,
        doubled(DemoStruct::new_just_one(one).count()) == 2 * one,
        forall|count: usize| #[trigger]
            call_ensures(DemoStruct::girp, (&DemoStruct::new(one, two),), count) ==> count == 2
                * one,
{
}

/// A record holds what it was made with, unchanged: its fields read back the
/// arguments of its constructor.
pub proof fn lemma_fields_read_back(one: i32, two: String)
    ensures
        DemoStruct::new(one, two).field_one == one,
        DemoStruct::new(one, two).field_two == Some(two),
        DemoStruct::new(one, two)@ == (DemoStructView { one: one as int, two: Some(two@) }),
        DemoStruct::new_just_one(one).field_one == one,
        DemoStruct::new_just_one(one).field_two == None::<String>,
        DemoStruct::new_just_one(one)@ == (DemoStructView { one: one as int, two: None }),
{
}

/// The two variants are never the same value, nor are their views, and a
/// named amount holds the name and the amount that it was built with.
pub proof fn lemma_variants_differ(record: DemoStruct, item: String, amount: usize)
    ensures
        DemoEnum::VariantOne(record) != (DemoEnum::VariantTwo { item, amount }),
        DemoEnum::VariantOne(record)@ != (DemoEnum::VariantTwo { item, amount })@,
        DemoEnum::VariantOne(record) is VariantOne,
        DemoEnum::VariantOne(record)->0 == record,
        (DemoEnum::VariantTwo { item, amount }) is VariantTwo,
        (DemoEnum::VariantTwo { item, amount })->item == item,
        (DemoEnum::VariantTwo { item, amount })->amount == amount,
        (DemoEnum::VariantTwo { item, amount })@ == (DemoEnumView::VariantTwo {
            item: item@,
            amount: amount as nat,
        }),
{
}

} // verus!
