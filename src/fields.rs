//! The form fields that receive typed text, and the order in which the
//! next-field action visits them.

use vstd::prelude::*;

verus! {

/// The input target that receives typed characters, or none.
#[derive(Debug, Clone, Copy, PartialEq, Eq, Structural)]
pub enum InputField {
    NoInput,
    Name,
    Street1,
    Street2,
    City,
    State,
    Country,
    Phone,
    PostalCode,
    PaymentName,
    PaymentEmail,
    CardNumber,
    ExpiryMonth,
    ExpiryYear,
    Cvv,
}

/// Shipping form fields in editing order: left column, then right column.
pub open spec fn shipping_order() -> Seq<InputField> {
    seq![
        InputField::Name,
        InputField::Street1,
        InputField::Street2,
        InputField::City,
        InputField::State,
        InputField::Country,
        InputField::Phone,
        InputField::PostalCode,
    ]
}

/// Payment form fields in editing order.
pub open spec fn payment_order() -> Seq<InputField> {
    seq![
        InputField::PaymentName,
        InputField::PaymentEmail,
        InputField::CardNumber,
        InputField::ExpiryMonth,
        InputField::ExpiryYear,
        InputField::Cvv,
    ]
}

/// The field after `f` in `order`, wrapping past the last one; a field that is
/// not in `order` counts as standing at its first position.
pub open spec fn next_in(order: Seq<InputField>, f: InputField) -> InputField
    recommends
        order.len() > 0,
{
    let i = if order.contains(f) { order.index_of(f) } else { 0 };
    if i + 1 < order.len() {
        order[i + 1]
    } else {
        order[0]
    }
}

impl InputField {
    pub fn shipping_fields() -> (r: Vec<InputField>)
        ensures
            r@ == shipping_order(),
            r@.no_duplicates(),
    {
        let r = vec![
            InputField::Name,
            InputField::Street1,
            InputField::Street2,
            InputField::City,
            InputField::State,
            InputField::Country,
            InputField::Phone,
            InputField::PostalCode,
        ];
        assert(r@ =~= shipping_order());
        r
    }

    pub fn payment_fields() -> (r: Vec<InputField>)
        ensures
            r@ == payment_order(),
            r@.no_duplicates(),
    {
        let r = vec![
            InputField::PaymentName,
            InputField::PaymentEmail,
            InputField::CardNumber,
            InputField::ExpiryMonth,
            InputField::ExpiryYear,
            InputField::Cvv,
        ];
        assert(r@ =~= payment_order());
        r
    }

    /// The shipping field that follows this one, cycling.
    pub fn next_shipping(&self) -> (r: InputField)
        ensures
            r == next_in(shipping_order(), *self),
    {
        next_after(&Self::shipping_fields(), *self)
    }

    /// The payment field that follows this one, cycling.
    pub fn next_payment(&self) -> (r: InputField)
        ensures
            r == next_in(payment_order(), *self),
    {
        next_after(&Self::payment_fields(), *self)
    }
}

/// The entry after `f` in a list without repeats, cycling; an absent `f`
/// counts as standing at the first position.
fn next_after(fields: &Vec<InputField>, f: InputField) -> (r: InputField)
    requires
        fields@.len() > 0,
        fields@.no_duplicates(),
    ensures
        r == next_in(fields@, f),
{
    let mut i: usize = 0;
    while i < fields.len()
        invariant
            0 <= i <= fields@.len(),
            fields@.no_duplicates(),
            forall|j: int| 0 <= j < i ==> fields@[j] != f,
        decreases fields@.len() - i,
    {
        if fields[i] == f {
            proof {
                assert(fields@.contains(f));
                let j = fields@.index_of(f);
                assert(0 <= j < fields@.len() && fields@[j] == f);
                assert(fields@[i as int] == f);
                assert(j == i as int);
            }
            let k: usize = if i + 1 < fields.len() { i + 1 } else { 0 };
            return fields[k];
        }
        i = i + 1;
    }
    assert(!fields@.contains(f));
    let k: usize = if 1 < fields.len() { 1 } else { 0 };
    fields[k]
}

} // verus!
