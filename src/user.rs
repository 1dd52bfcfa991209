//! Customers, shipping addresses, saved addresses and card details.

use vstd::prelude::*;
use crate::text::text;

verus! {

/// A customer account as the backend stores it.
#[derive(Debug)]
pub struct User {
    pub id: u128,
    pub email: String,
    pub name: Option<String>,
}

/// A postal address being entered or used for an order.
#[derive(Debug)]
pub struct ShippingAddress {
    pub name: String,
    pub street_1: String,
    pub street_2: String,
    pub city: String,
    pub state: String,
    pub country: String,
    pub phone: String,
    pub postal_code: String,
}

/// `a` followed by `part`, with `", "` between them when both are non-empty.
pub open spec fn joined(a: Seq<char>, part: Seq<char>) -> Seq<char> {
    if part.len() == 0 {
        a
    } else if a.len() == 0 {
        part
    } else {
        a + ", "@ + part
    }
}

/// The non-empty parts, in order, separated by `", "`.
pub open spec fn join_nonempty(parts: Seq<Seq<char>>) -> Seq<char>
    decreases parts.len(),
{
    if parts.len() == 0 {
        Seq::empty()
    } else {
        joined(join_nonempty(parts.drop_last()), parts.last())
    }
}

fn append_part(out: &mut String, part: &String)
    ensures
        final(out)@ == joined(old(out)@, part@),
{
    if part.as_str().is_empty() {
    } else if out.as_str().is_empty() {
        out.append(part.as_str());
        assert(final(out)@ =~= part@);
    } else {
        out.append(", ");
        out.append(part.as_str());
    }
}

/// One line naming street, city, state, country and postal code, skipping
/// the empty ones.
fn address_line(street_1: &String, city: &String, state: &String, country: &String, postal_code: &String) -> (r: String)
    ensures
        r@ == join_nonempty(seq![street_1@, city@, state@, country@, postal_code@]),
{
    let mut s = String::new();
    append_part(&mut s, street_1);
    append_part(&mut s, city);
    append_part(&mut s, state);
    append_part(&mut s, country);
    append_part(&mut s, postal_code);
    let ghost parts = seq![street_1@, city@, state@, country@, postal_code@];
    assert(parts.drop_last().drop_last().drop_last().drop_last().drop_last() =~= Seq::<Seq<char>>::empty());
    assert(parts.drop_last().drop_last().drop_last().drop_last() =~= seq![street_1@]);
    assert(parts.drop_last().drop_last().drop_last() =~= seq![street_1@, city@]);
    assert(parts.drop_last().drop_last() =~= seq![street_1@, city@, state@]);
    assert(parts.drop_last() =~= seq![street_1@, city@, state@, country@]);
    assert(Seq::<char>::empty() + street_1@ =~= street_1@);
    reveal_with_fuel(join_nonempty, 6);
    s
}

impl Clone for ShippingAddress {
    fn clone(&self) -> (r: Self)
        ensures
            r == *self,
    {
        ShippingAddress {
            name: self.name.clone(),
            street_1: self.street_1.clone(),
            street_2: self.street_2.clone(),
            city: self.city.clone(),
            state: self.state.clone(),
            country: self.country.clone(),
            phone: self.phone.clone(),
            postal_code: self.postal_code.clone(),
        }
    }
}

impl Default for ShippingAddress {
    fn default() -> (r: Self)
        ensures
            r.is_blank(),
    {
        ShippingAddress {
            name: String::new(),
            street_1: String::new(),
            street_2: String::new(),
            city: String::new(),
            state: String::new(),
            country: String::new(),
            phone: String::new(),
            postal_code: String::new(),
        }
    }
}

impl ShippingAddress {
    /// Every field is empty.
    pub open spec fn is_blank(self) -> bool {
        &&& self.name@.len() == 0
        &&& self.street_1@.len() == 0
        &&& self.street_2@.len() == 0
        &&& self.city@.len() == 0
        &&& self.state@.len() == 0
        &&& self.country@.len() == 0
        &&& self.phone@.len() == 0
        &&& self.postal_code@.len() == 0
    }

    /// Name, first street line, city, country and postal code are given;
    /// second street line, state and phone are optional.
    pub open spec fn complete(self) -> bool {
        &&& self.name@.len() > 0
        &&& self.street_1@.len() > 0
        &&& self.city@.len() > 0
        &&& self.country@.len() > 0
        &&& self.postal_code@.len() > 0
    }

    pub open spec fn line_spec(self) -> Seq<char> {
        join_nonempty(seq![self.street_1@, self.city@, self.state@, self.country@, self.postal_code@])
    }

    pub fn is_complete(&self) -> (r: bool)
        ensures
            r == self.complete(),
    {
        !self.name.as_str().is_empty() && !self.street_1.as_str().is_empty()
            && !self.city.as_str().is_empty() && !self.country.as_str().is_empty()
            && !self.postal_code.as_str().is_empty()
    }

    /// One-line display of the address.
    pub fn display_line(&self) -> (r: String)
        ensures
            r@ == self.line_spec(),
    {
        address_line(&self.street_1, &self.city, &self.state, &self.country, &self.postal_code)
    }
}

/// An address kept by the backend for a user, identified by fingerprint.
/// Id and creation time (milliseconds since the Unix epoch) are set by the
/// backend once it is stored.
#[derive(Debug)]
pub struct SavedAddress {
    pub id: Option<u128>,
    pub user_fingerprint: String,
    pub name: String,
    pub street_1: String,
    pub street_2: String,
    pub city: String,
    pub state: String,
    pub country: String,
    pub phone: String,
    pub postal_code: String,
    pub created_at: Option<i64>,
}

impl Clone for SavedAddress {
    fn clone(&self) -> (r: Self)
        ensures
            r == *self,
    {
        SavedAddress {
            id: self.id,
            user_fingerprint: self.user_fingerprint.clone(),
            name: self.name.clone(),
            street_1: self.street_1.clone(),
            street_2: self.street_2.clone(),
            city: self.city.clone(),
            state: self.state.clone(),
            country: self.country.clone(),
            phone: self.phone.clone(),
            postal_code: self.postal_code.clone(),
            created_at: self.created_at,
        }
    }
}

impl SavedAddress {
    /// The address fields agree with `a`.
    pub open spec fn same_fields(self, a: ShippingAddress) -> bool {
        &&& self.name@ == a.name@
        &&& self.street_1@ == a.street_1@
        &&& self.street_2@ == a.street_2@
        &&& self.city@ == a.city@
        &&& self.state@ == a.state@
        &&& self.country@ == a.country@
        &&& self.phone@ == a.phone@
        &&& self.postal_code@ == a.postal_code@
    }

    pub open spec fn line_spec(self) -> Seq<char> {
        join_nonempty(seq![self.street_1@, self.city@, self.state@, self.country@, self.postal_code@])
    }

    /// A not yet stored address of the given user.
    pub fn from_shipping(address: &ShippingAddress, user_fingerprint: &str) -> (r: SavedAddress)
        ensures
            r.same_fields(*address),
            r.user_fingerprint@ == user_fingerprint@,
            r.id is None,
            r.created_at is None,
    {
        SavedAddress {
            id: None,
            user_fingerprint: user_fingerprint.to_owned(),
            name: address.name.clone(),
            street_1: address.street_1.clone(),
            street_2: address.street_2.clone(),
            city: address.city.clone(),
            state: address.state.clone(),
            country: address.country.clone(),
            phone: address.phone.clone(),
            postal_code: address.postal_code.clone(),
            created_at: None,
        }
    }

    /// The address alone, without owner, id or timestamp.
    pub fn to_shipping(&self) -> (r: ShippingAddress)
        ensures
            self.same_fields(r),
    {
        ShippingAddress {
            name: self.name.clone(),
            street_1: self.street_1.clone(),
            street_2: self.street_2.clone(),
            city: self.city.clone(),
            state: self.state.clone(),
            country: self.country.clone(),
            phone: self.phone.clone(),
            postal_code: self.postal_code.clone(),
        }
    }

    pub fn display_line(&self) -> (r: String)
        ensures
            r@ == self.line_spec(),
    {
        address_line(&self.street_1, &self.city, &self.state, &self.country, &self.postal_code)
    }
}

/// Card payment details typed by the user.
#[derive(Debug)]
pub struct PaymentInfo {
    pub name: String,
    pub email: String,
    pub card_number: String,
    pub expiry_month: String,
    pub expiry_year: String,
    pub cvv: String,
}

impl Default for PaymentInfo {
    fn default() -> (r: Self)
        ensures
            r.is_blank(),
    {
        PaymentInfo {
            name: String::new(),
            email: String::new(),
            card_number: String::new(),
            expiry_month: String::new(),
            expiry_year: String::new(),
            cvv: String::new(),
        }
    }
}

impl PaymentInfo {
    pub open spec fn is_blank(self) -> bool {
        &&& self.name@.len() == 0
        &&& self.email@.len() == 0
        &&& self.card_number@.len() == 0
        &&& self.expiry_month@.len() == 0
        &&& self.expiry_year@.len() == 0
        &&& self.cvv@.len() == 0
    }

    /// All six fields are given.
    pub open spec fn complete(self) -> bool {
        &&& self.name@.len() > 0
        &&& self.email@.len() > 0
        &&& self.card_number@.len() > 0
        &&& self.expiry_month@.len() > 0
        &&& self.expiry_year@.len() > 0
        &&& self.cvv@.len() > 0
    }

    /// The card number with all but its last four characters hidden.
    pub open spec fn masked_spec(self) -> Seq<char> {
        let n = self.card_number@;
        if n.len() >= 4 {
            "**** **** **** "@ + n.subrange(n.len() - 4, n.len() as int)
        } else {
            "****"@
        }
    }

    pub fn is_complete(&self) -> (r: bool)
        ensures
            r == self.complete(),
    {
        !self.name.as_str().is_empty() && !self.email.as_str().is_empty()
            && !self.card_number.as_str().is_empty() && !self.expiry_month.as_str().is_empty()
            && !self.expiry_year.as_str().is_empty() && !self.cvv.as_str().is_empty()
    }

    pub fn masked_card(&self) -> (r: String)
        ensures
            r@ == self.masked_spec(),
    {
        let n = self.card_number.as_str();
        let len = n.unicode_len();
        if len >= 4 {
            let mut s = text("**** **** **** ");
            s.append(n.substring_char(len - 4, len));
            s
        } else {
            text("****")
        }
    }
}

} // verus!
