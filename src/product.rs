//! Catalog products and their display texts.

use vstd::prelude::*;
use crate::text::{hundredths_whole, int_text, push_int, text, whole_units};

verus! {

/// Catalog section a product is listed under.
#[derive(Debug, Clone, Copy, PartialEq, Eq, Structural)]
pub enum ProductCategory {
    Featured,
    Originals,
}

/// How dark the beans are roasted.
#[derive(Debug, Clone, Copy, PartialEq, Eq, Structural)]
pub enum RoastLevel {
    Light,
    Medium,
    Dark,
}

/// Whether a product is sold once or by subscription.
#[derive(Debug, Clone, Copy, PartialEq, Eq, Structural)]
pub enum ProductType {
    Subscription,
    OneTime,
}

impl ProductCategory {
    pub open spec fn label_spec(self) -> Seq<char> {
        match self {
            ProductCategory::Featured => "~ featured ~"@,
            ProductCategory::Originals => "~ originals ~"@,
        }
    }

    /// Section heading shown above the products of this category.
    pub fn label(&self) -> (r: String)
        ensures
            r@ == self.label_spec(),
    {
        match self {
            ProductCategory::Featured => text("~ featured ~"),
            ProductCategory::Originals => text("~ originals ~"),
        }
    }
}

impl RoastLevel {
    pub open spec fn label_spec(self) -> Seq<char> {
        match self {
            RoastLevel::Light => "light roast"@,
            RoastLevel::Medium => "medium roast"@,
            RoastLevel::Dark => "dark roast"@,
        }
    }

    pub fn label(&self) -> (r: String)
        ensures
            r@ == self.label_spec(),
    {
        match self {
            RoastLevel::Light => text("light roast"),
            RoastLevel::Medium => text("medium roast"),
            RoastLevel::Dark => text("dark roast"),
        }
    }
}

/// A catalog entry. The price is in hundredths of the region's currency.
#[derive(Debug)]
pub struct Product {
    pub id: u128,
    pub name: String,
    pub slug: String,
    pub description: String,
    pub price_cents: i32,
    pub category: ProductCategory,
    pub roast_level: Option<RoastLevel>,
    pub weight_oz: i32,
    pub bean_type: String,
    pub product_type: ProductType,
    pub highlight_color: String,
    pub region_id: String,
    pub in_stock: bool,
}

impl Clone for Product {
    fn clone(&self) -> (r: Self)
        ensures
            r == *self,
    {
        Product {
            id: self.id,
            name: self.name.clone(),
            slug: self.slug.clone(),
            description: self.description.clone(),
            price_cents: self.price_cents,
            category: self.category,
            roast_level: self.roast_level,
            weight_oz: self.weight_oz,
            bean_type: self.bean_type.clone(),
            product_type: self.product_type,
            highlight_color: self.highlight_color.clone(),
            region_id: self.region_id.clone(),
            in_stock: self.in_stock,
        }
    }
}

/// A price in whole currency units, as `$` and the amount rounded toward zero.
pub open spec fn dollars_text(cents: int) -> Seq<char> {
    seq!['$'] + int_text(hundredths_whole(cents))
}

/// Appends `$` and the whole currency units of `cents`.
pub fn push_dollars(s: &mut String, cents: i128)
    ensures
        final(s)@ == old(s)@ + dollars_text(cents as int),
{
    s.push('$');
    push_int(s, whole_units(cents));
    assert(final(s)@ =~= old(s)@ + dollars_text(cents as int));
}

impl Product {
    pub open spec fn details_spec(self) -> Seq<char> {
        match self.roast_level {
            Some(roast) => roast.label_spec() + " | "@ + int_text(self.weight_oz as int) + "oz | "@
                + self.bean_type@,
            None => int_text(self.weight_oz as int) + "oz"@,
        }
    }

    pub fn price_display(&self) -> (r: String)
        ensures
            r@ == dollars_text(self.price_cents as int),
    {
        let mut s = String::new();
        push_dollars(&mut s, self.price_cents as i128);
        assert(s@ =~= dollars_text(self.price_cents as int));
        s
    }

    /// Roast, weight and bean type; only the weight when no roast is given.
    pub fn details_line(&self) -> (r: String)
        ensures
            r@ == self.details_spec(),
    {
        match self.roast_level {
            Some(roast) => {
                let mut s = roast.label();
                s.append(" | ");
                push_int(&mut s, self.weight_oz as i128);
                s.append("oz | ");
                s.append(self.bean_type.as_str());
                s
            },
            None => {
                let mut s = String::new();
                push_int(&mut s, self.weight_oz as i128);
                s.append("oz");
                assert(s@ =~= self.details_spec());
                s
            },
        }
    }
}

} // verus!
