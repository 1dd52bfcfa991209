//! The shopping cart: one line per product, each with a positive
//! quantity, and its totals.

use vstd::prelude::*;
use crate::product::{dollars_text, push_dollars, Product};

verus! {

/// Relies on `uuid::Uuid::new_v4`, read back with `as_u128`: a random
/// identifier. Nothing is promised of its value.
#[verifier::external_body]
fn random_id() -> u128 {
    uuid::Uuid::new_v4().as_u128()
}

/// One cart line: a snapshot of a product and how many of it.
#[derive(Debug)]
pub struct CartItem {
    pub id: u128,
    pub product: Product,
    pub quantity: i32,
}

impl Clone for CartItem {
    fn clone(&self) -> (r: Self)
        ensures
            r == *self,
    {
        CartItem { id: self.id, product: self.product.clone(), quantity: self.quantity }
    }
}

impl CartItem {
    /// Unit price times quantity.
    pub open spec fn total_spec(self) -> int {
        self.product.price_cents * self.quantity
    }

    /// The same line with another quantity.
    pub open spec fn with_quantity(self, q: int) -> CartItem {
        CartItem { quantity: q as i32, ..self }
    }

    /// A line with a fresh random id.
    pub fn new(product: Product, quantity: i32) -> (r: CartItem)
        ensures
            r.product == product,
            r.quantity == quantity,
    {
        CartItem { id: random_id(), product, quantity }
    }

    pub fn total_cents(&self) -> (r: i64)
        ensures
            r == self.total_spec(),
    {
        let p = self.product.price_cents as i64;
        let q = self.quantity as i64;
        proof {
            lemma_line_total_bound(self.product.price_cents as int, self.quantity as int);
        }
        p * q
    }

    pub fn total_display(&self) -> (r: String)
        ensures
            r@ == dollars_text(self.total_spec()),
    {
        let mut s = String::new();
        push_dollars(&mut s, self.total_cents() as i128);
        assert(s@ =~= dollars_text(self.total_spec()));
        s
    }
}

/// The largest magnitude of a line total.
pub open spec fn line_total_limit() -> int {
    0x4000_0000_0000_0000
}

proof fn lemma_line_total_bound(p: int, q: int)
    requires
        i32::MIN <= p <= i32::MAX,
        i32::MIN <= q <= i32::MAX,
    ensures
        -line_total_limit() <= p * q <= line_total_limit(),
{
    assert(-line_total_limit() <= p * q <= line_total_limit()) by (nonlinear_arith)
        requires
            -0x8000_0000 <= p <= 0x7fff_ffff,
            -0x8000_0000 <= q <= 0x7fff_ffff,
    ;
}

/// Number of lines for product `pid`.
pub open spec fn line_count(items: Seq<CartItem>, pid: u128) -> nat
    decreases items.len(),
{
    if items.len() == 0 {
        0
    } else {
        line_count(items.drop_last(), pid) + if items.last().product.id == pid { 1nat } else { 0nat }
    }
}

/// Total quantity held for product `pid`.
pub open spec fn quantity_of(items: Seq<CartItem>, pid: u128) -> int
    decreases items.len(),
{
    if items.len() == 0 {
        0
    } else {
        quantity_of(items.drop_last(), pid) + if items.last().product.id == pid {
            items.last().quantity as int
        } else {
            0
        }
    }
}

/// The subtotal is at most the largest line total per line in magnitude.
pub proof fn lemma_subtotal_bound(items: Seq<CartItem>)
    ensures
        -(items.len() * line_total_limit()) <= subtotal_of(items) <= items.len() * line_total_limit(),
    decreases items.len(),
{
    if items.len() > 0 {
        lemma_subtotal_bound(items.drop_last());
        lemma_line_total_bound(items.last().product.price_cents as int, items.last().quantity as int);
    }
}

/// Sum of the quantities of all lines.
pub open spec fn item_count(items: Seq<CartItem>) -> int
    decreases items.len(),
{
    if items.len() == 0 {
        0
    } else {
        item_count(items.drop_last()) + items.last().quantity
    }
}

/// Sum over the lines of unit price times quantity.
pub open spec fn subtotal_of(items: Seq<CartItem>) -> int
    decreases items.len(),
{
    if items.len() == 0 {
        0
    } else {
        subtotal_of(items.drop_last()) + items.last().total_spec()
    }
}

/// Position of the line for product `pid`, or -1 when there is none.
pub open spec fn line_index(items: Seq<CartItem>, pid: u128) -> int
    decreases items.len(),
{
    if items.len() == 0 {
        -1
    } else if items.last().product.id == pid {
        items.len() - 1
    } else {
        line_index(items.drop_last(), pid)
    }
}

/// At most one line per product, and every quantity at least one.
pub open spec fn lines_wf(items: Seq<CartItem>) -> bool {
    &&& forall|i: int, j: int|
        #![trigger items[i], items[j]]
        0 <= i < items.len() && 0 <= j < items.len() && i != j ==> items[i].product.id
            != items[j].product.id
    &&& forall|i: int| 0 <= i < items.len() ==> #[trigger] items[i].quantity >= 1
}

/// What adding `q` of `product` makes of the lines `old`: the quantity of an
/// existing line for the product grows by `q`, else a line is appended.
pub open spec fn added(old: Seq<CartItem>, new: Seq<CartItem>, product: Product, q: int) -> bool {
    let i = line_index(old, product.id);
    if i >= 0 {
        new == old.update(i, old[i].with_quantity(old[i].quantity + q))
    } else {
        &&& new.len() == old.len() + 1
        &&& new.drop_last() == old
        &&& new.last().product == product
        &&& new.last().quantity == q
    }
}

/// What taking one of product `pid` off the lines `old` makes of them: a
/// line holding more than one shrinks by one, a line holding one goes.
pub open spec fn decremented(old: Seq<CartItem>, new: Seq<CartItem>, pid: u128) -> bool {
    let i = line_index(old, pid);
    if i < 0 {
        new == old
    } else if old[i].quantity > 1 {
        new == old.update(i, old[i].with_quantity(old[i].quantity - 1))
    } else {
        new == old.remove(i)
    }
}

/// The lines without the one for `pid`, if there is one.
pub open spec fn removed(old: Seq<CartItem>, pid: u128) -> Seq<CartItem> {
    let i = line_index(old, pid);
    if i >= 0 {
        old.remove(i)
    } else {
        old
    }
}

pub proof fn lemma_line_index(items: Seq<CartItem>, pid: u128)
    ensures
        line_index(items, pid) >= 0 ==> line_index(items, pid) < items.len()
            && items[line_index(items, pid)].product.id == pid,
        line_index(items, pid) < 0 <==> forall|j: int|
            0 <= j < items.len() ==> #[trigger] items[j].product.id != pid,
        line_index(items, pid) >= -1,
    decreases items.len(),
{
    if items.len() > 0 {
        lemma_line_index(items.drop_last(), pid);
        if line_index(items, pid) < 0 {
            assert forall|j: int| 0 <= j < items.len() implies #[trigger] items[j].product.id
                != pid by {
                if j < items.len() - 1 {
                    assert(items.drop_last()[j] == items[j]);
                }
            }
        }
    }
}

/// With one line per product, any line for `pid` stands at `line_index`.
pub proof fn lemma_line_index_unique(items: Seq<CartItem>, pid: u128, j: int)
    requires
        lines_wf(items),
        0 <= j < items.len(),
        items[j].product.id == pid,
    ensures
        line_index(items, pid) == j,
{
    lemma_line_index(items, pid);
    let k = line_index(items, pid);
    if k != j {
        assert(items[k].product.id != items[j].product.id);
    }
}

/// With one line per product, the count for `pid` is one exactly when it has
/// a line, and the quantity is that line's.
pub proof fn lemma_count_and_quantity(items: Seq<CartItem>, pid: u128)
    requires
        lines_wf(items),
    ensures
        line_index(items, pid) >= 0 ==> line_count(items, pid) == 1 && quantity_of(items, pid)
            == items[line_index(items, pid)].quantity,
        line_index(items, pid) < 0 ==> line_count(items, pid) == 0 && quantity_of(items, pid)
            == 0,
    decreases items.len(),
{
    lemma_line_index(items, pid);
    if items.len() > 0 {
        let pre = items.drop_last();
        assert(lines_wf(pre)) by {
            assert forall|i: int, j: int|
                0 <= i < pre.len() && 0 <= j < pre.len() && i != j implies pre[i].product.id
                != pre[j].product.id by {
                assert(items[i] == pre[i] && items[j] == pre[j]);
            }
            assert forall|i: int| 0 <= i < pre.len() implies #[trigger] pre[i].quantity >= 1 by {
                assert(items[i] == pre[i]);
            }
        }
        lemma_count_and_quantity(pre, pid);
        lemma_line_index(pre, pid);
        if items.last().product.id == pid {
            if line_index(pre, pid) >= 0 {
                let k = line_index(pre, pid);
                assert(items[k] == pre[k]);
                assert(items[k].product.id != items[items.len() - 1].product.id);
            }
        }
    }
}

/// Changing the line at `i` to `x`, which keeps its product, shifts the
/// count and quantity of each product by the change at `i`.
pub proof fn lemma_update(items: Seq<CartItem>, i: int, x: CartItem, pid: u128)
    requires
        0 <= i < items.len(),
        x.product.id == items[i].product.id,
    ensures
        line_count(items.update(i, x), pid) == line_count(items, pid),
        line_index(items.update(i, x), pid) == line_index(items, pid),
        quantity_of(items.update(i, x), pid) == quantity_of(items, pid) + if items[i].product.id
            == pid {
            x.quantity - items[i].quantity
        } else {
            0
        },
    decreases items.len(),
{
    let u = items.update(i, x);
    if i == items.len() - 1 {
        assert(u.drop_last() =~= items.drop_last());
    } else {
        assert(u.drop_last() =~= items.drop_last().update(i, x));
        lemma_update(items.drop_last(), i, x, pid);
    }
}

/// Total quantity that a sequence of additions adds for product `pid`.
pub open spec fn sum_added(adds: Seq<(Product, i32)>, pid: u128) -> int
    decreases adds.len(),
{
    if adds.len() == 0 {
        0
    } else {
        sum_added(adds.drop_last(), pid) + if adds.last().0.id == pid {
            adds.last().1 as int
        } else {
            0
        }
    }
}

proof fn lemma_count_zero(items: Seq<CartItem>, pid: u128)
    ensures
        line_index(items, pid) < 0 <==> line_count(items, pid) == 0,
    decreases items.len(),
{
    if items.len() > 0 {
        lemma_count_zero(items.drop_last(), pid);
    }
}

/// Adding products one after another to an empty cart, each time at least
/// one, leaves exactly one line for each product added and none for the
/// others, so as many lines as distinct products, and each line holds the
/// sum of the quantities added for its product. `carts[k + 1]` is the cart
/// after the `k`-th addition.
pub proof fn lemma_adds_accumulate(carts: Seq<Cart>, adds: Seq<(Product, i32)>)
    requires
        carts.len() == adds.len() + 1,
        carts[0].items@.len() == 0,
        forall|k: int| 0 <= k < carts.len() ==> (#[trigger] carts[k]).wf(),
        forall|k: int|
            0 <= k < adds.len() ==> (#[trigger] adds[k]).1 >= 1 && carts[k].quantity(adds[k].0.id)
                + adds[k].1 <= i32::MAX && added(
                carts[k].items@,
                carts[k + 1].items@,
                adds[k].0,
                adds[k].1 as int,
            ),
    ensures
        forall|pid: u128|
            #![trigger line_count(carts.last().items@, pid)]
            #![trigger quantity_of(carts.last().items@, pid)]
            line_count(carts.last().items@, pid) == (if sum_added(adds, pid) > 0 {
                1nat
            } else {
                0nat
            }) && quantity_of(carts.last().items@, pid) == sum_added(adds, pid),
        forall|i: int|
            0 <= i < carts.last().items@.len() ==> sum_added(
                adds,
                (#[trigger] carts.last().items@[i]).product.id,
            ) > 0,
{
    lemma_adds_counts(carts, adds);
    let items = carts.last().items@;
    assert forall|i: int| 0 <= i < items.len() implies sum_added(
        adds,
        (#[trigger] items[i]).product.id,
    ) > 0 by {
        let pid = items[i].product.id;
        lemma_line_index(items, pid);
        lemma_count_zero(items, pid);
        assert(line_count(items, pid) == (if sum_added(adds, pid) > 0 {
            1nat
        } else {
            0nat
        }));
    }
}

/// The count and quantity of each product after a sequence of additions.
proof fn lemma_adds_counts(carts: Seq<Cart>, adds: Seq<(Product, i32)>)
    requires
        carts.len() == adds.len() + 1,
        carts[0].items@.len() == 0,
        forall|k: int| 0 <= k < carts.len() ==> (#[trigger] carts[k]).wf(),
        forall|k: int|
            0 <= k < adds.len() ==> (#[trigger] adds[k]).1 >= 1 && carts[k].quantity(adds[k].0.id)
                + adds[k].1 <= i32::MAX && added(
                carts[k].items@,
                carts[k + 1].items@,
                adds[k].0,
                adds[k].1 as int,
            ),
    ensures
        forall|pid: u128|
            #![trigger line_count(carts.last().items@, pid)]
            #![trigger quantity_of(carts.last().items@, pid)]
            line_count(carts.last().items@, pid) == (if sum_added(adds, pid) > 0 {
                1nat
            } else {
                0nat
            }) && quantity_of(carts.last().items@, pid) == sum_added(adds, pid),
    decreases adds.len(),
{
    let n = adds.len();
    if n == 0 {
        assert forall|pid: u128|
            #![trigger line_count(carts.last().items@, pid)]
            #![trigger quantity_of(carts.last().items@, pid)]
            line_count(carts.last().items@, pid) == 0 && quantity_of(carts.last().items@, pid)
                == 0 by {
            assert(carts.last() == carts[0]);
        }
    } else {
        let pre_carts = carts.drop_last();
        let pre_adds = adds.drop_last();
        assert forall|k: int| 0 <= k < pre_carts.len() implies (#[trigger] pre_carts[k]).wf() by {
            assert(pre_carts[k] == carts[k]);
        }
        assert forall|k: int| 0 <= k < pre_adds.len() implies (#[trigger] pre_adds[k]).1 >= 1
            && pre_carts[k].quantity(pre_adds[k].0.id) + pre_adds[k].1 <= i32::MAX && added(
            pre_carts[k].items@,
            pre_carts[k + 1].items@,
            pre_adds[k].0,
            pre_adds[k].1 as int,
        ) by {
            assert(pre_adds[k] == adds[k] && pre_carts[k] == carts[k] && pre_carts[k + 1] == carts[k + 1]);
        }
        lemma_sum_added_nonneg(pre_adds);
        lemma_adds_counts(pre_carts, pre_adds);
        let prev = carts[n - 1].items@;
        let next = carts[n as int].items@;
        let (p, q) = adds[n - 1];
        assert(carts.last() == carts[n as int]);
        assert(pre_carts.last() == carts[n - 1]);
        assert(added(prev, next, p, q as int));
        let i = line_index(prev, p.id);
        lemma_line_index(prev, p.id);
        lemma_count_zero(prev, p.id);
        lemma_count_and_quantity(prev, p.id);
        assert forall|pid: u128|
            #![trigger line_count(carts.last().items@, pid)]
            #![trigger quantity_of(carts.last().items@, pid)]
            line_count(carts.last().items@, pid) == (if sum_added(adds, pid) > 0 {
                1nat
            } else {
                0nat
            }) && quantity_of(carts.last().items@, pid) == sum_added(adds, pid) by {
            assert(line_count(prev, pid) == (if sum_added(pre_adds, pid) > 0 {
                1nat
            } else {
                0nat
            }));
            assert(quantity_of(prev, pid) == sum_added(pre_adds, pid));
            assert(sum_added(pre_adds, pid) >= 0);
            if i >= 0 {
                lemma_update(prev, i, prev[i].with_quantity(prev[i].quantity + q), pid);
            } else {
                assert(next.drop_last() == prev);
            }
        }
    }
}

proof fn lemma_sum_added_nonneg(adds: Seq<(Product, i32)>)
    requires
        forall|k: int| 0 <= k < adds.len() ==> (#[trigger] adds[k]).1 >= 1,
    ensures
        forall|pid: u128| #[trigger] sum_added(adds, pid) >= 0,
    decreases adds.len(),
{
    if adds.len() > 0 {
        let pre = adds.drop_last();
        assert forall|k: int| 0 <= k < pre.len() implies (#[trigger] pre[k]).1 >= 1 by {
            assert(pre[k] == adds[k]);
        }
        lemma_sum_added_nonneg(pre);
        assert(adds[adds.len() - 1].1 >= 1);
        assert forall|pid: u128| #[trigger] sum_added(adds, pid) >= 0 by {
            assert(sum_added(pre, pid) >= 0);
        }
    }
}

/// Adding `q` of a product to a cart: the product then has exactly one
/// line, its quantity grows by exactly `q`, and any other product keeps its
/// lines and quantity.
pub proof fn lemma_add_effect(before: Cart, after: Cart, p: Product, q: int, other: u128)
    requires
        before.wf(),
        q >= 1,
        before.quantity(p.id) + q <= i32::MAX,
        added(before.items@, after.items@, p, q),
        other != p.id,
    ensures
        line_count(after.items@, p.id) == 1,
        after.quantity(p.id) == before.quantity(p.id) + q,
        line_count(after.items@, other) == line_count(before.items@, other),
        after.quantity(other) == before.quantity(other),
{
    let o = before.items@;
    let i = line_index(o, p.id);
    lemma_line_index(o, p.id);
    lemma_count_zero(o, p.id);
    lemma_count_and_quantity(o, p.id);
    if i >= 0 {
        let x = o[i].with_quantity(o[i].quantity + q);
        lemma_update(o, i, x, p.id);
        lemma_update(o, i, x, other);
    } else {
        assert(after.items@.drop_last() == o);
    }
}

/// Removing the line at `i` takes its quantity off its product.
pub proof fn lemma_remove(items: Seq<CartItem>, i: int, pid: u128)
    requires
        0 <= i < items.len(),
    ensures
        line_count(items.remove(i), pid) == line_count(items, pid) - if items[i].product.id == pid {
            1int
        } else {
            0int
        },
        quantity_of(items.remove(i), pid) == quantity_of(items, pid) - if items[i].product.id
            == pid {
            items[i].quantity as int
        } else {
            0
        },
    decreases items.len(),
{
    let r = items.remove(i);
    if i == items.len() - 1 {
        assert(r =~= items.drop_last());
    } else {
        assert(r.drop_last() =~= items.drop_last().remove(i));
        assert(r.last() == items.last());
        lemma_remove(items.drop_last(), i, pid);
    }
}

/// Taking one of a product off the cart: a line holding one goes, a larger
/// line shrinks by exactly one, any other product keeps its quantity, and
/// no line is left holding less than one.
pub proof fn lemma_decrement_effect(before: Cart, after: Cart, pid: u128, other: u128)
    requires
        before.wf(),
        after.wf(),
        decremented(before.items@, after.items@, pid),
        other != pid,
    ensures
        before.quantity(pid) == 1 ==> line_count(after.items@, pid) == 0,
        before.quantity(pid) > 1 ==> after.quantity(pid) == before.quantity(pid) - 1 && line_count(
            after.items@,
            pid,
        ) == 1,
        after.quantity(other) == before.quantity(other),
        forall|j: int| 0 <= j < after.items@.len() ==> #[trigger] after.items@[j].quantity >= 1,
{
    let o = before.items@;
    let i = line_index(o, pid);
    lemma_line_index(o, pid);
    lemma_count_and_quantity(o, pid);
    if i >= 0 {
        if o[i].quantity > 1 {
            let x = o[i].with_quantity(o[i].quantity - 1);
            lemma_update(o, i, x, pid);
            lemma_update(o, i, x, other);
        } else {
            lemma_remove(o, i, pid);
            lemma_remove(o, i, other);
        }
    }
}

impl Cart {
    pub open spec fn wf(self) -> bool {
        lines_wf(self.items@)
    }

    /// Quantity of the line for `pid`, or zero.
    pub open spec fn quantity(self, pid: u128) -> int {
        quantity_of(self.items@, pid)
    }
}

/// The lines of a shopping cart, in the order they were first added.
#[derive(Debug)]
pub struct Cart {
    pub items: Vec<CartItem>,
}

fn find_line(items: &Vec<CartItem>, pid: u128) -> (r: Option<usize>)
    ensures
        r is Some ==> r->0 < items@.len() && items@[r->0 as int].product.id == pid,
        r is None ==> forall|j: int| 0 <= j < items@.len() ==> #[trigger] items@[j].product.id != pid,
{
    let mut i: usize = 0;
    while i < items.len()
        invariant
            0 <= i <= items@.len(),
            forall|j: int| 0 <= j < i ==> #[trigger] items@[j].product.id != pid,
        decreases items@.len() - i,
    {
        if items[i].product.id == pid {
            return Some(i);
        }
        i = i + 1;
    }
    None
}

impl Cart {
    pub fn new() -> (r: Cart)
        ensures
            r.items@.len() == 0,
    {
        Cart { items: Vec::new() }
    }

    /// Where the line for `pid` stands: the same as `line_index`.
    fn locate(&self, pid: u128) -> (r: Option<usize>)
        requires
            self.wf(),
        ensures
            r is Some <==> line_index(self.items@, pid) >= 0,
            r is Some ==> r->0 == line_index(self.items@, pid) && r->0 < self.items@.len()
                && self.items@[r->0 as int].product.id == pid,
    {
        proof {
            lemma_line_index(self.items@, pid);
        }
        let r = find_line(&self.items, pid);
        if let Some(i) = r {
            proof {
                lemma_line_index_unique(self.items@, pid, i as int);
            }
        }
        r
    }

    /// Adds `quantity` of `product`: onto its line when it has one, else as a
    /// new line at the end.
    pub fn add_item(&mut self, product: Product, quantity: i32)
        requires
            old(self).wf(),
            quantity >= 1,
            old(self).quantity(product.id) + quantity <= i32::MAX,
        ensures
            final(self).wf(),
            added(old(self).items@, final(self).items@, product, quantity as int),
    {
        proof {
            lemma_count_and_quantity(self.items@, product.id);
        }
        match self.locate(product.id) {
            Some(i) => {
                let q = self.items[i].quantity + quantity;
                self.set_quantity_at(i, q);
            },
            None => {
                proof {
                    lemma_line_index(self.items@, product.id);
                }
                let ghost pid = product.id;
                self.items.push(CartItem::new(product, quantity));
                proof {
                    let s = self.items@;
                    assert(s.drop_last() =~= old(self).items@);
                    assert forall|i: int, j: int|
                        0 <= i < s.len() && 0 <= j < s.len() && i != j implies s[i].product.id
                        != s[j].product.id by {
                        if j == s.len() - 1 {
                            assert(old(self).items@[i].product.id != pid);
                        } else if i == s.len() - 1 {
                            assert(old(self).items@[j].product.id != pid);
                        }
                    }
                }
            },
        }
    }

    /// Gives the line at `i` the quantity `q`.
    fn set_quantity_at(&mut self, i: usize, q: i32)
        requires
            old(self).wf(),
            i < old(self).items@.len(),
            q >= 1,
        ensures
            final(self).wf(),
            final(self).items@ == old(self).items@.update(
                i as int,
                old(self).items@[i as int].with_quantity(q as int),
            ),
    {
        let old_item = &self.items[i];
        let item = CartItem { id: old_item.id, product: old_item.product.clone(), quantity: q };
        self.items.set(i, item);
        proof {
            let s = self.items@;
            assert(s[i as int] == old(self).items@[i as int].with_quantity(q as int));
            assert forall|a: int, b: int|
                0 <= a < s.len() && 0 <= b < s.len() && a != b implies s[a].product.id
                != s[b].product.id by {
                assert(old(self).items@[a].product.id != old(self).items@[b].product.id);
            }
            assert forall|a: int| 0 <= a < s.len() implies #[trigger] s[a].quantity >= 1 by {
                if a != i {
                    assert(old(self).items@[a].quantity >= 1);
                }
            }
        }
    }

    /// Drops the line at `i`.
    fn remove_at(&mut self, i: usize)
        requires
            old(self).wf(),
            i < old(self).items@.len(),
        ensures
            final(self).wf(),
            final(self).items@ == old(self).items@.remove(i as int),
    {
        self.items.remove(i);
        proof {
            let s = self.items@;
            let o = old(self).items@;
            assert forall|a: int, b: int|
                0 <= a < s.len() && 0 <= b < s.len() && a != b implies s[a].product.id
                != s[b].product.id by {
                let a2 = if a < i { a } else { a + 1 };
                let b2 = if b < i { b } else { b + 1 };
                assert(s[a] == o[a2] && s[b] == o[b2]);
            }
            assert forall|a: int| 0 <= a < s.len() implies #[trigger] s[a].quantity >= 1 by {
                let a2 = if a < i { a } else { a + 1 };
                assert(s[a] == o[a2]);
            }
        }
    }

    /// Removes the line for `product_id`; nothing happens when it has none.
    pub fn remove_item(&mut self, product_id: u128)
        requires
            old(self).wf(),
        ensures
            final(self).wf(),
            final(self).items@ == removed(old(self).items@, product_id),
    {
        if let Some(i) = self.locate(product_id) {
            self.remove_at(i);
        }
    }

    /// Sets the quantity of the line for `product_id`, removing it when
    /// `quantity` is zero or less; nothing happens when it has no line.
    pub fn update_quantity(&mut self, product_id: u128, quantity: i32)
        requires
            old(self).wf(),
        ensures
            final(self).wf(),
            ({
                let o = old(self).items@;
                let i = line_index(o, product_id);
                if i < 0 {
                    final(self).items@ == o
                } else if quantity <= 0 {
                    final(self).items@ == o.remove(i)
                } else {
                    final(self).items@ == o.update(i, o[i].with_quantity(quantity as int))
                }
            }),
    {
        if let Some(i) = self.locate(product_id) {
            if quantity <= 0 {
                self.remove_at(i);
            } else {
                self.set_quantity_at(i, quantity);
            }
        }
    }

    /// One more of `product_id`, when it has a line.
    pub fn increment_item(&mut self, product_id: u128)
        requires
            old(self).wf(),
            old(self).quantity(product_id) < i32::MAX,
        ensures
            final(self).wf(),
            ({
                let o = old(self).items@;
                let i = line_index(o, product_id);
                if i < 0 {
                    final(self).items@ == o
                } else {
                    final(self).items@ == o.update(i, o[i].with_quantity(o[i].quantity + 1))
                }
            }),
    {
        proof {
            lemma_count_and_quantity(self.items@, product_id);
        }
        if let Some(i) = self.locate(product_id) {
            let q = self.items[i].quantity + 1;
            self.set_quantity_at(i, q);
        }
    }

    /// One fewer of `product_id`; a line holding one is removed.
    pub fn decrement_item(&mut self, product_id: u128)
        requires
            old(self).wf(),
        ensures
            final(self).wf(),
            decremented(old(self).items@, final(self).items@, product_id),
    {
        if let Some(i) = self.locate(product_id) {
            if self.items[i].quantity > 1 {
                let q = self.items[i].quantity - 1;
                self.set_quantity_at(i, q);
            } else {
                self.remove_at(i);
            }
        }
    }

    /// Quantity of the line for `product_id`, or zero.
    pub fn line_quantity(&self, product_id: u128) -> (r: i32)
        requires
            self.wf(),
        ensures
            r == self.quantity(product_id),
    {
        proof {
            lemma_count_and_quantity(self.items@, product_id);
        }
        match self.locate(product_id) {
            Some(i) => self.items[i].quantity,
            None => 0,
        }
    }

    /// Sum of the quantities of all lines.
    pub fn total_items(&self) -> (r: i128)
        ensures
            r == item_count(self.items@),
    {
        let mut sum: i128 = 0;
        let mut i: usize = 0;
        while i < self.items.len()
            invariant
                0 <= i <= self.items@.len(),
                sum == item_count(self.items@.subrange(0, i as int)),
                -(i * 0x8000_0000) <= sum <= i * 0x8000_0000,
            decreases self.items@.len() - i,
        {
            assert(self.items@.subrange(0, i + 1).drop_last() =~= self.items@.subrange(0, i as int));
            sum = sum + self.items[i].quantity as i128;
            i = i + 1;
        }
        assert(self.items@.subrange(0, i as int) =~= self.items@);
        sum
    }

    /// Sum over the lines of unit price times quantity, exactly.
    pub fn subtotal_cents(&self) -> (r: i128)
        ensures
            r == subtotal_of(self.items@),
    {
        let mut sum: i128 = 0;
        let mut i: usize = 0;
        while i < self.items.len()
            invariant
                0 <= i <= self.items@.len(),
                sum == subtotal_of(self.items@.subrange(0, i as int)),
                -(i * line_total_limit()) <= sum <= i * line_total_limit(),
            decreases self.items@.len() - i,
        {
            assert(self.items@.subrange(0, i + 1).drop_last() =~= self.items@.subrange(0, i as int));
            let t = self.items[i].total_cents();
            proof {
                lemma_line_total_bound(self.items@[i as int].product.price_cents as int, self.items@[i as int].quantity as int);
            }
            sum = sum + t as i128;
            i = i + 1;
        }
        assert(self.items@.subrange(0, i as int) =~= self.items@);
        sum
    }

    pub fn subtotal_display(&self) -> (r: String)
        ensures
            r@ == dollars_text(subtotal_of(self.items@)),
    {
        let mut s = String::new();
        push_dollars(&mut s, self.subtotal_cents());
        assert(s@ =~= dollars_text(subtotal_of(self.items@)));
        s
    }

    pub fn is_empty(&self) -> (r: bool)
        ensures
            r == (self.items@.len() == 0),
    {
        self.items.is_empty()
    }

    pub fn clear(&mut self)
        ensures
            final(self).items@.len() == 0,
    {
        self.items.clear();
    }
}

} // verus!
