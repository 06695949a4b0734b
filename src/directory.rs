use vstd::prelude::*;
use vstd::string::StringExecFns;
use crate::order::Order;

verus! {

/// A customer and the order they saved as their favorite.
#[derive(Debug)]
pub struct Customer {
    pub name: String,
    pub favorite_order: Order,
}

/// The first customer in `customers` saved under exactly `name`, if any.
pub open spec fn lookup(customers: Seq<Customer>, name: Seq<char>) -> Option<Customer>
    decreases customers.len(),
{
    if customers.len() == 0 {
        None
    } else {
        let earlier = lookup(customers.drop_last(), name);
        if earlier is Some {
            earlier
        } else if customers.last().name@ == name {
            Some(customers.last())
        } else {
            None
        }
    }
}

/// Once a prefix of `customers` finds someone under `name`, the whole does too.
proof fn lemma_lookup_prefix(customers: Seq<Customer>, name: Seq<char>, n: int)
    requires
        0 <= n <= customers.len(),
        lookup(customers.subrange(0, n), name) is Some,
    ensures
        lookup(customers, name) == lookup(customers.subrange(0, n), name),
    decreases customers.len(),
{
    if n == customers.len() {
        assert(customers.subrange(0, n) =~= customers);
    } else {
        let rest = customers.drop_last();
        assert(rest.subrange(0, n) =~= customers.subrange(0, n));
        lemma_lookup_prefix(rest, name, n);
    }
}

/// A name under which no customer was saved finds nobody. `saved` holds the
/// customers in the order in which they were added.
pub proof fn lemma_lookup_unsaved(saved: Seq<Customer>, name: Seq<char>)
    requires
        forall|i: int| 0 <= i < saved.len() ==> saved[i].name@ != name,
    ensures
        lookup(saved, name) is None,
    decreases saved.len(),
{
    if saved.len() > 0 {
        lemma_lookup_unsaved(saved.drop_last(), name);
    }
}

/// A name finds the customer first saved under it, with the very favorite
/// order that was saved.
pub proof fn lemma_lookup_saved(saved: Seq<Customer>, i: int)
    requires
        0 <= i < saved.len(),
        forall|j: int| 0 <= j < i ==> saved[j].name@ != saved[i].name@,
    ensures
        lookup(saved, saved[i].name@) == Some(saved[i]),
    decreases saved.len(),
{
    let rest = saved.drop_last();
    if i == saved.len() - 1 {
        lemma_lookup_unsaved(rest, saved[i].name@);
    } else {
        lemma_lookup_saved(rest, i);
    }
}

/// What the restaurant keeps: the number the next order is placed under,
/// and the customers who saved a favorite order, oldest first.
pub struct VanBinhView {
    pub orders_count: nat,
    pub customers: Seq<Customer>,
}

/// The restaurant's running state: the order counter and the customers.
pub struct VanBinh {
    orders_count: u32,
    customers: Vec<Customer>,
}

impl View for VanBinh {
    type V = VanBinhView;

    closed spec fn view(&self) -> VanBinhView {
        VanBinhView { orders_count: self.orders_count as nat, customers: self.customers@ }
    }
}

impl VanBinh {
    /// No customers yet; the first order is number one.
    pub fn new() -> (r: VanBinh)
        ensures
            r@.orders_count == 1,
            r@.customers == Seq::<Customer>::empty(),
    {
        VanBinh { orders_count: 1, customers: Vec::new() }
    }

    /// Saves `favorite_order` for `name`, after the customers saved before.
    pub fn add_customer(&mut self, name: String, favorite_order: Order)
        ensures
            final(self)@.customers == old(self)@.customers.push(
                (Customer { name, favorite_order }),
            ),
            final(self)@.orders_count == old(self)@.orders_count,
    {
        self.customers.push(Customer { name, favorite_order });
    }

    /// The first customer saved under exactly `name`.
    pub fn get_saved_customer(&self, name: &str) -> (r: Option<&Customer>)
        ensures
            match r {
                Some(c) => lookup(self@.customers, name@) == Some(*c),
                None => lookup(self@.customers, name@) is None,
            },
    {
        let key = String::from_str(name);
        let mut i: usize = 0;
        while i < self.customers.len()
            invariant
                0 <= i <= self.customers.len(),
                key@ == name@,
                lookup(self.customers@.subrange(0, i as int), name@) is None,
            decreases self.customers.len() - i,
        {
            proof {
                assert(self.customers@.subrange(0, i + 1).drop_last() =~= self.customers@.subrange(
                    0,
                    i as int,
                ));
            }
            if self.customers[i].name == key {
                proof {
                    lemma_lookup_prefix(self.customers@, name@, i + 1);
                }
                return Some(&self.customers[i]);
            }
            i = i + 1;
        }
        proof {
            assert(self.customers@.subrange(0, i as int) =~= self.customers@);
        }
        None
    }

    /// Moves the counter on to the next order.
    pub fn increase_orders_count(&mut self)
        requires
            old(self)@.orders_count < u32::MAX,
        ensures
            final(self)@.orders_count == old(self)@.orders_count + 1,
            final(self)@.customers == old(self)@.customers,
    {
        self.orders_count = self.orders_count + 1;
    }

    /// The number the next order is placed under.
    pub fn get_orders_count(&self) -> (r: u32)
        ensures
            r == self@.orders_count,
    {
        self.orders_count
    }

    /// Places `order` if it holds any dish: returns the number it is placed
    /// under and moves the counter on. An empty order is refused, and nothing
    /// changes.
    pub fn place_order(&mut self, order: &Order) -> (r: Option<u32>)
        requires
            order@.items() > 0 ==> old(self)@.orders_count < u32::MAX,
        ensures
            order@.items() == 0 ==> r is None && final(self)@ == old(self)@,
            order@.items() > 0 ==> r == Some(old(self)@.orders_count as u32),
            order@.items() > 0 ==> final(self)@.orders_count == old(self)@.orders_count + 1,
            order@.items() > 0 ==> final(self)@.customers == old(self)@.customers,
    {
        if order.items_count() == 0 {
            return None;
        }
        let n = self.get_orders_count();
        self.increase_orders_count();
        Some(n)
    }
}

} // verus!
