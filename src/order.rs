use vstd::prelude::*;
use vstd::multiset::Multiset;
use vstd::string::StringExecFns;
use crate::menu::{Dish, TAKEAWAY_FEE, price_of};
use crate::text::{append_decimal, decimal};

verus! {

/// What an order holds: the dishes ordered, as a multiset, and whether it is
/// to be taken away.
pub struct OrderView {
    pub dishes: Multiset<Dish>,
    pub takeaway: bool,
}

impl OrderView {
    /// An order with no dishes, to be eaten in.
    pub open spec fn empty() -> OrderView {
        OrderView { dishes: Multiset::empty(), takeaway: false }
    }

    /// How many of `dish` the order holds.
    pub open spec fn count_of(self, dish: Dish) -> nat {
        self.dishes.count(dish)
    }

    /// The number of dishes ordered.
    pub open spec fn items(self) -> nat {
        self.dishes.len()
    }

    /// The order with one more of `dish`.
    pub open spec fn with_dish(self, dish: Dish) -> OrderView {
        OrderView { dishes: self.dishes.insert(dish), takeaway: self.takeaway }
    }

    /// The same dishes, to be taken away.
    pub open spec fn with_takeaway(self) -> OrderView {
        OrderView { dishes: self.dishes, takeaway: true }
    }

    /// The order after adding each of `dishes`, first to last.
    pub open spec fn with_dishes(self, dishes: Seq<Dish>) -> OrderView
        decreases dishes.len(),
    {
        if dishes.len() == 0 {
            self
        } else {
            self.with_dishes(dishes.drop_last()).with_dish(dishes.last())
        }
    }

    /// The sum over the menu of each dish's count times its price.
    pub open spec fn base_price(self) -> nat {
        self.count_of(Dish::ThaiChicken) * price_of(Dish::ThaiChicken) + self.count_of(Dish::Tofu)
            * price_of(Dish::Tofu) + self.count_of(Dish::FriedRice) * price_of(Dish::FriedRice)
    }

    /// The order as text: the count of each dish, in menu order, then
    /// whether it is taken away.
    pub open spec fn text(self) -> Seq<char> {
        "chicken: "@ + decimal(self.count_of(Dish::ThaiChicken)) + ", tofu: "@ + decimal(
            self.count_of(Dish::Tofu),
        ) + ", rice: "@ + decimal(self.count_of(Dish::FriedRice)) + ", takeaway: "@ + (if self.takeaway {
            "true"@
        } else {
            "false"@
        })
    }

    /// The price to pay: the base price, plus the fee on each item when taken away.
    pub open spec fn total(self) -> nat {
        if self.takeaway {
            self.base_price() + self.items() * (TAKEAWAY_FEE as nat)
        } else {
            self.base_price()
        }
    }
}

/// Adding dishes one by one adds exactly those dishes and leaves the
/// takeaway flag as it was.
proof fn lemma_with_dishes(v: OrderView, dishes: Seq<Dish>)
    ensures
        v.with_dishes(dishes).dishes == v.dishes.add(dishes.to_multiset()),
        v.with_dishes(dishes).takeaway == v.takeaway,
    decreases dishes.len(),
{
    broadcast use vstd::seq_lib::group_to_multiset_ensures;

    if dishes.len() == 0 {
        assert(dishes.to_multiset() =~= Multiset::empty());
        assert(v.dishes.add(dishes.to_multiset()) =~= v.dishes);
    } else {
        let rest = dishes.drop_last();
        lemma_with_dishes(v, rest);
        assert(rest.push(dishes.last()) == dishes);
        assert(v.with_dishes(dishes).dishes =~= v.dishes.add(dishes.to_multiset()));
    }
}

/// However a sequence of dishes is added to a new order, the order then
/// counts as many items as there were additions.
pub proof fn lemma_items_count_additions(dishes: Seq<Dish>)
    ensures
        OrderView::empty().with_dishes(dishes).items() == dishes.len(),
{
    broadcast use vstd::seq_lib::group_to_multiset_ensures;

    lemma_with_dishes(OrderView::empty(), dishes);
}

/// An order taken away costs what it costs eaten in, plus the fee once for
/// each item.
pub proof fn lemma_takeaway_surcharge(v: OrderView)
    ensures
        v.with_takeaway().total() == (OrderView { dishes: v.dishes, takeaway: false }).total()
            + v.items() * TAKEAWAY_FEE,
{
}

/// The price of an order depends on which dishes were added, not on the
/// sequence in which they were added.
pub proof fn lemma_total_ignores_sequence(v: OrderView, a: Seq<Dish>, b: Seq<Dish>)
    requires
        a.to_multiset() == b.to_multiset(),
    ensures
        v.with_dishes(a).total() == v.with_dishes(b).total(),
{
    lemma_with_dishes(v, a);
    lemma_with_dishes(v, b);
}

/// `n` copies of one dish.
spec fn copies(dish: Dish, n: nat) -> Multiset<Dish>
    decreases n,
{
    if n == 0 {
        Multiset::empty()
    } else {
        copies(dish, (n - 1) as nat).insert(dish)
    }
}

proof fn lemma_copies(dish: Dish, n: nat)
    ensures
        copies(dish, n).len() == n,
        forall|e: Dish| #[trigger] copies(dish, n).count(e) == if e == dish { n } else { 0 },
    decreases n,
{
    if n > 0 {
        lemma_copies(dish, (n - 1) as nat);
    }
}

/// One customer's selection: how many of each dish, and whether it is
/// taken away.
#[derive(Debug, Clone, Copy, PartialEq, Eq, Structural)]
pub struct Order {
    num_chicken: u32,
    num_tofu: u32,
    num_rice: u32,
    takeaway: bool,
}

impl View for Order {
    type V = OrderView;

    closed spec fn view(&self) -> OrderView {
        OrderView {
            dishes: copies(Dish::ThaiChicken, self.num_chicken as nat).add(
                copies(Dish::Tofu, self.num_tofu as nat),
            ).add(copies(Dish::FriedRice, self.num_rice as nat)),
            takeaway: self.takeaway,
        }
    }
}

impl Order {
    spec fn field_count(self, dish: Dish) -> nat {
        match dish {
            Dish::ThaiChicken => self.num_chicken as nat,
            Dish::Tofu => self.num_tofu as nat,
            Dish::FriedRice => self.num_rice as nat,
        }
    }

    proof fn lemma_view(self)
        ensures
            forall|d: Dish| #[trigger] self@.count_of(d) == self.field_count(d),
            self@.items() == self.num_chicken + self.num_tofu + self.num_rice,
    {
        lemma_copies(Dish::ThaiChicken, self.num_chicken as nat);
        lemma_copies(Dish::Tofu, self.num_tofu as nat);
        lemma_copies(Dish::FriedRice, self.num_rice as nat);
    }

    /// An order with no dishes, to be eaten in.
    pub fn new() -> (r: Order)
        ensures
            r@ == OrderView::empty(),
    {
        let r = Order { num_chicken: 0, num_tofu: 0, num_rice: 0, takeaway: false };
        assert(r@.dishes =~= Multiset::empty());
        r
    }

    /// Adds one dish to the order.
    pub fn add_dish(&mut self, dish: Dish)
        requires
            old(self)@.count_of(dish) < u32::MAX,
        ensures
            final(self)@ == old(self)@.with_dish(dish),
    {
        proof {
            old(self).lemma_view();
        }
        match dish {
            Dish::Tofu => self.num_tofu = self.num_tofu + 1,
            Dish::FriedRice => self.num_rice = self.num_rice + 1,
            Dish::ThaiChicken => self.num_chicken = self.num_chicken + 1,
        };
        proof {
            self.lemma_view();
            assert(self@.dishes =~= old(self)@.dishes.insert(dish));
        }
    }

    /// Marks the order as taken away.
    pub fn set_takeaway(&mut self)
        ensures
            final(self)@ == old(self)@.with_takeaway(),
    {
        self.takeaway = true;
    }

    /// How many of `dish` the order holds.
    pub fn dish_count(&self, dish: Dish) -> (r: u32)
        ensures
            r == self@.count_of(dish),
    {
        proof {
            self.lemma_view();
        }
        match dish {
            Dish::Tofu => self.num_tofu,
            Dish::FriedRice => self.num_rice,
            Dish::ThaiChicken => self.num_chicken,
        }
    }

    /// The number of dishes in the order.
    pub fn items_count(&self) -> (r: u64)
        ensures
            r == self@.items(),
    {
        proof {
            self.lemma_view();
        }
        self.num_tofu as u64 + self.num_rice as u64 + self.num_chicken as u64
    }

    /// Whether the order is to be taken away.
    pub fn is_takeaway(&self) -> (r: bool)
        ensures
            r == self@.takeaway,
    {
        self.takeaway
    }

    /// The order as text, as printed on a receipt.
    pub fn render(&self) -> (r: String)
        ensures
            r@ == self@.text(),
    {
        let mut s = String::from_str("chicken: ");
        append_decimal(&mut s, self.dish_count(Dish::ThaiChicken) as u64);
        s.append(", tofu: ");
        append_decimal(&mut s, self.dish_count(Dish::Tofu) as u64);
        s.append(", rice: ");
        append_decimal(&mut s, self.dish_count(Dish::FriedRice) as u64);
        s.append(", takeaway: ");
        s.append(if self.is_takeaway() { "true" } else { "false" });
        s
    }

    /// The price of the order.
    pub fn total(&self) -> (r: u64)
        ensures
            r == self@.total(),
    {
        proof {
            self.lemma_view();
        }
        let tofu_price = Dish::Tofu.price();
        let rice_price = Dish::FriedRice.price();
        let chicken_price = Dish::ThaiChicken.price();
        assert(self.num_tofu * tofu_price <= u32::MAX * 20) by (nonlinear_arith)
            requires
                self.num_tofu <= u32::MAX,
                tofu_price == 15,
        ;
        assert(self.num_rice * rice_price <= u32::MAX * 20) by (nonlinear_arith)
            requires
                self.num_rice <= u32::MAX,
                rice_price == 12,
        ;
        assert(self.num_chicken * chicken_price <= u32::MAX * 20) by (nonlinear_arith)
            requires
                self.num_chicken <= u32::MAX,
                chicken_price == 20,
        ;
        let tofu = self.num_tofu as u64 * tofu_price as u64;
        let rice = self.num_rice as u64 * rice_price as u64;
        let chicken = self.num_chicken as u64 * chicken_price as u64;
        let sum = tofu + rice + chicken;
        if self.is_takeaway() {
            let fee = TAKEAWAY_FEE as u64;
            sum + self.items_count() * fee
        } else {
            sum
        }
    }
}

} // verus!
