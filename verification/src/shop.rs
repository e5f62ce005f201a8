//! The cart and checkout: quantities, stock, totals, and the order a
//! checkout places.
use vstd::prelude::*;
use crate::error::{AppError, ErrorView};
use crate::text::{decimal, write_decimal};

verus! {

/// A request to put a book in the cart.
#[derive(Debug)]
pub struct AddCartRequest {
    pub book_id: u128,
    pub quantity: Option<i32>,
}

/// How many copies a cart request adds: 1 when it names none, and never
/// fewer than 1.
pub open spec fn requested_quantity(q: Option<i32>) -> i32 {
    match q {
        Some(n) => if n < 1 {
            1
        } else {
            n
        },
        None => 1,
    }
}

/// How many copies a cart request adds.
pub fn cart_quantity(req: &AddCartRequest) -> (r: i32)
    ensures
        r == requested_quantity(req.quantity),
        r >= 1,
        req.quantity matches Some(n) ==> (n >= 1 ==> r == n),
        req.quantity matches Some(n) ==> (n < 1 ==> r == 1),
        req.quantity is None ==> r == 1,
{
    match req.quantity {
        Some(n) => if n < 1 {
            1
        } else {
            n
        },
        None => 1,
    }
}

/// A cart request adds exactly the copies it asks for when it asks for one
/// or more, and one copy otherwise.
pub proof fn requested_copies_are_added(q: Option<i32>)
    ensures
        q matches Some(n) ==> (n >= 1 ==> requested_quantity(q) == n),
        q matches Some(n) ==> (n < 1 ==> requested_quantity(q) == 1),
        q is None ==> requested_quantity(q) == 1,
{
}

/// Refuses to add more copies than are in stock.
pub fn check_stock(stock: i32, quantity: i32) -> (r: Result<(), AppError>)
    ensures
        r is Ok <==> stock >= quantity,
        r matches Err(e) ==> e@ == ErrorView::BadRequest("Only "@ + decimal(stock as int) + " in stock"@),
{
    if stock < quantity {
        let mut m = "Only ".to_owned();
        write_decimal(&mut m, stock as i64);
        m.append(" in stock");
        Err(AppError::BadRequest(m))
    } else {
        Ok(())
    }
}

/// What a successful cart request is told.
pub fn added_message(title: &str) -> (r: String)
    ensures
        r@ == "'"@ + title@ + "' added to cart"@,
{
    let mut m = "'".to_owned();
    m.append(title);
    m.append("' added to cart");
    m
}

/// A book in the cart as checkout reads it: price and stock as the
/// catalogue holds them now.
#[derive(Debug)]
pub struct CartLine {
    pub book_id: u128,
    pub title: String,
    pub price: i32,
    pub quantity: i32,
    pub stock: i32,
}

/// The price of the lines `0..n` of a cart.
pub open spec fn lines_total(lines: Seq<CartLine>, n: int) -> int
    decreases n,
{
    if n <= 0 {
        0
    } else {
        lines_total(lines, n - 1) + lines[n - 1].price * lines[n - 1].quantity
    }
}

/// The price of a whole cart.
pub open spec fn cart_price(lines: Seq<CartLine>) -> int {
    lines_total(lines, lines.len() as int)
}

/// Whether the price of every prefix of a cart fits in an `i64`.
pub open spec fn totals_fit(lines: Seq<CartLine>) -> bool {
    forall|n: int| 0 <= n <= lines.len() ==> i64::MIN <= #[trigger] lines_total(lines, n) <= i64::MAX
}

/// The price of a cart, summed in `i64`; none when a partial sum leaves
/// the range of `i64`.
pub fn cart_total(lines: &Vec<CartLine>) -> (r: Option<i64>)
    ensures
        match r {
            Some(t) => t == cart_price(lines@),
            None => !totals_fit(lines@),
        },
{
    let mut total: i64 = 0;
    let mut i: usize = 0;
    while i < lines.len()
        invariant
            i <= lines@.len(),
            total == lines_total(lines@, i as int),
        decreases lines@.len() - i,
    {
        let line = &lines[i];
        let a: i64 = line.price as i64;
        let b: i64 = line.quantity as i64;
        proof {
            lemma_i32_product(a as int, b as int);
        }
        let item: i64 = a * b;
        match total.checked_add(item) {
            Some(t) => total = t,
            None => {
                assert(!(i64::MIN <= lines_total(lines@, i + 1) <= i64::MAX));
                return None;
            },
        }
        i = i + 1;
    }
    Some(total)
}

/// The product of two `i32` values fits in an `i64`.
proof fn lemma_i32_product(a: int, b: int)
    requires
        -2147483648 <= a <= 2147483647,
        -2147483648 <= b <= 2147483647,
    ensures
        -4611686018427387904 <= a * b <= 4611686018427387904,
{
    let x = if a < 0 { -a } else { a };
    let y = if b < 0 { -b } else { b };
    vstd::arithmetic::mul::lemma_mul_upper_bound(x, 2147483648, y, 2147483648);
    assert(0 <= x * y) by (nonlinear_arith)
        requires
            0 <= x,
            0 <= y,
    ;
    assert(a * b == x * y || a * b == -(x * y)) by (nonlinear_arith)
        requires
            x == a || x == -a,
            y == b || y == -b,
    ;
}

/// One line of a placed order.
#[derive(Debug)]
pub struct OrderLine {
    pub book_id: u128,
    pub quantity: i32,
    pub unit_price: i32,
}

/// What a checkout writes: the order's total, the total as the order
/// record stores it (`i32`, wrapped), its lines, one per cart line in
/// cart order, and the stock each book keeps afterwards.
#[derive(Debug)]
pub struct CheckoutPlan {
    pub total: i64,
    pub order_total: i32,
    pub lines: Vec<OrderLine>,
    pub remaining_stock: Vec<i64>,
}

/// The first cart line, if any, that asks for more copies than are in stock.
pub open spec fn first_shortage(lines: Seq<CartLine>) -> Option<int> {
    if exists|i: int| 0 <= i < lines.len() && #[trigger] lines[i].stock < lines[i].quantity {
        Some(
            choose|i: int|
                0 <= i < lines.len() && #[trigger] lines[i].stock < lines[i].quantity && forall|j: int|
                    0 <= j < i ==> lines[j].stock >= lines[j].quantity,
        )
    } else {
        None
    }
}

/// What a cart line that is short of stock is told.
pub open spec fn shortage_message(l: CartLine) -> Seq<char> {
    "'"@ + l.title@ + "' only has "@ + decimal(l.stock as int) + " in stock"@
}

/// Plans a checkout of `cart`: an empty cart is refused, and so is one with
/// a line short of stock (the first such line is named); otherwise the
/// order is placed at the cart's price, each line at its current price,
/// and each book's stock goes down by the copies bought. Summing the price
/// must fit in an `i64` once the stock has been found sufficient (the
/// server stops on an overflowing sum; `cart_total` tells it beforehand).
pub fn plan_checkout(cart: &Vec<CartLine>) -> (r: Result<CheckoutPlan, AppError>)
    requires
        cart@.len() > 0 && first_shortage(cart@) is None ==> totals_fit(cart@),
    ensures
        cart@.len() == 0 ==> (r matches Err(e) && e@ == ErrorView::BadRequest("Cart is empty"@)),
        cart@.len() > 0 && first_shortage(cart@) is Some ==> (r matches Err(e) && e@
            == ErrorView::BadRequest(shortage_message(cart@[first_shortage(cart@)->0]))),
        cart@.len() > 0 && first_shortage(cart@) is None ==> (r matches Ok(p)
            && p.total == cart_price(cart@) && p.order_total == p.total as i32 && p.lines@.len()
            == cart@.len() && p.remaining_stock@.len() == cart@.len() && forall|i: int|
            0 <= i < cart@.len() ==> (#[trigger] p.lines@[i]).book_id == cart@[i].book_id
                && p.lines@[i].quantity == cart@[i].quantity && p.lines@[i].unit_price
                == cart@[i].price && p.remaining_stock@[i] == cart@[i].stock - cart@[i].quantity
                && p.remaining_stock@[i] >= 0),
{
    if cart.len() == 0 {
        return Err(AppError::BadRequest("Cart is empty".to_owned()));
    }
    let mut i: usize = 0;
    while i < cart.len()
        invariant
            i <= cart@.len(),
            forall|j: int| 0 <= j < i ==> cart@[j].stock >= cart@[j].quantity,
        decreases cart@.len() - i,
    {
        let line = &cart[i];
        if line.stock < line.quantity {
            let mut m = "'".to_owned();
            m.append(line.title.as_str());
            m.append("' only has ");
            write_decimal(&mut m, line.stock as i64);
            m.append(" in stock");
            proof {
                assert(first_shortage(cart@) == Some(i as int)) by {
                    assert(cart@[i as int].stock < cart@[i as int].quantity);
                    let k = choose|k: int|
                        0 <= k < cart@.len() && #[trigger] cart@[k].stock < cart@[k].quantity && forall|
                            j: int,
                        | 0 <= j < k ==> cart@[j].stock >= cart@[j].quantity;
                    if k < i {
                        assert(cart@[k].stock >= cart@[k].quantity);
                    }
                    if k > i {
                        assert(cart@[i as int].stock >= cart@[i as int].quantity);
                    }
                }
            }
            return Err(AppError::BadRequest(m));
        }
        i = i + 1;
    }
    assert(first_shortage(cart@) is None);
    let total = match cart_total(cart) {
        Some(t) => t,
        None => {
            assert(false);
            return Err(AppError::Internal("order total out of range".to_owned()));
        },
    };
    let mut lines: Vec<OrderLine> = Vec::new();
    let mut remaining: Vec<i64> = Vec::new();
    let mut k: usize = 0;
    while k < cart.len()
        invariant
            k <= cart@.len(),
            lines@.len() == k,
            remaining@.len() == k,
            forall|j: int| 0 <= j < cart@.len() ==> cart@[j].stock >= cart@[j].quantity,
            forall|j: int|
                0 <= j < k ==> (#[trigger] lines@[j]).book_id == cart@[j].book_id && lines@[j].quantity
                    == cart@[j].quantity && lines@[j].unit_price == cart@[j].price && remaining@[j]
                    == cart@[j].stock - cart@[j].quantity && remaining@[j] >= 0,
        decreases cart@.len() - k,
    {
        let line = &cart[k];
        lines.push(OrderLine { book_id: line.book_id, quantity: line.quantity, unit_price: line.price });
        remaining.push((line.stock as i64) - (line.quantity as i64));
        k = k + 1;
    }
    let order_total: i32 = total as i32;
    Ok(CheckoutPlan { total, order_total, lines, remaining_stock: remaining })
}

/// The price of the lines `0..n` of an order.
pub open spec fn order_lines_total(ls: Seq<OrderLine>, n: int) -> int
    decreases n,
{
    if n <= 0 {
        0
    } else {
        order_lines_total(ls, n - 1) + ls[n - 1].unit_price * ls[n - 1].quantity
    }
}

proof fn lemma_order_prefix(cart: Seq<CartLine>, ls: Seq<OrderLine>, n: int)
    requires
        0 <= n <= cart.len(),
        ls.len() == cart.len(),
        forall|i: int|
            0 <= i < cart.len() ==> (#[trigger] ls[i]).quantity == cart[i].quantity && ls[i].unit_price
                == cart[i].price,
    ensures
        order_lines_total(ls, n) == lines_total(cart, n),
    decreases n,
{
    if n > 0 {
        lemma_order_prefix(cart, ls, n - 1);
        assert(ls[n - 1].quantity == cart[n - 1].quantity);
    }
}

/// An order's recorded total is what its lines charge: when each order
/// line carries the quantity and price of its cart line, as a checkout
/// plan's lines do, the lines add up to the cart's price, which is the
/// plan's total.
pub proof fn order_lines_add_up_to_total(cart: Seq<CartLine>, ls: Seq<OrderLine>)
    requires
        ls.len() == cart.len(),
        forall|i: int|
            0 <= i < cart.len() ==> (#[trigger] ls[i]).quantity == cart[i].quantity && ls[i].unit_price
                == cart[i].price,
    ensures
        order_lines_total(ls, ls.len() as int) == cart_price(cart),
{
    lemma_order_prefix(cart, ls, cart.len() as int);
}

/// A cart's price is the sum of its lines: adding a line adds its price.
pub proof fn price_adds_up(cart: Seq<CartLine>, extra: CartLine)
    ensures
        cart_price(cart.push(extra)) == cart_price(cart) + extra.price * extra.quantity,
        cart_price(Seq::<CartLine>::empty()) == 0,
    decreases cart.len(),
{
    lemma_prefix_total(cart, extra, cart.len() as int);
}

proof fn lemma_prefix_total(cart: Seq<CartLine>, extra: CartLine, n: int)
    requires
        0 <= n <= cart.len(),
    ensures
        lines_total(cart.push(extra), n) == lines_total(cart, n),
    decreases n,
{
    if n > 0 {
        lemma_prefix_total(cart, extra, n - 1);
        assert(cart.push(extra)[n - 1] == cart[n - 1]);
    }
}

} // verus!
