use crate::amount::{whole_units, whole_units_i32, Amount};
use crate::protocol::{BreakUp, BreakupTitleType, Price, Quote};
use crate::schemas::{BuyerCommerce, BuyerCommerceFulfillment, BuyerCommerceItem, CurrencyType};
use crate::tags::copy_string;
use vstd::prelude::*;

verus! {

/// The currency of a record, the primary currency where it names none.
pub open spec fn currency_or_primary(c: Option<CurrencyType>) -> CurrencyType {
    match c {
        Some(c) => c,
        None => CurrencyType::Inr,
    }
}

pub open spec fn amount_or_zero_value(a: Option<Amount>) -> Amount {
    match a {
        Some(a) => a,
        None => Amount { hundredths: 0 },
    }
}

/// A breakup line without quantity or unit price.
pub open spec fn is_plain_line(
    b: BreakUp,
    title: Seq<char>,
    id: Seq<char>,
    t: BreakupTitleType,
    cur: CurrencyType,
    v: Amount,
) -> bool {
    &&& b.title@ == title
    &&& b.item_id@ == id
    &&& b.title_type == t
    &&& b.price == Price { currency: cur, value: v }
    &&& b.quantity is None
    &&& b.item_price is None
}

/// The Item, Tax and Discount lines of a record line, in that order.
pub open spec fn is_item_triple(
    b: Seq<BreakUp>,
    k: int,
    line: BuyerCommerceItem,
    cur: CurrencyType,
) -> bool {
    &&& b[3 * k].title@ == line.item_name@
    &&& b[3 * k].item_id@ == line.item_id@
    &&& b[3 * k].title_type == BreakupTitleType::Item
    &&& b[3 * k].price == Price { currency: cur, value: line.gross_total }
    &&& b[3 * k].quantity == Some(whole_units_i32(line.qty) as i32)
    &&& b[3 * k].item_price == Some(Price { currency: cur, value: line.unit_price })
    &&& is_plain_line(b[3 * k + 1], "Tax"@, line.item_id@, BreakupTitleType::Tax, cur, line.tax_value)
    &&& is_plain_line(
        b[3 * k + 2],
        "Discount"@,
        line.item_id@,
        BreakupTitleType::Discount,
        cur,
        line.discount_amount,
    )
}

pub open spec fn is_item_breakup(b: Seq<BreakUp>, items: Seq<BuyerCommerceItem>, cur: CurrencyType) -> bool {
    &&& b.len() == 3 * items.len()
    &&& forall|k: int| 0 <= k < items.len() ==> is_item_triple(b, k, #[trigger] items[k], cur)
}

/// The Packing, Delivery and Misc lines of a fulfillment, in that order.
pub open spec fn is_fulfillment_triple(
    b: Seq<BreakUp>,
    k: int,
    f: BuyerCommerceFulfillment,
    cur: CurrencyType,
) -> bool {
    &&& is_plain_line(
        b[3 * k],
        "Packing"@,
        f.fulfillment_id@,
        BreakupTitleType::Packing,
        cur,
        f.packaging_charge,
    )
    &&& is_plain_line(
        b[3 * k + 1],
        "Delivery Charge"@,
        f.fulfillment_id@,
        BreakupTitleType::Delivery,
        cur,
        f.delivery_charge,
    )
    &&& is_plain_line(
        b[3 * k + 2],
        "Convenience Fee"@,
        f.fulfillment_id@,
        BreakupTitleType::Misc,
        cur,
        f.convenience_fee,
    )
}

pub open spec fn is_fulfillment_breakup(
    b: Seq<BreakUp>,
    fs: Seq<BuyerCommerceFulfillment>,
    cur: CurrencyType,
) -> bool {
    &&& b.len() == 3 * fs.len()
    &&& forall|k: int| 0 <= k < fs.len() ==> is_fulfillment_triple(b, k, #[trigger] fs[k], cur)
}

fn plain_line(title: &str, id: &String, t: BreakupTitleType, cur: CurrencyType, v: Amount) -> (r: BreakUp)
    ensures
        is_plain_line(r, title@, id@, t, cur, v),
{
    BreakUp {
        title: String::from_str(title),
        item_id: copy_string(id),
        title_type: t,
        price: Price { currency: cur, value: v },
        quantity: None,
        item_price: None,
    }
}

/// Item, Tax and Discount lines for each record line.
pub fn get_item_breakup(currency_type: CurrencyType, items: &Vec<BuyerCommerceItem>) -> (r: Vec<BreakUp>)
    ensures
        is_item_breakup(r@, items@, currency_type),
{
    let mut out: Vec<BreakUp> = Vec::new();
    let mut i: usize = 0;
    while i < items.len()
        invariant
            i <= items@.len(),
            is_item_breakup(out@, items@.subrange(0, i as int), currency_type),
        decreases items.len() - i,
    {
        let line = &items[i];
        out.push(
            BreakUp {
                title: copy_string(&line.item_name),
                item_id: copy_string(&line.item_id),
                title_type: BreakupTitleType::Item,
                price: Price { currency: currency_type, value: line.gross_total },
                quantity: Some(whole_units(line.qty)),
                item_price: Some(Price { currency: currency_type, value: line.unit_price }),
            },
        );
        proof {
            reveal_strlit("Tax");
            reveal_strlit("Discount");
        }
        out.push(plain_line("Tax", &line.item_id, BreakupTitleType::Tax, currency_type, line.tax_value));
        out.push(
            plain_line(
                "Discount",
                &line.item_id,
                BreakupTitleType::Discount,
                currency_type,
                line.discount_amount,
            ),
        );
        proof {
            let ghost sub = items@.subrange(0, i as int + 1);
            assert forall|k: int| 0 <= k < sub.len() implies is_item_triple(
                out@,
                k,
                #[trigger] sub[k],
                currency_type,
            ) by {
                if k < i {
                    assert(items@.subrange(0, i as int)[k] == sub[k]);
                }
            }
        }
        i = i + 1;
    }
    proof {
        assert(items@.subrange(0, items@.len() as int) =~= items@);
    }
    out
}

/// Packing, Delivery and Misc lines for each fulfillment.
pub fn get_fulfillment_breakup(
    currency_type: CurrencyType,
    fulfillments: &Vec<BuyerCommerceFulfillment>,
) -> (r: Vec<BreakUp>)
    ensures
        is_fulfillment_breakup(r@, fulfillments@, currency_type),
{
    let mut out: Vec<BreakUp> = Vec::new();
    let mut i: usize = 0;
    while i < fulfillments.len()
        invariant
            i <= fulfillments@.len(),
            is_fulfillment_breakup(out@, fulfillments@.subrange(0, i as int), currency_type),
        decreases fulfillments.len() - i,
    {
        let f = &fulfillments[i];
        proof {
            reveal_strlit("Packing");
            reveal_strlit("Delivery Charge");
            reveal_strlit("Convenience Fee");
        }
        out.push(
            plain_line(
                "Packing",
                &f.fulfillment_id,
                BreakupTitleType::Packing,
                currency_type,
                f.packaging_charge,
            ),
        );
        out.push(
            plain_line(
                "Delivery Charge",
                &f.fulfillment_id,
                BreakupTitleType::Delivery,
                currency_type,
                f.delivery_charge,
            ),
        );
        out.push(
            plain_line(
                "Convenience Fee",
                &f.fulfillment_id,
                BreakupTitleType::Misc,
                currency_type,
                f.convenience_fee,
            ),
        );
        proof {
            let ghost sub = fulfillments@.subrange(0, i as int + 1);
            assert forall|k: int| 0 <= k < sub.len() implies is_fulfillment_triple(
                out@,
                k,
                #[trigger] sub[k],
                currency_type,
            ) by {
                if k < i {
                    assert(fulfillments@.subrange(0, i as int)[k] == sub[k]);
                }
            }
        }
        i = i + 1;
    }
    proof {
        assert(fulfillments@.subrange(0, fulfillments@.len() as int) =~= fulfillments@);
    }
    out
}

/// The quote of a record: its grand total (zero when unset) in its currency,
/// and a breakup of one Packing, Delivery and Misc triple per fulfillment
/// followed by one Item, Tax and Discount triple per line.
pub open spec fn is_quote_of(q: Quote, order: BuyerCommerce) -> bool {
    let cur = currency_or_primary(order.currency_type);
    let nf = 3 * order.fulfillments@.len() as int;
    &&& q.ttl@ == order.quote_ttl@
    &&& q.breakup@.len() == nf + 3 * order.items@.len()
    &&& q.price == Price { currency: cur, value: amount_or_zero_value(order.grand_total) }
    &&& is_fulfillment_breakup(q.breakup@.subrange(0, nf), order.fulfillments@, cur)
    &&& is_item_breakup(q.breakup@.subrange(nf, q.breakup@.len() as int), order.items@, cur)
}

pub fn get_quote_from_order(order: &BuyerCommerce) -> (r: Quote)
    ensures
        is_quote_of(r, *order),
{
    let currency_type = match order.currency_type {
        Some(c) => c,
        None => CurrencyType::Inr,
    };
    let mut breakup = get_fulfillment_breakup(currency_type, &order.fulfillments);
    let ghost fb = breakup@;
    let mut items = get_item_breakup(currency_type, &order.items);
    let ghost ib = items@;
    breakup.append(&mut items);
    proof {
        assert(breakup@.subrange(0, fb.len() as int) =~= fb);
        assert(breakup@.subrange(fb.len() as int, breakup@.len() as int) =~= ib);
    }
    Quote {
        ttl: copy_string(&order.quote_ttl),
        price: Price {
            currency: currency_type,
            value: match order.grand_total {
                Some(a) => a,
                None => Amount::zero(),
            },
        },
        breakup,
    }
}

/// What a breakup line adds to the quoted total: item and fulfillment
/// charges count, tax and discount lines are details of the item price.
pub open spec fn charge_weight(b: BreakUp) -> int {
    match b.title_type {
        BreakupTitleType::Item => b.price.value.value(),
        BreakupTitleType::Packing => b.price.value.value(),
        BreakupTitleType::Delivery => b.price.value.value(),
        BreakupTitleType::Misc => b.price.value.value(),
        _ => 0,
    }
}

pub open spec fn charge_total(b: Seq<BreakUp>) -> int
    decreases b.len(),
{
    if b.len() == 0 {
        0
    } else {
        charge_total(b.drop_last()) + charge_weight(b.last())
    }
}

pub open spec fn items_gross(items: Seq<BuyerCommerceItem>) -> int
    decreases items.len(),
{
    if items.len() == 0 {
        0
    } else {
        items_gross(items.drop_last()) + items.last().gross_total.value()
    }
}

pub open spec fn fulfillment_charges(fs: Seq<BuyerCommerceFulfillment>) -> int
    decreases fs.len(),
{
    if fs.len() == 0 {
        0
    } else {
        fulfillment_charges(fs.drop_last()) + fs.last().packaging_charge.value()
            + fs.last().delivery_charge.value() + fs.last().convenience_fee.value()
    }
}

/// A record whose line totals and fulfillment charges add up to its grand total.
pub open spec fn is_balanced(order: BuyerCommerce) -> bool {
    items_gross(order.items@) + fulfillment_charges(order.fulfillments@) == amount_or_zero_value(
        order.grand_total,
    ).value()
}

pub proof fn lemma_charge_total_append(a: Seq<BreakUp>, b: Seq<BreakUp>)
    ensures
        charge_total(a + b) == charge_total(a) + charge_total(b),
    decreases b.len(),
{
    if b.len() == 0 {
        assert(a + b =~= a);
    } else {
        assert((a + b).drop_last() =~= a + b.drop_last());
        lemma_charge_total_append(a, b.drop_last());
    }
}

proof fn lemma_charge_total_prefix(b: Seq<BreakUp>, n: int)
    requires
        0 <= n <= b.len(),
    ensures
        charge_total(b) == charge_total(b.subrange(0, n)) + charge_total(b.subrange(n, b.len() as int)),
{
    assert(b =~= b.subrange(0, n) + b.subrange(n, b.len() as int));
    lemma_charge_total_append(b.subrange(0, n), b.subrange(n, b.len() as int));
}

proof fn lemma_charge_total_three(b: Seq<BreakUp>)
    requires
        b.len() == 3,
    ensures
        charge_total(b) == charge_weight(b[0]) + charge_weight(b[1]) + charge_weight(b[2]),
{
    let two = b.drop_last();
    let one = two.drop_last();
    let none = one.drop_last();
    assert(none.len() == 0);
    assert(charge_total(none) == 0);
    assert(charge_total(one) == charge_weight(b[0]));
    assert(charge_total(two) == charge_weight(b[0]) + charge_weight(b[1]));
}

pub proof fn lemma_item_breakup_total(b: Seq<BreakUp>, items: Seq<BuyerCommerceItem>, cur: CurrencyType)
    requires
        is_item_breakup(b, items, cur),
    ensures
        charge_total(b) == items_gross(items),
    decreases items.len(),
{
    if items.len() > 0 {
        let n = items.len() - 1;
        let pre = b.subrange(0, 3 * n);
        let post = b.subrange(3 * n, b.len() as int);
        assert forall|k: int| 0 <= k < n implies is_item_triple(pre, k, #[trigger] items.drop_last()[k], cur) by {
            assert(items.drop_last()[k] == items[k]);
            assert(is_item_triple(b, k, items[k], cur));
        }
        lemma_item_breakup_total(pre, items.drop_last(), cur);
        assert(is_item_triple(b, n, items[n], cur));
        lemma_charge_total_prefix(b, 3 * n);
        lemma_charge_total_three(post);
        assert(post[0] == b[3 * n] && post[1] == b[3 * n + 1] && post[2] == b[3 * n + 2]);
    }
}

pub proof fn lemma_fulfillment_breakup_total(
    b: Seq<BreakUp>,
    fs: Seq<BuyerCommerceFulfillment>,
    cur: CurrencyType,
)
    requires
        is_fulfillment_breakup(b, fs, cur),
    ensures
        charge_total(b) == fulfillment_charges(fs),
    decreases fs.len(),
{
    if fs.len() > 0 {
        let n = fs.len() - 1;
        let pre = b.subrange(0, 3 * n);
        let post = b.subrange(3 * n, b.len() as int);
        assert forall|k: int| 0 <= k < n implies is_fulfillment_triple(pre, k, #[trigger] fs.drop_last()[k], cur) by {
            assert(fs.drop_last()[k] == fs[k]);
            assert(is_fulfillment_triple(b, k, fs[k], cur));
        }
        lemma_fulfillment_breakup_total(pre, fs.drop_last(), cur);
        assert(is_fulfillment_triple(b, n, fs[n], cur));
        lemma_charge_total_prefix(b, 3 * n);
        lemma_charge_total_three(post);
        assert(post[0] == b[3 * n] && post[1] == b[3 * n + 1] && post[2] == b[3 * n + 2]);
    }
}

/// The charges of a quote assembled from a record are the record's line
/// totals plus its per-fulfillment packing, delivery and convenience
/// charges; so for a balanced record they add up exactly to the quoted
/// grand total.
pub proof fn lemma_quote_breakup_round_trip(q: Quote, order: BuyerCommerce)
    requires
        is_quote_of(q, order),
    ensures
        charge_total(q.breakup@) == items_gross(order.items@) + fulfillment_charges(
            order.fulfillments@,
        ),
        is_balanced(order) ==> charge_total(q.breakup@) == q.price.value.value(),
{
    let cur = currency_or_primary(order.currency_type);
    let nf = 3 * order.fulfillments@.len() as int;
    lemma_charge_total_prefix(q.breakup@, nf);
    lemma_fulfillment_breakup_total(q.breakup@.subrange(0, nf), order.fulfillments@, cur);
    lemma_item_breakup_total(
        q.breakup@.subrange(nf, q.breakup@.len() as int),
        order.items@,
        cur,
    );
}

} // verus!
