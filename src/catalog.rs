use crate::amount::{amount_or_zero, coordinate_or_zero, parse_amount_or_zero, parse_coordinate_or_zero, Amount, Coordinate};
use crate::schemas::CurrencyType;
use crate::table::{key_view, upsert_all, lemma_upsert_all_idempotent, KeyedTable};
use crate::tags::{first_group_value, get_search_tag_item_value, Tag, TagCode, TagGroup};
use vstd::prelude::*;

verus! {

/// A location of a provider, as an `on_search` catalog lists it.
#[derive(Clone, Debug)]
pub struct OnSearchLocation {
    pub id: String,
    pub gps: String,
    pub address: String,
    pub city_code: String,
    pub city_name: String,
    pub state_code: String,
    pub state_name: Option<String>,
    pub country_code: String,
    pub country_name: Option<String>,
    pub area_code: String,
}

/// An item of a provider, as an `on_search` catalog lists it.
#[derive(Clone, Debug)]
pub struct OnSearchItem {
    pub id: String,
    pub code: Option<String>,
    pub name: String,
    pub tags: Vec<Tag>,
    pub images: Vec<String>,
    pub currency: CurrencyType,
    pub price_value: String,
    pub maximum_value: String,
}

#[derive(Clone, Debug)]
pub struct OnSearchProvider {
    pub id: String,
    pub name: String,
    pub locations: Vec<OnSearchLocation>,
    pub items: Vec<OnSearchItem>,
}

/// The catalog of an inbound search response, from one seller platform.
#[derive(Clone, Debug)]
pub struct OnSearchCatalog {
    pub bpp_id: String,
    pub providers: Vec<OnSearchProvider>,
}

/// A seller row: keyed by seller platform and provider.
#[derive(Clone, Debug)]
pub struct SellerInfo {
    pub seller_subscriber_id: String,
    pub provider_id: String,
    pub provider_name: String,
}

/// A location row: keyed by seller platform, provider and location.
#[derive(Clone, Debug)]
pub struct SellerLocationInfo {
    pub seller_subscriber_id: String,
    pub provider_id: String,
    pub location_id: String,
    pub gps: String,
    pub latitude: Coordinate,
    pub longitude: Coordinate,
    pub address: String,
    pub city_code: String,
    pub city_name: String,
    pub state_code: String,
    pub state_name: Option<String>,
    pub country_code: String,
    pub country_name: Option<String>,
    pub area_code: String,
}

/// A price slab of an item: the pack sizes it applies to and its unit price.
#[derive(Clone, Copy, Debug, PartialEq, Eq, Structural)]
pub struct PriceSlab {
    pub min: Amount,
    pub max: Option<Amount>,
    pub price_with_tax: Amount,
    pub price_without_tax: Amount,
}

/// An item row: keyed by seller platform, country, provider and item.
#[derive(Clone, Debug)]
pub struct SellerProductInfo {
    pub seller_subscriber_id: String,
    pub country_code: String,
    pub provider_id: String,
    pub provider_name: String,
    pub item_id: String,
    pub item_code: Option<String>,
    pub item_name: String,
    pub tax_rate: Amount,
    pub images: Vec<String>,
    pub mrp: Amount,
    pub unit_price_with_tax: Amount,
    pub unit_price_without_tax: Amount,
    pub currency_code: CurrencyType,
    pub price_slabs: Option<Vec<PriceSlab>>,
}

/// What an item row holds, as values.
pub ghost struct ProductView {
    pub seller_subscriber_id: String,
    pub country_code: String,
    pub provider_id: String,
    pub provider_name: String,
    pub item_id: String,
    pub item_code: Option<String>,
    pub item_name: String,
    pub tax_rate: Amount,
    pub images: Seq<String>,
    pub mrp: Amount,
    pub unit_price_with_tax: Amount,
    pub unit_price_without_tax: Amount,
    pub currency_code: CurrencyType,
    pub price_slabs: Option<Seq<PriceSlab>>,
}

impl SellerProductInfo {
    pub open spec fn pview(&self) -> ProductView {
        ProductView {
            seller_subscriber_id: self.seller_subscriber_id,
            country_code: self.country_code,
            provider_id: self.provider_id,
            provider_name: self.provider_name,
            item_id: self.item_id,
            item_code: self.item_code,
            item_name: self.item_name,
            tax_rate: self.tax_rate,
            images: self.images@,
            mrp: self.mrp,
            unit_price_with_tax: self.unit_price_with_tax,
            unit_price_without_tax: self.unit_price_without_tax,
            currency_code: self.currency_code,
            price_slabs: match self.price_slabs {
                Some(v) => Some(v@),
                None => None,
            },
        }
    }
}

/// The item rows of a table, as values.
pub open spec fn pviews(m: Map<Seq<Seq<char>>, SellerProductInfo>) -> Map<Seq<Seq<char>>, ProductView> {
    m.map_values(|r: SellerProductInfo| r.pview())
}

proof fn lemma_pviews_insert(m: Map<Seq<Seq<char>>, SellerProductInfo>, k: Seq<Seq<char>>, r: SellerProductInfo)
    ensures
        pviews(m.insert(k, r)) == pviews(m).insert(k, r.pview()),
{
    assert(pviews(m.insert(k, r)) =~= pviews(m).insert(k, r.pview()));
}

/// A decimal text of a slab entry, zero when missing or unreadable.
pub open spec fn slab_amount(t: Tag, code: TagCode) -> int {
    match crate::tags::item_value(t.list@, code) {
        Some(v) => amount_or_zero(v),
        None => 0,
    }
}

/// The maximum pack size of a slab: none when missing, empty or unreadable.
pub open spec fn slab_max(t: Tag) -> Option<Amount> {
    match crate::tags::item_value(t.list@, TagCode::MaxPackSize) {
        Some(v) => if v.len() == 0 {
            None
        } else {
            match crate::amount::amount_of_text(v) {
                Some(a) => Some(Amount { hundredths: a as i64 }),
                None => None,
            }
        },
        None => None,
    }
}

/// The slab that a price-slab tag describes, at the item's tax rate.
pub open spec fn slab_of(t: Tag, rate: int) -> PriceSlab {
    PriceSlab {
        min: Amount { hundredths: slab_amount(t, TagCode::MinPackSize) as i64 },
        max: slab_max(t),
        price_with_tax: Amount { hundredths: slab_amount(t, TagCode::UnitSalePrice) as i64 },
        price_without_tax: Amount {
            hundredths: net_of_tax(slab_amount(t, TagCode::UnitSalePrice), rate) as i64,
        },
    }
}

/// One slab per price-slab tag, in order.
pub open spec fn slabs_of(tags: Seq<Tag>, rate: int) -> Seq<PriceSlab>
    decreases tags.len(),
{
    if tags.len() == 0 {
        seq![]
    } else if tags.last().code == TagGroup::PriceSlab {
        slabs_of(tags.drop_last(), rate).push(slab_of(tags.last(), rate))
    } else {
        slabs_of(tags.drop_last(), rate)
    }
}

/// The slabs stored for an item: none when it has no price-slab tag.
pub open spec fn item_slabs(it: OnSearchItem) -> Option<Seq<PriceSlab>> {
    let v = slabs_of(it.tags@, item_tax_rate(it));
    if v.len() == 0 {
        None
    } else {
        Some(v)
    }
}

/// The index of the first comma of a text, if any.
pub open spec fn comma_at(s: Seq<char>) -> Option<int>
    decreases s.len(),
{
    if s.len() == 0 {
        None
    } else if s[0] == ',' {
        Some(0)
    } else {
        match comma_at(s.drop_first()) {
            Some(i) => Some(i + 1),
            None => None,
        }
    }
}

/// The text up to its first comma (all of it when there is none): the
/// first comma-separated part.
pub open spec fn before_comma(s: Seq<char>) -> Seq<char> {
    match comma_at(s) {
        Some(i) => s.subrange(0, i),
        None => s,
    }
}

/// The latitude part of a `lat,lng` gps text.
pub open spec fn gps_latitude_text(gps: Seq<char>) -> Seq<char> {
    before_comma(gps)
}

/// The longitude of a gps text: its second comma-separated part read as a
/// coordinate, zero when there is no second part or it is no number.
pub open spec fn gps_longitude_value(gps: Seq<char>) -> int {
    match comma_at(gps) {
        Some(i) => coordinate_or_zero(before_comma(gps.subrange(i + 1, gps.len() as int))),
        None => 0,
    }
}

proof fn lemma_comma_first(s: Seq<char>, i: int)
    requires
        0 <= i < s.len(),
        s[i] == ',',
        forall|j: int| 0 <= j < i ==> s[j] != ',',
    ensures
        comma_at(s) == Some(i),
    decreases i,
{
    if i > 0 {
        assert forall|j: int| 0 <= j < i - 1 implies s.drop_first()[j] != ',' by {
            assert(s.drop_first()[j] == s[j + 1]);
        }
        lemma_comma_first(s.drop_first(), i - 1);
    }
}

proof fn lemma_comma_none(s: Seq<char>)
    requires
        forall|j: int| 0 <= j < s.len() ==> s[j] != ',',
    ensures
        comma_at(s) is None,
    decreases s.len(),
{
    if s.len() > 0 {
        assert forall|j: int| 0 <= j < s.len() - 1 implies s.drop_first()[j] != ',' by {
            assert(s.drop_first()[j] == s[j + 1]);
        }
        lemma_comma_none(s.drop_first());
    }
}

/// Finds the first comma of a text.
fn find_comma(s: &str) -> (r: Option<usize>)
    ensures
        r is Some <==> comma_at(s@) is Some,
        r is Some ==> comma_at(s@) == Some(r->0 as int) && r->0 < s@.len(),
{
    let n = s.unicode_len();
    let mut i: usize = 0;
    while i < n
        invariant
            n == s@.len(),
            i <= n,
            forall|j: int| 0 <= j < i ==> s@[j] != ',',
        decreases n - i,
    {
        if s.get_char(i) == ',' {
            proof {
                lemma_comma_first(s@, i as int);
            }
            return Some(i);
        }
        i = i + 1;
    }
    proof {
        lemma_comma_none(s@);
    }
    None
}

fn before_comma_text(s: &str) -> (r: String)
    ensures
        r@ == before_comma(s@),
{
    match find_comma(s) {
        Some(i) => String::from_str(s.substring_char(0, i)),
        None => String::from_str(s),
    }
}

/// The latitude part of a gps text.
pub fn gps_latitude_part(gps: &String) -> (r: String)
    ensures
        r@ == gps_latitude_text(gps@),
{
    before_comma_text(gps.as_str())
}

/// The longitude of a gps text, zero when missing or unreadable.
pub fn gps_longitude_of(gps: &String) -> (r: Coordinate)
    ensures
        r.millionths as int == gps_longitude_value(gps@),
{
    let g = gps.as_str();
    let n = g.unicode_len();
    match find_comma(g) {
        Some(i) => {
            let rest = g.substring_char(i + 1, n);
            let part = before_comma_text(rest);
            parse_coordinate_or_zero(part.as_str())
        },
        None => Coordinate { millionths: 0 },
    }
}

/// The composite mapping key: the three identifiers joined by `_`.
pub open spec fn mapping_key(a: Seq<char>, b: Seq<char>, c: Seq<char>) -> Seq<char> {
    a + "_"@ + b + "_"@ + c
}

fn join3(a: &String, b: &String, c: &String) -> (r: String)
    ensures
        r@ == mapping_key(a@, b@, c@),
{
    proof {
        reveal_strlit("_");
    }
    let mut r = String::new();
    r.append(a.as_str());
    r.append("_");
    r.append(b.as_str());
    r.append("_");
    r.append(c.as_str());
    r
}

pub fn get_ondc_seller_product_mapping_key(bpp_id: &String, provider_id: &String, item_code: &String) -> (r:
    String)
    ensures
        r@ == mapping_key(bpp_id@, provider_id@, item_code@),
{
    join3(bpp_id, provider_id, item_code)
}

pub fn get_ondc_seller_location_mapping_key(
    bpp_id: &String,
    provider_id: &String,
    location_id: &String,
) -> (r: String)
    ensures
        r@ == mapping_key(bpp_id@, provider_id@, location_id@),
{
    join3(bpp_id, provider_id, location_id)
}

/// The tax rate of an item: its G2 tag's tax rate, zero when missing or unreadable.
pub open spec fn item_tax_rate(item: OnSearchItem) -> int {
    match first_group_value(item.tags@, TagGroup::G2, TagCode::TaxRate) {
        Some(t) => amount_or_zero(t),
        None => 0,
    }
}

/// A price with tax taken out at a rate given in percent (both in
/// hundredths), truncated; left as it is where price or rate is negative.
pub open spec fn net_of_tax(with_tax: int, rate: int) -> int {
    if with_tax >= 0 && rate >= 0 {
        with_tax * 10000 / (10000 + rate)
    } else {
        with_tax
    }
}

fn price_net_of_tax(with_tax: Amount, rate: Amount) -> (r: Amount)
    ensures
        r.value() == net_of_tax(with_tax.value(), rate.value()),
{
    if with_tax.hundredths >= 0 && rate.hundredths >= 0 {
        let w: i128 = with_tax.hundredths as i128;
        let t: i128 = rate.hundredths as i128;
        let q: i128 = w * 10000 / (10000 + t);
        proof {
            assert(0 <= q <= w) by (nonlinear_arith)
                requires
                    w >= 0,
                    t >= 0,
                    q == w * 10000 / (10000 + t),
            ;
        }
        Amount { hundredths: q as i64 }
    } else {
        with_tax
    }
}

pub open spec fn seller_key(bpp: String, p: OnSearchProvider) -> Seq<Seq<char>> {
    seq![bpp@, p.id@]
}

pub open spec fn seller_row(bpp: String, p: OnSearchProvider) -> SellerInfo {
    SellerInfo { seller_subscriber_id: bpp, provider_id: p.id, provider_name: p.name }
}

pub open spec fn location_key(bpp: String, p: OnSearchProvider, l: OnSearchLocation) -> Seq<Seq<char>> {
    seq![bpp@, p.id@, l.id@]
}

pub open spec fn location_row(bpp: String, p: OnSearchProvider, l: OnSearchLocation) -> SellerLocationInfo {
    SellerLocationInfo {
        seller_subscriber_id: bpp,
        provider_id: p.id,
        location_id: l.id,
        gps: l.gps,
        latitude: Coordinate { millionths: coordinate_or_zero(gps_latitude_text(l.gps@)) as i64 },
        longitude: Coordinate { millionths: gps_longitude_value(l.gps@) as i64 },
        address: l.address,
        city_code: l.city_code,
        city_name: l.city_name,
        state_code: l.state_code,
        state_name: l.state_name,
        country_code: l.country_code,
        country_name: l.country_name,
        area_code: l.area_code,
    }
}

pub open spec fn product_key(bpp: String, country: String, p: OnSearchProvider, it: OnSearchItem) -> Seq<
    Seq<char>,
> {
    seq![bpp@, country@, p.id@, it.id@]
}

/// The item row that ingest stores: prices read from the catalog's decimal
/// texts (zero when unreadable), the price without tax derived from the tax rate.
pub open spec fn is_product_row(
    r: SellerProductInfo,
    bpp: String,
    country: String,
    p: OnSearchProvider,
    it: OnSearchItem,
) -> bool {
    &&& r.seller_subscriber_id == bpp
    &&& r.country_code == country
    &&& r.provider_id == p.id
    &&& r.provider_name == p.name
    &&& r.item_id == it.id
    &&& r.item_code == it.code
    &&& r.item_name == it.name
    &&& r.tax_rate.value() == item_tax_rate(it)
    &&& r.images@ == it.images@
    &&& r.mrp.value() == amount_or_zero(it.maximum_value@)
    &&& r.unit_price_with_tax.value() == amount_or_zero(it.price_value@)
    &&& r.unit_price_without_tax.value() == net_of_tax(
        amount_or_zero(it.price_value@),
        item_tax_rate(it),
    )
    &&& r.currency_code == it.currency
    &&& match r.price_slabs {
        Some(v) => item_slabs(it) == Some(v@),
        None => item_slabs(it) is None,
    }
}

/// The seller entries of a catalog, one per provider.
pub open spec fn seller_entries(bpp: String, ps: Seq<OnSearchProvider>) -> Seq<(Seq<Seq<char>>, SellerInfo)> {
    ps.map_values(|p: OnSearchProvider| (seller_key(bpp, p), seller_row(bpp, p)))
}

/// The location entries of some of a provider's locations, in order.
pub open spec fn location_run(bpp: String, p: OnSearchProvider, ls: Seq<OnSearchLocation>) -> Seq<
    (Seq<Seq<char>>, SellerLocationInfo),
>
    decreases ls.len(),
{
    if ls.len() == 0 {
        seq![]
    } else {
        location_run(bpp, p, ls.drop_last()).push((location_key(bpp, p, ls.last()), location_row(bpp, p, ls.last())))
    }
}

pub open spec fn provider_location_entries(bpp: String, p: OnSearchProvider) -> Seq<
    (Seq<Seq<char>>, SellerLocationInfo),
> {
    location_run(bpp, p, p.locations@)
}

/// The location entries of a catalog, provider by provider.
pub open spec fn location_entries(bpp: String, ps: Seq<OnSearchProvider>) -> Seq<
    (Seq<Seq<char>>, SellerLocationInfo),
>
    decreases ps.len(),
{
    if ps.len() == 0 {
        seq![]
    } else {
        location_entries(bpp, ps.drop_last()) + provider_location_entries(bpp, ps.last())
    }
}

/// The product row of an item: the row that satisfies `is_product_row`.
pub open spec fn product_row(bpp: String, country: String, p: OnSearchProvider, it: OnSearchItem) -> ProductView {
    ProductView {
        seller_subscriber_id: bpp,
        country_code: country,
        provider_id: p.id,
        provider_name: p.name,
        item_id: it.id,
        item_code: it.code,
        item_name: it.name,
        tax_rate: Amount { hundredths: item_tax_rate(it) as i64 },
        images: it.images@,
        mrp: Amount { hundredths: amount_or_zero(it.maximum_value@) as i64 },
        unit_price_with_tax: Amount { hundredths: amount_or_zero(it.price_value@) as i64 },
        unit_price_without_tax: Amount {
            hundredths: net_of_tax(amount_or_zero(it.price_value@), item_tax_rate(it)) as i64,
        },
        currency_code: it.currency,
        price_slabs: item_slabs(it),
    }
}

/// The item entries of some of a provider's items, in order.
pub open spec fn product_run(bpp: String, country: String, p: OnSearchProvider, its: Seq<OnSearchItem>) -> Seq<
    (Seq<Seq<char>>, ProductView),
>
    decreases its.len(),
{
    if its.len() == 0 {
        seq![]
    } else {
        product_run(bpp, country, p, its.drop_last()).push(
            (product_key(bpp, country, p, its.last()), product_row(bpp, country, p, its.last())),
        )
    }
}

pub open spec fn provider_product_entries(bpp: String, country: String, p: OnSearchProvider) -> Seq<
    (Seq<Seq<char>>, ProductView),
> {
    product_run(bpp, country, p, p.items@)
}

/// The item entries of a catalog, provider by provider.
pub open spec fn product_entries(bpp: String, country: String, ps: Seq<OnSearchProvider>) -> Seq<
    (Seq<Seq<char>>, ProductView),
>
    decreases ps.len(),
{
    if ps.len() == 0 {
        seq![]
    } else {
        product_entries(bpp, country, ps.drop_last()) + provider_product_entries(bpp, country, ps.last())
    }
}

fn clone_opt(o: &Option<String>) -> (r: Option<String>)
    ensures
        r == *o,
{
    match o {
        Some(s) => Some(s.clone()),
        None => None,
    }
}

pub fn item_tax_rate_of(it: &OnSearchItem) -> (r: Amount)
    ensures
        r.value() == item_tax_rate(*it),
{
    match get_search_tag_item_value(&it.tags, TagGroup::G2, TagCode::TaxRate) {
        Some(t) => parse_amount_or_zero(t.as_str()),
        None => Amount::zero(),
    }
}

fn slab_text_amount(t: &Tag, code: TagCode) -> (r: Amount)
    ensures
        r.value() == slab_amount(*t, code),
{
    match crate::tags::find_item_value(&t.list, code) {
        Some(v) => parse_amount_or_zero(v.as_str()),
        None => Amount::zero(),
    }
}

fn slab_of_tag(t: &Tag, rate: Amount) -> (r: PriceSlab)
    ensures
        r == slab_of(*t, rate.value()),
{
    let max = match crate::tags::find_item_value(&t.list, TagCode::MaxPackSize) {
        Some(v) => if v.unicode_len() == 0 {
            None
        } else {
            crate::amount::parse_amount(v.as_str())
        },
        None => None,
    };
    let with_tax = slab_text_amount(t, TagCode::UnitSalePrice);
    PriceSlab {
        min: slab_text_amount(t, TagCode::MinPackSize),
        max,
        price_with_tax: with_tax,
        price_without_tax: price_net_of_tax(with_tax, rate),
    }
}

/// The price slabs of an item, read once from its price-slab tags.
pub fn price_slabs_of(tags: &Vec<Tag>, rate: Amount) -> (r: Option<Vec<PriceSlab>>)
    ensures
        match r {
            Some(v) => slabs_of(tags@, rate.value()).len() > 0 && v@ == slabs_of(tags@, rate.value()),
            None => slabs_of(tags@, rate.value()).len() == 0,
        },
{
    let mut out: Vec<PriceSlab> = Vec::new();
    let mut i: usize = 0;
    while i < tags.len()
        invariant
            i <= tags@.len(),
            out@ == slabs_of(tags@.subrange(0, i as int), rate.value()),
        decreases tags.len() - i,
    {
        proof {
            assert(tags@.subrange(0, i as int + 1).drop_last() =~= tags@.subrange(0, i as int));
        }
        if tags[i].code == TagGroup::PriceSlab {
            out.push(slab_of_tag(&tags[i], rate));
        }
        i = i + 1;
    }
    proof {
        assert(tags@.subrange(0, tags@.len() as int) =~= tags@);
    }
    if out.len() == 0 {
        None
    } else {
        Some(out)
    }
}

fn product_row_of(bpp: &String, country: &String, p: &OnSearchProvider, it: OnSearchItem) -> (r:
    SellerProductInfo)
    ensures
        r.pview() == product_row(*bpp, *country, *p, it),
        is_product_row(r, *bpp, *country, *p, it),
{
    let tax = item_tax_rate_of(&it);
    let with_tax = parse_amount_or_zero(it.price_value.as_str());
    let mrp = parse_amount_or_zero(it.maximum_value.as_str());
    let net = price_net_of_tax(with_tax, tax);
    let slabs = price_slabs_of(&it.tags, tax);
    let r = SellerProductInfo {
        seller_subscriber_id: bpp.clone(),
        country_code: country.clone(),
        provider_id: p.id.clone(),
        provider_name: p.name.clone(),
        item_id: it.id,
        item_code: it.code,
        item_name: it.name,
        tax_rate: tax,
        images: it.images,
        mrp,
        unit_price_with_tax: with_tax,
        unit_price_without_tax: net,
        currency_code: it.currency,
        price_slabs: slabs,
    };
    proof {
        assert(r.tax_rate == Amount { hundredths: item_tax_rate(it) as i64 });
        assert(r.mrp == Amount { hundredths: amount_or_zero(it.maximum_value@) as i64 });
        assert(r.unit_price_with_tax == Amount { hundredths: amount_or_zero(it.price_value@) as i64 });
        assert(r.unit_price_without_tax == Amount {
            hundredths: net_of_tax(amount_or_zero(it.price_value@), item_tax_rate(it)) as i64,
        });
    }
    r
}

fn location_row_of(bpp: &String, p: &OnSearchProvider, l: &OnSearchLocation) -> (r: SellerLocationInfo)
    ensures
        r == location_row(*bpp, *p, *l),
{
    SellerLocationInfo {
        seller_subscriber_id: bpp.clone(),
        provider_id: p.id.clone(),
        location_id: l.id.clone(),
        gps: l.gps.clone(),
        latitude: parse_coordinate_or_zero(gps_latitude_part(&l.gps).as_str()),
        longitude: gps_longitude_of(&l.gps),
        address: l.address.clone(),
        city_code: l.city_code.clone(),
        city_name: l.city_name.clone(),
        state_code: l.state_code.clone(),
        state_name: clone_opt(&l.state_name),
        country_code: l.country_code.clone(),
        country_name: clone_opt(&l.country_name),
        area_code: l.area_code.clone(),
    }
}

/// The three tables of ingested catalog data, by key.
pub ghost struct CatalogView {
    pub sellers: Map<Seq<Seq<char>>, SellerInfo>,
    pub locations: Map<Seq<Seq<char>>, SellerLocationInfo>,
    pub products: Map<Seq<Seq<char>>, ProductView>,
}

/// The tables after one ingest of a catalog: its seller, location and item
/// entries upserted in order, each replacing what its key held.
pub open spec fn ingested(v: CatalogView, c: OnSearchCatalog, country: String) -> CatalogView {
    CatalogView {
        sellers: upsert_all(v.sellers, seller_entries(c.bpp_id, c.providers@)),
        locations: upsert_all(v.locations, location_entries(c.bpp_id, c.providers@)),
        products: upsert_all(v.products, product_entries(c.bpp_id, country, c.providers@)),
    }
}

/// Ingesting the same catalog a second time yields the same rows as
/// ingesting it once; by induction, so does ingesting it any number of times.
pub proof fn lemma_ingest_idempotent(v: CatalogView, c: OnSearchCatalog, country: String)
    ensures
        ingested(ingested(v, c, country), c, country) == ingested(v, c, country),
{
    lemma_upsert_all_idempotent(v.sellers, seller_entries(c.bpp_id, c.providers@));
    lemma_upsert_all_idempotent(v.locations, location_entries(c.bpp_id, c.providers@));
    lemma_upsert_all_idempotent(v.products, product_entries(c.bpp_id, country, c.providers@));
}

/// Seller, location and item rows ingested from inbound search responses.
pub struct CatalogStore {
    sellers: KeyedTable<SellerInfo>,
    locations: KeyedTable<SellerLocationInfo>,
    products: KeyedTable<SellerProductInfo>,
}

impl CatalogStore {
    pub closed spec fn wf(&self) -> bool {
        self.sellers.wf() && self.locations.wf() && self.products.wf()
    }

    pub closed spec fn view(&self) -> CatalogView {
        CatalogView {
            sellers: self.sellers.view(),
            locations: self.locations.view(),
            products: pviews(self.products.view()),
        }
    }

    pub fn new() -> (r: CatalogStore)
        ensures
            r.wf(),
            r.view().sellers == Map::<Seq<Seq<char>>, SellerInfo>::empty(),
            r.view().locations == Map::<Seq<Seq<char>>, SellerLocationInfo>::empty(),
            r.view().products == Map::<Seq<Seq<char>>, ProductView>::empty(),
    {
        proof {
            assert(pviews(Map::<Seq<Seq<char>>, SellerProductInfo>::empty()) =~= Map::<Seq<Seq<char>>, ProductView>::empty());
        }
        CatalogStore { sellers: KeyedTable::new(), locations: KeyedTable::new(), products: KeyedTable::new() }
    }

    /// Upserts every seller, location and item of the catalog; a catalog
    /// without providers changes nothing.
    pub fn ingest(&mut self, catalog: OnSearchCatalog, country_code: &String)
        requires
            old(self).wf(),
        ensures
            final(self).wf(),
            final(self).view() == ingested(old(self).view(), catalog, *country_code),
    {
        let ghost c0 = catalog;
        let bpp = catalog.bpp_id;
        let mut ps = catalog.providers;
        let ghost all = ps@;
        let ghost m_s = self.sellers.view();
        let ghost m_l = self.locations.view();
        let ghost m_p = pviews(self.products.view());
        let ghost mut i: int = 0;
        while ps.len() > 0
            invariant
                0 <= i <= all.len(),
                ps@ == all.subrange(i, all.len() as int),
                self.wf(),
                self.sellers.view() == upsert_all(m_s, seller_entries(bpp, all.subrange(0, i))),
                self.locations.view() == upsert_all(m_l, location_entries(bpp, all.subrange(0, i))),
                pviews(self.products.view()) == upsert_all(m_p, product_entries(bpp, *country_code, all.subrange(0, i))),
            decreases ps.len(),
        {
            let p = ps.remove(0);
            let ghost gp = p;
            let ghost pre = all.subrange(0, i);
            let ghost post = all.subrange(0, i + 1);
            proof {
                assert(all[i] == p);
                assert(post.drop_last() =~= pre);
                assert(seller_entries(bpp, post) =~= seller_entries(bpp, pre).push(
                    (seller_key(bpp, p), seller_row(bpp, p)),
                ));
                assert(seller_entries(bpp, post).drop_last() =~= seller_entries(bpp, pre));
                assert(seller_entries(bpp, post).last() == (seller_key(bpp, p), seller_row(bpp, p)));
            }
            let skey: Vec<String> = vec![bpp.clone(), p.id.clone()];
            proof {
                assert(key_view(skey@) =~= seller_key(bpp, p));
            }
            self.sellers.upsert(skey, SellerInfo {
                seller_subscriber_id: bpp.clone(),
                provider_id: p.id.clone(),
                provider_name: p.name.clone(),
            });
            let ghost lbase = location_entries(bpp, pre);
            let ghost lnew = provider_location_entries(bpp, p);
            let mut j: usize = 0;
            while j < p.locations.len()
                invariant
                    p == gp,
                    j <= p.locations@.len(),
                    self.wf(),
                    self.sellers.view() == upsert_all(m_s, seller_entries(bpp, post)),
                    pviews(self.products.view()) == upsert_all(m_p, product_entries(bpp, *country_code, pre)),
                    self.locations.view() == upsert_all(
                        m_l,
                        lbase + location_run(bpp, p, p.locations@.subrange(0, j as int)),
                    ),
                decreases p.locations.len() - j,
            {
                let l = &p.locations[j];
                let lkey: Vec<String> = vec![bpp.clone(), p.id.clone(), l.id.clone()];
                proof {
                    assert(key_view(lkey@) =~= location_key(bpp, p, *l));
                    let ghost a = p.locations@.subrange(0, j as int);
                    let ghost b = p.locations@.subrange(0, j as int + 1);
                    assert(b.drop_last() =~= a);
                    assert(b.last() == *l);
                    let ghost e = (location_key(bpp, p, *l), location_row(bpp, p, *l));
                    assert(location_run(bpp, p, b) == location_run(bpp, p, a).push(e));
                    assert((lbase + location_run(bpp, p, b)).drop_last() =~= lbase + location_run(bpp, p, a));
                    assert((lbase + location_run(bpp, p, b)).last() == e);
                }
                self.locations.upsert(lkey, location_row_of(&bpp, &p, l));
                j = j + 1;
            }
            proof {
                assert(p.locations@.subrange(0, p.locations@.len() as int) =~= p.locations@);
                assert(location_entries(bpp, post) == lbase + lnew);
            }
            let ghost pbase = product_entries(bpp, *country_code, pre);
            let ghost pnew = provider_product_entries(bpp, *country_code, p);
            let OnSearchProvider { id, name, locations, items } = p;
            let prov = OnSearchProvider { id, name, locations: Vec::new(), items: Vec::new() };
            let mut items = items;
            let ghost mut k: int = 0;
            while items.len() > 0
                invariant
                    0 <= k <= gp.items@.len(),
                    items@ == gp.items@.subrange(k, gp.items@.len() as int),
                    prov.id == gp.id && prov.name == gp.name,
                    self.wf(),
                    self.sellers.view() == upsert_all(m_s, seller_entries(bpp, post)),
                    self.locations.view() == upsert_all(m_l, location_entries(bpp, post)),
                    pviews(self.products.view()) == upsert_all(
                        m_p,
                        pbase + product_run(bpp, *country_code, gp, gp.items@.subrange(0, k)),
                    ),
                decreases items.len(),
            {
                let it = items.remove(0);
                proof {
                    assert(gp.items@[k] == it);
                }
                let pkey: Vec<String> = vec![bpp.clone(), country_code.clone(), prov.id.clone(), it.id.clone()];
                proof {
                    assert(key_view(pkey@) =~= product_key(bpp, *country_code, gp, it));
                    let ghost a = gp.items@.subrange(0, k);
                    let ghost b = gp.items@.subrange(0, k + 1);
                    assert(b.drop_last() =~= a);
                    assert(b.last() == it);
                    let ghost e = (product_key(bpp, *country_code, gp, it), product_row(bpp, *country_code, gp, it));
                    assert(product_run(bpp, *country_code, gp, b) == product_run(bpp, *country_code, gp, a).push(e));
                    assert((pbase + product_run(bpp, *country_code, gp, b)).drop_last() =~= pbase + product_run(bpp, *country_code, gp, a));
                    assert((pbase + product_run(bpp, *country_code, gp, b)).last() == e);
                    assert(product_row(bpp, *country_code, prov, it) == product_row(bpp, *country_code, gp, it));
                }
                let row = product_row_of(&bpp, country_code, &prov, it);
                proof {
                    lemma_pviews_insert(self.products.view(), key_view(pkey@), row);
                }
                self.products.upsert(pkey, row);
                proof {
                    k = k + 1;
                    assert(items@ =~= gp.items@.subrange(k, gp.items@.len() as int));
                }
            }
            proof {
                assert(gp.items@.subrange(0, gp.items@.len() as int) =~= gp.items@);
                assert(product_entries(bpp, *country_code, post) == pbase + pnew);
                i = i + 1;
                assert(ps@ =~= all.subrange(i, all.len() as int));
            }
        }
        proof {
            assert(all.subrange(0, all.len() as int) =~= all);
        }
    }

    /// The seller row of a provider.
    pub fn seller_info(&self, bpp_id: &String, provider_id: &String) -> (r: Option<&SellerInfo>)
        requires
            self.wf(),
        ensures
            r is Some <==> self.view().sellers.contains_key(seq![bpp_id@, provider_id@]),
            r is Some ==> *r->0 == self.view().sellers[seq![bpp_id@, provider_id@]],
    {
        let key: Vec<String> = vec![bpp_id.clone(), provider_id.clone()];
        proof {
            assert(key_view(key@) =~= seq![bpp_id@, provider_id@]);
        }
        self.sellers.get(&key)
    }

    /// The location row of a provider's location.
    pub fn location_info(&self, bpp_id: &String, provider_id: &String, location_id: &String) -> (r: Option<
        &SellerLocationInfo,
    >)
        requires
            self.wf(),
        ensures
            r is Some <==> self.view().locations.contains_key(seq![bpp_id@, provider_id@, location_id@]),
            r is Some ==> *r->0 == self.view().locations[seq![bpp_id@, provider_id@, location_id@]],
    {
        let key: Vec<String> = vec![bpp_id.clone(), provider_id.clone(), location_id.clone()];
        proof {
            assert(key_view(key@) =~= seq![bpp_id@, provider_id@, location_id@]);
        }
        self.locations.get(&key)
    }

    /// The item row of a provider's item in a country.
    pub fn product_info(
        &self,
        bpp_id: &String,
        country_code: &String,
        provider_id: &String,
        item_id: &String,
    ) -> (r: Option<&SellerProductInfo>)
        requires
            self.wf(),
        ensures
            r is Some <==> self.view().products.contains_key(
                seq![bpp_id@, country_code@, provider_id@, item_id@],
            ),
            r is Some ==> r->0.pview() == self.view().products[seq![bpp_id@, country_code@, provider_id@, item_id@]],
    {
        let key: Vec<String> = vec![bpp_id.clone(), country_code.clone(), provider_id.clone(), item_id.clone()];
        proof {
            assert(key_view(key@) =~= seq![bpp_id@, country_code@, provider_id@, item_id@]);
        }
        self.products.get(&key)
    }
}

/// The item rows found for the requested ids, in the order asked; ids
/// without a row are passed over.
pub open spec fn found_products(
    m: Map<Seq<Seq<char>>, ProductView>,
    bpp: Seq<char>,
    country: Seq<char>,
    provider: Seq<char>,
    ids: Seq<String>,
) -> Seq<ProductView>
    decreases ids.len(),
{
    if ids.len() == 0 {
        seq![]
    } else {
        let prev = found_products(m, bpp, country, provider, ids.drop_last());
        let k = seq![bpp, country, provider, ids.last()@];
        if m.contains_key(k) {
            prev.push(m[k])
        } else {
            prev
        }
    }
}

/// The location rows found for the requested ids, in the order asked.
pub open spec fn found_locations(
    m: Map<Seq<Seq<char>>, SellerLocationInfo>,
    bpp: Seq<char>,
    provider: Seq<char>,
    ids: Seq<String>,
) -> Seq<SellerLocationInfo>
    decreases ids.len(),
{
    if ids.len() == 0 {
        seq![]
    } else {
        let prev = found_locations(m, bpp, provider, ids.drop_last());
        let k = seq![bpp, provider, ids.last()@];
        if m.contains_key(k) {
            prev.push(m[k])
        } else {
            prev
        }
    }
}

fn copy_images(v: &Vec<String>) -> (r: Vec<String>)
    ensures
        r@ == v@,
{
    let mut r: Vec<String> = Vec::new();
    let mut i: usize = 0;
    while i < v.len()
        invariant
            i <= v@.len(),
            r@ == v@.subrange(0, i as int),
        decreases v.len() - i,
    {
        r.push(v[i].clone());
        proof {
            assert(r@ =~= v@.subrange(0, i as int + 1));
        }
        i = i + 1;
    }
    proof {
        assert(v@.subrange(0, v@.len() as int) =~= v@);
    }
    r
}

fn copy_slabs(v: &Vec<PriceSlab>) -> (r: Vec<PriceSlab>)
    ensures
        r@ == v@,
{
    let mut r: Vec<PriceSlab> = Vec::new();
    let mut i: usize = 0;
    while i < v.len()
        invariant
            i <= v@.len(),
            r@ == v@.subrange(0, i as int),
        decreases v.len() - i,
    {
        r.push(v[i]);
        proof {
            assert(r@ =~= v@.subrange(0, i as int + 1));
        }
        i = i + 1;
    }
    proof {
        assert(v@.subrange(0, v@.len() as int) =~= v@);
    }
    r
}

/// A copy of an item row holding the same values.
pub fn copy_product(r: &SellerProductInfo) -> (c: SellerProductInfo)
    ensures
        c.pview() == r.pview(),
{
    SellerProductInfo {
        seller_subscriber_id: r.seller_subscriber_id.clone(),
        country_code: r.country_code.clone(),
        provider_id: r.provider_id.clone(),
        provider_name: r.provider_name.clone(),
        item_id: r.item_id.clone(),
        item_code: clone_opt(&r.item_code),
        item_name: r.item_name.clone(),
        tax_rate: r.tax_rate,
        images: copy_images(&r.images),
        mrp: r.mrp,
        unit_price_with_tax: r.unit_price_with_tax,
        unit_price_without_tax: r.unit_price_without_tax,
        currency_code: r.currency_code,
        price_slabs: match &r.price_slabs {
            Some(v) => Some(copy_slabs(v)),
            None => None,
        },
    }
}

pub fn copy_location(l: &SellerLocationInfo) -> (c: SellerLocationInfo)
    ensures
        c == *l,
{
    SellerLocationInfo {
        seller_subscriber_id: l.seller_subscriber_id.clone(),
        provider_id: l.provider_id.clone(),
        location_id: l.location_id.clone(),
        gps: l.gps.clone(),
        latitude: l.latitude,
        longitude: l.longitude,
        address: l.address.clone(),
        city_code: l.city_code.clone(),
        city_name: l.city_name.clone(),
        state_code: l.state_code.clone(),
        state_name: clone_opt(&l.state_name),
        country_code: l.country_code.clone(),
        country_name: clone_opt(&l.country_name),
        area_code: l.area_code.clone(),
    }
}

impl CatalogStore {
    /// The batch item lookup: the rows of a provider's items in a country,
    /// for the ids asked, in that order.
    pub fn item_rows(
        &self,
        bpp_id: &String,
        provider_id: &String,
        item_ids: &Vec<String>,
        country_code: &String,
    ) -> (r: Vec<SellerProductInfo>)
        requires
            self.wf(),
        ensures
            r@.len() == found_products(self.view().products, bpp_id@, country_code@, provider_id@, item_ids@).len(),
            forall|i: int| 0 <= i < r@.len() ==> (#[trigger] r@[i]).pview() == found_products(
                self.view().products,
                bpp_id@,
                country_code@,
                provider_id@,
                item_ids@,
            )[i],
    {
        let mut out: Vec<SellerProductInfo> = Vec::new();
        let mut i: usize = 0;
        while i < item_ids.len()
            invariant
                self.wf(),
                i <= item_ids@.len(),
                out@.len() == found_products(self.view().products, bpp_id@, country_code@, provider_id@, item_ids@.subrange(0, i as int)).len(),
                forall|j: int| 0 <= j < out@.len() ==> (#[trigger] out@[j]).pview() == found_products(
                    self.view().products,
                    bpp_id@,
                    country_code@,
                    provider_id@,
                    item_ids@.subrange(0, i as int),
                )[j],
            decreases item_ids.len() - i,
        {
            proof {
                assert(item_ids@.subrange(0, i as int + 1).drop_last() =~= item_ids@.subrange(0, i as int));
            }
            if let Some(row) = self.product_info(bpp_id, country_code, provider_id, &item_ids[i]) {
                out.push(copy_product(row));
            }
            i = i + 1;
        }
        proof {
            assert(item_ids@.subrange(0, item_ids@.len() as int) =~= item_ids@);
        }
        out
    }

    /// The batch location lookup: the rows of a provider's locations, for
    /// the ids asked, in that order.
    pub fn location_rows(&self, bpp_id: &String, provider_id: &String, location_ids: &Vec<String>) -> (r: Vec<
        SellerLocationInfo,
    >)
        requires
            self.wf(),
        ensures
            r@ == found_locations(self.view().locations, bpp_id@, provider_id@, location_ids@),
    {
        let mut out: Vec<SellerLocationInfo> = Vec::new();
        let mut i: usize = 0;
        while i < location_ids.len()
            invariant
                self.wf(),
                i <= location_ids@.len(),
                out@ == found_locations(self.view().locations, bpp_id@, provider_id@, location_ids@.subrange(0, i as int)),
            decreases location_ids.len() - i,
        {
            proof {
                assert(location_ids@.subrange(0, i as int + 1).drop_last() =~= location_ids@.subrange(0, i as int));
            }
            if let Some(row) = self.location_info(bpp_id, provider_id, &location_ids[i]) {
                out.push(copy_location(row));
            }
            i = i + 1;
        }
        proof {
            assert(location_ids@.subrange(0, location_ids@.len() as int) =~= location_ids@);
        }
        out
    }
}

/// The kind of an additional description of a provider.
#[derive(Clone, Copy, Debug, PartialEq, Eq, Structural)]
pub enum ContentType {
    Mp4,
    Other,
}

#[derive(Clone, Debug)]
pub struct AdditionalDescription {
    pub url: String,
    pub content_type: ContentType,
}

/// A provider's descriptor in an `on_search` catalog.
#[derive(Clone, Debug)]
pub struct ProviderDescriptor {
    pub name: String,
    pub code: Option<String>,
    pub short_desc: Option<String>,
    pub long_desc: Option<String>,
    pub images: Vec<String>,
    pub additional_desc: Vec<AdditionalDescription>,
}

/// A provider as the buyer's search notification presents it.
#[derive(Clone, Debug)]
pub struct WSSearchProductProvider {
    pub id: String,
    pub rating: Option<String>,
    pub name: String,
    pub code: Option<String>,
    pub short_desc: Option<String>,
    pub long_desc: Option<String>,
    pub images: Vec<String>,
    pub videos: Vec<String>,
}

/// The urls of the video descriptions, in order.
pub open spec fn video_urls(ds: Seq<AdditionalDescription>) -> Seq<String>
    decreases ds.len(),
{
    if ds.len() == 0 {
        seq![]
    } else if ds.last().content_type == ContentType::Mp4 {
        video_urls(ds.drop_last()).push(ds.last().url)
    } else {
        video_urls(ds.drop_last())
    }
}

pub fn ws_search_provider_from_ondc_provider(
    id: &String,
    rating: &Option<String>,
    descriptor: &ProviderDescriptor,
) -> (r: WSSearchProductProvider)
    ensures
        r.id == *id && r.rating == *rating,
        r.name == descriptor.name && r.code == descriptor.code,
        r.short_desc == descriptor.short_desc && r.long_desc == descriptor.long_desc,
        r.images@ == descriptor.images@,
        r.videos@ == video_urls(descriptor.additional_desc@),
{
    let ds = &descriptor.additional_desc;
    let mut videos: Vec<String> = Vec::new();
    let mut i: usize = 0;
    while i < ds.len()
        invariant
            i <= ds@.len(),
            videos@ == video_urls(ds@.subrange(0, i as int)),
        decreases ds.len() - i,
    {
        proof {
            assert(ds@.subrange(0, i as int + 1).drop_last() =~= ds@.subrange(0, i as int));
        }
        if ds[i].content_type == ContentType::Mp4 {
            videos.push(ds[i].url.clone());
        }
        i = i + 1;
    }
    proof {
        assert(ds@.subrange(0, ds@.len() as int) =~= ds@);
    }
    WSSearchProductProvider {
        id: id.clone(),
        rating: clone_opt(rating),
        name: descriptor.name.clone(),
        code: clone_opt(&descriptor.code),
        short_desc: clone_opt(&descriptor.short_desc),
        long_desc: clone_opt(&descriptor.long_desc),
        images: copy_images(&descriptor.images),
        videos,
    }
}

/// The location rows that a catalog's bulk upsert writes: one per location
/// of each provider, in order, with latitude and longitude read from the
/// gps text (zero where a part is missing or no number).
pub fn create_bulk_seller_location_info_objs(body: &OnSearchCatalog) -> (r: Vec<SellerLocationInfo>)
    ensures
        r@.len() == location_entries(body.bpp_id, body.providers@).len(),
        forall|k: int| 0 <= k < r@.len() ==> #[trigger] r@[k] == location_entries(body.bpp_id, body.providers@)[k].1,
{
    let bpp = &body.bpp_id;
    let ps = &body.providers;
    let mut out: Vec<SellerLocationInfo> = Vec::new();
    let mut i: usize = 0;
    while i < ps.len()
        invariant
            i <= ps@.len(),
            out@.len() == location_entries(*bpp, ps@.subrange(0, i as int)).len(),
            forall|k: int| 0 <= k < out@.len() ==> #[trigger] out@[k] == location_entries(*bpp, ps@.subrange(0, i as int))[k].1,
        decreases ps.len() - i,
    {
        let p = &ps[i];
        let ghost pre = ps@.subrange(0, i as int);
        let ghost post = ps@.subrange(0, i as int + 1);
        let ghost lbase = location_entries(*bpp, pre);
        let mut j: usize = 0;
        while j < p.locations.len()
            invariant
                i < ps@.len(),
                p == ps@[i as int],
                j <= p.locations@.len(),
                out@.len() == (lbase + location_run(*bpp, *p, p.locations@.subrange(0, j as int))).len(),
                forall|k: int| 0 <= k < out@.len() ==> #[trigger] out@[k] == (lbase + location_run(*bpp, *p, p.locations@.subrange(0, j as int)))[k].1,
            decreases p.locations.len() - j,
        {
            let l = &p.locations[j];
            proof {
                let ghost a = p.locations@.subrange(0, j as int);
                let ghost b = p.locations@.subrange(0, j as int + 1);
                assert(b.drop_last() =~= a);
                assert(b.last() == *l);
            }
            out.push(location_row_of(bpp, p, l));
            proof {
                let ghost a = p.locations@.subrange(0, j as int);
                let ghost b = p.locations@.subrange(0, j as int + 1);
                let ghost e = (location_key(*bpp, *p, *l), location_row(*bpp, *p, *l));
                assert(location_run(*bpp, *p, b) == location_run(*bpp, *p, a).push(e));
                assert(lbase + location_run(*bpp, *p, b) =~= (lbase + location_run(*bpp, *p, a)).push(e));
            }
            j = j + 1;
        }
        proof {
            assert(p.locations@.subrange(0, p.locations@.len() as int) =~= p.locations@);
            assert(post.drop_last() =~= pre);
            assert(post.last() == *p);
            assert(location_entries(*bpp, post) == lbase + provider_location_entries(*bpp, *p));
        }
        i = i + 1;
    }
    proof {
        assert(ps@.subrange(0, ps@.len() as int) =~= ps@);
    }
    out
}

} // verus!
