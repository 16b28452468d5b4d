//! The adapter for T&T Supermarket.

use crate::common::{decimal_numeral, decimal_text, same_amount, Decimal};
use crate::grocery::protocol::{Handshake, HandshakeView};
use crate::grocery::{product_views, Prices, Product, ProductView, Request, RequestView, Sailor};
use vstd::prelude::*;
use vstd::std_specs::convert::FromSpecImpl;
use vstd::string::{StrSliceExecFns, StringExecFns};

verus! {

/// The vendor name that every product of this adapter carries.
pub const TNT_VENDOR: &'static str = "T&T";

/// The address under which the vendor's backend answers.
pub const TNT_API_URL: &'static str = "https://www.tntsupermarket.com/rest/V1";

/// Below `TNT_API_URL`, where the vendor is told the caller's location.
pub const TNT_LOCATION_ROUTE: &'static str = "/tntzone/location/getpreferedstorecode";

/// Below `TNT_API_URL`, where the vendor lists the weekly specials.
pub const TNT_SPECIALS_ROUTE: &'static str = "/xmapi/app-weekly-special";

/// Where in the vendor's answer the list of items stands.
pub const TNT_ITEMS_PATH: &'static str = "data.category.items";

/// How many leading characters of a postal code the vendor goes by.
pub const TNT_LOCATION_PREFIX: usize = 3;

/// The number of items asked for in one page, unless the builder is told
/// otherwise.
pub const DEFAULT_PAGE_SIZE: u32 = 25;

/// One amount as the vendor states it.
#[derive(Clone, Copy, Debug)]
pub struct TntPrice {
    pub amount: Decimal,
}

/// The vendor's two amounts for one item.
#[derive(Clone, Copy, Debug)]
pub struct TntPrices {
    /// The amount before any discount.
    pub old_price: TntPrice,
    /// The amount that is asked now.
    pub final_price: TntPrice,
}

/// One item as the vendor lists it.
#[derive(Clone, Debug)]
pub struct TntProduct {
    pub id: String,
    pub sku: String,
    pub name: String,
    pub prices: TntPrices,
    /// The unit of measure, an empty text where the vendor gives none.
    pub weight_uom: String,
    /// Zero where the item is not available.
    pub is_available: u8,
    /// Zero where the item is not for sale.
    pub is_saleable: u8,
}

/// What a `TntProduct` holds, as mathematical values.
pub struct TntProductView {
    pub id: Seq<char>,
    pub sku: Seq<char>,
    pub name: Seq<char>,
    pub prices: TntPrices,
    pub weight_uom: Seq<char>,
    pub is_available: u8,
    pub is_saleable: u8,
}

impl View for TntProduct {
    type V = TntProductView;

    open spec fn view(&self) -> TntProductView {
        TntProductView {
            id: self.id@,
            sku: self.sku@,
            name: self.name@,
            prices: self.prices,
            weight_uom: self.weight_uom@,
            is_available: self.is_available,
            is_saleable: self.is_saleable,
        }
    }
}

/// The views of a sequence of vendor records, in order.
pub open spec fn record_views(records: Seq<TntProduct>) -> Seq<TntProductView> {
    records.map_values(|record: TntProduct| record@)
}

/// Why a vendor record is left out of the result.
#[derive(Clone, Copy, Debug, PartialEq, Eq, Structural)]
pub enum Rejection {
    /// The vendor marks the item as unavailable.
    Unavailable,
    /// The vendor marks the item as not for sale.
    Unsellable,
    /// The amount asked is zero: the item has no price yet.
    Unpriced,
}

impl TntProductView {
    /// The first reason, in the order availability, saleability, price, for
    /// which the record is left out; `None` where there is no reason.
    pub open spec fn rejection(&self) -> Option<Rejection> {
        if self.is_available == 0 {
            Some(Rejection::Unavailable)
        } else if self.is_saleable == 0 {
            Some(Rejection::Unsellable)
        } else if self.prices.final_price.amount.unscaled == 0 {
            Some(Rejection::Unpriced)
        } else {
            None
        }
    }

    /// The record is available, for sale and priced.
    pub open spec fn eligible(&self) -> bool {
        &&& self.is_available != 0
        &&& self.is_saleable != 0
        &&& self.prices.final_price.amount.unscaled > 0
    }

    /// The record's name and stock-keeping unit, as they are shown together.
    pub open spec fn label(&self) -> Seq<char> {
        self.name + " (SKU: "@ + self.sku + ")"@
    }

    /// The canonical product that the record stands for.
    pub open spec fn canonical(&self) -> ProductView {
        ProductView {
            name: self.name,
            units: if self.weight_uom.len() == 0 {
                None
            } else {
                Some(self.weight_uom)
            },
            prices: Prices::spec_quoted(
                self.prices.old_price.amount,
                self.prices.final_price.amount,
            ),
            vendor: TNT_VENDOR@,
            vendor_id: self.id,
            vendor_sku: self.sku,
        }
    }
}

/// The canonical products of the eligible records, in the records' order.
pub open spec fn normalized(records: Seq<TntProductView>) -> Seq<ProductView> {
    records.filter(|record: TntProductView| record.eligible()).map_values(
        |record: TntProductView| record.canonical(),
    )
}

impl From<TntPrices> for Prices {
    fn from(prices: TntPrices) -> (quoted: Prices) {
        Prices::quoted(prices.old_price.amount, prices.final_price.amount)
    }
}

impl FromSpecImpl<TntPrices> for Prices {
    open spec fn obeys_from_spec() -> bool {
        true
    }

    open spec fn from_spec(prices: TntPrices) -> Prices {
        Prices::spec_quoted(prices.old_price.amount, prices.final_price.amount)
    }
}

impl From<TntProduct> for Product {
    /// The product carries a fresh text for the vendor's name, so the
    /// contract speaks of what the product holds, by its view.
    fn from(record: TntProduct) -> (product: Product)
        ensures
            product@ == record@.canonical(),
    {
        let TntProduct { id, sku, name, prices, weight_uom, .. } = record;
        let units = if weight_uom.as_str().is_empty() {
            None
        } else {
            Some(weight_uom)
        };
        Product {
            name,
            units,
            prices: Prices::from(prices),
            vendor: String::from_str(TNT_VENDOR),
            vendor_id: id,
            vendor_sku: sku,
        }
    }
}

impl FromSpecImpl<TntProduct> for Product {
    open spec fn obeys_from_spec() -> bool {
        false
    }

    open spec fn from_spec(record: TntProduct) -> Product {
        arbitrary()
    }
}

impl TntProduct {
    /// The text by which the record is shown: its name, then its
    /// stock-keeping unit in brackets.
    pub fn label(&self) -> (text: String)
        ensures
            text@ == self@.label(),
    {
        let mut text = self.name.clone();
        text.append(" (SKU: ");
        text.append(self.sku.as_str());
        text.append(")");
        text
    }

    /// The first reason for which the record is left out, if any.
    pub fn screen(&self) -> (verdict: Option<Rejection>)
        ensures
            verdict == self@.rejection(),
            verdict is None <==> self@.eligible(),
    {
        if self.is_available == 0 {
            Some(Rejection::Unavailable)
        } else if self.is_saleable == 0 {
            Some(Rejection::Unsellable)
        } else if self.prices.final_price.amount.is_zero() {
            Some(Rejection::Unpriced)
        } else {
            None
        }
    }
}

/// Leaves out the records that are unavailable, not for sale or unpriced,
/// and turns each of the others into a canonical product, in the records'
/// order.
pub fn normalize(records: Vec<TntProduct>) -> (products: Vec<Product>)
    ensures
        product_views(products@) == normalized(record_views(records@)),
{
    let ghost all = record_views(records@);
    let ghost keep = |record: TntProductView| record.eligible();
    let mut products: Vec<Product> = Vec::new();
    proof {
        reveal(Seq::filter);
        assert(all.take(0).filter(keep) =~= Seq::empty());
        assert(product_views(products@) =~= normalized(all.take(0)));
    }
    for record in it: records
        invariant
            it.seq() == records@,
            all == record_views(records@),
            keep == |record: TntProductView| record.eligible(),
            product_views(products@) == normalized(all.take(it.index() as int)),
    {
        let ghost done = it.index() as int;
        let ghost before = products@;
        proof {
            reveal(Seq::filter);
            assert(all.take(done + 1).drop_last() =~= all.take(done));
            assert(all.take(done + 1).last() == record@);
        }
        if record.screen().is_none() {
            products.push(Product::from(record));
            proof {
                assert(product_views(products@) =~= product_views(before).push(
                    record@.canonical(),
                ));
                assert(normalized(all.take(done + 1)) =~= normalized(all.take(done)).push(
                    record@.canonical(),
                ));
            }
        }
    }
    proof {
        assert(all.take(records@.len() as int) =~= all);
    }
    products
}

/// Every product that comes out of the records comes from a record that is
/// available, for sale and priced above zero, and is the canonical form of
/// that record.
pub proof fn lemma_products_come_from_eligible_records(records: Seq<TntProductView>, j: int)
    requires
        0 <= j < normalized(records).len(),
    ensures
        exists|i: int|
            {
                &&& 0 <= i < records.len()
                &&& (#[trigger] records[i]).is_available != 0
                &&& records[i].is_saleable != 0
                &&& records[i].prices.final_price.amount.unscaled > 0
                &&& normalized(records)[j] == records[i].canonical()
            },
{
    let keep = |record: TntProductView| record.eligible();
    let kept = records.filter(keep);
    records.lemma_filter_pred(keep, j);
    assert(kept.contains(kept[j]));
    records.lemma_filter_contains_rev(keep, kept[j]);
    let i = choose|i: int| 0 <= i < records.len() && records[i] == kept[j];
    assert(records[i].eligible());
}

/// Every record that is available, for sale and priced above zero has its
/// canonical form among the products.
pub proof fn lemma_eligible_records_become_products(records: Seq<TntProductView>, i: int)
    requires
        0 <= i < records.len(),
        records[i].eligible(),
    ensures
        exists|j: int|
            0 <= j < normalized(records).len() && #[trigger] normalized(records)[j]
                == records[i].canonical(),
{
    let keep = |record: TntProductView| record.eligible();
    let kept = records.filter(keep);
    records.lemma_filter_contains(keep, i);
    let j = choose|j: int| 0 <= j < kept.len() && kept[j] == records[i];
    assert(normalized(records)[j] == records[i].canonical());
}

/// Every product that comes out of the records has a sale price exactly
/// where its record's two amounts are different numbers: the sale price is
/// then the amount asked now, and the original price is in any case the
/// amount before the discount.
pub proof fn lemma_sale_is_absent_exactly_when_amounts_agree(records: Seq<TntProductView>, j: int)
    requires
        0 <= j < normalized(records).len(),
    ensures
        exists|i: int|
            {
                &&& 0 <= i < records.len()
                &&& (#[trigger] records[i]).eligible()
                &&& normalized(records)[j] == records[i].canonical()
                &&& normalized(records)[j].prices.original == records[i].prices.old_price.amount
                &&& normalized(records)[j].prices.sale is None <==> same_amount(
                    records[i].prices.final_price.amount,
                    records[i].prices.old_price.amount,
                )
                &&& normalized(records)[j].prices.sale is Some ==> normalized(
                    records,
                )[j].prices.sale == Some(records[i].prices.final_price.amount)
            },
{
    lemma_products_come_from_eligible_records(records, j);
    let i = choose|i: int|
        {
            &&& 0 <= i < records.len()
            &&& (#[trigger] records[i]).is_available != 0
            &&& records[i].is_saleable != 0
            &&& records[i].prices.final_price.amount.unscaled > 0
            &&& normalized(records)[j] == records[i].canonical()
        };
    assert(records[i].eligible());
}

/// Every product that comes out of the records is well formed and carries
/// the vendor's name.
pub proof fn lemma_products_are_well_formed(records: Seq<TntProductView>, j: int)
    requires
        0 <= j < normalized(records).len(),
    ensures
        normalized(records)[j].well_formed(),
        normalized(records)[j].vendor == TNT_VENDOR@,
{
    lemma_products_come_from_eligible_records(records, j);
}

/// The leading characters of a postal code that the vendor is told: the
/// first three, or all of them where there are fewer.
pub open spec fn location_prefix(postcode: Seq<char>) -> Seq<char> {
    if postcode.len() <= TNT_LOCATION_PREFIX {
        postcode
    } else {
        postcode.subrange(0, TNT_LOCATION_PREFIX as int)
    }
}

/// The request that tells the vendor where the caller is.
pub open spec fn location_request(postcode: Seq<char>) -> RequestView {
    RequestView {
        url: TNT_API_URL@ + TNT_LOCATION_ROUTE@,
        query: seq![("postcode"@, location_prefix(postcode))],
    }
}

/// The request for the first page of the weekly specials.
pub open spec fn specials_request(page_size: u32) -> RequestView {
    RequestView {
        url: TNT_API_URL@ + TNT_SPECIALS_ROUTE@,
        query: seq![("page"@, "1"@), ("pageSize"@, decimal_numeral(page_size as nat))],
    }
}

/// The requests of one fetch, and where its items are found.
pub open spec fn tnt_plan(postcode: Seq<char>, page_size: u32) -> HandshakeView {
    HandshakeView {
        request: location_request(postcode),
        fetch: specials_request(page_size),
        items_path: TNT_ITEMS_PATH@,
    }
}

/// A `TntSailor` finds sales at T&T Supermarket.
#[derive(Clone, Copy, Debug)]
pub struct TntSailor {
    page_size: u32,
    cookie_persistence: bool,
}

/// Collects the settings of a `TntSailor`. What is not set takes its
/// default: 25 items in a page, and cookies kept from one request to the
/// next.
#[derive(Clone, Copy, Debug)]
pub struct TntSailorBuilder {
    page_size: Option<u32>,
    cookie_persistence: Option<bool>,
}

impl TntSailorBuilder {
    /// The page size that was set, if any.
    pub closed spec fn chosen_page_size(&self) -> Option<u32> {
        self.page_size
    }

    /// The choice that was made on keeping cookies, if any.
    pub closed spec fn chosen_cookie_persistence(&self) -> Option<bool> {
        self.cookie_persistence
    }

    /// Sets the number of items asked for in one page.
    pub fn page_size(self, page_size: u32) -> (builder: TntSailorBuilder)
        ensures
            builder.chosen_page_size() == Some(page_size),
            builder.chosen_cookie_persistence() == self.chosen_cookie_persistence(),
    {
        TntSailorBuilder { page_size: Some(page_size), cookie_persistence: self.cookie_persistence }
    }

    /// Sets whether the session keeps the vendor's cookies from one request
    /// to the next. The vendor remembers the location by them.
    pub fn cookie_persistence(self, enabled: bool) -> (builder: TntSailorBuilder)
        ensures
            builder.chosen_page_size() == self.chosen_page_size(),
            builder.chosen_cookie_persistence() == Some(enabled),
    {
        TntSailorBuilder { page_size: self.page_size, cookie_persistence: Some(enabled) }
    }

    /// Builds the adapter, with the default for each setting that was not
    /// made.
    pub fn build(self) -> (sailor: TntSailor)
        ensures
            sailor.spec_page_size() == match self.chosen_page_size() {
                Some(page_size) => page_size,
                None => DEFAULT_PAGE_SIZE,
            },
            sailor.spec_cookie_persistence() == match self.chosen_cookie_persistence() {
                Some(enabled) => enabled,
                None => true,
            },
    {
        TntSailor {
            page_size: match self.page_size {
                Some(page_size) => page_size,
                None => DEFAULT_PAGE_SIZE,
            },
            cookie_persistence: match self.cookie_persistence {
                Some(enabled) => enabled,
                None => true,
            },
        }
    }
}

impl Default for TntSailorBuilder {
    fn default() -> (builder: TntSailorBuilder)
        ensures
            builder.chosen_page_size() is None,
            builder.chosen_cookie_persistence() is None,
    {
        TntSailorBuilder { page_size: None, cookie_persistence: None }
    }
}

impl TntSailor {
    /// The number of items asked for in one page.
    pub closed spec fn spec_page_size(&self) -> u32 {
        self.page_size
    }

    /// Whether the session keeps cookies from one request to the next.
    pub closed spec fn spec_cookie_persistence(&self) -> bool {
        self.cookie_persistence
    }

    /// The adapter with the default settings.
    pub fn new() -> (sailor: TntSailor)
        ensures
            sailor.spec_page_size() == DEFAULT_PAGE_SIZE,
            sailor.spec_cookie_persistence(),
    {
        TntSailor::builder().build()
    }

    /// A builder with no setting made yet.
    pub fn builder() -> (builder: TntSailorBuilder)
        ensures
            builder.chosen_page_size() is None,
            builder.chosen_cookie_persistence() is None,
    {
        TntSailorBuilder { page_size: None, cookie_persistence: None }
    }

    /// The number of items asked for in one page.
    #[verifier::when_used_as_spec(spec_page_size)]
    pub fn page_size(&self) -> (page_size: u32)
        ensures
            page_size == self.spec_page_size(),
    {
        self.page_size
    }

    /// Whether the session is to keep cookies from one request to the next.
    #[verifier::when_used_as_spec(spec_cookie_persistence)]
    pub fn cookie_persistence(&self) -> (enabled: bool)
        ensures
            enabled == self.spec_cookie_persistence(),
    {
        self.cookie_persistence
    }
}

impl Default for TntSailor {
    fn default() -> (sailor: TntSailor)
        ensures
            sailor.spec_page_size() == DEFAULT_PAGE_SIZE,
            sailor.spec_cookie_persistence(),
    {
        TntSailor::new()
    }
}

/// Cuts a postal code down to the leading characters that the vendor goes
/// by.
pub fn truncate_location(postcode: &str) -> (prefix: String)
    ensures
        prefix@ == location_prefix(postcode@),
{
    let length = postcode.unicode_len();
    if length <= TNT_LOCATION_PREFIX {
        String::from_str(postcode)
    } else {
        String::from_str(postcode.substring_char(0, TNT_LOCATION_PREFIX))
    }
}

impl Sailor for TntSailor {
    type Record = TntProduct;

    open spec fn vendor(&self) -> Seq<char> {
        TNT_VENDOR@
    }

    open spec fn plan(&self, location: Seq<char>) -> HandshakeView {
        tnt_plan(location, self.spec_page_size())
    }

    open spec fn canonical(&self, records: Seq<TntProduct>) -> Seq<ProductView> {
        normalized(record_views(records))
    }

    fn get_sale_products(&self, location: String) -> (handshake: Handshake) {
        let mut location_query: Vec<(String, String)> = Vec::new();
        location_query.push((String::from_str("postcode"), truncate_location(location.as_str())));
        let request = Request {
            url: String::from_str(TNT_API_URL).concat(TNT_LOCATION_ROUTE),
            query: location_query,
        };
        assert(request@.query =~= location_request(location@).query);
        let mut page_query: Vec<(String, String)> = Vec::new();
        page_query.push((String::from_str("page"), String::from_str("1")));
        page_query.push((String::from_str("pageSize"), decimal_text(self.page_size)));
        let fetch = Request {
            url: String::from_str(TNT_API_URL).concat(TNT_SPECIALS_ROUTE),
            query: page_query,
        };
        assert(fetch@.query =~= specials_request(self.page_size).query);
        Handshake::new(request, fetch, String::from_str(TNT_ITEMS_PATH))
    }

    fn normalize(&self, records: Vec<TntProduct>) -> (products: Vec<Product>) {
        let products = self::normalize(records);
        proof {
            let all = record_views(records@);
            assert forall|i: int| 0 <= i < products.len() implies {
                &&& (#[trigger] products[i])@.vendor == self.vendor()
                &&& products[i]@.well_formed()
            } by {
                assert(product_views(products@)[i] == products[i]@);
                lemma_products_are_well_formed(all, i);
            }
        }
        products
    }
}

} // verus!
