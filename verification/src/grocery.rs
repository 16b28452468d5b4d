//! The canonical product record and what every vendor adapter shares: the
//! requests it asks for, the replies it is told of, and the errors it
//! reports.

pub mod protocol;
pub mod tnt;

use crate::common::{same_amount, Decimal};
use vstd::prelude::*;

verus! {

/// The prices of one product.
#[derive(Clone, Copy, Debug, PartialEq)]
pub struct Prices {
    /// The price without any discount.
    pub original: Decimal,
    /// The discounted price, where there is a discount.
    pub sale: Option<Decimal>,
}

impl Prices {
    /// A sale price, where there is one, is another number than the
    /// original price.
    pub open spec fn well_formed(&self) -> bool {
        self.sale matches Some(sale) ==> !same_amount(sale, self.original)
    }

    /// The prices that a vendor's pair of amounts stands for: `offered` is a
    /// sale price only where it is another number than `original`.
    pub open spec fn spec_quoted(original: Decimal, offered: Decimal) -> Prices {
        Prices {
            original,
            sale: if same_amount(offered, original) {
                None
            } else {
                Some(offered)
            },
        }
    }

    /// Builds the prices from the amount before the discount and the amount
    /// that is asked now.
    pub fn quoted(original: Decimal, offered: Decimal) -> (prices: Prices)
        ensures
            prices == Prices::spec_quoted(original, offered),
            prices.well_formed(),
    {
        Prices {
            original,
            sale: if offered != original {
                Some(offered)
            } else {
                None
            },
        }
    }
}

/// A product on sale, in the form that is the same for every vendor.
#[derive(Clone, Debug, PartialEq)]
pub struct Product {
    pub name: String,
    /// The unit of measure, where the vendor names one.
    pub units: Option<String>,
    pub prices: Prices,
    /// The vendor's name, the same for every product of one adapter.
    pub vendor: String,
    pub vendor_id: String,
    pub vendor_sku: String,
}

/// What a `Product` holds, as mathematical values.
pub struct ProductView {
    pub name: Seq<char>,
    pub units: Option<Seq<char>>,
    pub prices: Prices,
    pub vendor: Seq<char>,
    pub vendor_id: Seq<char>,
    pub vendor_sku: Seq<char>,
}

impl View for Product {
    type V = ProductView;

    open spec fn view(&self) -> ProductView {
        ProductView {
            name: self.name@,
            units: match self.units {
                Some(units) => Some(units@),
                None => None,
            },
            prices: self.prices,
            vendor: self.vendor@,
            vendor_id: self.vendor_id@,
            vendor_sku: self.vendor_sku@,
        }
    }
}

impl ProductView {
    /// The units are named or absent, never empty, and the prices are well
    /// formed.
    pub open spec fn well_formed(&self) -> bool {
        &&& self.prices.well_formed()
        &&& self.units matches Some(units) ==> units.len() > 0
    }
}

/// The views of a sequence of products, in order.
pub open spec fn product_views(products: Seq<Product>) -> Seq<ProductView> {
    products.map_values(|product: Product| product@)
}

/// The step of a fetch at which something went wrong.
#[derive(Clone, Copy, Debug, PartialEq, Eq, Structural)]
pub enum Phase {
    /// Telling the vendor where the caller is.
    Handshake,
    /// Asking for the page of products on sale.
    Fetch,
}

/// What is wrong with a vendor's answer.
#[derive(Clone, Copy, Debug, PartialEq, Eq, Structural)]
pub enum PayloadFault {
    /// The body is no document at all.
    Unreadable,
    /// The document holds no list of items where the vendor used to put it.
    ContainerMissing,
    /// The list is there, but an item in it has not the expected shape.
    ItemMalformed,
}

/// Why a fetch produced no products.
#[derive(Clone, Copy, Debug, PartialEq, Eq, Structural)]
pub enum SailError {
    /// A request could not be sent, in the given phase.
    Transport(Phase),
    /// The vendor answered the fetch with a status that is no success.
    Upstream(u16),
    /// The vendor's answer could not be understood.
    Payload(PayloadFault),
}

impl SailError {
    /// A short text that says what failed.
    pub open spec fn spec_describe(&self) -> Seq<char> {
        match self {
            SailError::Transport(_) => "failed to send request"@,
            SailError::Upstream(_) => "bad response"@,
            SailError::Payload(PayloadFault::Unreadable) => "failed to parse response"@,
            SailError::Payload(PayloadFault::ItemMalformed) => "failed to parse response items"@,
            SailError::Payload(PayloadFault::ContainerMissing) => "missing response items"@,
        }
    }

    /// A short text that says what failed.
    pub fn describe(&self) -> (text: &'static str)
        ensures
            text@ == self.spec_describe(),
    {
        match self {
            SailError::Transport(_) => "failed to send request",
            SailError::Upstream(_) => "bad response",
            SailError::Payload(PayloadFault::Unreadable) => "failed to parse response",
            SailError::Payload(PayloadFault::ItemMalformed) => "failed to parse response items",
            SailError::Payload(PayloadFault::ContainerMissing) => "missing response items",
        }
    }
}

/// What came of sending a request.
#[derive(Clone, Copy, Debug, PartialEq, Eq, Structural)]
pub enum Reply {
    /// The vendor answered, with this status code.
    Status(u16),
    /// The request could not be sent, or no answer came.
    Unsent,
}

/// A status code from 200 to 299.
pub open spec fn spec_is_success(status: u16) -> bool {
    200 <= status < 300
}

/// Whether a status code reports success.
#[verifier::when_used_as_spec(spec_is_success)]
pub fn is_success(status: u16) -> (success: bool)
    ensures
        success == spec_is_success(status),
{
    200 <= status && status < 300
}

/// A request for the caller to send: an address and the parameters of its
/// query, in order.
#[derive(Clone, Debug, PartialEq)]
pub struct Request {
    pub url: String,
    pub query: Vec<(String, String)>,
}

/// What a `Request` holds, as mathematical values.
pub struct RequestView {
    pub url: Seq<char>,
    pub query: Seq<(Seq<char>, Seq<char>)>,
}

impl View for Request {
    type V = RequestView;

    open spec fn view(&self) -> RequestView {
        RequestView {
            url: self.url@,
            query: self.query@.map_values(|pair: (String, String)| (pair.0@, pair.1@)),
        }
    }
}

/// What the caller found in the body of the vendor's answer, where `R` is
/// the vendor's record.
#[derive(Clone, Debug)]
pub enum Extraction<R> {
    /// The list of items, each of the expected shape.
    Found(Vec<R>),
    /// The document has no list of items at the expected place.
    Missing,
    /// The list is there, but an item in it has not the expected shape.
    Malformed,
    /// The body is no document.
    Unreadable,
}

impl<R> Extraction<R> {
    /// The records that were found, or the fault that the extraction
    /// amounts to.
    pub open spec fn outcome(self) -> Result<Seq<R>, SailError> {
        match self {
            Extraction::Found(records) => Ok(records@),
            Extraction::Missing => Err(SailError::Payload(PayloadFault::ContainerMissing)),
            Extraction::Malformed => Err(SailError::Payload(PayloadFault::ItemMalformed)),
            Extraction::Unreadable => Err(SailError::Payload(PayloadFault::Unreadable)),
        }
    }
}

/// A vendor adapter: the one capability that every vendor offers, whatever
/// its requests and its records look like.
pub trait Sailor {
    /// One item as this vendor lists it.
    type Record;

    /// The vendor's name, which every product of this adapter carries.
    spec fn vendor(&self) -> Seq<char>;

    /// The requests of one fetch for the given location.
    spec fn plan(&self, location: Seq<char>) -> protocol::HandshakeView;

    /// The canonical products that the given records stand for.
    spec fn canonical(&self, records: Seq<Self::Record>) -> Seq<ProductView>;

    /// Begins a fetch of the products on sale near `location`. The result
    /// is the first step of the fetch, see `protocol`.
    fn get_sale_products(&self, location: String) -> (handshake: protocol::Handshake)
        ensures
            handshake@ == self.plan(location@),
    ;

    /// Ends a fetch: turns the vendor's records into canonical products.
    /// Each of them carries the vendor's name and is well formed.
    fn normalize(&self, records: Vec<Self::Record>) -> (products: Vec<Product>)
        ensures
            product_views(products@) == self.canonical(records@),
            forall|i: int|
                0 <= i < products.len() ==> {
                    &&& (#[trigger] products[i])@.vendor == self.vendor()
                    &&& products[i]@.well_formed()
                },
    ;
}

/// The products that one whole fetch yields, or the error that ends it,
/// given what came of each of its three steps.
pub open spec fn sale_products<S: Sailor>(
    sailor: &S,
    location: Seq<char>,
    handshake: Reply,
    fetch: Reply,
    extraction: Extraction<S::Record>,
) -> Result<Seq<ProductView>, SailError> {
    match protocol::fetch_outcome(sailor.plan(location), handshake, fetch, extraction) {
        Ok(records) => Ok(sailor.canonical(records)),
        Err(error) => Err(error),
    }
}

/// A handshake that the vendor refuses does not stand in the way of the
/// fetch: whatever status answers the handshake, the request that follows is
/// the one that was planned, and a fetch that is answered with success and
/// whose items are found yields the products of exactly those items.
pub proof fn lemma_refused_handshake_is_not_fatal<S: Sailor>(
    sailor: &S,
    location: Seq<char>,
    handshake_status: u16,
    fetch_status: u16,
    records: Vec<S::Record>,
)
    requires
        is_success(fetch_status),
    ensures
        sailor.plan(location).answered(Reply::Status(handshake_status)) matches Ok(fetch)
            && fetch.request == sailor.plan(location).fetch,
        sale_products(
            sailor,
            location,
            Reply::Status(handshake_status),
            Reply::Status(fetch_status),
            Extraction::Found(records),
        ) == Ok::<Seq<ProductView>, SailError>(sailor.canonical(records@)),
{
}

/// A fetch that the vendor refuses is fatal: the outcome is the error that
/// carries the status, whatever the body of the answer held, and no step
/// follows from which products could be had.
pub proof fn lemma_refused_fetch_is_fatal<S: Sailor>(
    sailor: &S,
    location: Seq<char>,
    handshake_status: u16,
    fetch_status: u16,
    extraction: Extraction<S::Record>,
)
    requires
        !is_success(fetch_status),
    ensures
        sailor.plan(location).answered(Reply::Status(handshake_status)) matches Ok(fetch)
            && fetch.answered(Reply::Status(fetch_status)) == Err::<
            protocol::ExtractView,
            SailError,
        >(SailError::Upstream(fetch_status)),
        sale_products(
            sailor,
            location,
            Reply::Status(handshake_status),
            Reply::Status(fetch_status),
            extraction,
        ) == Err::<Seq<ProductView>, SailError>(SailError::Upstream(fetch_status)),
{
}

/// A request that cannot be sent ends the fetch in either phase, with the
/// error that names the phase.
pub proof fn lemma_unsent_request_is_fatal<S: Sailor>(
    sailor: &S,
    location: Seq<char>,
    handshake_status: u16,
    fetch: Reply,
    extraction: Extraction<S::Record>,
)
    ensures
        sale_products(sailor, location, Reply::Unsent, fetch, extraction) == Err::<
            Seq<ProductView>,
            SailError,
        >(SailError::Transport(Phase::Handshake)),
        sale_products(
            sailor,
            location,
            Reply::Status(handshake_status),
            Reply::Unsent,
            extraction,
        ) == Err::<Seq<ProductView>, SailError>(SailError::Transport(Phase::Fetch)),
{
}

/// A fetch whose two requests are answered, the second with success, ends
/// as the extraction does: with the products of the items that were found,
/// or with the fault of the payload.
pub proof fn lemma_answered_fetch_ends_as_its_extraction<S: Sailor>(
    sailor: &S,
    location: Seq<char>,
    handshake_status: u16,
    fetch_status: u16,
    extraction: Extraction<S::Record>,
)
    requires
        is_success(fetch_status),
    ensures
        sale_products(
            sailor,
            location,
            Reply::Status(handshake_status),
            Reply::Status(fetch_status),
            extraction,
        ) == match extraction {
            Extraction::Found(records) => Ok::<Seq<ProductView>, SailError>(
                sailor.canonical(records@),
            ),
            Extraction::Missing => Err(SailError::Payload(PayloadFault::ContainerMissing)),
            Extraction::Malformed => Err(SailError::Payload(PayloadFault::ItemMalformed)),
            Extraction::Unreadable => Err(SailError::Payload(PayloadFault::Unreadable)),
        },
{
}

} // verus!
