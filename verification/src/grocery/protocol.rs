//! The steps of one fetch, in the order in which they must be taken.
//!
//! A fetch tells the vendor where the caller is, then asks for one page of
//! products on sale, then reads the items out of the answer. Each step is a
//! value that holds what the caller has to do next; handing it what came of
//! that yields the following step or the error that ends the fetch. A later
//! step can only be had from the one before it.

use crate::grocery::{
    is_success, Extraction, PayloadFault, Phase, Reply, Request, RequestView, SailError,
};
use vstd::prelude::*;

verus! {

/// The first step: the request that tells the vendor where the caller is is
/// to be sent.
#[derive(Debug)]
pub struct Handshake {
    request: Request,
    fetch: Request,
    items_path: String,
}

/// What a `Handshake` holds, as mathematical values.
pub struct HandshakeView {
    /// The request to send now.
    pub request: RequestView,
    /// The request to send once this one has been answered.
    pub fetch: RequestView,
    /// Where in the answer to the fetch the list of items stands.
    pub items_path: Seq<char>,
}

/// The second step: the request for the page of products is to be sent.
#[derive(Debug)]
pub struct Fetch {
    request: Request,
    warning: Option<u16>,
    items_path: String,
}

/// What a `Fetch` holds, as mathematical values.
pub struct FetchView {
    /// The request to send now.
    pub request: RequestView,
    /// The status with which the vendor refused the handshake, if it did.
    pub warning: Option<u16>,
    /// Where in the answer the list of items stands.
    pub items_path: Seq<char>,
}

/// The third step: the items are to be read out of the vendor's answer.
#[derive(Debug)]
pub struct Extract {
    items_path: String,
}

/// What an `Extract` holds, as mathematical values.
pub struct ExtractView {
    /// Where in the answer the list of items stands.
    pub items_path: Seq<char>,
}

impl HandshakeView {
    /// The step after the handshake. Only a request that could not be sent
    /// ends the fetch: whatever status the vendor answers with, the fetch
    /// goes on, and a status that is no success is kept as a warning.
    pub open spec fn answered(self, reply: Reply) -> Result<FetchView, SailError> {
        match reply {
            Reply::Unsent => Err(SailError::Transport(Phase::Handshake)),
            Reply::Status(status) => Ok(
                FetchView {
                    request: self.fetch,
                    warning: if is_success(status) {
                        None
                    } else {
                        Some(status)
                    },
                    items_path: self.items_path,
                },
            ),
        }
    }
}

impl FetchView {
    /// The step after the fetch. A request that could not be sent and a
    /// status that is no success both end the fetch.
    pub open spec fn answered(self, reply: Reply) -> Result<ExtractView, SailError> {
        match reply {
            Reply::Unsent => Err(SailError::Transport(Phase::Fetch)),
            Reply::Status(status) => if is_success(status) {
                Ok(ExtractView { items_path: self.items_path })
            } else {
                Err(SailError::Upstream(status))
            },
        }
    }
}

/// The records that one whole fetch yields, or the error that ends it, given
/// what came of each of its three steps. The extraction is looked at only
/// where both requests led to it.
pub open spec fn fetch_outcome<R>(
    plan: HandshakeView,
    handshake: Reply,
    fetch: Reply,
    extraction: Extraction<R>,
) -> Result<Seq<R>, SailError> {
    match plan.answered(handshake) {
        Err(error) => Err(error),
        Ok(fetching) => match fetching.answered(fetch) {
            Err(error) => Err(error),
            Ok(_) => extraction.outcome(),
        },
    }
}

impl View for Handshake {
    type V = HandshakeView;

    closed spec fn view(&self) -> HandshakeView {
        HandshakeView {
            request: self.request@,
            fetch: self.fetch@,
            items_path: self.items_path@,
        }
    }
}

impl View for Fetch {
    type V = FetchView;

    closed spec fn view(&self) -> FetchView {
        FetchView { request: self.request@, warning: self.warning, items_path: self.items_path@ }
    }
}

impl View for Extract {
    type V = ExtractView;

    closed spec fn view(&self) -> ExtractView {
        ExtractView { items_path: self.items_path@ }
    }
}

impl Handshake {
    /// Plans a fetch: `request` is sent first, `fetch` once it has been
    /// answered, and the items are then looked for at `items_path`.
    pub fn new(request: Request, fetch: Request, items_path: String) -> (handshake: Handshake)
        ensures
            handshake@ == (HandshakeView {
                request: request@,
                fetch: fetch@,
                items_path: items_path@,
            }),
    {
        Handshake { request, fetch, items_path }
    }

    /// The request to send now.
    pub fn request(&self) -> (request: &Request)
        ensures
            request@ == self@.request,
    {
        &self.request
    }

    /// Takes what came of sending the request, and gives the next step.
    pub fn answered(self, reply: Reply) -> (next: Result<Fetch, SailError>)
        ensures
            match next {
                Ok(fetch) => self@.answered(reply) == Ok::<FetchView, SailError>(fetch@),
                Err(error) => self@.answered(reply) == Err::<FetchView, SailError>(error),
            },
    {
        match reply {
            Reply::Unsent => Err(SailError::Transport(Phase::Handshake)),
            Reply::Status(status) => {
                let warning = if is_success(status) {
                    None
                } else {
                    Some(status)
                };
                Ok(Fetch { request: self.fetch, warning, items_path: self.items_path })
            },
        }
    }
}

impl Fetch {
    /// The request to send now.
    pub fn request(&self) -> (request: &Request)
        ensures
            request@ == self@.request,
    {
        &self.request
    }

    /// The status with which the vendor refused the handshake, if it did:
    /// worth a warning, and no more.
    pub fn warning(&self) -> (warning: Option<u16>)
        ensures
            warning == self@.warning,
    {
        self.warning
    }

    /// Takes what came of sending the request, and gives the next step.
    pub fn answered(self, reply: Reply) -> (next: Result<Extract, SailError>)
        ensures
            match next {
                Ok(extract) => self@.answered(reply) == Ok::<ExtractView, SailError>(extract@),
                Err(error) => self@.answered(reply) == Err::<ExtractView, SailError>(error),
            },
    {
        match reply {
            Reply::Unsent => Err(SailError::Transport(Phase::Fetch)),
            Reply::Status(status) => if is_success(status) {
                Ok(Extract { items_path: self.items_path })
            } else {
                Err(SailError::Upstream(status))
            },
        }
    }
}

impl Extract {
    /// Where in the answer the list of items stands, as a path of keys
    /// joined by dots.
    pub fn items_path(&self) -> (path: &str)
        ensures
            path@ == self@.items_path,
    {
        self.items_path.as_str()
    }

    /// Takes what the caller found in the answer, and gives the vendor's
    /// records or the fault that ends the fetch.
    pub fn extracted<R>(self, extraction: Extraction<R>) -> (records: Result<Vec<R>, SailError>)
        ensures
            match records {
                Ok(found) => extraction == Extraction::Found(found),
                Err(error) => extraction.outcome() == Err::<Seq<R>, SailError>(error),
            },
    {
        match extraction {
            Extraction::Found(records) => Ok(records),
            Extraction::Missing => Err(SailError::Payload(PayloadFault::ContainerMissing)),
            Extraction::Malformed => Err(SailError::Payload(PayloadFault::ItemMalformed)),
            Extraction::Unreadable => Err(SailError::Payload(PayloadFault::Unreadable)),
        }
    }
}

} // verus!
