//! How a surveyor envoy addresses the data router of a front-end.
use crate::constants::ADDRESS_START;
use crate::text::{decimal, push_decimal, push_str};
use std::ops::Deref;
use vstd::prelude::*;

verus! {

/// Port of the status page of a data router.
pub const SURVEYOR_URL_PORT: usize = 8081;

/// Address of the data router of front-end `id`.
pub open spec fn surveyor_address(id: usize) -> Seq<char> {
    ADDRESS_START@ + "."@ + decimal(60 + id as nat)
}

/// Status page at an address.
pub open spec fn surveyor_url(address: Seq<char>) -> Seq<char> {
    "http://"@ + address + ":"@ + decimal(SURVEYOR_URL_PORT as nat) + "/~attpc/surveyor.html"@
}

/// How a surveyor envoy addresses its data router.
#[derive(Debug)]
pub struct SurveyorConfig {
    id: usize,
    address: String,
    url: String,
}

impl SurveyorConfig {
    /// The front-end id.
    pub closed spec fn spec_id(&self) -> usize {
        self.id
    }

    /// The address of the data router.
    pub closed spec fn spec_address(&self) -> Seq<char> {
        self.address@
    }

    /// The status page of the data router.
    pub closed spec fn spec_url(&self) -> Seq<char> {
        self.url@
    }

    /// The configuration of the data router of front-end `id`.
    pub fn new(id: usize) -> (r: Self)
        requires
            id <= usize::MAX - 60,
        ensures
            r.spec_id() == id,
            r.spec_address() == surveyor_address(id),
            r.spec_url() == surveyor_url(surveyor_address(id)),
    {
        let address = Self::address(&id);
        let url = Self::url(address.deref());
        Self { id, address, url }
    }

    /// The address of the data router of front-end `id`.
    pub fn address(id: &usize) -> (r: String)
        requires
            *id <= usize::MAX - 60,
        ensures
            r@ == surveyor_address(*id),
    {
        let mut r = String::new();
        push_str(&mut r, ADDRESS_START);
        push_str(&mut r, ".");
        push_decimal(&mut r, (60 + *id) as u64);
        r
    }

    /// The status page at an address.
    pub fn url(address: &str) -> (r: String)
        ensures
            r@ == surveyor_url(address@),
    {
        let mut r = String::new();
        push_str(&mut r, "http://");
        push_str(&mut r, address);
        push_str(&mut r, ":");
        push_decimal(&mut r, SURVEYOR_URL_PORT as u64);
        push_str(&mut r, "/~attpc/surveyor.html");
        r
    }

    /// The address of the data router.
    pub fn location(&self) -> (r: &String)
        ensures
            r@ == self.spec_address(),
    {
        &self.address
    }

    /// The status page of the data router.
    pub fn page(&self) -> (r: &String)
        ensures
            r@ == self.spec_url(),
    {
        &self.url
    }
}

} // verus!
