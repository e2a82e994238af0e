//! How a monitor envoy addresses the disk monitor of a front-end.
use crate::constants::ADDRESS_START;
use crate::text::{decimal, push_decimal, push_str};
use std::ops::Deref;
use vstd::prelude::*;

verus! {

/// Port of the disk monitor of a front-end.
pub const SENTRY_PORT: usize = 8080;

/// Base address of the disk monitor of front-end `id`.
pub open spec fn sentry_base(id: usize) -> Seq<char> {
    "http://"@ + ADDRESS_START@ + "."@ + decimal(60 + id as nat) + ":"@ + decimal(
        SENTRY_PORT as nat,
    )
}

/// How a monitor envoy addresses its monitor.
#[derive(Debug)]
pub struct SentryConfig {
    id: usize,
    base_address: String,
}

impl SentryConfig {
    /// The front-end id.
    pub closed spec fn spec_id(&self) -> usize {
        self.id
    }

    /// The base address of the monitor.
    pub closed spec fn spec_base(&self) -> Seq<char> {
        self.base_address@
    }

    /// The configuration of the monitor of front-end `id`.
    pub fn new(id: usize) -> (r: Self)
        requires
            id <= usize::MAX - 60,
        ensures
            r.spec_id() == id,
            r.spec_base() == sentry_base(id),
    {
        let mut base_address = String::new();
        push_str(&mut base_address, "http://");
        push_str(&mut base_address, ADDRESS_START);
        push_str(&mut base_address, ".");
        push_decimal(&mut base_address, (60 + id) as u64);
        push_str(&mut base_address, ":");
        push_decimal(&mut base_address, SENTRY_PORT as u64);
        Self { id, base_address }
    }

    /// The front-end id.
    pub fn id(&self) -> (r: usize)
        ensures
            r == self.spec_id(),
    {
        self.id
    }

    fn at(&self, path: &str) -> (r: String)
        ensures
            r@ == self.spec_base() + path@,
    {
        let mut r = self.base_address.clone();
        push_str(&mut r, path);
        r
    }

    /// Where the monitor reports its status.
    pub fn status(&self) -> (r: String)
        ensures
            r@ == self.spec_base() + "/status"@,
    {
        self.at("/status")
    }

    /// Where the monitor catalogs a run.
    pub fn catalog(&self) -> (r: String)
        ensures
            r@ == self.spec_base() + "/catalog"@,
    {
        self.at("/catalog")
    }

    /// Where the monitor backs up a run.
    pub fn backup(&self) -> (r: String)
        ensures
            r@ == self.spec_base() + "/backup"@,
    {
        self.at("/backup")
    }
}

} // verus!
