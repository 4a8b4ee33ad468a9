//! Domain model for authentication and authorization: the closed sets of
//! service callers, permissions, and roles, and the registered service tokens.

use vstd::prelude::*;

verus! {

/// Token of the vendor sourcing service.
pub const VENDOR_SOURCING: &'static str = "6db46e37-2e76-420d-ae41-8091c43bb790";

/// Token of the retriever service.
pub const RETRIEVER: &'static str = "fc2b6164-aefc-4d66-89dc-5e463f946ad3";

/// Token of the crawler service.
pub const CRAWLER: &'static str = "e3b0c442-98fc-1c14-9afc-4c8996fb9242";

/// Service client identifiers: the closed set of known callers.
#[derive(Debug, Clone, Copy, PartialEq, Eq, Hash)]
pub enum ClientId {
    VendorSourcing,
    Retriever,
    Crawler,
}

/// Permission types for service authorization.
#[derive(Debug, Clone, Copy, PartialEq, Eq, Hash)]
pub enum Permission {
    FetchUrl,
    TestPermission,
}

/// Role types for service authorization.
#[derive(Debug, Clone, Copy, PartialEq, Eq, Hash)]
pub enum Role {
    TestRole,
}

} // verus!
