use crate::dns::DnsError;
use crate::http::UpstreamError;
use vstd::prelude::*;

verus! {

/// Why the whole operation failed. Every failure ends it: nothing is tried
/// again and nothing is delivered in part.
#[derive(Clone, Copy, Debug, PartialEq, Eq, Structural)]
pub enum Failure {
    /// The command line could not be used.
    Usage,
    /// The host's address could not be found out.
    Resolution(DnsError),
    /// The name server answered, but with no address for the host.
    NoAddress,
    /// The page could not be fetched.
    Fetch(UpstreamError),
}

/// The kinds of failure that a caller of the program can tell apart.
#[derive(Clone, Copy, Debug, PartialEq, Eq, Structural)]
pub enum Category {
    Usage,
    Dns,
    Network,
}

/// The kind of a failure. A URL without a host is a mistake of the caller;
/// everything else that stops a fetch is the network's.
pub open spec fn category_of(failure: Failure) -> Category {
    match failure {
        Failure::Usage => Category::Usage,
        Failure::Resolution(_) => Category::Dns,
        Failure::NoAddress => Category::Dns,
        Failure::Fetch(UpstreamError::InvalidUrl) => Category::Usage,
        Failure::Fetch(_) => Category::Network,
    }
}

/// The exit status that stands for a kind of failure.
pub open spec fn status_of(category: Category) -> u8 {
    match category {
        Category::Usage => 2,
        Category::Dns => 3,
        Category::Network => 4,
    }
}

/// The kind of a failure.
pub fn category(failure: Failure) -> (category: Category)
    ensures
        category == category_of(failure),
{
    match failure {
        Failure::Usage => Category::Usage,
        Failure::Resolution(_) => Category::Dns,
        Failure::NoAddress => Category::Dns,
        Failure::Fetch(UpstreamError::InvalidUrl) => Category::Usage,
        Failure::Fetch(_) => Category::Network,
    }
}

/// The exit status of the process after a failure: never zero, and
/// different for different kinds of failure.
pub fn exit_status(failure: Failure) -> (status: u8)
    ensures
        status == status_of(category_of(failure)),
        status != 0,
{
    match category(failure) {
        Category::Usage => 2,
        Category::Dns => 3,
        Category::Network => 4,
    }
}

/// Two failures have the same exit status exactly if they are of the same
/// kind, and success (zero) is the status of none.
pub proof fn lemma_status_tells_categories_apart(first: Failure, second: Failure)
    ensures
        status_of(category_of(first)) == status_of(category_of(second)) <==> category_of(first)
            == category_of(second),
        status_of(category_of(first)) != 0,
{
}

} // verus!
