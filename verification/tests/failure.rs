use microget::dns::DnsError;
use microget::failure::{category, exit_status, Category, Failure};
use microget::http::{StackError, UpstreamError};

#[test]
fn every_failure_has_a_nonzero_status() {
    assert_eq!(exit_status(Failure::Usage), 2);
    assert_eq!(exit_status(Failure::Fetch(UpstreamError::InvalidUrl)), 2);
    assert_eq!(exit_status(Failure::NoAddress), 3);
    for e in [
        DnsError::ParseDomain,
        DnsError::ParseDnsServerAddr,
        DnsError::Encoding,
        DnsError::Decoding,
        DnsError::Network,
        DnsError::Sending,
        DnsError::Receiving,
    ] {
        assert_eq!(exit_status(Failure::Resolution(e)), 3);
        assert_eq!(category(Failure::Resolution(e)), Category::Dns);
    }
    assert_eq!(exit_status(Failure::Fetch(UpstreamError::Network(StackError::Illegal))), 4);
    assert_eq!(exit_status(Failure::Fetch(UpstreamError::Content)), 4);
}

#[test]
fn categories_are_told_apart() {
    assert_eq!(category(Failure::Usage), Category::Usage);
    assert_eq!(category(Failure::NoAddress), Category::Dns);
    assert_eq!(category(Failure::Fetch(UpstreamError::InvalidUrl)), Category::Usage);
    assert_eq!(category(Failure::Fetch(UpstreamError::Content)), Category::Network);
    assert_eq!(
        category(Failure::Fetch(UpstreamError::Network(StackError::Dropped))),
        Category::Network
    );
}
