use pico_notifier::resolver::{
    first_record, fixed_address, query_kind_for, reverse_lookup, AddressFamily, DnsQueryKind,
    Ipv4Address, ResolveError,
};

#[test]
fn empty_result_set_is_resolution_failed() {
    let records: Vec<Ipv4Address> = vec![];
    assert_eq!(first_record(&records), Err(ResolveError::ResolutionFailed));
}

#[test]
fn first_record_is_taken() {
    let a = Ipv4Address { o0: 162, o1: 159, o2: 135, o3: 232 };
    let b = Ipv4Address { o0: 10, o1: 0, o2: 0, o3: 1 };
    let records = vec![a, b];
    assert_eq!(first_record(&records), Ok(a));
}

#[test]
fn either_family_issues_the_ipv4_query() {
    assert_eq!(
        query_kind_for(AddressFamily::Either),
        query_kind_for(AddressFamily::IpV4)
    );
    assert_eq!(query_kind_for(AddressFamily::Either), DnsQueryKind::A);
}

#[test]
fn ipv6_family_issues_the_quad_a_query() {
    assert_eq!(query_kind_for(AddressFamily::IpV6), DnsQueryKind::Aaaa);
}

#[test]
fn reverse_lookup_is_always_empty() {
    let a = Ipv4Address { o0: 8, o1: 8, o2: 8, o3: 8 };
    let name = reverse_lookup(a).unwrap();
    assert_eq!(name, "");
}

#[test]
fn fixed_resolver_hands_out_the_known_address() {
    let a = fixed_address();
    assert_eq!((a.o0, a.o1, a.o2, a.o3), (162, 159, 135, 232));
}
