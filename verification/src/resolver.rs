//! The name-resolution adapter: maps a caller's address-family request
//! onto the stack-native DNS query type, and turns the stack's record
//! list into one address or a `ResolutionFailed` error. The query itself
//! is network work done by the surrounding runtime; the decisions on
//! both sides of it live here.

use vstd::prelude::*;

verus! {

/// The address family a caller may ask for.
#[derive(Clone, Copy, PartialEq, Eq, Structural, Debug)]
pub enum AddressFamily {
    IpV4,
    IpV6,
    Either,
}

/// The query types the network stack understands.
#[derive(Clone, Copy, PartialEq, Eq, Structural, Debug)]
pub enum DnsQueryKind {
    A,
    Aaaa,
}

/// An IPv4 address record, one octet per field, most significant first.
#[derive(Clone, Copy, PartialEq, Eq, Structural, Debug)]
pub struct Ipv4Address {
    pub o0: u8,
    pub o1: u8,
    pub o2: u8,
    pub o3: u8,
}

/// Why a lookup failed.
#[derive(Clone, Copy, PartialEq, Eq, Structural, Debug)]
pub enum ResolveError {
    /// The query returned no usable record.
    ResolutionFailed,
}

/// The family-to-query mapping: IPv4 defaults are used whenever the
/// caller accepts either family. A deliberate simplification, not a
/// dual-stack policy.
pub open spec fn spec_query_kind(family: AddressFamily) -> DnsQueryKind {
    match family {
        AddressFamily::IpV4 => DnsQueryKind::A,
        AddressFamily::IpV6 => DnsQueryKind::Aaaa,
        AddressFamily::Either => DnsQueryKind::A,
    }
}

/// Choose the stack-native query type for a requested address family.
pub fn query_kind_for(family: AddressFamily) -> (kind: DnsQueryKind)
    ensures
        kind == spec_query_kind(family),
{
    match family {
        AddressFamily::IpV4 => DnsQueryKind::A,
        AddressFamily::IpV6 => DnsQueryKind::Aaaa,
        AddressFamily::Either => DnsQueryKind::A,
    }
}

/// Accepting either address family issues exactly the query type an
/// IPv4 request issues.
pub proof fn lemma_either_queries_as_ipv4()
    ensures
        spec_query_kind(AddressFamily::Either) == spec_query_kind(AddressFamily::IpV4),
{
}

/// Take the first record of a query's result set, or fail with
/// `ResolutionFailed` when the set is empty. Never a default address,
/// never a panic.
pub fn first_record(records: &Vec<Ipv4Address>) -> (r: Result<Ipv4Address, ResolveError>)
    ensures
        records@.len() == 0 ==> r == Result::<Ipv4Address, ResolveError>::Err(
            ResolveError::ResolutionFailed,
        ),
        records@.len() > 0 ==> r == Result::<Ipv4Address, ResolveError>::Ok(records@[0]),
{
    if records.len() == 0 {
        Err(ResolveError::ResolutionFailed)
    } else {
        Ok(records[0])
    }
}

/// A reverse lookup is defined but resolution is strictly one-directional
/// here: the answer is always the empty name, for any address.
pub fn reverse_lookup(_address: Ipv4Address) -> (r: Result<String, ResolveError>)
    ensures
        r matches Ok(name) && name@ == Seq::<char>::empty(),
{
    Ok(String::new())
}

/// The one address the fixed-response resolver hands out.
pub open spec fn spec_fixed_address() -> Ipv4Address {
    Ipv4Address { o0: 162, o1: 159, o2: 135, o3: 232 }
}

/// The fixed-response variant of the adapter: always the same address,
/// never a query on the network, never a failure. Usable in place of the
/// adapter where DNS is undesired.
pub fn fixed_address() -> (a: Ipv4Address)
    ensures
        a == spec_fixed_address(),
{
    Ipv4Address { o0: 162, o1: 159, o2: 135, o3: 232 }
}

} // verus!
