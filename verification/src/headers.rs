//! Headers of a request, and the calls into `http` that make them.
use http::{HeaderMap, HeaderValue};
use vstd::multiset::Multiset;
use vstd::prelude::*;

verus! {

/// `http::HeaderMap`, whose content is told by `header_fields`.
#[verifier::external_type_specification]
#[verifier::external_body]
#[verifier::reject_recursive_types(T)]
pub struct ExHeaderMap<T>(HeaderMap<T>);

/// `http::HeaderValue`, which is only carried.
#[verifier::external_type_specification]
#[verifier::external_body]
pub struct ExHeaderValue(HeaderValue);

/// The fields that a `http::HeaderMap` holds: for each its name and the bytes of
/// its value.
pub uninterp spec fn header_fields(headers: HeaderMap<HeaderValue>) -> Multiset<
    (Seq<char>, Seq<u8>),
>;

/// `http::HeaderMap::new` gives a map without fields.
pub assume_specification[ HeaderMap::<HeaderValue>::new ]() -> (headers: HeaderMap<HeaderValue>)
    ensures
        header_fields(headers) == Multiset::<(Seq<char>, Seq<u8>)>::empty(),
;

} // verus!
