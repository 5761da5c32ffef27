//! Emptiness tests that decide which fields the written manifest leaves out.

use vstd::prelude::*;
use crate::compose::{Network, ServiceVolume, Volume};
use crate::ordered_map::OrderedMap;

verus! {

/// Whether a list of strings is empty.
pub fn is_vec_empty(n: &Vec<String>) -> (r: bool)
    ensures
        r == (n@.len() == 0),
{
    n.len() == 0
}

/// Whether a map of strings (environment, labels) is empty.
pub fn is_hashmap_empty(n: &OrderedMap<String>) -> (r: bool)
    ensures
        r == (n@.len() == 0),
{
    n.is_empty()
}

/// Whether the manifest's networks are empty.
pub fn is_compose_networks_empty(n: &OrderedMap<Network>) -> (r: bool)
    ensures
        r == (n@.len() == 0),
{
    n.is_empty()
}

/// Whether the manifest's volumes are empty.
pub fn is_compose_volumes_empty(n: &OrderedMap<Volume>) -> (r: bool)
    ensures
        r == (n@.len() == 0),
{
    n.is_empty()
}

/// Whether a service has no mount clause.
pub fn is_service_volumes_empty(n: &Vec<ServiceVolume>) -> (r: bool)
    ensures
        r == (n@.len() == 0),
{
    n.is_empty()
}

/// Whether a string is empty.
pub fn is_string_empty(n: &String) -> (r: bool)
    ensures
        r == (n@.len() == 0),
{
    n.as_str().is_empty()
}

} // verus!
