//! The controller's endpoint paths, relative to the base URL.

use vstd::prelude::*;

verus! {

/// The path of the status endpoint.
pub fn status_path() -> (r: String)
    ensures
        r@ == "status"@,
{
    String::from_str("status")
}

/// The path of the network collection.
pub fn networks_path() -> (r: String)
    ensures
        r@ == "controller/network"@,
{
    String::from_str("controller/network")
}

/// The path of one network.
pub fn network_path(id: &str) -> (r: String)
    ensures
        r@ == "controller/network/"@ + id@,
{
    let mut r = String::from_str("controller/network/");
    r.append(id);
    r
}

/// The path that asks the controller for a new network owned by the given
/// node: the fixed trailing marker tells the controller to assign the id.
pub fn create_network_path(node_id: &str) -> (r: String)
    ensures
        r@ == "controller/network/"@ + node_id@ + "______"@,
{
    let mut r = String::from_str("controller/network/");
    r.append(node_id);
    r.append("______");
    r
}

/// The path of a network's member collection.
pub fn members_path(nwid: &str) -> (r: String)
    ensures
        r@ == "controller/network/"@ + nwid@ + "/member"@,
{
    let mut r = String::from_str("controller/network/");
    r.append(nwid);
    r.append("/member");
    r
}

/// The path of one member of a network.
pub fn member_path(nwid: &str, id: &str) -> (r: String)
    ensures
        r@ == "controller/network/"@ + nwid@ + "/member/"@ + id@,
{
    let mut r = String::from_str("controller/network/");
    r.append(nwid);
    r.append("/member/");
    r.append(id);
    r
}

} // verus!
