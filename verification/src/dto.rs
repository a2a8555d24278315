//! The records mirrored from the controller's JSON schema, together with the
//! human-readable rendering of each.

use vstd::prelude::*;
use crate::text::{copy_opt_string, copy_string, join_all, joined_with, string_views};

verus! {

/// The controller's node status, fetched once at startup.
#[derive(Debug)]
pub struct StatusResponse {
    pub address: String,
    pub online: bool,
    pub version_build: u32,
    pub version_major: u32,
    pub version_minor: u32,
    pub version_rev: u32,
}

/// Whether the controller assigns IPv4 addresses to members automatically.
#[derive(Debug, Clone, Copy, PartialEq, Eq, Structural)]
pub struct NetworkV4AssignMode {
    pub zt: bool,
}

/// A route pushed to the members of a network.
#[derive(Debug)]
pub struct NetworkRoute {
    pub target: String,
    pub via: Option<String>,
}

/// A contiguous address range the controller assigns addresses from.
#[derive(Debug)]
pub struct NetworkIPAssignmentPool {
    pub ip_range_start: String,
    pub ip_range_end: String,
}

/// DNS settings of a network.
#[derive(Debug)]
pub struct NetworkDNS {
    pub domain: String,
    pub servers: Vec<String>,
}

/// A virtual network managed by the controller.
#[derive(Debug)]
pub struct NetworkResponse {
    pub id: String,
    pub name: Option<String>,
    pub v4_assign_mode: NetworkV4AssignMode,
    pub creation_time: i64,
    pub private: bool,
    pub enable_broadcast: bool,
    pub mtu: u32,
    pub routes: Vec<NetworkRoute>,
    pub ip_assignment_pools: Vec<NetworkIPAssignmentPool>,
}

/// A node's membership record within one network.
#[derive(Debug)]
pub struct MemberResponse {
    pub id: String,
    pub nwid: String,
    pub name: Option<String>,
    pub authorized: bool,
    pub authentication_expiry_time: u64,
    pub creation_time: u64,
    pub last_authorized_time: u64,
    pub last_deauthorized_time: u64,
    pub ip_assignments: Vec<String>,
    pub tags: Vec<String>,
}

/// How a route is rendered: target, then its gateway or a null marker.
pub open spec fn route_text(r: NetworkRoute) -> Seq<char> {
    match r.via {
        Some(via) => r.target@ + " via "@ + via@,
        None => r.target@ + " via "@ + "(null)"@,
    }
}

/// How a pool is rendered: the two ends of the range.
pub open spec fn pool_text(p: NetworkIPAssignmentPool) -> Seq<char> {
    p.ip_range_start@ + " -> "@ + p.ip_range_end@
}

/// How a network is listed: its name with the id in parentheses, or the bare
/// id when no non-empty name is set.
pub open spec fn network_text(n: NetworkResponse) -> Seq<char> {
    match n.name {
        Some(name) => if name@.len() == 0 {
            n.id@
        } else {
            name@ + " ("@ + n.id@ + ")"@
        },
        None => n.id@,
    }
}

/// The rendering of a member's assigned addresses: a literal marker when the
/// member has none, the comma-separated list otherwise.
pub open spec fn member_ips_text(m: MemberResponse) -> Seq<char> {
    if m.ip_assignments@.len() == 0 {
        "No IPs"@
    } else {
        joined_with(string_views(m.ip_assignments@), ", "@)
    }
}

/// How a member is listed: its name (when set), then id and addresses.
pub open spec fn member_text(m: MemberResponse) -> Seq<char> {
    match m.name {
        Some(name) => name@ + " ("@ + m.id@ + " ** "@ + member_ips_text(m) + ")"@,
        None => m.id@ + " ("@ + member_ips_text(m) + ")"@,
    }
}

impl NetworkRoute {
    /// Copies the route, preserving its value.
    pub fn dup(&self) -> (r: NetworkRoute)
        ensures
            r == *self,
    {
        NetworkRoute { target: copy_string(&self.target), via: copy_opt_string(&self.via) }
    }

    /// Renders the route for menus and the info screen.
    pub fn display(&self) -> (r: String)
        ensures
            r@ == route_text(*self),
    {
        let mut r = copy_string(&self.target);
        r.append(" via ");
        match &self.via {
            Some(via) => r.append(via.as_str()),
            None => r.append("(null)"),
        }
        proof {
            assert(r@ =~= route_text(*self));
        }
        r
    }
}

impl NetworkIPAssignmentPool {
    /// Copies the pool, preserving its value.
    pub fn dup(&self) -> (r: NetworkIPAssignmentPool)
        ensures
            r == *self,
    {
        NetworkIPAssignmentPool {
            ip_range_start: copy_string(&self.ip_range_start),
            ip_range_end: copy_string(&self.ip_range_end),
        }
    }

    /// Renders the pool as its two range ends.
    pub fn display(&self) -> (r: String)
        ensures
            r@ == pool_text(*self),
    {
        let mut r = copy_string(&self.ip_range_start);
        r.append(" -> ");
        r.append(self.ip_range_end.as_str());
        proof {
            assert(r@ =~= pool_text(*self));
        }
        r
    }
}

impl NetworkResponse {
    /// Renders the network for the list screen and prompts.
    pub fn display(&self) -> (r: String)
        ensures
            r@ == network_text(*self),
    {
        match &self.name {
            Some(name) => {
                if name.as_str().unicode_len() == 0 {
                    copy_string(&self.id)
                } else {
                    let mut r = copy_string(name);
                    r.append(" (");
                    r.append(self.id.as_str());
                    r.append(")");
                    proof {
                        assert(r@ =~= network_text(*self));
                    }
                    r
                }
            },
            None => copy_string(&self.id),
        }
    }
}

impl MemberResponse {
    /// Renders the member's address list, with the no-address marker.
    pub fn ips_display(&self) -> (r: String)
        ensures
            r@ == member_ips_text(*self),
    {
        if self.ip_assignments.len() == 0 {
            String::from_str("No IPs")
        } else {
            join_all(&self.ip_assignments, ", ")
        }
    }

    /// Renders the member for the member list screen.
    pub fn display(&self) -> (r: String)
        ensures
            r@ == member_text(*self),
    {
        let ips = self.ips_display();
        match &self.name {
            Some(name) => {
                let mut r = copy_string(name);
                r.append(" (");
                r.append(self.id.as_str());
                r.append(" ** ");
                r.append(ips.as_str());
                r.append(")");
                proof {
                    assert(r@ =~= member_text(*self));
                }
                r
            },
            None => {
                let mut r = copy_string(&self.id);
                r.append(" (");
                r.append(ips.as_str());
                r.append(")");
                proof {
                    assert(r@ =~= member_text(*self));
                }
                r
            },
        }
    }
}

/// Copies a route list, preserving every entry.
pub fn copy_routes(v: &Vec<NetworkRoute>) -> (r: Vec<NetworkRoute>)
    ensures
        r@ == v@,
{
    let mut r: Vec<NetworkRoute> = Vec::new();
    let mut i: usize = 0;
    while i < v.len()
        invariant
            i <= v.len(),
            r@ =~= v@.take(i as int),
        decreases v.len() - i,
    {
        r.push(v[i].dup());
        i = i + 1;
    }
    proof {
        assert(r@ =~= v@);
    }
    r
}

/// Copies a pool list, preserving every entry.
pub fn copy_pools(v: &Vec<NetworkIPAssignmentPool>) -> (r: Vec<NetworkIPAssignmentPool>)
    ensures
        r@ == v@,
{
    let mut r: Vec<NetworkIPAssignmentPool> = Vec::new();
    let mut i: usize = 0;
    while i < v.len()
        invariant
            i <= v.len(),
            r@ =~= v@.take(i as int),
        decreases v.len() - i,
    {
        r.push(v[i].dup());
        i = i + 1;
    }
    proof {
        assert(r@ =~= v@);
    }
    r
}

/// Copies a string list, preserving every entry.
pub fn copy_strings(v: &Vec<String>) -> (r: Vec<String>)
    ensures
        r@ == v@,
{
    let mut r: Vec<String> = Vec::new();
    let mut i: usize = 0;
    while i < v.len()
        invariant
            i <= v.len(),
            r@ =~= v@.take(i as int),
        decreases v.len() - i,
    {
        r.push(copy_string(&v[i]));
        i = i + 1;
    }
    proof {
        assert(r@ =~= v@);
    }
    r
}

} // verus!
