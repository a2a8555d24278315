//! Edit requests sent to the controller. The edit endpoints replace the whole
//! object, so every builder carries each field it does not change over from
//! the cached record, unmodified.

use vstd::prelude::*;
use crate::dto::{
    MemberResponse, NetworkIPAssignmentPool, NetworkResponse, NetworkRoute, NetworkV4AssignMode,
};
use crate::dto::{copy_pools, copy_routes, copy_strings};
use crate::text::copy_opt_string;

verus! {

/// The full desired state sent when editing a network.
#[derive(Debug)]
pub struct EditNetwork {
    pub name: Option<String>,
    pub private: bool,
    pub ip_assignment_pools: Vec<NetworkIPAssignmentPool>,
    pub routes: Vec<NetworkRoute>,
    pub v4_assign_mode: NetworkV4AssignMode,
}

/// The full desired state sent when editing a member.
#[derive(Debug)]
pub struct EditMember {
    pub authorized: bool,
    pub ip_assignments: Vec<String>,
    pub name: Option<String>,
}

/// The assignment mode with its flag flipped.
pub open spec fn toggled_mode(m: NetworkV4AssignMode) -> NetworkV4AssignMode {
    NetworkV4AssignMode { zt: !m.zt }
}

/// The optional string an edit carries for a given text input: empty input
/// means none.
pub open spec fn opt_of_input(name: String) -> Option<String> {
    if name@.len() == 0 {
        None
    } else {
        Some(name)
    }
}

impl NetworkResponse {
    /// The edit request that renames the network. Every field other than the
    /// name is carried over from this record unchanged.
    pub fn rename_request(&self, name: String) -> (e: EditNetwork)
        ensures
            e.name == Some(name),
            e.private == self.private,
            e.ip_assignment_pools@ == self.ip_assignment_pools@,
            e.routes@ == self.routes@,
            e.v4_assign_mode == self.v4_assign_mode,
    {
        EditNetwork {
            name: Some(name),
            private: self.private,
            ip_assignment_pools: copy_pools(&self.ip_assignment_pools),
            routes: copy_routes(&self.routes),
            v4_assign_mode: self.v4_assign_mode,
        }
    }

    /// The edit request that replaces the pool list with the one given pool.
    /// Every other field is carried over from this record unchanged.
    pub fn pool_request(&self, pool: NetworkIPAssignmentPool) -> (e: EditNetwork)
        ensures
            e.name == self.name,
            e.private == self.private,
            e.ip_assignment_pools@ == seq![pool],
            e.routes@ == self.routes@,
            e.v4_assign_mode == self.v4_assign_mode,
    {
        let mut pools: Vec<NetworkIPAssignmentPool> = Vec::new();
        pools.push(pool);
        proof {
            assert(pools@ =~= seq![pool]);
        }
        EditNetwork {
            name: copy_opt_string(&self.name),
            private: self.private,
            ip_assignment_pools: pools,
            routes: copy_routes(&self.routes),
            v4_assign_mode: self.v4_assign_mode,
        }
    }

    /// The edit request that replaces the route list with the one given
    /// route. Every other field is carried over from this record unchanged.
    pub fn route_request(&self, route: NetworkRoute) -> (e: EditNetwork)
        ensures
            e.name == self.name,
            e.private == self.private,
            e.ip_assignment_pools@ == self.ip_assignment_pools@,
            e.routes@ == seq![route],
            e.v4_assign_mode == self.v4_assign_mode,
    {
        let mut routes: Vec<NetworkRoute> = Vec::new();
        routes.push(route);
        proof {
            assert(routes@ =~= seq![route]);
        }
        EditNetwork {
            name: copy_opt_string(&self.name),
            private: self.private,
            ip_assignment_pools: copy_pools(&self.ip_assignment_pools),
            routes,
            v4_assign_mode: self.v4_assign_mode,
        }
    }

    /// The edit request that flips the v4 assignment flag. Every other field
    /// is carried over from this record unchanged.
    pub fn toggle_v4_request(&self) -> (e: EditNetwork)
        ensures
            e.name == self.name,
            e.private == self.private,
            e.ip_assignment_pools@ == self.ip_assignment_pools@,
            e.routes@ == self.routes@,
            e.v4_assign_mode == toggled_mode(self.v4_assign_mode),
    {
        EditNetwork {
            name: copy_opt_string(&self.name),
            private: self.private,
            ip_assignment_pools: copy_pools(&self.ip_assignment_pools),
            routes: copy_routes(&self.routes),
            v4_assign_mode: NetworkV4AssignMode { zt: !self.v4_assign_mode.zt },
        }
    }
}

/// The route an edit carries for the given prompt inputs: an empty gateway
/// input means no gateway.
pub fn route_from_input(target: String, via: String) -> (r: NetworkRoute)
    ensures
        r.target == target,
        r.via == opt_of_input(via),
{
    let via = if via.as_str().unicode_len() == 0 {
        None
    } else {
        Some(via)
    };
    NetworkRoute { target, via }
}

impl MemberResponse {
    /// The edit request that flips the authorization flag. The address list
    /// and the name are carried over from this record unchanged.
    pub fn toggle_auth_request(&self) -> (e: EditMember)
        ensures
            e.authorized == !self.authorized,
            e.ip_assignments@ == self.ip_assignments@,
            e.name == self.name,
    {
        EditMember {
            authorized: !self.authorized,
            ip_assignments: copy_strings(&self.ip_assignments),
            name: copy_opt_string(&self.name),
        }
    }

    /// The edit request that renames the member; empty input clears the
    /// name. The authorization flag and the address list are carried over
    /// from this record unchanged.
    pub fn set_name_request(&self, name: String) -> (e: EditMember)
        ensures
            e.authorized == self.authorized,
            e.ip_assignments@ == self.ip_assignments@,
            e.name == opt_of_input(name),
    {
        let name = if name.as_str().unicode_len() == 0 {
            None
        } else {
            Some(name)
        };
        EditMember {
            authorized: self.authorized,
            ip_assignments: copy_strings(&self.ip_assignments),
            name,
        }
    }

    /// The edit request that replaces all assigned addresses with the one
    /// given address. The authorization flag and the name are carried over
    /// from this record unchanged.
    pub fn set_ip_request(&self, ip: String) -> (e: EditMember)
        ensures
            e.authorized == self.authorized,
            e.ip_assignments@ == seq![ip],
            e.name == self.name,
    {
        let mut ips: Vec<String> = Vec::new();
        ips.push(ip);
        proof {
            assert(ips@ =~= seq![ip]);
        }
        EditMember {
            authorized: self.authorized,
            ip_assignments: ips,
            name: copy_opt_string(&self.name),
        }
    }
}

} // verus!
