//! The in-memory session behind the menu screens: the cached network list,
//! the member list of the selected network, and the cursor. Every remote
//! mutation is applied here only after the caller reports that the remote
//! call succeeded; a failed call leaves the session untouched.

use vstd::prelude::*;
use crate::dto::{
    member_text, network_text, MemberResponse, NetworkIPAssignmentPool, NetworkResponse,
    NetworkRoute, NetworkV4AssignMode, StatusResponse,
};

verus! {

/// What the network list screen asks the caller to do next.
#[derive(Debug, PartialEq, Eq, Structural)]
pub enum NetworkListAction {
    /// Render the current screen again.
    Stay,
    /// Ask the controller for a new network, then report the result back.
    Create,
    /// End the program.
    Quit,
}

/// The in-memory snapshot driving the menu screens.
pub struct Session {
    pub status: StatusResponse,
    pub networks: Vec<NetworkResponse>,
    pub members: Option<Vec<MemberResponse>>,
    pub selected_network: Option<usize>,
}

/// The two networks agree on every field other than the name.
pub open spec fn same_but_name(a: NetworkResponse, b: NetworkResponse) -> bool {
    &&& a.id == b.id
    &&& a.v4_assign_mode == b.v4_assign_mode
    &&& a.creation_time == b.creation_time
    &&& a.private == b.private
    &&& a.enable_broadcast == b.enable_broadcast
    &&& a.mtu == b.mtu
    &&& a.routes == b.routes
    &&& a.ip_assignment_pools == b.ip_assignment_pools
}

/// The two networks agree on every field other than the pool list.
pub open spec fn same_but_pools(a: NetworkResponse, b: NetworkResponse) -> bool {
    &&& a.id == b.id
    &&& a.name == b.name
    &&& a.v4_assign_mode == b.v4_assign_mode
    &&& a.creation_time == b.creation_time
    &&& a.private == b.private
    &&& a.enable_broadcast == b.enable_broadcast
    &&& a.mtu == b.mtu
    &&& a.routes == b.routes
}

/// The two networks agree on every field other than the route list.
pub open spec fn same_but_routes(a: NetworkResponse, b: NetworkResponse) -> bool {
    &&& a.id == b.id
    &&& a.name == b.name
    &&& a.v4_assign_mode == b.v4_assign_mode
    &&& a.creation_time == b.creation_time
    &&& a.private == b.private
    &&& a.enable_broadcast == b.enable_broadcast
    &&& a.mtu == b.mtu
    &&& a.ip_assignment_pools == b.ip_assignment_pools
}

/// The two networks agree on every field other than the assignment mode.
pub open spec fn same_but_v4_mode(a: NetworkResponse, b: NetworkResponse) -> bool {
    &&& a.id == b.id
    &&& a.name == b.name
    &&& a.creation_time == b.creation_time
    &&& a.private == b.private
    &&& a.enable_broadcast == b.enable_broadcast
    &&& a.mtu == b.mtu
    &&& a.routes == b.routes
    &&& a.ip_assignment_pools == b.ip_assignment_pools
}

/// The two members agree on every field other than the authorization flag.
pub open spec fn same_member_but_auth(a: MemberResponse, b: MemberResponse) -> bool {
    &&& a.id == b.id
    &&& a.nwid == b.nwid
    &&& a.name == b.name
    &&& a.authentication_expiry_time == b.authentication_expiry_time
    &&& a.creation_time == b.creation_time
    &&& a.last_authorized_time == b.last_authorized_time
    &&& a.last_deauthorized_time == b.last_deauthorized_time
    &&& a.ip_assignments == b.ip_assignments
    &&& a.tags == b.tags
}

/// The two members agree on every field other than the name.
pub open spec fn same_member_but_name(a: MemberResponse, b: MemberResponse) -> bool {
    &&& a.id == b.id
    &&& a.nwid == b.nwid
    &&& a.authorized == b.authorized
    &&& a.authentication_expiry_time == b.authentication_expiry_time
    &&& a.creation_time == b.creation_time
    &&& a.last_authorized_time == b.last_authorized_time
    &&& a.last_deauthorized_time == b.last_deauthorized_time
    &&& a.ip_assignments == b.ip_assignments
    &&& a.tags == b.tags
}

/// The two members agree on every field other than the address list.
pub open spec fn same_member_but_ips(a: MemberResponse, b: MemberResponse) -> bool {
    &&& a.id == b.id
    &&& a.nwid == b.nwid
    &&& a.name == b.name
    &&& a.authorized == b.authorized
    &&& a.authentication_expiry_time == b.authentication_expiry_time
    &&& a.creation_time == b.creation_time
    &&& a.last_authorized_time == b.last_authorized_time
    &&& a.last_deauthorized_time == b.last_deauthorized_time
    &&& a.tags == b.tags
}

/// How a member is shown in the member list: a padlock marker for its
/// authorization state, then the member's rendering.
pub open spec fn member_entry_text(m: MemberResponse) -> Seq<char> {
    if m.authorized {
        "🔓 "@ + member_text(m)
    } else {
        "🔒 "@ + member_text(m)
    }
}

impl Session {
    /// The session is well formed: the cursor points into the network list,
    /// and a member list is loaded only while a network is selected.
    pub open spec fn wf(self) -> bool {
        &&& (self.selected_network matches Some(i) ==> (i as int) < self.networks@.len())
        &&& (self.members is Some ==> self.selected_network is Some)
    }

    /// The index of the selected network.
    pub open spec fn sel(self) -> int {
        self.selected_network->0 as int
    }

    /// A fresh session over the startup snapshot: nothing selected, no
    /// member list loaded.
    pub fn new(status: StatusResponse, networks: Vec<NetworkResponse>) -> (s: Session)
        ensures
            s.wf(),
            s.status == status,
            s.networks == networks,
            s.members is None,
            s.selected_network is None,
    {
        Session { status, networks, members: None, selected_network: None }
    }

    /// The selected network's index as a machine integer.
    fn sel_index(&self) -> (i: usize)
        requires
            self.selected_network is Some,
        ensures
            i as int == self.sel(),
    {
        match self.selected_network {
            Some(i) => i,
            None => {
                proof {
                    assert(false);
                }
                0
            },
        }
    }

    /// The list screen's entries: every network's rendering in cache order,
    /// then the two fixed entries for creating a network and leaving.
    pub fn network_menu_items(&self) -> (items: Vec<String>)
        ensures
            items@.len() == self.networks@.len() + 2,
            forall|i: int|
                0 <= i < self.networks@.len() ==> items@[i]@ == network_text(self.networks@[i]),
            items@[self.networks@.len() as int]@ == "Create new network..."@,
            items@[self.networks@.len() as int + 1]@ == "Exit"@,
    {
        let mut items: Vec<String> = Vec::new();
        let mut i: usize = 0;
        while i < self.networks.len()
            invariant
                i <= self.networks@.len(),
                items@.len() == i,
                forall|j: int|
                    0 <= j < i ==> items@[j]@ == network_text(self.networks@[j]),
            decreases self.networks@.len() - i,
        {
            items.push(self.networks[i].display());
            i = i + 1;
        }
        items.push(String::from_str("Create new network..."));
        items.push(String::from_str("Exit"));
        items
    }

    /// Takes the list screen's selection: a network entry selects that
    /// network, the two fixed entries ask the caller to create a network or
    /// to quit, and a cancelled prompt changes nothing.
    pub fn choose_from_network_list(&mut self, selection: Option<usize>) -> (a: NetworkListAction)
        requires
            old(self).wf(),
            old(self).members is None,
            selection matches Some(i) ==> (i as int) < old(self).networks@.len() + 2,
        ensures
            final(self).wf(),
            final(self).status == old(self).status,
            final(self).networks == old(self).networks,
            final(self).members is None,
            match selection {
                Some(i) => {
                    if (i as int) < old(self).networks@.len() {
                        a == NetworkListAction::Stay && final(self).selected_network == Some(i)
                    } else if (i as int) == old(self).networks@.len() {
                        a == NetworkListAction::Create && final(self).selected_network
                            == old(self).selected_network
                    } else {
                        a == NetworkListAction::Quit && final(self).selected_network
                            == old(self).selected_network
                    }
                },
                None => a == NetworkListAction::Stay && final(self).selected_network == old(
                    self,
                ).selected_network,
            },
    {
        match selection {
            Some(i) => {
                if i < self.networks.len() {
                    self.selected_network = Some(i);
                    NetworkListAction::Stay
                } else if i == self.networks.len() {
                    NetworkListAction::Create
                } else {
                    NetworkListAction::Quit
                }
            },
            None => NetworkListAction::Stay,
        }
    }

    /// Appends a network the controller just created to the cached list.
    pub fn apply_created_network(&mut self, n: NetworkResponse)
        requires
            old(self).wf(),
        ensures
            final(self).wf(),
            final(self).networks@ == old(self).networks@.push(n),
            final(self).status == old(self).status,
            final(self).members == old(self).members,
            final(self).selected_network == old(self).selected_network,
    {
        self.networks.push(n);
    }

    /// The detail screen's entries for the selected network; the toggle
    /// entry's label shows the flag's current direction.
    pub fn network_detail_items(&self) -> (items: Vec<String>)
        requires
            self.wf(),
            self.selected_network is Some,
        ensures
            items@.len() == 7,
            items@[0]@ == "Info"@,
            items@[1]@ == "Members"@,
            items@[2]@ == "Rename"@,
            items@[3]@ == "Set ip assignment pool"@,
            items@[4]@ == "Set route"@,
            items@[5]@ == (if self.networks@[self.sel()].v4_assign_mode.zt {
                "Disable v4 ZT Mode"@
            } else {
                "Enable v4 ZT Mode"@
            }),
            items@[6]@ == "Delete"@,
    {
        let i = self.sel_index();
        let zt = self.networks[i].v4_assign_mode.zt;
        let mut items: Vec<String> = Vec::new();
        items.push(String::from_str("Info"));
        items.push(String::from_str("Members"));
        items.push(String::from_str("Rename"));
        items.push(String::from_str("Set ip assignment pool"));
        items.push(String::from_str("Set route"));
        if zt {
            items.push(String::from_str("Disable v4 ZT Mode"));
        } else {
            items.push(String::from_str("Enable v4 ZT Mode"));
        }
        items.push(String::from_str("Delete"));
        items
    }

    /// Backs out of the detail screen, clearing the cursor.
    pub fn leave_network_detail(&mut self)
        requires
            old(self).wf(),
            old(self).members is None,
        ensures
            final(self).wf(),
            final(self).selected_network is None,
            final(self).members is None,
            final(self).networks == old(self).networks,
            final(self).status == old(self).status,
    {
        self.selected_network = None;
    }

    /// Applies the result of a rename: success stores the new name on the
    /// selected cached network; failure leaves the session untouched.
    pub fn rename_outcome(&mut self, name: String, success: bool)
        requires
            old(self).wf(),
            old(self).selected_network is Some,
        ensures
            final(self).wf(),
            !success ==> *final(self) == *old(self),
            success ==> {
                &&& final(self).status == old(self).status
                &&& final(self).members == old(self).members
                &&& final(self).selected_network == old(self).selected_network
                &&& final(self).networks@.len() == old(self).networks@.len()
                &&& (forall|j: int|
                    0 <= j < old(self).networks@.len() && j != old(self).sel()
                        ==> final(self).networks@[j] == old(self).networks@[j])
                &&& same_but_name(
                    final(self).networks@[old(self).sel()],
                    old(self).networks@[old(self).sel()],
                )
                &&& final(self).networks@[old(self).sel()].name == Some(name)
            },
    {
        if success {
            let i = self.sel_index();
            let mut n = self.networks.remove(i);
            n.name = Some(name);
            self.networks.insert(i, n);
        }
    }

    /// Applies the result of a pool edit: success replaces the selected
    /// cached network's pool list; failure leaves the session untouched.
    pub fn pool_outcome(&mut self, pool: NetworkIPAssignmentPool, success: bool)
        requires
            old(self).wf(),
            old(self).selected_network is Some,
        ensures
            final(self).wf(),
            !success ==> *final(self) == *old(self),
            success ==> {
                &&& final(self).status == old(self).status
                &&& final(self).members == old(self).members
                &&& final(self).selected_network == old(self).selected_network
                &&& final(self).networks@.len() == old(self).networks@.len()
                &&& (forall|j: int|
                    0 <= j < old(self).networks@.len() && j != old(self).sel()
                        ==> final(self).networks@[j] == old(self).networks@[j])
                &&& same_but_pools(
                    final(self).networks@[old(self).sel()],
                    old(self).networks@[old(self).sel()],
                )
                &&& final(self).networks@[old(self).sel()].ip_assignment_pools@ == seq![pool]
            },
    {
        if success {
            let i = self.sel_index();
            let mut n = self.networks.remove(i);
            let mut pools: Vec<NetworkIPAssignmentPool> = Vec::new();
            pools.push(pool);
            proof {
                assert(pools@ =~= seq![pool]);
            }
            n.ip_assignment_pools = pools;
            self.networks.insert(i, n);
        }
    }

    /// Applies the result of a route edit: success replaces the selected
    /// cached network's route list; failure leaves the session untouched.
    pub fn route_outcome(&mut self, route: NetworkRoute, success: bool)
        requires
            old(self).wf(),
            old(self).selected_network is Some,
        ensures
            final(self).wf(),
            !success ==> *final(self) == *old(self),
            success ==> {
                &&& final(self).status == old(self).status
                &&& final(self).members == old(self).members
                &&& final(self).selected_network == old(self).selected_network
                &&& final(self).networks@.len() == old(self).networks@.len()
                &&& (forall|j: int|
                    0 <= j < old(self).networks@.len() && j != old(self).sel()
                        ==> final(self).networks@[j] == old(self).networks@[j])
                &&& same_but_routes(
                    final(self).networks@[old(self).sel()],
                    old(self).networks@[old(self).sel()],
                )
                &&& final(self).networks@[old(self).sel()].routes@ == seq![route]
            },
    {
        if success {
            let i = self.sel_index();
            let mut n = self.networks.remove(i);
            let mut routes: Vec<NetworkRoute> = Vec::new();
            routes.push(route);
            proof {
                assert(routes@ =~= seq![route]);
            }
            n.routes = routes;
            self.networks.insert(i, n);
        }
    }

    /// Applies the result of a mode toggle: success flips the selected
    /// cached network's flag; failure leaves the session untouched.
    pub fn toggle_v4_outcome(&mut self, success: bool)
        requires
            old(self).wf(),
            old(self).selected_network is Some,
        ensures
            final(self).wf(),
            !success ==> *final(self) == *old(self),
            success ==> {
                &&& final(self).status == old(self).status
                &&& final(self).members == old(self).members
                &&& final(self).selected_network == old(self).selected_network
                &&& final(self).networks@.len() == old(self).networks@.len()
                &&& (forall|j: int|
                    0 <= j < old(self).networks@.len() && j != old(self).sel()
                        ==> final(self).networks@[j] == old(self).networks@[j])
                &&& same_but_v4_mode(
                    final(self).networks@[old(self).sel()],
                    old(self).networks@[old(self).sel()],
                )
                &&& final(self).networks@[old(self).sel()].v4_assign_mode.zt == !old(
                    self,
                ).networks@[old(self).sel()].v4_assign_mode.zt
            },
    {
        if success {
            let i = self.sel_index();
            let mut n = self.networks.remove(i);
            n.v4_assign_mode = NetworkV4AssignMode { zt: !n.v4_assign_mode.zt };
            self.networks.insert(i, n);
        }
    }

    /// Applies the result of a network delete: success removes exactly the
    /// selected entry from the cached list and returns to the network list;
    /// failure leaves the session, the list included, untouched.
    pub fn delete_network_outcome(&mut self, success: bool)
        requires
            old(self).wf(),
            old(self).selected_network is Some,
            old(self).members is None,
        ensures
            final(self).wf(),
            !success ==> *final(self) == *old(self),
            success ==> {
                &&& final(self).networks@ == old(self).networks@.remove(old(self).sel())
                &&& final(self).networks@.len() == old(self).networks@.len() - 1
                &&& final(self).selected_network is None
                &&& final(self).members is None
                &&& final(self).status == old(self).status
            },
    {
        if success {
            let i = self.sel_index();
            self.networks.remove(i);
            self.selected_network = None;
        }
    }

    /// Takes the freshly fetched member list of the selected network. A
    /// network with no members never enters the member screen: the session
    /// is left untouched and the caller stays on the detail screen.
    pub fn enter_member_screen(&mut self, fetched: Vec<MemberResponse>) -> (entered: bool)
        requires
            old(self).wf(),
            old(self).selected_network is Some,
            old(self).members is None,
        ensures
            final(self).wf(),
            entered == (fetched@.len() > 0),
            !entered ==> *final(self) == *old(self),
            entered ==> {
                &&& final(self).members == Some(fetched)
                &&& final(self).networks == old(self).networks
                &&& final(self).status == old(self).status
                &&& final(self).selected_network == old(self).selected_network
            },
    {
        if fetched.len() > 0 {
            self.members = Some(fetched);
            true
        } else {
            false
        }
    }

    /// The member screen's entries, one per member in cache order.
    pub fn member_menu_items(&self) -> (items: Vec<String>)
        requires
            self.wf(),
            self.members is Some,
        ensures
            items@.len() == self.members->0@.len(),
            forall|i: int|
                0 <= i < items@.len() ==> items@[i]@ == member_entry_text(self.members->0@[i]),
    {
        match &self.members {
            Some(ms) => {
                let mut items: Vec<String> = Vec::new();
                let mut i: usize = 0;
                while i < ms.len()
                    invariant
                        i <= ms@.len(),
                        items@.len() == i,
                        forall|j: int|
                            0 <= j < i ==> items@[j]@ == member_entry_text(ms@[j]),
                    decreases ms@.len() - i,
                {
                    let mut s = if ms[i].authorized {
                        String::from_str("🔓 ")
                    } else {
                        String::from_str("🔒 ")
                    };
                    let d = ms[i].display();
                    s.append(d.as_str());
                    proof {
                        assert(s@ =~= member_entry_text(ms@[i as int]));
                    }
                    items.push(s);
                    i = i + 1;
                }
                items
            },
            None => {
                proof {
                    assert(false);
                }
                Vec::new()
            },
        }
    }

    /// Drops the loaded member list and returns to the detail screen.
    pub fn leave_member_list(&mut self)
        requires
            old(self).wf(),
        ensures
            final(self).wf(),
            final(self).members is None,
            final(self).networks == old(self).networks,
            final(self).status == old(self).status,
            final(self).selected_network == old(self).selected_network,
    {
        self.members = None;
    }

    /// The detail screen's entries for one member; the first entry's label
    /// follows the member's current authorization state.
    pub fn member_detail_items(&self, index: usize) -> (items: Vec<String>)
        requires
            self.wf(),
            self.members is Some,
            (index as int) < self.members->0@.len(),
        ensures
            items@.len() == 4,
            items@[0]@ == (if self.members->0@[index as int].authorized {
                "Deauthorize"@
            } else {
                "Authorize"@
            }),
            items@[1]@ == "Set name"@,
            items@[2]@ == "Set IP"@,
            items@[3]@ == "Delete"@,
    {
        let authorized = match &self.members {
            Some(ms) => ms[index].authorized,
            None => {
                proof {
                    assert(false);
                }
                false
            },
        };
        let mut items: Vec<String> = Vec::new();
        if authorized {
            items.push(String::from_str("Deauthorize"));
        } else {
            items.push(String::from_str("Authorize"));
        }
        items.push(String::from_str("Set name"));
        items.push(String::from_str("Set IP"));
        items.push(String::from_str("Delete"));
        items
    }

    /// Swaps the member list out of the session for in-place editing.
    fn take_members(&mut self) -> (ms: Vec<MemberResponse>)
        requires
            old(self).members is Some,
        ensures
            ms == old(self).members->0,
            final(self).members is None,
            final(self).networks == old(self).networks,
            final(self).status == old(self).status,
            final(self).selected_network == old(self).selected_network,
    {
        let mut taken: Option<Vec<MemberResponse>> = None;
        core::mem::swap(&mut taken, &mut self.members);
        match taken {
            Some(ms) => ms,
            None => {
                proof {
                    assert(false);
                }
                Vec::new()
            },
        }
    }

    /// Applies the result of an authorization toggle on one member: success
    /// flips the cached flag; failure leaves the session untouched.
    pub fn member_auth_outcome(&mut self, index: usize, success: bool)
        requires
            old(self).wf(),
            old(self).members is Some,
            (index as int) < old(self).members->0@.len(),
        ensures
            final(self).wf(),
            !success ==> *final(self) == *old(self),
            success ==> {
                &&& final(self).status == old(self).status
                &&& final(self).networks == old(self).networks
                &&& final(self).selected_network == old(self).selected_network
                &&& final(self).members is Some
                &&& final(self).members->0@.len() == old(self).members->0@.len()
                &&& (forall|j: int|
                    0 <= j < old(self).members->0@.len() && j != index
                        ==> final(self).members->0@[j] == old(self).members->0@[j])
                &&& same_member_but_auth(
                    final(self).members->0@[index as int],
                    old(self).members->0@[index as int],
                )
                &&& final(self).members->0@[index as int].authorized == !old(
                    self,
                ).members->0@[index as int].authorized
            },
    {
        if success {
            let mut ms = self.take_members();
            let mut m = ms.remove(index);
            m.authorized = !m.authorized;
            ms.insert(index, m);
            self.members = Some(ms);
        }
    }

    /// Applies the result of a member rename: success stores the new name
    /// (cleared names included); failure leaves the session untouched.
    pub fn member_name_outcome(&mut self, index: usize, name: Option<String>, success: bool)
        requires
            old(self).wf(),
            old(self).members is Some,
            (index as int) < old(self).members->0@.len(),
        ensures
            final(self).wf(),
            !success ==> *final(self) == *old(self),
            success ==> {
                &&& final(self).status == old(self).status
                &&& final(self).networks == old(self).networks
                &&& final(self).selected_network == old(self).selected_network
                &&& final(self).members is Some
                &&& final(self).members->0@.len() == old(self).members->0@.len()
                &&& (forall|j: int|
                    0 <= j < old(self).members->0@.len() && j != index
                        ==> final(self).members->0@[j] == old(self).members->0@[j])
                &&& same_member_but_name(
                    final(self).members->0@[index as int],
                    old(self).members->0@[index as int],
                )
                &&& final(self).members->0@[index as int].name == name
            },
    {
        if success {
            let mut ms = self.take_members();
            let mut m = ms.remove(index);
            m.name = name;
            ms.insert(index, m);
            self.members = Some(ms);
        }
    }

    /// Applies the result of an address edit: success replaces the cached
    /// member's address list; failure leaves the session untouched.
    pub fn member_ip_outcome(&mut self, index: usize, ip: String, success: bool)
        requires
            old(self).wf(),
            old(self).members is Some,
            (index as int) < old(self).members->0@.len(),
        ensures
            final(self).wf(),
            !success ==> *final(self) == *old(self),
            success ==> {
                &&& final(self).status == old(self).status
                &&& final(self).networks == old(self).networks
                &&& final(self).selected_network == old(self).selected_network
                &&& final(self).members is Some
                &&& final(self).members->0@.len() == old(self).members->0@.len()
                &&& (forall|j: int|
                    0 <= j < old(self).members->0@.len() && j != index
                        ==> final(self).members->0@[j] == old(self).members->0@[j])
                &&& same_member_but_ips(
                    final(self).members->0@[index as int],
                    old(self).members->0@[index as int],
                )
                &&& final(self).members->0@[index as int].ip_assignments@ == seq![ip]
            },
    {
        if success {
            let mut ms = self.take_members();
            let mut m = ms.remove(index);
            let mut ips: Vec<String> = Vec::new();
            ips.push(ip);
            proof {
                assert(ips@ =~= seq![ip]);
            }
            m.ip_assignments = ips;
            ms.insert(index, m);
            self.members = Some(ms);
        }
    }

    /// Applies the result of a member delete: success removes exactly the
    /// cached entry at the given index; failure leaves the session
    /// untouched.
    pub fn delete_member_outcome(&mut self, index: usize, success: bool)
        requires
            old(self).wf(),
            old(self).members is Some,
            (index as int) < old(self).members->0@.len(),
        ensures
            final(self).wf(),
            !success ==> *final(self) == *old(self),
            success ==> {
                &&& final(self).status == old(self).status
                &&& final(self).networks == old(self).networks
                &&& final(self).selected_network == old(self).selected_network
                &&& final(self).members is Some
                &&& final(self).members->0@ == old(self).members->0@.remove(index as int)
                &&& final(self).members->0@.len() == old(self).members->0@.len() - 1
            },
    {
        if success {
            let mut ms = self.take_members();
            ms.remove(index);
            self.members = Some(ms);
        }
    }
}

} // verus!
