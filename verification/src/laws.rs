//! Guarantees that span several operations, stated and proved once.

use vstd::prelude::*;
use crate::dto::{member_ips_text, MemberResponse, NetworkResponse};
use crate::edit::{toggled_mode, EditNetwork};
use crate::session::same_but_v4_mode;

verus! {

/// Law: removing the entry at one index deletes exactly that entry; every
/// other entry survives, in order.
pub proof fn lemma_delete_removes_exactly_one(networks: Seq<NetworkResponse>, i: int)
    requires
        0 <= i < networks.len(),
    ensures
        networks.remove(i).len() == networks.len() - 1,
        forall|j: int| 0 <= j < i ==> networks.remove(i)[j] == networks[j],
        forall|j: int|
            i <= j < networks.len() - 1 ==> networks.remove(i)[j] == networks[j + 1],
{
}

/// Law: toggling the v4 assignment mode twice, with both round trips
/// applied on success, restores the original mode both in the cached
/// network and in the second request body.
pub proof fn lemma_toggle_v4_round_trip(
    n0: NetworkResponse,
    e1: EditNetwork,
    n1: NetworkResponse,
    e2: EditNetwork,
    n2: NetworkResponse,
)
    requires
        e1.v4_assign_mode == toggled_mode(n0.v4_assign_mode),
        n1.v4_assign_mode == e1.v4_assign_mode,
        same_but_v4_mode(n1, n0),
        e2.v4_assign_mode == toggled_mode(n1.v4_assign_mode),
        n2.v4_assign_mode == e2.v4_assign_mode,
        same_but_v4_mode(n2, n1),
    ensures
        e2.v4_assign_mode == n0.v4_assign_mode,
        n2.v4_assign_mode == n0.v4_assign_mode,
        same_but_v4_mode(n2, n0),
{
}

/// Law: a member with no assigned addresses renders the fixed no-address
/// marker in place of the list.
pub proof fn lemma_member_without_ips_shows_marker(m: MemberResponse)
    requires
        m.ip_assignments@.len() == 0,
    ensures
        member_ips_text(m) == "No IPs"@,
{
}

} // verus!
