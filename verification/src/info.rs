//! The network info screen: a pure rendering of every field of a network.

use vstd::prelude::*;
use crate::dto::{
    pool_text, route_text, NetworkIPAssignmentPool, NetworkResponse, NetworkRoute,
};
use crate::text::{bool_label, bool_text, join_all, joined_with, string_views};
use crate::timefmt::{creation_date_label, creation_date_text};

verus! {

/// The rendered forms of a route list.
pub open spec fn route_texts(rs: Seq<NetworkRoute>) -> Seq<Seq<char>> {
    rs.map_values(|r: NetworkRoute| route_text(r))
}

/// The rendered forms of a pool list.
pub open spec fn pool_texts(ps: Seq<NetworkIPAssignmentPool>) -> Seq<Seq<char>> {
    ps.map_values(|p: NetworkIPAssignmentPool| pool_text(p))
}

/// The info screen's name line: the name, or a marker when none is set.
pub open spec fn name_field_text(name: Option<String>) -> Seq<char> {
    match name {
        Some(s) => s@,
        None => "Not set"@,
    }
}

/// The info screen's text for a network: each field on its own line, the
/// route and pool lists joined with commas.
pub open spec fn network_info_text(n: NetworkResponse) -> Seq<char> {
    "\nID: "@ + n.id@ + "\nName: "@ + name_field_text(n.name) + "\nCreation Date: "@
        + creation_date_text(n.creation_time) + "\nIs Private: "@ + bool_text(n.private)
        + "\nRoutes: "@ + joined_with(route_texts(n.routes@), ","@) + "\nIP Assignment Pools: "@
        + joined_with(pool_texts(n.ip_assignment_pools@), ","@) + "\nIs ZT V4 Assign Mode: "@
        + bool_text(n.v4_assign_mode.zt)
}

/// Renders each route of a list.
pub fn route_labels(rs: &Vec<NetworkRoute>) -> (r: Vec<String>)
    ensures
        string_views(r@) == route_texts(rs@),
{
    let mut out: Vec<String> = Vec::new();
    let mut i: usize = 0;
    while i < rs.len()
        invariant
            i <= rs.len(),
            out@.len() == i,
            string_views(out@) =~= route_texts(rs@.take(i as int)),
        decreases rs.len() - i,
    {
        let label = rs[i].display();
        let ghost out_pre = out@;
        out.push(label);
        proof {
            assert forall|j: int| 0 <= j < out@.len() implies string_views(out@)[j]
                == route_texts(rs@.take(i as int + 1))[j] by {
                assert(string_views(out@)[j] == out@[j]@);
                assert(route_texts(rs@.take(i as int + 1))[j]
                    == route_text(rs@.take(i as int + 1)[j]));
                if j < i as int {
                    assert(out@[j] == out_pre[j]);
                    assert(string_views(out_pre)[j] == route_texts(rs@.take(i as int))[j]);
                    assert(route_texts(rs@.take(i as int))[j]
                        == route_text(rs@.take(i as int)[j]));
                } else {
                    assert(out@[j] == label);
                }
            }
            assert(string_views(out@) =~= route_texts(rs@.take(i as int + 1)));
        }
        i = i + 1;
    }
    proof {
        assert(rs@.take(rs@.len() as int) =~= rs@);
        assert(string_views(out@) =~= route_texts(rs@));
    }
    out
}

/// Renders each pool of a list.
pub fn pool_labels(ps: &Vec<NetworkIPAssignmentPool>) -> (r: Vec<String>)
    ensures
        string_views(r@) == pool_texts(ps@),
{
    let mut out: Vec<String> = Vec::new();
    let mut i: usize = 0;
    while i < ps.len()
        invariant
            i <= ps.len(),
            out@.len() == i,
            string_views(out@) =~= pool_texts(ps@.take(i as int)),
        decreases ps.len() - i,
    {
        let label = ps[i].display();
        let ghost out_pre = out@;
        out.push(label);
        proof {
            assert forall|j: int| 0 <= j < out@.len() implies string_views(out@)[j]
                == pool_texts(ps@.take(i as int + 1))[j] by {
                assert(string_views(out@)[j] == out@[j]@);
                assert(pool_texts(ps@.take(i as int + 1))[j]
                    == pool_text(ps@.take(i as int + 1)[j]));
                if j < i as int {
                    assert(out@[j] == out_pre[j]);
                    assert(string_views(out_pre)[j] == pool_texts(ps@.take(i as int))[j]);
                    assert(pool_texts(ps@.take(i as int))[j]
                        == pool_text(ps@.take(i as int)[j]));
                } else {
                    assert(out@[j] == label);
                }
            }
            assert(string_views(out@) =~= pool_texts(ps@.take(i as int + 1)));
        }
        i = i + 1;
    }
    proof {
        assert(ps@.take(ps@.len() as int) =~= ps@);
        assert(string_views(out@) =~= pool_texts(ps@));
    }
    out
}

impl NetworkResponse {
    /// Renders the full info screen for this network.
    pub fn info_text(&self) -> (r: String)
        ensures
            r@ == network_info_text(*self),
    {
        let mut r = String::from_str("\nID: ");
        r.append(self.id.as_str());
        r.append("\nName: ");
        match &self.name {
            Some(s) => r.append(s.as_str()),
            None => r.append("Not set"),
        }
        r.append("\nCreation Date: ");
        let date = creation_date_label(self.creation_time);
        r.append(date.as_str());
        r.append("\nIs Private: ");
        let private_label = bool_label(self.private);
        r.append(private_label.as_str());
        r.append("\nRoutes: ");
        let rl = route_labels(&self.routes);
        let rj = join_all(&rl, ",");
        r.append(rj.as_str());
        r.append("\nIP Assignment Pools: ");
        let pl = pool_labels(&self.ip_assignment_pools);
        let pj = join_all(&pl, ",");
        r.append(pj.as_str());
        r.append("\nIs ZT V4 Assign Mode: ");
        let zt_label = bool_label(self.v4_assign_mode.zt);
        r.append(zt_label.as_str());
        proof {
            assert(r@ =~= network_info_text(*self));
        }
        r
    }
}

} // verus!
