use ztclient::dto::{
    MemberResponse, NetworkIPAssignmentPool, NetworkResponse, NetworkRoute, NetworkV4AssignMode,
    StatusResponse,
};
use ztclient::edit::route_from_input;
use ztclient::session::{NetworkListAction, Session};

fn status() -> StatusResponse {
    StatusResponse {
        address: "abcdef0123".to_string(),
        online: true,
        version_build: 1,
        version_major: 1,
        version_minor: 12,
        version_rev: 1,
    }
}

fn network(id: &str, name: Option<&str>) -> NetworkResponse {
    NetworkResponse {
        id: id.to_string(),
        name: name.map(|s| s.to_string()),
        v4_assign_mode: NetworkV4AssignMode { zt: false },
        creation_time: 0,
        private: true,
        enable_broadcast: true,
        mtu: 2800,
        routes: vec![NetworkRoute { target: "172.16.0.0/16".to_string(), via: Some("172.16.0.1".to_string()) }],
        ip_assignment_pools: vec![NetworkIPAssignmentPool {
            ip_range_start: "172.16.0.10".to_string(),
            ip_range_end: "172.16.0.250".to_string(),
        }],
    }
}

fn member(id: &str, authorized: bool) -> MemberResponse {
    MemberResponse {
        id: id.to_string(),
        nwid: "net1".to_string(),
        name: None,
        authorized,
        authentication_expiry_time: 0,
        creation_time: 0,
        last_authorized_time: 0,
        last_deauthorized_time: 0,
        ip_assignments: vec!["10.1.1.1".to_string()],
        tags: Vec::new(),
    }
}

fn session(networks: Vec<NetworkResponse>) -> Session {
    Session::new(status(), networks)
}

#[test]
fn network_list_screen_entries() {
    let s = session(vec![network("A", Some("alpha")), network("B", None)]);
    let items = s.network_menu_items();
    assert_eq!(items, vec!["alpha (A)", "B", "Create new network...", "Exit"]);
}

#[test]
fn selecting_a_network_sets_the_cursor() {
    let mut s = session(vec![network("A", None), network("B", None)]);
    let a = s.choose_from_network_list(Some(1));
    assert_eq!(a, NetworkListAction::Stay);
    assert_eq!(s.selected_network, Some(1));
}

#[test]
fn create_entry_asks_for_a_create() {
    let mut s = session(vec![network("A", None)]);
    let a = s.choose_from_network_list(Some(1));
    assert_eq!(a, NetworkListAction::Create);
    assert_eq!(s.selected_network, None);
}

#[test]
fn exit_entry_asks_to_quit() {
    let mut s = session(vec![network("A", None)]);
    let a = s.choose_from_network_list(Some(2));
    assert_eq!(a, NetworkListAction::Quit);
}

#[test]
fn cancelled_selection_changes_nothing() {
    let mut s = session(vec![network("A", None)]);
    let a = s.choose_from_network_list(None);
    assert_eq!(a, NetworkListAction::Stay);
    assert_eq!(s.selected_network, None);
}

#[test]
fn created_network_is_appended() {
    let mut s = session(vec![network("A", None)]);
    s.apply_created_network(network("B", Some("beta")));
    assert_eq!(s.networks.len(), 2);
    assert_eq!(s.networks[1].id, "B");
}

#[test]
fn detail_items_follow_the_mode_flag() {
    let mut s = session(vec![network("A", None)]);
    s.choose_from_network_list(Some(0));
    let items = s.network_detail_items();
    assert_eq!(
        items,
        vec![
            "Info",
            "Members",
            "Rename",
            "Set ip assignment pool",
            "Set route",
            "Enable v4 ZT Mode",
            "Delete"
        ]
    );
    s.toggle_v4_outcome(true);
    assert_eq!(s.network_detail_items()[5], "Disable v4 ZT Mode");
}

#[test]
fn rename_request_keeps_unmodified_fields() {
    let n = network("A", Some("alpha"));
    let e = n.rename_request("fresh".to_string());
    assert_eq!(e.name, Some("fresh".to_string()));
    assert_eq!(e.private, n.private);
    assert_eq!(e.v4_assign_mode, n.v4_assign_mode);
    assert_eq!(e.routes.len(), 1);
    assert_eq!(e.routes[0].target, n.routes[0].target);
    assert_eq!(e.routes[0].via, n.routes[0].via);
    assert_eq!(e.ip_assignment_pools.len(), 1);
    assert_eq!(e.ip_assignment_pools[0].ip_range_start, n.ip_assignment_pools[0].ip_range_start);
    assert_eq!(e.ip_assignment_pools[0].ip_range_end, n.ip_assignment_pools[0].ip_range_end);
}

#[test]
fn pool_request_replaces_pools_and_keeps_rest() {
    let n = network("A", Some("alpha"));
    let e = n.pool_request(NetworkIPAssignmentPool {
        ip_range_start: "192.168.192.1".to_string(),
        ip_range_end: "192.168.192.254".to_string(),
    });
    assert_eq!(e.ip_assignment_pools.len(), 1);
    assert_eq!(e.ip_assignment_pools[0].ip_range_start, "192.168.192.1");
    assert_eq!(e.name, n.name);
    assert_eq!(e.private, n.private);
    assert_eq!(e.routes[0].target, n.routes[0].target);
    assert_eq!(e.v4_assign_mode, n.v4_assign_mode);
}

#[test]
fn route_edit_request_carries_the_route() {
    let n = network("A", Some("alpha"));
    let r = route_from_input("10.0.0.0/24".to_string(), "".to_string());
    assert_eq!(r.via, None);
    let e = n.route_request(r);
    assert_eq!(e.routes.len(), 1);
    assert_eq!(e.routes[0].target, "10.0.0.0/24");
    assert_eq!(e.routes[0].via, None);
    assert_eq!(e.name, n.name);
    assert_eq!(e.private, n.private);
    assert_eq!(e.ip_assignment_pools[0].ip_range_start, n.ip_assignment_pools[0].ip_range_start);
    assert_eq!(e.v4_assign_mode, n.v4_assign_mode);
}

#[test]
fn route_from_input_keeps_a_gateway() {
    let r = route_from_input("10.0.0.0/24".to_string(), "10.0.0.1".to_string());
    assert_eq!(r.via, Some("10.0.0.1".to_string()));
}

#[test]
fn toggling_v4_mode_twice_restores_the_flag() {
    let mut s = session(vec![network("A", None)]);
    s.choose_from_network_list(Some(0));
    let original = s.networks[0].v4_assign_mode.zt;
    let e1 = s.networks[0].toggle_v4_request();
    assert_eq!(e1.v4_assign_mode.zt, !original);
    s.toggle_v4_outcome(true);
    assert_eq!(s.networks[0].v4_assign_mode.zt, !original);
    let e2 = s.networks[0].toggle_v4_request();
    s.toggle_v4_outcome(true);
    assert_eq!(e2.v4_assign_mode.zt, original);
    assert_eq!(s.networks[0].v4_assign_mode.zt, original);
}

#[test]
fn failed_toggle_leaves_the_cache_alone() {
    let mut s = session(vec![network("A", None)]);
    s.choose_from_network_list(Some(0));
    s.toggle_v4_outcome(false);
    assert_eq!(s.networks[0].v4_assign_mode.zt, false);
}

#[test]
fn failed_delete_keeps_the_list() {
    let mut s = session(vec![network("A", None), network("B", None)]);
    s.choose_from_network_list(Some(0));
    s.delete_network_outcome(false);
    assert_eq!(s.networks.len(), 2);
    assert_eq!(s.networks[0].id, "A");
    assert_eq!(s.selected_network, Some(0));
}

#[test]
fn successful_delete_removes_exactly_one() {
    let mut s = session(vec![network("A", None), network("B", None), network("C", None)]);
    s.choose_from_network_list(Some(1));
    s.delete_network_outcome(true);
    assert_eq!(s.networks.len(), 2);
    assert_eq!(s.networks[0].id, "A");
    assert_eq!(s.networks[1].id, "C");
    assert_eq!(s.selected_network, None);
}

#[test]
fn empty_member_screen_returns_to_detail() {
    let mut s = session(vec![network("A", None)]);
    s.choose_from_network_list(Some(0));
    let entered = s.enter_member_screen(Vec::new());
    assert!(!entered);
    assert!(s.members.is_none());
    assert_eq!(s.selected_network, Some(0));
}

#[test]
fn member_screen_lists_every_member() {
    let mut s = session(vec![network("A", None)]);
    s.choose_from_network_list(Some(0));
    let entered = s.enter_member_screen(vec![member("m1", true), member("m2", false)]);
    assert!(entered);
    let items = s.member_menu_items();
    assert_eq!(items, vec!["\u{1f513} m1 (10.1.1.1)", "\u{1f512} m2 (10.1.1.1)"]);
}

#[test]
fn member_detail_items_follow_authorization() {
    let mut s = session(vec![network("A", None)]);
    s.choose_from_network_list(Some(0));
    s.enter_member_screen(vec![member("m1", true), member("m2", false)]);
    assert_eq!(s.member_detail_items(0)[0], "Deauthorize");
    assert_eq!(s.member_detail_items(1), vec!["Authorize", "Set name", "Set IP", "Delete"]);
}

#[test]
fn member_edit_requests_keep_unmodified_fields() {
    let m = member("m1", false);
    let auth = m.toggle_auth_request();
    assert!(auth.authorized);
    assert_eq!(auth.ip_assignments, m.ip_assignments);
    assert_eq!(auth.name, m.name);
    let named = m.set_name_request("node".to_string());
    assert_eq!(named.name, Some("node".to_string()));
    assert_eq!(named.authorized, m.authorized);
    assert_eq!(named.ip_assignments, m.ip_assignments);
    let cleared = m.set_name_request("".to_string());
    assert_eq!(cleared.name, None);
    let ip = m.set_ip_request("10.9.9.9".to_string());
    assert_eq!(ip.ip_assignments, vec!["10.9.9.9".to_string()]);
    assert_eq!(ip.authorized, m.authorized);
    assert_eq!(ip.name, m.name);
}

#[test]
fn member_outcomes_apply_only_on_success() {
    let mut s = session(vec![network("A", None)]);
    s.choose_from_network_list(Some(0));
    s.enter_member_screen(vec![member("m1", false), member("m2", true)]);
    s.member_auth_outcome(0, false);
    assert!(!s.members.as_ref().unwrap()[0].authorized);
    s.member_auth_outcome(0, true);
    assert!(s.members.as_ref().unwrap()[0].authorized);
    s.member_name_outcome(1, Some("kept".to_string()), true);
    assert_eq!(s.members.as_ref().unwrap()[1].name, Some("kept".to_string()));
    s.member_name_outcome(1, None, true);
    assert_eq!(s.members.as_ref().unwrap()[1].name, None);
    s.member_ip_outcome(0, "10.2.2.2".to_string(), true);
    assert_eq!(s.members.as_ref().unwrap()[0].ip_assignments, vec!["10.2.2.2".to_string()]);
    s.delete_member_outcome(0, false);
    assert_eq!(s.members.as_ref().unwrap().len(), 2);
    s.delete_member_outcome(0, true);
    let left = s.members.as_ref().unwrap();
    assert_eq!(left.len(), 1);
    assert_eq!(left[0].id, "m2");
}

#[test]
fn leaving_screens_clears_the_right_state() {
    let mut s = session(vec![network("A", None)]);
    s.choose_from_network_list(Some(0));
    s.enter_member_screen(vec![member("m1", false)]);
    s.leave_member_list();
    assert!(s.members.is_none());
    assert_eq!(s.selected_network, Some(0));
    s.leave_network_detail();
    assert_eq!(s.selected_network, None);
}
