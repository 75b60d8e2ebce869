use kernel::net::udp_port_table::{PortEntry, PortQuery, UdpPortTable, MAX_NUM_BOUND_PORTS};
use kernel::returncode::ReturnCode;

/// Applications have bound the ports listed.
struct UserPorts(Vec<u16>);

impl PortQuery for UserPorts {
    fn is_bound(&self, port: u16) -> bool {
        self.0.contains(&port)
    }
}

fn table() -> UdpPortTable<UserPorts> {
    let mut table = UdpPortTable::new();
    table.set_user_ports(UserPorts(vec![80]));
    table
}

#[test]
fn is_bound_needs_the_user_query() {
    let table: UdpPortTable<UserPorts> = UdpPortTable::new();
    assert_eq!(table.is_bound(80), Err(()));
    let table = self::table();
    assert_eq!(table.is_bound(80), Ok(true));
    assert_eq!(table.is_bound(81), Ok(false));
}

#[test]
fn bind_then_the_port_is_bound() {
    let mut table = table();
    let socket = table.create_socket().ok().unwrap();
    let (sender, receiver) = table.bind(socket, 1000).ok().unwrap();
    assert_eq!(sender.get_port(), 1000);
    assert_eq!(receiver.get_port(), 1000);
    assert_eq!(table.is_bound(1000), Ok(true));
}

#[test]
fn a_port_is_bound_once() {
    let mut table = table();
    let first = table.create_socket().ok().unwrap();
    let second = table.create_socket().ok().unwrap();
    assert!(table.bind(first, 1000).is_ok());
    let second = table.bind(second, 1000).err().unwrap();
    // A port that an application bound cannot be bound either.
    let second = table.bind(second, 80).err().unwrap();
    assert!(table.bind(second, 1001).is_ok());
}

#[test]
fn bind_without_user_query_gives_the_socket_back() {
    let mut table: UdpPortTable<UserPorts> = UdpPortTable::new();
    let socket = table.create_socket().ok().unwrap();
    assert!(table.bind(socket, 5).is_err());
}

#[test]
fn sockets_run_out() {
    let mut table = table();
    let mut sockets = Vec::new();
    for _ in 0..MAX_NUM_BOUND_PORTS {
        sockets.push(table.create_socket().ok().unwrap());
    }
    assert!(matches!(table.create_socket(), Err(ReturnCode::FAIL)));
    // Destroying an unbound socket frees its slot.
    let socket = sockets.pop().unwrap();
    table.destroy_socket(socket);
    assert!(table.create_socket().is_ok());
}

#[test]
fn unbind_frees_the_port() {
    let mut table = table();
    let socket = table.create_socket().ok().unwrap();
    let (sender, receiver) = table.bind(socket, 2000).ok().unwrap();
    let socket = table.unbind(sender, receiver).ok().unwrap();
    assert_eq!(table.is_bound(2000), Ok(false));
    assert!(table.bind(socket, 2000).is_ok());
}

#[test]
fn unbind_needs_matching_bindings() {
    let mut table = table();
    let first = table.create_socket().ok().unwrap();
    let second = table.create_socket().ok().unwrap();
    let (sender1, receiver1) = table.bind(first, 10).ok().unwrap();
    let (sender2, receiver2) = table.bind(second, 11).ok().unwrap();
    let (sender1, receiver2) = table.unbind(sender1, receiver2).err().unwrap();
    assert!(table.unbind(sender1, receiver1).is_ok());
    assert!(table.unbind(sender2, receiver2).is_ok());
    assert_eq!(PortEntry::Port(3), PortEntry::Port(3));
    assert!(PortEntry::Port(3) != PortEntry::Unbound);
}

#[test]
fn decisions_given_the_application_answer() {
    let mut table = table();
    assert_eq!(table.port_bound_with(None, 7), Err(()));
    assert_eq!(table.port_bound_with(Some(true), 7), Ok(true));
    assert_eq!(table.port_bound_with(Some(false), 7), Ok(false));
    let socket = table.create_socket().ok().unwrap();
    let socket = table.bind_with(socket, 7, Ok(true)).err().unwrap();
    let socket = table.bind_with(socket, 7, Err(())).err().unwrap();
    assert!(table.bind_with(socket, 7, Ok(false)).is_ok());
    assert_eq!(table.port_bound_with(Some(false), 7), Ok(true));
}
