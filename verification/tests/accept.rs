use lobby::{Address, Connection, EventKind, Lobby};

fn from(n: u16) -> Address {
    Address::V4 { ip: 0x7f00_0001, port: n }
}

#[test]
fn a_fresh_lobby_is_running_and_empty() {
    let (lobby, sender, mut receiver) = Lobby::<u32>::spawn();
    assert!(lobby.running());
    assert_eq!(lobby.next_id(), 0);
    assert!(sender.connections.ids().is_empty());
    assert!(receiver.events().is_empty());
}

#[test]
fn ids_count_up_from_zero_in_accept_order() {
    let (mut lobby, mut sender, mut receiver) = Lobby::<u32>::spawn();
    for n in 0..25usize {
        let reader = lobby.accept(from(n as u16), &mut sender.connections, &mut receiver).unwrap();
        assert_eq!(reader.id(), n);
        assert_eq!(reader.addr(), from(n as u16));
        assert!(reader.running());
    }
    assert_eq!(lobby.next_id(), 25);
    assert_eq!(sender.connections.ids(), (0..25).collect::<Vec<usize>>());
}

#[test]
fn accept_registers_and_publishes() {
    let (mut lobby, mut sender, mut receiver) = Lobby::<u32>::spawn();
    lobby.accept(from(1), &mut sender.connections, &mut receiver).unwrap();
    lobby.accept(from(2), &mut sender.connections, &mut receiver).unwrap();
    assert!(sender.connections.contains(0));
    assert!(sender.connections.contains(1));
    assert_eq!(sender.connections.remove(1), Some(Connection { id: 1, addr: from(2) }));
    let drained = receiver.events();
    assert_eq!(drained.len(), 2);
    assert_eq!(drained[0].from, 0);
    assert!(matches!(drained[0].event, EventKind::ConnectionReceived(addr) if addr == from(1)));
    assert_eq!(drained[1].from, 1);
    assert!(matches!(drained[1].event, EventKind::ConnectionReceived(addr) if addr == from(2)));
}

#[test]
fn an_id_is_not_given_again_after_its_connection_is_gone() {
    let (mut lobby, mut sender, mut receiver) = Lobby::<u32>::spawn();
    let first = lobby.accept(from(1), &mut sender.connections, &mut receiver).unwrap();
    let second = lobby.accept(from(2), &mut sender.connections, &mut receiver).unwrap();
    assert_eq!((first.id(), second.id()), (0, 1));
    first.finish(&mut sender.connections, &mut receiver);
    second.finish(&mut sender.connections, &mut receiver);
    assert!(sender.connections.ids().is_empty());
    let third = lobby.accept(from(3), &mut sender.connections, &mut receiver).unwrap();
    assert_eq!(third.id(), 2);
    assert_eq!(sender.connections.ids(), vec![2]);
}

#[test]
fn polling_without_a_signal_keeps_the_loop_running() {
    let (mut lobby, _, _) = Lobby::<u32>::spawn();
    assert!(lobby.poll_stop(false));
    assert!(lobby.poll_stop(false));
    assert!(lobby.running());
}

#[test]
fn the_stop_signal_stops_the_loop_for_good() {
    let (mut lobby, mut sender, mut receiver) = Lobby::<u32>::spawn();
    lobby.accept(from(1), &mut sender.connections, &mut receiver).unwrap();
    receiver.events();
    assert!(!lobby.poll_stop(true));
    assert!(!lobby.running());
    assert!(!lobby.poll_stop(false));
    assert!(lobby.accept(from(2), &mut sender.connections, &mut receiver).is_none());
    assert_eq!(lobby.next_id(), 1);
    assert_eq!(sender.connections.ids(), vec![0]);
    assert!(receiver.events().is_empty());
}

#[test]
fn an_id_that_is_taken_is_not_given() {
    let (mut lobby, mut sender, mut receiver) = Lobby::<u32>::spawn();
    let squatter = Connection { id: 0, addr: from(9) };
    sender.connections.insert(squatter).unwrap();
    assert!(lobby.accept(from(1), &mut sender.connections, &mut receiver).is_none());
    assert_eq!(lobby.next_id(), 0);
    assert!(receiver.events().is_empty());
    assert_eq!(sender.connections.remove(0), Some(squatter));
    assert!(lobby.accept(from(1), &mut sender.connections, &mut receiver).is_some());
}
