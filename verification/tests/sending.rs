use std::cell::RefCell;

use lobby::{Address, Connection, Lobby, LobbySender};

fn sender_with(ids: &[usize]) -> LobbySender {
    let mut sender = LobbySender::new();
    for &id in ids {
        let conn = Connection { id, addr: Address::V4 { ip: id as u32, port: 1 } };
        sender.connections.insert(conn).unwrap();
    }
    sender
}

#[test]
fn send_reaches_every_connection_in_ascending_order() {
    let sender = sender_with(&[2, 0, 1]);
    let written = RefCell::new(Vec::new());
    let outcome = sender.send(b"hello", |id, data: &[u8]| -> Result<usize, String> {
        written.borrow_mut().push((id, data.to_vec()));
        Ok(data.len())
    });
    assert_eq!(outcome, Ok(()));
    assert_eq!(
        written.into_inner(),
        vec![(0, b"hello".to_vec()), (1, b"hello".to_vec()), (2, b"hello".to_vec())]
    );
}

#[test]
fn a_failed_write_is_reported_and_stops_nothing() {
    let sender = sender_with(&[0, 1, 2]);
    let written = RefCell::new(Vec::new());
    let outcome = sender.send(b"P", |id, data: &[u8]| {
        if id == 1 {
            Err("broken pipe")
        } else {
            written.borrow_mut().push((id, data.to_vec()));
            Ok(data.len())
        }
    });
    assert_eq!(outcome, Err(vec![(1, "broken pipe")]));
    assert_eq!(written.into_inner(), vec![(0, b"P".to_vec()), (2, b"P".to_vec())]);
}

#[test]
fn every_failure_is_reported_in_order() {
    let sender = sender_with(&[4, 9, 1, 6]);
    let attempted = RefCell::new(Vec::new());
    let outcome = sender.send(b"x", |id, _data: &[u8]| {
        attempted.borrow_mut().push(id);
        if id % 2 == 0 {
            Err(id * 10)
        } else {
            Ok(1)
        }
    });
    assert_eq!(outcome, Err(vec![(4, 40), (6, 60)]));
    assert_eq!(attempted.into_inner(), vec![1, 4, 6, 9]);
}

#[test]
fn a_failed_write_leaves_the_connection_registered() {
    let sender = sender_with(&[0, 1]);
    let outcome = sender.send(b"x", |id, _data: &[u8]| if id == 0 { Err(()) } else { Ok(1) });
    assert_eq!(outcome, Err(vec![(0, ())]));
    assert_eq!(sender.connections.ids(), vec![0, 1]);
}

#[test]
fn send_to_an_empty_registry_succeeds_without_writing() {
    let sender = LobbySender::new();
    let calls = RefCell::new(0);
    let outcome = sender.send(b"x", |_id, _data: &[u8]| -> Result<usize, ()> {
        *calls.borrow_mut() += 1;
        Ok(1)
    });
    assert_eq!(outcome, Ok(()));
    assert_eq!(calls.into_inner(), 0);
}

#[test]
fn send_to_pred_reaches_exactly_the_chosen() {
    let sender = sender_with(&[0, 1, 2, 3, 4, 5]);
    let written = RefCell::new(Vec::new());
    let outcome = sender.send_to_pred(
        |id| id % 3 == 0,
        b"x",
        |id, _data: &[u8]| -> Result<usize, ()> {
            written.borrow_mut().push(id);
            Ok(1)
        },
    );
    assert_eq!(outcome, Ok(()));
    assert_eq!(written.into_inner(), vec![0, 3]);
}

#[test]
fn send_to_pred_asks_the_predicate_once_for_each_connection() {
    let sender = sender_with(&[3, 1, 2]);
    let asked = RefCell::new(Vec::new());
    let outcome = sender.send_to_pred(
        |id| {
            asked.borrow_mut().push(id);
            false
        },
        b"x",
        |_id, _data: &[u8]| -> Result<usize, ()> { panic!("nothing was chosen") },
    );
    assert_eq!(outcome, Ok(()));
    assert_eq!(asked.into_inner(), vec![1, 2, 3]);
}

#[test]
fn send_to_pred_reports_only_chosen_failures() {
    let sender = sender_with(&[0, 1, 2, 3]);
    let outcome = sender.send_to_pred(|id| id >= 2, b"x", |id, _data: &[u8]| -> Result<usize, usize> { Err(id) });
    assert_eq!(outcome, Err(vec![(2, 2), (3, 3)]));
}

#[test]
fn send_to_reaches_only_the_addressee() {
    for registered in [vec![0, 1, 2], vec![1], vec![1, 7, 9], vec![5, 1]] {
        let sender = sender_with(&registered);
        let written = RefCell::new(Vec::new());
        let outcome = sender.send_to(1, b"x", |id, _data: &[u8]| -> Result<usize, ()> {
            written.borrow_mut().push(id);
            Ok(1)
        });
        assert_eq!(outcome, Ok(()));
        assert_eq!(written.into_inner(), vec![1]);
    }
}

#[test]
fn send_to_except_reaches_all_but_one() {
    for (registered, reached) in [
        (vec![0, 1, 2], vec![0, 2]),
        (vec![1], vec![]),
        (vec![3, 4], vec![3, 4]),
        (vec![9, 1, 7], vec![7, 9]),
    ] {
        let sender = sender_with(&registered);
        let written = RefCell::new(Vec::new());
        let outcome = sender.send_to_except(1, b"x", |id, _data: &[u8]| -> Result<usize, ()> {
            written.borrow_mut().push(id);
            Ok(1)
        });
        assert_eq!(outcome, Ok(()));
        assert_eq!(written.into_inner(), reached);
    }
}

#[test]
fn send_to_reports_the_failure_of_its_one_write() {
    let sender = sender_with(&[0, 1]);
    let outcome = sender.send_to(1, b"x", |_id, _data: &[u8]| -> Result<usize, u8> { Err(3) });
    assert_eq!(outcome, Err(vec![(1, 3)]));
}

#[test]
fn send_to_an_unregistered_id_does_nothing() {
    let sender = sender_with(&[0, 2]);
    let outcome = sender.send_to(1, b"x", |_id, _data: &[u8]| -> Result<usize, ()> {
        panic!("id 1 is not registered")
    });
    assert_eq!(outcome, Ok(()));
}

#[test]
fn a_lost_connection_is_out_of_reach() {
    let (mut lobby, mut sender, mut receiver) = Lobby::<u32>::spawn();
    let from = Address::V4 { ip: 1, port: 1 };
    let first = lobby.accept(from, &mut sender.connections, &mut receiver).unwrap();
    let _second = lobby.accept(from, &mut sender.connections, &mut receiver).unwrap();
    let mut first = first;
    assert!(!first.step(serde_json::from_str::<u32>(""), &mut receiver));
    first.finish(&mut sender.connections, &mut receiver);

    let written = RefCell::new(Vec::new());
    let write = |id: usize, _data: &[u8]| -> Result<usize, ()> {
        written.borrow_mut().push(id);
        Ok(1)
    };
    assert_eq!(sender.send_to(0, b"x", &write), Ok(()));
    assert!(written.borrow().is_empty());
    assert_eq!(sender.send(b"x", &write), Ok(()));
    assert_eq!(written.into_inner(), vec![1]);
}
