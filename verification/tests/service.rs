use action_gateway::service::Service;
use std::cell::RefCell;
use std::rc::Rc;

/// A capability that records what is pushed through it and can be closed.
#[derive(Clone)]
struct Line {
    name: &'static str,
    open: Rc<RefCell<bool>>,
    sent: Rc<RefCell<Vec<String>>>,
}

impl Line {
    fn new(name: &'static str) -> Line {
        Line { name, open: Rc::new(RefCell::new(true)), sent: Rc::new(RefCell::new(Vec::new())) }
    }

    fn push(&self, text: String) -> bool {
        if *self.open.borrow() {
            self.sent.borrow_mut().push(text);
            true
        } else {
            false
        }
    }

    fn hang_up(&self) {
        *self.open.borrow_mut() = false;
    }
}

#[test]
fn new_registry_is_empty() {
    let service: Service<Line> = Service::new();
    assert!(service.get_sender(0).is_none());
    assert!(service.get_sender(1).is_none());
    assert!(service.get_sender(usize::MAX).is_none());
}

#[test]
fn first_identity_is_one() {
    let mut service: Service<u8> = Service::new();
    assert_eq!(service.add_client(0), Ok(1));
}

#[test]
fn three_connections_get_one_two_three() {
    let mut service: Service<&str> = Service::new();
    assert_eq!(service.add_client("a"), Ok(1));
    assert_eq!(service.add_client("b"), Ok(2));
    assert_eq!(service.add_client("c"), Ok(3));
    assert_eq!(service.get_sender(1), Some("a"));
    assert_eq!(service.get_sender(2), Some("b"));
    assert_eq!(service.get_sender(3), Some("c"));
    assert_eq!(service.get_sender(4), None);
}

#[test]
fn removed_identity_is_reused_before_a_new_one() {
    let mut service: Service<&str> = Service::new();
    assert_eq!(service.add_client("a"), Ok(1));
    assert_eq!(service.add_client("b"), Ok(2));
    assert_eq!(service.add_client("c"), Ok(3));
    service.remove_client(2);
    assert_eq!(service.get_sender(2), None);
    assert_eq!(service.add_client("d"), Ok(2));
    assert_eq!(service.get_sender(2), Some("d"));
    assert_eq!(service.add_client("e"), Ok(4));
    assert_eq!(service.get_sender(1), Some("a"));
    assert_eq!(service.get_sender(3), Some("c"));
}

#[test]
fn lowest_of_several_free_identities_wins() {
    let mut service: Service<u32> = Service::new();
    for n in 1..=6u32 {
        assert_eq!(service.add_client(n), Ok(n as usize));
    }
    service.remove_client(5);
    service.remove_client(2);
    service.remove_client(4);
    assert_eq!(service.add_client(20), Ok(2));
    assert_eq!(service.add_client(40), Ok(4));
    assert_eq!(service.add_client(50), Ok(5));
    assert_eq!(service.add_client(70), Ok(7));
}

#[test]
fn identities_held_at_once_are_distinct_and_never_zero() {
    let mut service: Service<usize> = Service::new();
    let mut held: Vec<usize> = Vec::new();
    for round in 0..200usize {
        let id = service.add_client(round).unwrap();
        assert_ne!(id, 0);
        assert!(!held.contains(&id));
        held.push(id);
        if round % 3 == 2 {
            let gone = held.remove(round % held.len());
            service.remove_client(gone);
        }
    }
    for id in &held {
        assert!(service.get_sender(*id).is_some());
    }
}

#[test]
fn get_new_id_returns_the_identity_itself() {
    let mut service: Service<char> = Service::new();
    assert_eq!(service.get_new_id('a'), 1);
    assert_eq!(service.get_new_id('b'), 2);
    assert!(service.remove_id(1));
    assert_eq!(service.get_new_id('c'), 1);
    assert_eq!(service.get_sender(1), Some('c'));
}

#[test]
fn remove_id_says_whether_anything_was_removed() {
    let mut service: Service<char> = Service::new();
    assert_eq!(service.add_client('x'), Ok(1));
    assert!(!service.remove_id(2));
    assert!(!service.remove_id(0));
    assert!(service.remove_id(1));
    assert!(!service.remove_id(1));
}

#[test]
fn removing_an_absent_identity_changes_nothing() {
    let mut service: Service<&str> = Service::new();
    assert_eq!(service.add_client("a"), Ok(1));
    assert_eq!(service.add_client("b"), Ok(2));
    service.remove_client(9);
    service.remove_client(0);
    service.remove_client(usize::MAX);
    assert_eq!(service.get_sender(1), Some("a"));
    assert_eq!(service.get_sender(2), Some("b"));
    assert_eq!(service.add_client("c"), Ok(3));
}

#[test]
fn removing_twice_is_removing_once() {
    let mut service: Service<&str> = Service::new();
    assert_eq!(service.add_client("a"), Ok(1));
    assert_eq!(service.add_client("b"), Ok(2));
    assert_eq!(service.add_client("c"), Ok(3));
    service.remove_client(2);
    service.remove_client(2);
    assert_eq!(service.get_sender(1), Some("a"));
    assert_eq!(service.get_sender(2), None);
    assert_eq!(service.get_sender(3), Some("c"));
    assert_eq!(service.add_client("d"), Ok(2));
}

#[test]
fn removing_from_an_empty_registry_is_harmless() {
    let mut service: Service<u8> = Service::new();
    service.remove_client(1);
    assert_eq!(service.add_client(5), Ok(1));
}

#[test]
fn get_sender_hands_out_a_clone_of_the_bound_capability() {
    let mut service: Service<Line> = Service::new();
    let line = Line::new("one");
    assert_eq!(service.add_client(line.clone()), Ok(1));
    let got = service.get_sender(1).unwrap();
    assert_eq!(got.name, "one");
    assert!(got.push("hello".to_string()));
    assert_eq!(*line.sent.borrow(), vec!["hello".to_string()]);
    assert!(service.get_sender(1).is_some());
}

#[test]
fn reply_is_delivered_through_the_capability_of_that_identity() {
    let mut service: Service<Line> = Service::new();
    let one = Line::new("one");
    let two = Line::new("two");
    assert_eq!(service.add_client(one.clone()), Ok(1));
    assert_eq!(service.add_client(two.clone()), Ok(2));
    service.socket_reply((2, "pong"), |line: &Line, msg: &str| line.push(msg.to_string()));
    assert!(one.sent.borrow().is_empty());
    assert_eq!(*two.sent.borrow(), vec!["pong".to_string()]);
    assert!(service.get_sender(1).is_some());
    assert!(service.get_sender(2).is_some());
}

#[test]
fn failed_delivery_removes_the_identity() {
    let mut service: Service<Line> = Service::new();
    let one = Line::new("one");
    let two = Line::new("two");
    assert_eq!(service.add_client(one.clone()), Ok(1));
    assert_eq!(service.add_client(two.clone()), Ok(2));
    one.hang_up();
    service.socket_reply((1, "pong"), |line: &Line, msg: &str| line.push(msg.to_string()));
    assert!(one.sent.borrow().is_empty());
    assert!(service.get_sender(1).is_none());
    assert!(service.get_sender(2).is_some());
    assert_eq!(service.add_client(Line::new("three")), Ok(1));
}

#[test]
fn reply_to_a_removed_identity_delivers_nothing() {
    let mut service: Service<Line> = Service::new();
    let one = Line::new("one");
    let two = Line::new("two");
    assert_eq!(service.add_client(one.clone()), Ok(1));
    assert_eq!(service.add_client(two.clone()), Ok(2));
    service.remove_client(1);
    let calls = RefCell::new(0u32);
    service.socket_reply((1, "late"), |line: &Line, msg: &str| {
        *calls.borrow_mut() += 1;
        line.push(msg.to_string())
    });
    assert_eq!(*calls.borrow(), 0);
    assert!(one.sent.borrow().is_empty());
    assert!(two.sent.borrow().is_empty());
    assert!(service.get_sender(1).is_none());
    assert!(service.get_sender(2).is_some());
}

#[test]
fn reply_to_an_identity_never_held_delivers_nothing() {
    let mut service: Service<Line> = Service::new();
    service.socket_reply((0, 1u8), |_line: &Line, _msg: u8| -> bool {
        panic!("delivery was attempted")
    });
    service.socket_reply((42, 1u8), |_line: &Line, _msg: u8| -> bool {
        panic!("delivery was attempted")
    });
    assert!(service.get_sender(42).is_none());
    assert_eq!(service.add_client(Line::new("one")), Ok(1));
}

#[test]
fn settled_delivery_keeps_or_drops_the_entry() {
    let mut service: Service<&str> = Service::new();
    assert_eq!(service.add_client("a"), Ok(1));
    assert_eq!(service.add_client("b"), Ok(2));
    service.delivery_settled(1, true);
    assert_eq!(service.get_sender(1), Some("a"));
    service.delivery_settled(1, false);
    assert_eq!(service.get_sender(1), None);
    assert_eq!(service.get_sender(2), Some("b"));
    service.delivery_settled(7, false);
    assert_eq!(service.get_sender(2), Some("b"));
}
