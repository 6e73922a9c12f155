use vr_gurus::apps::{Home, Workshop};
use vr_gurus::physics::{BodyTicket, PhysicsGuru, TicketError};

#[test]
fn tickets_yield_stepped_bodies_once() {
    let mut p = PhysicsGuru::new(7);
    let a = p.body(10);
    let b = p.body(20);
    assert_eq!(a, BodyTicket { frame: 7, slot: 0 });
    assert_eq!(b, BodyTicket { frame: 7, slot: 1 });
    assert_eq!(p.submitted(), &vec![10, 20]);
    let mut r = p.resolve(vec![11, 21]);
    assert_eq!(r.take(b), Ok(21));
    assert_eq!(r.take(a), Ok(11));
    assert_eq!(r.take(a), Err(TicketError::Taken));
}

#[test]
fn ticket_of_a_later_frame_is_not_resolved() {
    let mut next = PhysicsGuru::new(8);
    let t = next.body(1);
    let mut r = PhysicsGuru::<i32>::new(7).resolve(vec![]);
    assert_eq!(r.take(t), Err(TicketError::NotResolved));
}

#[test]
fn ticket_of_an_earlier_frame_is_expired() {
    let mut old = PhysicsGuru::new(6);
    let t = old.body(1);
    let mut r = PhysicsGuru::<i32>::new(7).resolve(vec![]);
    assert_eq!(r.take(t), Err(TicketError::Expired));
}

#[test]
fn ticket_never_issued_is_unknown() {
    let mut r = PhysicsGuru::<i32>::new(7).resolve(vec![]);
    assert_eq!(r.take(BodyTicket { frame: 7, slot: 0 }), Err(TicketError::Unknown));
}

#[test]
fn empty_scenes() {
    let _ = Home::new();
    let _ = Workshop::new();
}
