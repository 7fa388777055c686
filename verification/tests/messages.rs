use actor::actor::Actor;
use actor::ambient::Ambient;
use actor::distributor::Distributor;
use actor::failure::Failure;
use actor::message::Message;
use actor::register::Register;
use actor::spawn::spawn;
use std::sync::mpsc::Receiver;
use std::sync::mpsc::Sender;
use std::sync::mpsc::TryRecvError;
use std::sync::Arc;
use std::sync::Mutex;

/// Where an actor leaves its ends when it returns, so that its queues stay
/// open and a test can look at what reached it.
type Parking = Arc<Mutex<Option<(Sender<i32>, Receiver<i32>)>>>;

fn parking() -> Parking {
    Arc::new(Mutex::new(None))
}

fn requests_seen(parking: &Parking) -> Vec<i32> {
    let parked = parking.lock().unwrap();
    let (_, receiver) = parked.as_ref().expect("the actor has run");
    receiver.try_iter().collect()
}

/// Answers with one more than it receives. It cannot wait for its requests
/// here, so it is told in advance what they will be.
struct Echo {
    expected: Vec<i32>,
    parking: Parking,
}

impl Actor<i32, i32> for Echo {
    fn start(self, sender: Sender<i32>, receiver: Receiver<i32>) {
        for request in self.expected {
            sender.send(request + 1).unwrap();
        }
        *self.parking.lock().unwrap() = Some((sender, receiver));
    }
}

/// Answers with ten times what it receives.
struct Scale {
    expected: Vec<i32>,
    parking: Parking,
}

impl Actor<i32, i32> for Scale {
    fn start(self, sender: Sender<i32>, receiver: Receiver<i32>) {
        for request in self.expected {
            sender.send(request * 10).unwrap();
        }
        *self.parking.lock().unwrap() = Some((sender, receiver));
    }
}

/// Stops as soon as it is started.
struct Quitter;

impl Actor<i32, i32> for Quitter {
    fn start(self, _sender: Sender<i32>, _receiver: Receiver<i32>) {}
}

#[test]
fn a_message_wraps_any_sendable_value() {
    let _number = Message::new(5);
    let _text = Message::new(String::from("five"));
    let _list = Message::new(vec![1u8, 2, 3]);
}

#[test]
fn echo_answers_five_with_six() {
    let mut ambient = Ambient::unbound();
    let distributor = Distributor::new(&mut ambient);
    let seen = parking();
    distributor.register(Echo { expected: vec![5], parking: seen.clone() }).run();
    assert_eq!(Message::new(5).send::<Echo, i32>(&ambient), Ok(6));
    assert_eq!(requests_seen(&seen), vec![5]);
}

#[test]
fn two_senders_get_their_own_replies() {
    let mut ambient = Ambient::unbound();
    let distributor = Distributor::new(&mut ambient);
    let seen = parking();
    distributor.register(Echo { expected: vec![5, 10], parking: seen.clone() }).run();
    let first = ambient.inherit();
    let second = ambient.inherit();
    assert_eq!(Message::new(5).send::<Echo, i32>(&first), Ok(6));
    assert_eq!(Message::new(10).send::<Echo, i32>(&second), Ok(11));
    assert_eq!(requests_seen(&seen), vec![5, 10]);
}

#[test]
fn send_before_registration_fails_at_once() {
    let mut ambient = Ambient::unbound();
    let distributor = Distributor::new(&mut ambient);
    assert_eq!(Message::new(5).send::<Echo, i32>(&ambient), Err(Failure::MissingActor));
    let seen = parking();
    distributor.register(Echo { expected: vec![5], parking: seen.clone() }).run();
    assert_eq!(Message::new(5).send::<Echo, i32>(&ambient), Ok(6));
}

#[test]
fn send_without_context_fails() {
    let nowhere = Ambient::unbound();
    assert!(!nowhere.is_bound());
    assert_eq!(Message::new(5).send::<Echo, i32>(&nowhere), Err(Failure::MissingContext));
    assert_eq!(Message::new(5).send::<Echo, i32>(&nowhere.inherit()), Err(Failure::MissingContext));
}

#[test]
fn send_without_context_fails_even_if_the_actor_exists_elsewhere() {
    let mut ambient = Ambient::unbound();
    let distributor = Distributor::new(&mut ambient);
    let seen = parking();
    distributor.register(Echo { expected: vec![5], parking: seen.clone() }).run();
    assert_eq!(Message::new(5).send::<Echo, i32>(&Ambient::unbound()), Err(Failure::MissingContext));
    assert_eq!(requests_seen(&seen), Vec::<i32>::new());
}

#[test]
fn send_to_an_unregistered_type_never_reaches_another_actor() {
    let mut ambient = Ambient::unbound();
    let distributor = Distributor::new(&mut ambient);
    let seen = parking();
    distributor.register(Echo { expected: vec![5], parking: seen.clone() }).run();
    assert_eq!(Message::new(5).send::<Scale, i32>(&ambient), Err(Failure::MissingActor));
    assert_eq!(Message::new(5).send::<Scale, i32>(&ambient), Err(Failure::MissingActor));
    assert_eq!(requests_seen(&seen), Vec::<i32>::new());
    assert_eq!(Message::new(5).send::<Echo, i32>(&ambient), Ok(6));
}

#[test]
fn actors_of_different_types_are_reached_by_their_types() {
    let mut ambient = Ambient::unbound();
    let distributor = Distributor::new(&mut ambient);
    let echo_seen = parking();
    let scale_seen = parking();
    distributor.register(Echo { expected: vec![5], parking: echo_seen.clone() }).run();
    distributor.register(Scale { expected: vec![7], parking: scale_seen.clone() }).run();
    assert_eq!(Message::new(7).send::<Scale, i32>(&ambient), Ok(70));
    assert_eq!(Message::new(5).send::<Echo, i32>(&ambient), Ok(6));
    assert_eq!(requests_seen(&echo_seen), vec![5]);
    assert_eq!(requests_seen(&scale_seen), vec![7]);
}

#[test]
fn registering_again_orphans_the_first_actor() {
    let mut ambient = Ambient::unbound();
    let distributor = Distributor::new(&mut ambient);
    let first = parking();
    let second = parking();
    distributor.register(Echo { expected: vec![99], parking: first.clone() }).run();
    distributor.register(Echo { expected: vec![5], parking: second.clone() }).run();
    assert_eq!(Message::new(5).send::<Echo, i32>(&ambient), Ok(6));
    assert_eq!(requests_seen(&second), vec![5]);

    let parked = first.lock().unwrap();
    let (sender, receiver) = parked.as_ref().unwrap();
    assert_eq!(receiver.try_recv(), Err(TryRecvError::Disconnected));
    assert!(sender.send(0).is_err());
}

#[test]
fn send_to_a_stopped_actor_fails() {
    let mut ambient = Ambient::unbound();
    let distributor = Distributor::new(&mut ambient);
    distributor.register(Quitter).run();
    assert_eq!(Message::new(5).send::<Quitter, i32>(&ambient), Err(Failure::Disconnected));
}

#[test]
fn a_new_distributor_binds_the_context() {
    let mut ambient = Ambient::unbound();
    assert!(ambient.handle().is_err());
    let distributor = Distributor::new(&mut ambient);
    assert!(ambient.is_bound());
    assert!(Arc::ptr_eq(&ambient.handle().unwrap(), &distributor));
    assert!(Arc::ptr_eq(&ambient.inherit().handle().unwrap(), &distributor));
}

#[test]
fn a_new_distributor_replaces_the_context() {
    let mut ambient = Ambient::unbound();
    let first = Distributor::new(&mut ambient);
    let seen = parking();
    first.register(Echo { expected: vec![5], parking: seen.clone() }).run();
    let second = Distributor::new(&mut ambient);
    assert!(Arc::ptr_eq(&ambient.handle().unwrap(), &second));
    assert_eq!(Message::new(5).send::<Echo, i32>(&ambient), Err(Failure::MissingActor));
    assert_eq!(Message::new(5).send::<Echo, i32>(&Ambient::bound_to(&first)), Ok(6));
}

#[test]
fn an_actor_starts_in_the_context_of_its_distributor() {
    let mut ambient = Ambient::unbound();
    let distributor = Distributor::new(&mut ambient);
    let seen = parking();
    let launch = distributor.register(Echo { expected: vec![5], parking: seen.clone() });
    let inside = launch.context();
    assert!(Arc::ptr_eq(&inside.handle().unwrap(), &distributor));
    launch.run();
    assert_eq!(Message::new(5).send::<Echo, i32>(&inside), Ok(6));
}

#[test]
fn registration_needs_no_context() {
    let mut elsewhere = Ambient::unbound();
    let distributor = Distributor::new(&mut elsewhere);
    let seen = parking();
    let launch = distributor.register(Echo { expected: vec![5], parking: seen.clone() });
    assert!(launch.context().is_bound());
}

#[test]
fn spawn_without_context_fails() {
    let out = spawn(&Ambient::unbound(), || {});
    assert!(matches!(out, Err(Failure::MissingContext)));
}

#[test]
fn a_spawned_task_inherits_the_context() {
    let mut ambient = Ambient::unbound();
    let distributor = Distributor::new(&mut ambient);
    let ran = Arc::new(Mutex::new(false));
    let flag = ran.clone();
    let task = spawn(&ambient, move || *flag.lock().unwrap() = true);
    let (inherited, todo) = task.ok().expect("the context is bound").into_parts();
    assert!(Arc::ptr_eq(&inherited.handle().unwrap(), &distributor));
    assert!(!*ran.lock().unwrap());
    todo();
    assert!(*ran.lock().unwrap());
}

#[test]
fn an_actor_registered_by_a_spawned_task_is_reached_by_its_parent() {
    let mut parent = Ambient::unbound();
    let _distributor = Distributor::new(&mut parent);
    let seen = parking();

    let task = spawn(&parent, || {}).ok().expect("the context is bound");
    let (child, todo) = task.into_parts();
    todo();
    let handle = child.handle().unwrap();
    handle.register(Echo { expected: vec![5], parking: seen.clone() }).run();

    assert_eq!(Message::new(5).send::<Echo, i32>(&parent), Ok(6));
    assert_eq!(requests_seen(&seen), vec![5]);
}

#[test]
fn a_spawned_task_can_spawn_and_send() {
    let mut parent = Ambient::unbound();
    let distributor = Distributor::new(&mut parent);
    let seen = parking();
    distributor.register(Echo { expected: vec![5], parking: seen.clone() }).run();

    let (child, _) = spawn(&parent, || {}).ok().unwrap().into_parts();
    let (grandchild, _) = spawn(&child, || {}).ok().unwrap().into_parts();
    assert_eq!(Message::new(5).send::<Echo, i32>(&grandchild), Ok(6));
}
