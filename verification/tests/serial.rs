use beacn_mic::device::actor::{Action, ActorState, Event};
use beacn_mic::device::Reply;
use beacn_mic::messages::led::LEDParameter;
use beacn_mic::messages::{BeacnParameter, BeacnValue, Message};
use std::sync::{Arc, Mutex};
use tokio::sync::{mpsc, oneshot};

/// A transport that minds who is on it: a transfer that begins while
/// another is under way is caught.
struct Wire {
    busy: bool,
    transfers: usize,
    asked: Option<[u8; 3]>,
    values: Vec<([u8; 3], BeacnValue)>,
}

fn enter(wire: &Arc<Mutex<Wire>>) {
    let mut wire = wire.lock().unwrap();
    assert!(!wire.busy, "two transfers on the device at once");
    wire.busy = true;
    wire.transfers += 1;
}

async fn write(wire: &Arc<Mutex<Wire>>, frame: Vec<u8>) -> Event {
    enter(wire);
    tokio::task::yield_now().await;
    let mut wire = wire.lock().unwrap();
    let address = [frame[0], frame[1], frame[2]];
    if frame.len() == 8 {
        let value = [frame[4], frame[5], frame[6], frame[7]];
        wire.values.retain(|(known, _)| *known != address);
        wire.values.push((address, value));
    } else {
        wire.asked = Some(address);
    }
    wire.busy = false;
    Event::Done
}

async fn read(wire: &Arc<Mutex<Wire>>) -> Event {
    enter(wire);
    tokio::task::yield_now().await;
    let mut wire = wire.lock().unwrap();
    let address = wire.asked.take().expect("a read follows a fetch frame");
    let mut value = [0, 0, 0, 0];
    for (known, held) in wire.values.iter() {
        if *known == address {
            value = *held;
        }
    }
    wire.busy = false;
    Event::Data([address[0], address[1], address[2], 0xa4, value[0], value[1], value[2], value[3]])
}

/// The loop around the actor, on the transport above.
async fn shell(
    wire: Arc<Mutex<Wire>>,
    mut queue: mpsc::Receiver<(Message, oneshot::Sender<Reply>)>,
) -> ActorState {
    let mut slot = None;
    let mut actor = ActorState::new();
    let mut action = actor.action();
    loop {
        let event = match action {
            Action::Setup(_) => Event::Done,
            Action::SignalReady(_) => Event::Done,
            Action::Receive => match queue.recv().await {
                Some((message, sender)) => {
                    slot = Some(sender);
                    Event::Request(message)
                }
                None => break,
            },
            Action::WriteFetch(frame) => write(&wire, frame.to_vec()).await,
            Action::WriteSet(frame) => write(&wire, frame.to_vec()).await,
            Action::Read => read(&wire).await,
            Action::Reply(reply) => {
                let sender: oneshot::Sender<Reply> = slot.take().expect("a request is in hand");
                sender.send(reply).expect("the caller waits");
                Event::Done
            }
            Action::Stop => break,
        };
        action = actor.step(event).expect("the event is the outcome of the action");
    }
    actor
}

#[test]
fn concurrent_submitters_are_served_one_at_a_time() {
    let runtime = tokio::runtime::Builder::new_multi_thread().worker_threads(4).build().unwrap();
    runtime.block_on(async {
        let (sender, queue) = mpsc::channel(30);
        let wire =
            Arc::new(Mutex::new(Wire { busy: false, transfers: 0, asked: None, values: vec![] }));
        let actor = tokio::spawn(shell(wire.clone(), queue));

        let mut submitters = Vec::new();
        for (n, param) in LEDParameter::all().into_iter().enumerate() {
            let sender = sender.clone();
            submitters.push(tokio::spawn(async move {
                let param = BeacnParameter::LED(param);
                for round in 0..20u8 {
                    let value = [u8::try_from(n).unwrap(), round, 0xaa, 0x55];
                    let (slot, reply) = oneshot::channel();
                    sender.send((Message::SET((param, value)), slot)).await.unwrap();
                    assert_eq!(reply.await.unwrap(), Ok(value));
                    let (slot, reply) = oneshot::channel();
                    sender.send((Message::FETCH(param), slot)).await.unwrap();
                    assert_eq!(reply.await.unwrap(), Ok(value));
                }
            }));
        }
        for submitter in submitters {
            submitter.await.unwrap();
        }

        let (slot, reply) = oneshot::channel();
        sender.send((Message::QUIT, slot)).await.unwrap();
        assert_eq!(reply.await.unwrap(), Ok([0, 0, 0, 0]));
        assert_eq!(actor.await.unwrap(), ActorState::Stopped);

        // What is submitted after the shutdown is never served.
        let (slot, reply) = oneshot::channel();
        let sent = sender.send((Message::FETCH(BeacnParameter::LED(LEDParameter::Mode)), slot)).await;
        assert!(sent.is_err() || reply.await.is_err());

        let wire = wire.lock().unwrap();
        assert!(!wire.busy);
        assert_eq!(wire.transfers, 11 * 20 * (3 + 2));
    });
}
