use std::sync::{Arc, Mutex};

use axum_messages::manager::extract;
use axum_messages::{Data, Level, Message, Messages, MessagesManager, MessagesManagerLayer, Rejection};

/// A session store holding one message slot and counting its writes.
struct Store {
    slot: Option<Data>,
    writes: usize,
    fail_reads: bool,
    fail_writes: bool,
}

impl Store {
    fn new() -> Store {
        Store { slot: None, writes: 0, fail_reads: false, fail_writes: false }
    }

    fn get(&self) -> Result<Option<Data>, ()> {
        if self.fail_reads {
            Err(())
        } else {
            Ok(self.slot.clone())
        }
    }

    /// Runs one request: opens the state, hands it to `handler` and writes
    /// the state back where it changed.
    fn request<T>(&mut self, handler: impl FnOnce(Messages) -> (Messages, T)) -> Result<T, Rejection> {
        let session = MessagesManager::<()>::check_session(Some(()))?;
        let _ = session;
        let messages = MessagesManager::<()>::begin(self.get())?;
        let (messages, out) = handler(messages);
        let saved = match messages.into_saved() {
            Some(data) => {
                self.writes += 1;
                if self.fail_writes {
                    Some(Err(()))
                } else {
                    self.slot = Some(data);
                    Some(Ok(()))
                }
            }
            None => None,
        };
        MessagesManager::<()>::finish(out, saved)
    }
}

fn drain(mut m: Messages) -> (Messages, Vec<(Level, String)>) {
    let mut out = Vec::new();
    while let Some(msg) = m.next() {
        out.push((msg.level, msg.message));
    }
    (m, out)
}

fn render(mut m: Messages) -> (Messages, String) {
    let mut parts = Vec::new();
    while let Some(msg) = m.next() {
        parts.push(format!("{}: {}", msg.level.as_str(), msg.text()));
    }
    (m, parts.join(", "))
}

#[test]
fn basic() {
    let mut store = Store::new();
    store
        .request(|m| (m.debug("Hello, world!".to_string()).info("This is an info message.".to_string()), ()))
        .unwrap();
    let body = store.request(render).unwrap();
    assert_eq!(body, "Debug: Hello, world!, Info: This is an info message.");
}

#[test]
fn level_order() {
    let levels = [Level::Debug, Level::Info, Level::Success, Level::Warning, Level::Error];
    for i in 0..levels.len() {
        for j in 0..levels.len() {
            assert_eq!(levels[i] < levels[j], i < j);
            assert_eq!(levels[i] == levels[j], i == j);
        }
    }
    assert!(Level::Debug < Level::Info);
    assert!(Level::Warning < Level::Error);
    assert!(!(Level::Error < Level::Error));
}

#[test]
fn level_names_and_ranks() {
    assert_eq!(Level::Debug.as_str(), "Debug");
    assert_eq!(Level::Info.as_str(), "Info");
    assert_eq!(Level::Success.as_str(), "Success");
    assert_eq!(Level::Warning.as_str(), "Warning");
    assert_eq!(Level::Error.as_str(), "Error");
    assert_eq!(Level::Success.as_u8(), 2);
    assert_eq!(Level::from_u8(4), Some(Level::Error));
    assert_eq!(Level::from_u8(0), Some(Level::Debug));
    assert_eq!(Level::from_u8(5), None);
}

#[test]
fn add_arg_inserts_and_replaces() {
    let m = Message::new(Level::Info, "hi".to_string());
    assert!(m.extra_args.is_empty());
    let m = m.add_arg("a".to_string(), "1".to_string());
    let m = m.add_arg("b".to_string(), "2".to_string());
    let m = m.add_arg("a".to_string(), "3".to_string());
    assert_eq!(m.level, Level::Info);
    assert_eq!(m.message, "hi");
    assert_eq!(m.extra_args.len(), 2);
    assert!(m.extra_args.contains(&("a".to_string(), "3".to_string())));
    assert!(m.extra_args.contains(&("b".to_string(), "2".to_string())));
}

#[test]
fn data_rotate_and_take() {
    let mut d = Data::new();
    d.push(Message::new(Level::Debug, "x".to_string()));
    d.messages.push_back(Message::new(Level::Error, "old".to_string()));
    d.rotate();
    assert!(d.pending_messages.is_empty());
    assert_eq!(d.len(), 1);
    let first = d.take_next().unwrap();
    assert_eq!(first.message, "x");
    assert!(d.take_next().is_none());
}

#[test]
fn scenario_a() {
    let mut store = Store::new();
    store.request(|m| (m.push(Level::Debug, "a".to_string()).push(Level::Info, "b".to_string()), ())).unwrap();
    assert_eq!(store.writes, 1);
    let read = store
        .request(|mut m| {
            let first = m.next().map(|x| (x.level, x.message));
            let second = m.next().map(|x| (x.level, x.message));
            assert!(m.is_modified());
            (m, vec![first.unwrap(), second.unwrap()])
        })
        .unwrap();
    assert_eq!(read, vec![(Level::Debug, "a".to_string()), (Level::Info, "b".to_string())]);
    assert_eq!(store.writes, 2);
    let third = store.request(drain).unwrap();
    assert!(third.is_empty());
}

#[test]
fn scenario_b_shared_state() {
    let mut data = Data::new();
    data.push(Message::new(Level::Info, "once".to_string()));
    data.push(Message::new(Level::Info, "twice".to_string()));
    let shared = Arc::new(Mutex::new(Messages::new(data)));
    let first = extract(Some(shared.clone())).unwrap();
    let got = first.lock().unwrap().next().unwrap();
    assert_eq!(got.message, "once");
    let second = extract(Some(shared.clone())).unwrap();
    let got = second.lock().unwrap().next().unwrap();
    assert_eq!(got.message, "twice");
    assert!(first.lock().unwrap().next().is_none());
    assert!(shared.lock().unwrap().is_modified());
}

#[test]
fn scenario_c_load_failure() {
    let mut store = Store::new();
    store.fail_reads = true;
    let mut reached = false;
    let r = store.request(|m| {
        reached = true;
        (m, ())
    });
    assert_eq!(r, Err(Rejection::LoadFailed));
    assert!(!reached);
    assert_eq!(store.writes, 0);
}

#[test]
fn save_failure_replaces_response() {
    let mut store = Store::new();
    store.fail_writes = true;
    let r = store.request(|m| (m.error("boom".to_string()), "ok"));
    assert_eq!(r, Err(Rejection::SaveFailed));
}

#[test]
fn rotation_across_three_requests() {
    let mut store = Store::new();
    store.request(|m| (m.info("p1a".to_string()).success("p1b".to_string()), ())).unwrap();
    let second = store
        .request(|m| {
            let m = m.warning("p2".to_string());
            drain(m)
        })
        .unwrap();
    assert_eq!(second, vec![(Level::Info, "p1a".to_string()), (Level::Success, "p1b".to_string())]);
    let third = store.request(drain).unwrap();
    assert_eq!(third, vec![(Level::Warning, "p2".to_string())]);
    let fourth = store.request(drain).unwrap();
    assert!(fourth.is_empty());
}

#[test]
fn no_replay_after_consumption() {
    let mut store = Store::new();
    store.request(|m| (m.info("seen".to_string()), ())).unwrap();
    let read = store.request(drain).unwrap();
    assert_eq!(read.len(), 1);
    let again = store.request(drain).unwrap();
    assert!(again.is_empty());
}

#[test]
fn no_op_request_skips_write() {
    let mut store = Store::new();
    store.request(|m| (m, ())).unwrap();
    assert_eq!(store.writes, 0);
    let read = store.request(drain).unwrap();
    assert!(read.is_empty());
    assert_eq!(store.writes, 0);
}

#[test]
fn modified_flag_stays_set() {
    let m = Messages::open(None);
    assert!(!m.is_modified());
    let mut m = m.debug("x".to_string());
    assert!(m.is_modified());
    assert!(m.next().is_none());
    assert!(m.is_modified());
    let saved = m.into_saved().unwrap();
    assert_eq!(saved.pending_messages.len(), 1);
}

#[test]
fn unmodified_state_is_not_saved() {
    let m = Messages::open(None);
    assert!(m.into_saved().is_none());
}

#[test]
fn rejections() {
    assert_eq!(MessagesManager::<()>::check_session::<u8>(None), Err(Rejection::MissingSession));
    assert_eq!(MessagesManager::<()>::check_session(Some(7u8)), Ok(7u8));
    assert_eq!(extract::<u8>(None), Err(Rejection::MissingMessages));
    assert_eq!(MessagesManager::<()>::finish::<u8, ()>(1, None), Ok(1));
    assert_eq!(MessagesManager::<()>::finish::<u8, ()>(1, Some(Ok(()))), Ok(1));
    assert_eq!(MessagesManager::<()>::finish::<u8, ()>(1, Some(Err(()))), Err(Rejection::SaveFailed));
    for r in [Rejection::MissingSession, Rejection::MissingMessages, Rejection::LoadFailed, Rejection::SaveFailed] {
        assert_eq!(r.status_code(), 500);
    }
    assert_eq!(Rejection::MissingSession.diagnostic(), "Could not get session.");
    assert_eq!(
        Rejection::MissingMessages.diagnostic(),
        "Could not extract messages. Is `MessagesManagerLayer` installed?"
    );
    assert_ne!(Rejection::MissingSession.diagnostic(), Rejection::MissingMessages.diagnostic());
}

#[test]
fn layer_wraps_service() {
    let manager = MessagesManagerLayer.layer(41u32);
    assert_eq!(*manager.inner(), 41);
    assert_eq!(manager.into_inner(), 41);
    assert_eq!(MessagesManager::new("s").into_inner(), "s");
}

#[test]
fn open_rotates_once() {
    let mut data = Data::new();
    data.push(Message::new(Level::Info, "kept".to_string()));
    let m = MessagesManager::<()>::begin::<()>(Ok(Some(data))).unwrap();
    assert!(!m.is_modified());
    assert!(m.data().pending_messages.is_empty());
    assert_eq!(m.data().len(), 1);
    let (m, read) = drain(m);
    assert_eq!(read, vec![(Level::Info, "kept".to_string())]);
    assert!(m.is_modified());
}
