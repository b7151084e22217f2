use thalo_api::aggregate::{Command, Error, Event, EventParam, EventResult};
use thalo_api::codec::stage_error;
use thalo_api::instance::{
    events_from_results, history_params, plan_command, replay_params, step_code, CommandStep,
    InstanceFault, ModuleInstance,
};
use thalo_api::scratch::{read_scratch, EventsScratch};
use thalo_api::store::{EventRecord, StoredEvent};

// A bank-account aggregate standing in for a guest module: the state is the
// balance as eight little-endian bytes.
fn guest_init(_id: &str) -> Result<Vec<u8>, Error> {
    Ok(0u64.to_le_bytes().to_vec())
}

fn guest_replay(state: &[u8], events: &[EventParam<'_>]) -> Result<Vec<u8>, Error> {
    let mut balance = u64::from_le_bytes(state.try_into().unwrap());
    for e in events {
        match e.event_type {
            "deposited" => balance += u64::from_le_bytes(e.payload.try_into().unwrap()),
            _ => return Err(Error::UnknownEvent),
        }
    }
    Ok(balance.to_le_bytes().to_vec())
}

fn guest_decide(_state: &[u8], command: Command<'_>) -> Result<Vec<EventResult>, Error> {
    match command.command {
        "deposit" => Ok(vec![EventResult { event_type: "deposited".to_string(), payload: command.payload.to_vec() }]),
        "noop" => Ok(Vec::new()),
        _ => Err(Error::UnknownCommand),
    }
}

fn balance(inst: &ModuleInstance) -> u64 {
    u64::from_le_bytes(inst.state().try_into().unwrap())
}

struct Session {
    log: Vec<EventRecord>,
    scratch: Option<EventsScratch>,
}

impl Session {
    fn max_version(&self, stream: &str) -> Option<i64> {
        self.log.iter().filter(|r| r.stream == stream).map(|r| r.version).max()
    }

    fn execute(&mut self, inst: &mut ModuleInstance, command: &str, payload: &[u8]) -> i64 {
        let decided = guest_decide(inst.state(), Command { command, payload });
        let events = inst.handle(decided);
        let step = plan_command(events);
        let code = step_code(&step);
        match step {
            CommandStep::Rejected(s) => {
                self.scratch = Some(s);
            }
            CommandStep::Unchanged => {}
            CommandStep::Apply(events) => {
                let replayed = guest_replay(inst.state(), &replay_params(&events));
                let stream = inst.id().to_string();
                let max = self.max_version(&stream);
                let rows = inst.commit(&stream, &events, replayed, max).unwrap();
                for r in &rows {
                    assert!(!self.log.iter().any(|x| x.stream == r.stream && x.version == r.version));
                }
                self.log.extend(rows);
            }
        }
        code
    }
}

#[test]
fn deposit_scenario() {
    let mut session = Session { log: Vec::new(), scratch: None };
    assert_eq!(session.max_version("acct-1"), None);
    let mut inst = ModuleInstance::init("acct-1".to_string(), guest_init("acct-1")).unwrap();
    assert_eq!(inst.id(), "acct-1");
    let s0 = inst.state().to_vec();
    assert_eq!(s0, 0u64.to_le_bytes().to_vec());

    assert_eq!(session.execute(&mut inst, "deposit", &100u64.to_le_bytes()), 1);
    assert_eq!(session.log.len(), 1);
    assert_eq!(session.log[0].version, 0);
    assert_eq!(session.log[0].event_type, "deposited");
    assert_eq!(session.log[0].payload, 100u64.to_le_bytes().to_vec());
    assert_eq!(balance(&inst), 100);

    assert_eq!(session.execute(&mut inst, "deposit", &50u64.to_le_bytes()), 1);
    assert_eq!(session.log[1].version, 1);
    assert_eq!(balance(&inst), 150);
    assert_eq!(session.max_version("acct-1"), Some(1));
}

#[test]
fn replaying_history_rebuilds_live_state() {
    let mut session = Session { log: Vec::new(), scratch: None };
    let mut inst = ModuleInstance::init("acct-2".to_string(), guest_init("acct-2")).unwrap();
    for amount in [5u64, 10, 20] {
        session.execute(&mut inst, "deposit", &amount.to_le_bytes());
    }
    let rows: Vec<StoredEvent> = session
        .log
        .iter()
        .map(|r| StoredEvent { version: r.version, event_type: r.event_type.clone(), body: r.payload.clone() })
        .collect();
    let versions: Vec<i64> = rows.iter().map(|r| r.version).collect();
    assert_eq!(versions, vec![0, 1, 2]);
    let mut fresh = ModuleInstance::init("acct-2".to_string(), guest_init("acct-2")).unwrap();
    let replayed = guest_replay(fresh.state(), &history_params(&rows));
    fresh.apply(replayed).unwrap();
    assert_eq!(fresh.state(), inst.state());
}

#[test]
fn unknown_command_stages_the_error() {
    let mut session = Session { log: Vec::new(), scratch: None };
    let mut inst = ModuleInstance::init("acct-3".to_string(), guest_init("acct-3")).unwrap();
    let before = inst.state().to_vec();
    assert_eq!(session.execute(&mut inst, "withdraw-all", &[]), -1);
    assert_eq!(inst.state(), &before[..]);
    assert!(session.log.is_empty());
    let mut drained = Vec::new();
    let mut buf = [0u8; 4];
    loop {
        let n = read_scratch(&mut session.scratch, &mut buf).unwrap();
        if n == 0 {
            break;
        }
        drained.extend_from_slice(&buf[..n]);
    }
    let mut expected = vec![15, 0, 0, 0, 0, 0, 0, 0];
    expected.extend_from_slice(b"unknown command");
    assert_eq!(drained, expected);
}

#[test]
fn no_events_leave_state_and_stream_alone() {
    let mut session = Session { log: Vec::new(), scratch: None };
    let mut inst = ModuleInstance::init("acct-4".to_string(), guest_init("acct-4")).unwrap();
    session.execute(&mut inst, "deposit", &7u64.to_le_bytes());
    let before = inst.state().to_vec();
    assert_eq!(session.execute(&mut inst, "noop", &[]), 0);
    assert_eq!(inst.state(), &before[..]);
    assert_eq!(session.max_version("acct-4"), Some(0));
}

#[test]
fn init_refusal_makes_no_instance() {
    let r = ModuleInstance::init("x".to_string(), Err(Error::Custom("nope".to_string())));
    assert!(matches!(r, Err(Error::Custom(ref m)) if m == "nope"));
}

#[test]
fn refused_replay_is_a_fault_and_keeps_state() {
    let mut inst = ModuleInstance::init("x".to_string(), Ok(vec![1, 2])).unwrap();
    assert_eq!(inst.apply(Err(Error::UnknownEvent)), Err(InstanceFault::ReplayFailed(Error::UnknownEvent)));
    assert_eq!(inst.state(), &[1, 2]);
    let events = vec![Event { event_type: "e".to_string(), payload: vec![] }];
    let r = inst.commit("x", &events, Err(Error::DeserializeEvent("bad".to_string())), Some(3));
    assert!(r.is_err());
    assert_eq!(inst.state(), &[1, 2]);
}

#[test]
fn commit_assigns_versions_after_current() {
    let mut inst = ModuleInstance::init("x".to_string(), Ok(vec![0])).unwrap();
    let events = vec![
        Event { event_type: "a".to_string(), payload: vec![1] },
        Event { event_type: "b".to_string(), payload: vec![2] },
    ];
    let rows = inst.commit("x", &events, Ok(vec![9]), Some(4)).unwrap();
    assert_eq!(inst.state(), &[9]);
    assert_eq!(rows.len(), 2);
    assert_eq!((rows[0].version, rows[1].version), (5, 6));
    assert_eq!(rows[1].event_type, "b");
    assert_eq!(rows[1].payload, vec![2]);
}

#[test]
fn decide_results_keep_order() {
    let results = vec![
        EventResult { event_type: "a".to_string(), payload: vec![1] },
        EventResult { event_type: "b".to_string(), payload: vec![2] },
        EventResult { event_type: "c".to_string(), payload: vec![3] },
    ];
    let events = events_from_results(results);
    let types: Vec<&str> = events.iter().map(|e| e.event_type.as_str()).collect();
    assert_eq!(types, vec!["a", "b", "c"]);
    assert_eq!(events[2].payload, vec![3]);
}

#[test]
fn plan_and_codes() {
    assert!(matches!(plan_command(Ok(Vec::new())), CommandStep::Unchanged));
    let step = plan_command(Ok(vec![Event { event_type: "a".to_string(), payload: vec![] }]));
    assert_eq!(step_code(&step), 1);
    let step = plan_command(Err(Error::UnknownCommand));
    assert_eq!(step_code(&step), -1);
    assert_eq!(step_code(&CommandStep::Unchanged), 0);
}

#[test]
fn error_texts() {
    assert_eq!(Error::Command("overdrawn".to_string()).message(), "command failed: overdrawn");
    assert_eq!(Error::Custom("x".to_string()).message(), "error: x");
    assert_eq!(Error::DeserializeCommand("x".to_string()).message(), "deserialize command failed: x");
    assert_eq!(Error::DeserializeEvent("x".to_string()).message(), "deserialize event failed: x");
    assert_eq!(Error::DeserializeState("x".to_string()).message(), "deserialize state failed: x");
    assert_eq!(Error::SerializeCommand("x".to_string()).message(), "serialize command failed: x");
    assert_eq!(Error::SerializeEvent("x".to_string()).message(), "serialize event failed: x");
    assert_eq!(Error::SerializeState("x".to_string()).message(), "serialize state failed: x");
    assert_eq!(Error::UnknownCommand.message(), "unknown command");
    assert_eq!(Error::UnknownEvent.message(), "unknown event");
}

#[test]
fn staged_error_is_length_prefixed_text() {
    let s = stage_error(&Error::Command("é".to_string()));
    let text = "command failed: é";
    let mut expected = (text.len() as u64).to_le_bytes().to_vec();
    expected.extend_from_slice(text.as_bytes());
    assert_eq!(s.read_ptr, 0);
    assert_eq!(s.buffer, expected);
}

#[test]
fn event_views_borrow_fields() {
    let e = Event { event_type: "t".to_string(), payload: vec![1, 2] };
    let r = e.as_ref();
    assert_eq!(r.event_type, "t");
    assert_eq!(r.payload, &[1, 2]);
    let p: EventParam<'_> = r.into();
    assert_eq!(p.event_type, "t");
    let e2: Event = EventResult { event_type: "u".to_string(), payload: vec![3] }.into();
    assert_eq!(e2, Event { event_type: "u".to_string(), payload: vec![3] });
}
