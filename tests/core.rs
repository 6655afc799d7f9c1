use std::sync::Arc;
use zenoh_flow::context::ZFContext;
use zenoh_flow::data::{HlcTimestamp, ZFControlMessage, ZFData, ZFDataMessage, ZFMessage};
use zenoh_flow::error::ZFError;
use zenoh_flow::hlc::{align_timestamp, PeriodicHLC};
use zenoh_flow::input::ZFInput;
use zenoh_flow::ports::PortMap;
use zenoh_flow::rules::{default_input_rule, default_output_rule, ZFComponentOutput};
use zenoh_flow::state::{EmptyState, StateTrait, ZFState};
use zenoh_flow::token::{Token, TokenAction};

const SECOND: u64 = 1u64 << 32;

fn clock_id() -> uhlc::ID {
    uhlc::ID::new(1, [7u8; 16])
}

fn stamp(time: u64) -> HlcTimestamp {
    HlcTimestamp { time, id: clock_id() }
}

fn message(tag: &str, bytes: &[u8], time: u64) -> ZFDataMessage {
    ZFDataMessage::new(ZFData::new(tag.to_string(), bytes.to_vec()), stamp(time))
}

fn context() -> ZFContext {
    ZFContext::new(ZFState::new("EmptyState".to_string(), vec![]), 0)
}

#[test]
fn data_message_gives_ready_consume_token() {
    let token = Token::from(ZFMessage::Data(message("int", &[1, 2], 5)));
    assert!(token.is_ready());
    assert!(!token.is_not_ready());
    assert_eq!(token.action(), TokenAction::Consume);
    assert_eq!(token.get_timestamp().unwrap().time, 5);
}

#[test]
fn control_message_gives_not_ready_token() {
    let token = Token::from(ZFMessage::Control(ZFControlMessage { signal: "stop".to_string() }));
    assert!(token.is_not_ready());
    assert_eq!(token.action(), TokenAction::Wait);
    assert!(token.get_timestamp().is_none());
}

#[test]
fn actions_on_not_ready_token_fail() {
    let mut token = Token::NotReady;
    assert_eq!(token.consume(), Err(ZFError::GenericError));
    assert_eq!(token.drop(), Err(ZFError::GenericError));
    assert_eq!(token.keep(), Err(ZFError::GenericError));
    assert_eq!(token.keep_run(), Err(ZFError::GenericError));
    assert!(token.is_not_ready());
    assert_eq!(token.data().unwrap_err(), ZFError::GenericError);
    let (data, action) = token.split();
    assert!(data.is_none());
    assert_eq!(action, TokenAction::Wait);
}

#[test]
fn actions_on_ready_token_change_only_the_action() {
    let mut token = Token::new_ready(message("int", &[9, 8, 7], 42));
    assert_eq!(token.drop(), Ok(()));
    assert_eq!(token.action(), TokenAction::Drop);
    assert_eq!(token.keep(), Ok(()));
    assert_eq!(token.action(), TokenAction::Keep);
    assert_eq!(token.keep_run(), Ok(()));
    assert_eq!(token.action(), TokenAction::KeepRun);
    assert_eq!(token.consume(), Ok(()));
    assert_eq!(token.action(), TokenAction::Consume);
    let copy = token.data().unwrap();
    assert_eq!(copy.data.type_tag, "int");
    assert_eq!(copy.data.value, vec![9, 8, 7]);
    assert_eq!(copy.timestamp.time, 42);
    token.keep().unwrap();
    let (data, action) = token.split();
    let data = data.unwrap();
    assert_eq!(data.data.value, vec![9, 8, 7]);
    assert_eq!(action, TokenAction::Keep);
}

#[test]
fn default_input_rule_waits_for_every_port() {
    let mut tokens = PortMap::new();
    tokens.insert("A".to_string(), Token::new_ready(message("int", &[1], 1)));
    tokens.insert("B".to_string(), Token::NotReady);
    assert_eq!(default_input_rule(context(), &mut tokens), Ok(false));

    let mut tokens = PortMap::new();
    tokens.insert("A".to_string(), Token::new_ready(message("int", &[1], 1)));
    tokens.insert("B".to_string(), Token::new_ready(message("int", &[2], 2)));
    assert_eq!(default_input_rule(context(), &mut tokens), Ok(true));
    assert_eq!(tokens.get("A").unwrap().action(), TokenAction::Consume);
    assert_eq!(tokens.get("B").unwrap().action(), TokenAction::Consume);
}

#[test]
fn default_input_rule_on_no_ports_is_ready() {
    let mut tokens: PortMap<Token> = PortMap::new();
    assert_eq!(default_input_rule(context(), &mut tokens), Ok(true));
}

#[test]
fn default_output_rule_wraps_values_as_data() {
    let mut outputs = PortMap::new();
    outputs.insert("OUT".to_string(), ZFData::new("int".to_string(), vec![3, 4]));
    let results = default_output_rule(context(), outputs).unwrap();
    assert_eq!(results.len(), 1);
    assert_eq!(results.key_at(0), "OUT");
    match results.get("OUT").unwrap() {
        ZFComponentOutput::Data(d) => {
            assert_eq!(d.type_tag, "int");
            assert_eq!(d.value, vec![3, 4]);
        }
        ZFComponentOutput::Control(_) => panic!("expected data"),
    }
}

#[test]
fn default_output_rule_on_empty_mapping_is_empty() {
    let outputs: PortMap<ZFData> = PortMap::new();
    let results = default_output_rule(context(), outputs).unwrap();
    assert_eq!(results.len(), 0);
}

#[test]
fn state_round_trip_through_context() {
    let ctx = ZFContext::new(ZFState::new("counter".to_string(), vec![1, 0, 0, 0]), 3);
    let shared = ctx.clone();
    {
        let guard = shared.lock();
        assert_eq!(guard.mode, 3);
        assert_eq!(guard.state.downcast("counter"), Ok(&vec![1, 0, 0, 0]));
        assert_eq!(guard.state.downcast("other"), Err(ZFError::InvalidState));
    }
    {
        let mut guard = ctx.lock();
        guard.state = ZFState::new("counter".to_string(), vec![2, 0, 0, 0]);
    }
    let guard = shared.lock();
    assert_eq!(guard.state.downcast("counter"), Ok(&vec![2, 0, 0, 0]));
}

#[test]
fn empty_state_describes_itself() {
    let state = ZFState::of(&EmptyState);
    assert_eq!(EmptyState.state_type(), "EmptyState");
    assert_eq!(state.type_tag, "EmptyState");
    assert!(state.value.is_empty());
    assert_eq!(state.downcast("EmptyState"), Ok(&vec![]));
    assert_eq!(state.downcast("counter"), Err(ZFError::InvalidState));
}

#[test]
fn input_insert_get_and_get_mut() {
    let mut input = ZFInput::new();
    assert!(input.insert("a".to_string(), message("int", &[1], 10)).is_none());
    assert!(input.insert("b".to_string(), message("int", &[2], 20)).is_none());
    let replaced = input.insert("a".to_string(), message("int", &[3], 30)).unwrap();
    assert_eq!(replaced.data.value, vec![1]);
    assert_eq!(input.len(), 2);
    assert_eq!(input.get("a").unwrap().data.value, vec![3]);
    assert!(input.get("c").is_none());
    input.get_mut("b").unwrap().timestamp.time = 99;
    assert_eq!(input.get("b").unwrap().timestamp.time, 99);
    assert!(input.get_mut("c").is_none());
    let (port, msg) = input.entry_at(1);
    assert_eq!(port, "b");
    assert_eq!(msg.data.value, vec![2]);
    assert_eq!(ZFInput::default().len(), 0);
}

#[test]
fn alignment_without_period_keeps_raw_time() {
    let raw = stamp(SECOND + SECOND / 5);
    assert_eq!(align_timestamp(raw, None).time, raw.time);
}

#[test]
fn alignment_to_one_second() {
    let a = align_timestamp(stamp(SECOND + SECOND / 5), Some(SECOND));
    let b = align_timestamp(stamp(SECOND + SECOND * 4 / 5), Some(SECOND));
    let c = align_timestamp(stamp(2 * SECOND + SECOND / 20), Some(SECOND));
    assert_eq!(a.time, SECOND);
    assert_eq!(b.time, SECOND);
    assert_eq!(c.time, 2 * SECOND);
    assert_eq!(a.id, clock_id());
}

#[test]
fn periodic_clock_stamps_multiples_of_its_period() {
    let hlc = Arc::new(uhlc::HLC::default());
    let periodic = PeriodicHLC::new(hlc.clone(), Some(SECOND));
    assert_eq!(periodic.period(), Some(SECOND));
    let raw = hlc.new_timestamp();
    let ts = periodic.new_timestamp();
    assert_eq!(ts.time % SECOND, 0);
    assert!(ts.time <= raw.get_time().as_u64() + SECOND);
    assert_eq!(&ts.id, raw.get_id());
}

#[test]
fn plain_clock_stamps_increase() {
    let plain = PeriodicHLC::new(Arc::new(uhlc::HLC::default()), None);
    let first = plain.new_timestamp();
    let second = plain.new_timestamp();
    assert!(second.time > first.time);
}

#[test]
fn channel_errors_convert() {
    assert_eq!(ZFError::from(flume::RecvError::Disconnected), ZFError::RecvError(flume::RecvError::Disconnected));
    assert_eq!(ZFError::from(flume::TryRecvError::Disconnected), ZFError::Disconnected);
    assert_eq!(ZFError::from(flume::TryRecvError::Empty), ZFError::Empty);
    assert_eq!(ZFError::from(flume::SendError(5u8)), ZFError::SendError("\"SendError(..)\"".to_string()));
}

#[test]
fn io_error_keeps_its_description() {
    let err = std::io::Error::new(std::io::ErrorKind::Other, "disk gone");
    assert_eq!(ZFError::from(err), ZFError::IOError("disk gone".to_string()));
}
