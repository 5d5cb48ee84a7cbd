use solis::decode::{DecodeError, Reading};
use solis::descriptor::{DescriptorTable, RegisterDescriptor};
use solis::message::{Delivery, PublishedMessage};
use solis::poller::{
    clock_event, poll_step, PassError, PollAction, PollEvent, PollState, TransportError,
    READ_TIMEOUT_SECS,
};
use solis::registers::solis_registers;

fn five_descriptors() -> DescriptorTable {
    DescriptorTable::new(vec![
        RegisterDescriptor::new("Total power generation", "kWh", 3008, 32, 0).unwrap(),
        RegisterDescriptor::new("kWh today", "kWh", 3014, 16, 1).unwrap(),
        RegisterDescriptor::new("kWh yesterday", "kWh", 3015, 16, 1).unwrap(),
        RegisterDescriptor::new("kWh this month", "kWh", 3010, 32, 0).unwrap(),
        RegisterDescriptor::new("kWh last month", "kWh", 3012, 32, 0).unwrap(),
    ])
    .unwrap()
}

/// Runs a pass in which the transport answers a read of `address` with
/// `transport(address)` and every publication is accepted. Returns the last
/// state and every action of the pass.
fn run_pass(
    table: &DescriptorTable,
    transport: &dyn Fn(u16) -> PollEvent,
    clock: PollEvent,
) -> (PollState, Vec<PollAction>) {
    let mut actions = Vec::new();
    let mut state = PollState::Idle;
    let mut event = PollEvent::Start;
    loop {
        let (next, action) = poll_step(table, state, event);
        state = next;
        event = match &action {
            PollAction::Read { address, .. } => transport(*address),
            PollAction::PublishReading { .. } => PollEvent::Published,
            PollAction::ReadClock => clock.clone(),
            PollAction::PublishLiveness(_) => PollEvent::Published,
            PollAction::Finish | PollAction::Abort(_) => {
                actions.push(action);
                return (state, actions);
            }
        };
        actions.push(action);
    }
}

fn recorded_words(address: u16) -> PollEvent {
    PollEvent::Words(match address {
        3004 => vec![0, 240],
        3008 => vec![0, 26368],
        3010 => vec![0, 719],
        3012 => vec![0, 1423],
        3014 => vec![373],
        3015 => vec![146],
        3021 => vec![4400],
        3022 => vec![6],
        3023 => vec![3834],
        3024 => vec![3],
        3035 => vec![2456],
        3041 => vec![360],
        3042 => vec![5000],
        _ => vec![],
    })
}

fn read(address: u16, count: u16) -> PollAction {
    PollAction::Read { address, count, timeout_secs: 5 }
}

fn publish(index: usize, topic: &str, mantissa: u32, scale: u32) -> PollAction {
    PollAction::PublishReading {
        index,
        topic: String::from(topic),
        reading: Reading { mantissa, scale },
        delivery: Delivery::AtLeastOnce,
    }
}

#[test]
fn reads_are_bounded_by_five_seconds() {
    assert_eq!(READ_TIMEOUT_SECS, 5);
}

#[test]
fn pass_starts_with_the_first_read() {
    let table = five_descriptors();
    assert_eq!(
        poll_step(&table, PollState::Idle, PollEvent::Start),
        (PollState::ReadPending { index: 0 }, read(3008, 2))
    );
}

#[test]
fn words_lead_to_a_publication() {
    let table = five_descriptors();
    assert_eq!(
        poll_step(&table, PollState::ReadPending { index: 1 }, PollEvent::Words(vec![373])),
        (
            PollState::PublishPending { index: 1 },
            publish(1, "meters/solis/kwh_today_kwh", 373, 1)
        )
    );
}

#[test]
fn acknowledgement_leads_to_the_next_read() {
    let table = five_descriptors();
    assert_eq!(
        poll_step(&table, PollState::PublishPending { index: 0 }, PollEvent::Published),
        (PollState::ReadPending { index: 1 }, read(3014, 1))
    );
    assert_eq!(
        poll_step(&table, PollState::PublishPending { index: 3 }, PollEvent::Published),
        (PollState::ReadPending { index: 4 }, read(3012, 2))
    );
}

#[test]
fn time_is_taken_after_the_last_publication() {
    let table = five_descriptors();
    assert_eq!(
        poll_step(&table, PollState::PublishPending { index: 4 }, PollEvent::Published),
        (PollState::ClockPending, PollAction::ReadClock)
    );
}

#[test]
fn time_leads_to_the_liveness_message() {
    let table = five_descriptors();
    assert_eq!(
        poll_step(&table, PollState::ClockPending, PollEvent::Clock(1660764345)),
        (
            PollState::LivenessPublish,
            PollAction::PublishLiveness(PublishedMessage {
                topic: String::from("meters/solis/online"),
                payload: String::from("1660764345"),
                delivery: Delivery::AtLeastOnce,
            })
        )
    );
}

#[test]
fn liveness_acknowledgement_completes_the_pass() {
    let table = five_descriptors();
    assert_eq!(
        poll_step(&table, PollState::LivenessPublish, PollEvent::Published),
        (PollState::Done, PollAction::Finish)
    );
}

#[test]
fn complete_pass_over_five_descriptors() {
    let table = five_descriptors();
    let (state, actions) = run_pass(&table, &recorded_words, PollEvent::Clock(1660764345));
    assert_eq!(state, PollState::Done);
    assert_eq!(
        actions,
        vec![
            read(3008, 2),
            publish(0, "meters/solis/total_power_generation_kwh", 26368, 0),
            read(3014, 1),
            publish(1, "meters/solis/kwh_today_kwh", 373, 1),
            read(3015, 1),
            publish(2, "meters/solis/kwh_yesterday_kwh", 146, 1),
            read(3010, 2),
            publish(3, "meters/solis/kwh_this_month_kwh", 719, 0),
            read(3012, 2),
            publish(4, "meters/solis/kwh_last_month_kwh", 1423, 0),
            PollAction::ReadClock,
            PollAction::PublishLiveness(PublishedMessage {
                topic: String::from("meters/solis/online"),
                payload: String::from("1660764345"),
                delivery: Delivery::AtLeastOnce,
            }),
            PollAction::Finish,
        ]
    );
}

#[test]
fn timeout_on_the_third_read_aborts_the_pass() {
    let table = five_descriptors();
    let transport = |address: u16| {
        if address == 3015 {
            PollEvent::ReadFailed(TransportError::Timeout)
        } else {
            recorded_words(address)
        }
    };
    let (state, actions) = run_pass(&table, &transport, PollEvent::Clock(1660764345));
    let error = PassError::Transport(TransportError::Timeout);
    assert_eq!(state, PollState::Failed { error });
    assert_eq!(
        actions,
        vec![
            read(3008, 2),
            publish(0, "meters/solis/total_power_generation_kwh", 26368, 0),
            read(3014, 1),
            publish(1, "meters/solis/kwh_today_kwh", 373, 1),
            read(3015, 1),
            PollAction::Abort(error),
        ]
    );
    assert!(!actions.iter().any(|a| matches!(a, PollAction::Read { address: 3010 | 3012, .. })));
    assert!(!actions.iter().any(|a| matches!(a, PollAction::PublishLiveness(_))));
    assert!(!actions.iter().any(|a| matches!(a, PollAction::ReadClock)));
}

#[test]
fn transport_fault_aborts_the_pass() {
    let table = five_descriptors();
    let error = PassError::Transport(TransportError::Fault);
    assert_eq!(
        poll_step(
            &table,
            PollState::ReadPending { index: 0 },
            PollEvent::ReadFailed(TransportError::Fault)
        ),
        (PollState::Failed { error }, PollAction::Abort(error))
    );
}

#[test]
fn wrong_number_of_words_aborts_the_pass() {
    let table = five_descriptors();
    let error =
        PassError::Decode(DecodeError::UnexpectedLength { expected: 2, actual: 1 });
    assert_eq!(
        poll_step(&table, PollState::ReadPending { index: 0 }, PollEvent::Words(vec![26368])),
        (PollState::Failed { error }, PollAction::Abort(error))
    );
    let error =
        PassError::Decode(DecodeError::UnexpectedLength { expected: 1, actual: 2 });
    assert_eq!(
        poll_step(&table, PollState::ReadPending { index: 1 }, PollEvent::Words(vec![0, 373])),
        (PollState::Failed { error }, PollAction::Abort(error))
    );
}

#[test]
fn publish_failure_aborts_the_pass() {
    let table = five_descriptors();
    let error = PassError::Publish;
    assert_eq!(
        poll_step(&table, PollState::PublishPending { index: 2 }, PollEvent::PublishFailed),
        (PollState::Failed { error }, PollAction::Abort(error))
    );
    assert_eq!(
        poll_step(&table, PollState::LivenessPublish, PollEvent::PublishFailed),
        (PollState::Failed { error }, PollAction::Abort(error))
    );
}

#[test]
fn clock_failure_aborts_the_pass() {
    let table = five_descriptors();
    let (state, actions) = run_pass(&table, &recorded_words, PollEvent::ClockFailed);
    assert_eq!(state, PollState::Failed { error: PassError::Clock });
    assert_eq!(actions.len(), 12);
    assert_eq!(actions[10], PollAction::ReadClock);
    assert_eq!(actions[11], PollAction::Abort(PassError::Clock));
}

#[test]
fn failed_pass_stays_failed() {
    let table = five_descriptors();
    let error = PassError::Transport(TransportError::Timeout);
    let events = [
        PollEvent::Start,
        PollEvent::Words(vec![373]),
        PollEvent::ReadFailed(TransportError::Fault),
        PollEvent::Published,
        PollEvent::PublishFailed,
        PollEvent::Clock(1),
        PollEvent::ClockFailed,
    ];
    for event in events {
        assert_eq!(
            poll_step(&table, PollState::Failed { error }, event),
            (PollState::Failed { error }, PollAction::Abort(error))
        );
    }
}

#[test]
fn completed_pass_stays_completed() {
    let table = five_descriptors();
    for event in [PollEvent::Start, PollEvent::Published, PollEvent::Words(vec![1])] {
        assert_eq!(
            poll_step(&table, PollState::Done, event),
            (PollState::Done, PollAction::Finish)
        );
    }
}

#[test]
fn event_out_of_turn_aborts_the_pass() {
    let table = five_descriptors();
    let error = PassError::UnexpectedEvent;
    let aborted = (PollState::Failed { error }, PollAction::Abort(error));
    assert_eq!(poll_step(&table, PollState::Idle, PollEvent::Published), aborted);
    assert_eq!(poll_step(&table, PollState::Idle, PollEvent::Words(vec![1])), aborted);
    assert_eq!(
        poll_step(&table, PollState::ReadPending { index: 0 }, PollEvent::Published),
        aborted
    );
    assert_eq!(poll_step(&table, PollState::ReadPending { index: 0 }, PollEvent::Start), aborted);
    assert_eq!(
        poll_step(&table, PollState::PublishPending { index: 0 }, PollEvent::Words(vec![1])),
        aborted
    );
    assert_eq!(poll_step(&table, PollState::ClockPending, PollEvent::Published), aborted);
    assert_eq!(poll_step(&table, PollState::LivenessPublish, PollEvent::Clock(1)), aborted);
}

#[test]
fn state_beyond_the_table_aborts_the_pass() {
    let table = five_descriptors();
    let error = PassError::UnexpectedEvent;
    let aborted = (PollState::Failed { error }, PollAction::Abort(error));
    assert_eq!(
        poll_step(&table, PollState::ReadPending { index: 5 }, PollEvent::Words(vec![1])),
        aborted
    );
    assert_eq!(
        poll_step(&table, PollState::PublishPending { index: 5 }, PollEvent::Published),
        aborted
    );
    assert_eq!(
        poll_step(&table, PollState::PublishPending { index: usize::MAX }, PollEvent::Published),
        aborted
    );
}

#[test]
fn empty_table_publishes_only_liveness() {
    let table = DescriptorTable::new(Vec::new()).unwrap();
    let (state, actions) = run_pass(&table, &recorded_words, PollEvent::Clock(42));
    assert_eq!(state, PollState::Done);
    assert_eq!(
        actions,
        vec![
            PollAction::ReadClock,
            PollAction::PublishLiveness(PublishedMessage {
                topic: String::from("meters/solis/online"),
                payload: String::from("42"),
                delivery: Delivery::AtLeastOnce,
            }),
            PollAction::Finish,
        ]
    );
}

#[test]
fn same_inputs_give_the_same_pass() {
    let table = solis_registers();
    let first = run_pass(&table, &recorded_words, PollEvent::Clock(1660764345));
    let second = run_pass(&table, &recorded_words, PollEvent::Clock(1660764345));
    assert_eq!(first, second);
    assert_eq!(first.0, PollState::Done);
    assert_eq!(first.1.len(), 2 * 13 + 3);
}

#[test]
fn inverter_pass_publishes_in_table_order() {
    let table = solis_registers();
    let (_, actions) = run_pass(&table, &recorded_words, PollEvent::Clock(1660764345));
    let published: Vec<(usize, String, u32, u32)> = actions
        .iter()
        .filter_map(|a| match a {
            PollAction::PublishReading { index, topic, reading, .. } => {
                Some((*index, topic.clone(), reading.mantissa, reading.scale))
            }
            _ => None,
        })
        .collect();
    let expected = [
        ("meters/solis/total_power_generation_kwh", 26368, 0),
        ("meters/solis/kwh_today_kwh", 373, 1),
        ("meters/solis/kwh_yesterday_kwh", 146, 1),
        ("meters/solis/kwh_this_month_kwh", 719, 0),
        ("meters/solis/kwh_last_month_kwh", 1423, 0),
        ("meters/solis/ac_power_w", 240, 0),
        ("meters/solis/dc1_voltage_v", 4400, 1),
        ("meters/solis/dc1_current_a", 6, 1),
        ("meters/solis/dc2_voltage_v", 3834, 1),
        ("meters/solis/dc2_current_a", 3, 1),
        ("meters/solis/ac_voltage_v", 2456, 1),
        ("meters/solis/temperature_c", 360, 1),
        ("meters/solis/ac_frequency_hz", 5000, 2),
    ];
    assert_eq!(published.len(), expected.len());
    for (i, (topic, mantissa, scale)) in expected.iter().enumerate() {
        assert_eq!(published[i], (i, String::from(*topic), *mantissa, *scale));
    }
}

#[test]
fn clock_event_is_a_time_or_a_failure() {
    match clock_event() {
        PollEvent::Clock(secs) => assert!(secs > 1_600_000_000),
        PollEvent::ClockFailed => {}
        other => panic!("not a clock event: {:?}", other),
    }
}
