use crossbeam_channel::unbounded;
use dispatch_core::action::{Command, CommandEnvelope};
use dispatch_core::dispatch::{dispatch_cycle, Instance, Observer};
use dispatch_core::reducer::reduce;
use dispatch_core::state::{State, StateWrapper};
use dispatch_core::sync::Shared;
use dispatch_core::types::AgentId;

fn agent() -> AgentId {
    AgentId {
        nick: String::from("frodo"),
        pub_sign_key: String::from("key-frodo"),
    }
}

fn envelopes(commands: Vec<Command>) -> Vec<CommandEnvelope> {
    commands
        .into_iter()
        .enumerate()
        .map(|(i, command)| CommandEnvelope {
            command,
            tracing_id: i as u64,
        })
        .collect()
}

#[test]
fn observer_gets_one_tick_per_command() {
    let mut inst = Instance::new(State::initial(agent()));
    let (obs_tx, obs_rx) = unbounded();
    let (tick_tx, tick_rx) = unbounded();
    obs_tx.send(Observer { ticker: tick_tx }).unwrap();
    inst.drain_registrations(&obs_rx, 64);
    assert_eq!(inst.observers.len(), 1);

    inst.apply_all(envelopes(vec![
        Command::Hold(1),
        Command::Hold(2),
        Command::Ping,
        Command::Hold(3),
        Command::RemoveHeld(2),
    ]));

    let mut ticks: u32 = 0;
    while tick_rx.try_recv().is_ok() {
        ticks += 1;
    }
    assert_eq!(ticks, 5);
}

#[test]
fn late_observer_sees_only_later_commands() {
    let mut inst = Instance::new(State::initial(agent()));
    let (obs_tx, obs_rx) = unbounded();

    inst.apply_all(envelopes(vec![Command::Hold(1), Command::Hold(2)]));

    let (tick_tx, tick_rx) = unbounded();
    obs_tx.send(Observer { ticker: tick_tx }).unwrap();
    inst.drain_registrations(&obs_rx, 64);

    inst.apply_all(envelopes(vec![Command::Hold(3), Command::Ping, Command::Hold(4)]));

    let mut ticks: u32 = 0;
    while tick_rx.try_recv().is_ok() {
        ticks += 1;
    }
    assert_eq!(ticks, 3);
}

#[test]
fn deregistered_observer_is_dropped() {
    let mut inst = Instance::new(State::initial(agent()));
    let (obs_tx, obs_rx) = unbounded();
    let (tick_tx, tick_rx) = unbounded();
    obs_tx.send(Observer { ticker: tick_tx }).unwrap();
    inst.drain_registrations(&obs_rx, 64);
    assert_eq!(inst.observers.len(), 1);

    // dropping the receiving end deregisters the observer; the next
    // notification round finds the channel gone and discards the sink
    drop(tick_rx);
    inst.apply_all(envelopes(vec![Command::Ping]));
    assert_eq!(inst.observers.len(), 0);
}

#[test]
fn failed_send_hands_the_envelope_back() {
    let (tx, rx) = unbounded();
    drop(rx);
    let envelope = CommandEnvelope {
        command: Command::Ping,
        tracing_id: 5,
    };
    match tx.send(envelope.clone()) {
        Err(e) => assert_eq!(e.0, envelope),
        Ok(_) => panic!("send on a closed channel must fail"),
    }
}

#[test]
fn dispatch_cycles_publish_whole_snapshots() {
    let slot: Shared<StateWrapper> =
        Shared::new(StateWrapper::new_initial(State::initial(agent())));
    let (cmd_tx, cmd_rx) = unbounded();
    let (_obs_tx, obs_rx) = unbounded::<Observer>();

    for e in envelopes(vec![Command::Hold(7), Command::Hold(8), Command::RemoveHeld(7)]) {
        cmd_tx.send(e).unwrap();
    }
    drop(cmd_tx);

    let mut inst = Instance::new(State::initial(agent()));
    let mut cycles: u32 = 0;
    while dispatch_cycle(&mut inst, &cmd_rx, &obs_rx, &slot) {
        cycles += 1;
    }
    assert_eq!(cycles, 3);

    let mut folded = State::initial(agent());
    for c in [Command::Hold(7), Command::Hold(8), Command::RemoveHeld(7)] {
        folded = reduce(folded, c);
    }
    let published = slot.snapshot();
    assert_eq!(published.state, folded);
    assert_eq!(published.state.dht.held, vec![8]);
}
