use dispatch_core::action::Command;
use dispatch_core::reducer::reduce;
use dispatch_core::scheduled_jobs::{attempt, retry_pass, AttemptOutcome};
use dispatch_core::state::State;
use dispatch_core::store::CasStore;
use dispatch_core::types::{
    AgentId, Entry, PendingValidation, ValidatingWorkflow,
};

fn agent() -> AgentId {
    AgentId {
        nick: String::from("merry"),
        pub_sign_key: String::from("key-merry"),
    }
}

fn pending(address: u64) -> PendingValidation {
    PendingValidation {
        address,
        workflow: ValidatingWorkflow::HoldEntry,
    }
}

#[test]
fn attempt_outcomes_follow_the_store() {
    let mut cas = CasStore::new();
    cas.put(
        1,
        Entry::App {
            content: 11,
            dependency: Some(9),
        },
    );
    cas.put(
        2,
        Entry::App {
            content: 22,
            dependency: None,
        },
    );
    // content present, dependency absent: still pending
    assert_eq!(attempt(&cas, pending(1)), AttemptOutcome::StillPending);
    // content present, no dependency: resolved
    assert_eq!(attempt(&cas, pending(2)), AttemptOutcome::Resolved);
    // content itself missing: abandoned
    assert_eq!(attempt(&cas, pending(3)), AttemptOutcome::Abandoned);
    // dependency arrives: resolved, and not before
    cas.put(
        9,
        Entry::App {
            content: 99,
            dependency: None,
        },
    );
    assert_eq!(attempt(&cas, pending(1)), AttemptOutcome::Resolved);
}

#[test]
fn pass_leaves_unsatisfiable_entry_queued() {
    let mut cas = CasStore::new();
    cas.put(
        1,
        Entry::App {
            content: 11,
            dependency: Some(9),
        },
    );
    let queue = vec![pending(1)];
    let (commands, abandoned) = retry_pass(&queue, &cas);
    assert!(commands.is_empty());
    assert!(abandoned.is_empty());
}

#[test]
fn pass_resolves_satisfiable_hold() {
    let mut cas = CasStore::new();
    cas.put(
        1,
        Entry::App {
            content: 11,
            dependency: Some(9),
        },
    );
    cas.put(
        9,
        Entry::App {
            content: 99,
            dependency: None,
        },
    );
    let queue = vec![pending(1)];
    let (commands, abandoned) = retry_pass(&queue, &cas);
    assert_eq!(
        commands,
        vec![
            Command::Hold(1),
            Command::RemovePendingValidation(1, ValidatingWorkflow::HoldEntry),
        ]
    );
    assert!(abandoned.is_empty());

    // applying the pass's commands dequeues the entry and records the hold
    let mut state = State::initial(agent());
    state.nucleus.pending_validations = queue;
    let mut after = state;
    for c in commands {
        after = reduce(after, c);
    }
    assert!(after.nucleus.pending_validations.is_empty());
    assert_eq!(after.dht.held, vec![1]);
}

#[test]
fn pass_abandons_entry_without_content() {
    let cas = CasStore::new();
    let queue = vec![pending(5)];
    let (commands, abandoned) = retry_pass(&queue, &cas);
    assert_eq!(
        commands,
        vec![Command::RemovePendingValidation(5, ValidatingWorkflow::HoldEntry)]
    );
    assert_eq!(abandoned, vec![pending(5)]);

    let mut state = State::initial(agent());
    state.nucleus.pending_validations = queue;
    let mut after = state;
    for c in commands {
        after = reduce(after, c);
    }
    assert!(after.nucleus.pending_validations.is_empty());
    assert!(after.dht.held.is_empty());
}

#[test]
fn resolved_publish_is_dequeued_without_holding() {
    let mut cas = CasStore::new();
    cas.put(
        4,
        Entry::App {
            content: 44,
            dependency: None,
        },
    );
    let queue = vec![PendingValidation {
        address: 4,
        workflow: ValidatingWorkflow::Publish,
    }];
    let (commands, abandoned) = retry_pass(&queue, &cas);
    assert_eq!(
        commands,
        vec![Command::RemovePendingValidation(4, ValidatingWorkflow::Publish)]
    );
    assert!(abandoned.is_empty());
}

#[test]
fn mixed_queue_is_handled_entry_by_entry() {
    let mut cas = CasStore::new();
    cas.put(
        1,
        Entry::App {
            content: 11,
            dependency: None,
        },
    );
    cas.put(
        2,
        Entry::App {
            content: 22,
            dependency: Some(100),
        },
    );
    let queue = vec![pending(1), pending(2), pending(3)];
    let (commands, abandoned) = retry_pass(&queue, &cas);
    assert_eq!(
        commands,
        vec![
            Command::Hold(1),
            Command::RemovePendingValidation(1, ValidatingWorkflow::HoldEntry),
            Command::RemovePendingValidation(3, ValidatingWorkflow::HoldEntry),
        ]
    );
    assert_eq!(abandoned, vec![pending(3)]);
}
