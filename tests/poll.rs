use open_cloud_luau_execute::{
    Error, FullOpenCloudExecutionTask, OpenCloudExecutionTask, OpenCloudOutput,
    OpenCloudState, PollAction, PollOutcome, Poller,
};

const SEC: u64 = 1_000_000_000;

fn task(state: OpenCloudState) -> FullOpenCloudExecutionTask {
    FullOpenCloudExecutionTask {
        base_task: OpenCloudExecutionTask {
            path: "universes/1/places/2/luau-execution-sessions/s/tasks/t".to_string(),
            user: "user".to_string(),
            state,
            script: "return 42".to_string(),
        },
        create_time: "2025-01-01T00:00:00Z".to_string(),
        update_time: "2025-01-01T00:00:01Z".to_string(),
        output: None,
        error: None,
    }
}

#[test]
fn backoff_waits_one_then_one_and_a_half_then_two_and_a_quarter() {
    let mut poller = Poller::new();
    let mut waits = Vec::new();
    let mut elapsed = 0u64;
    let mut finished = None;
    let states = [
        OpenCloudState::Processing,
        OpenCloudState::Processing,
        OpenCloudState::Processing,
        OpenCloudState::Complete,
    ];
    for state in states {
        match poller.on_reply(Ok(task(state)), elapsed) {
            PollOutcome::Wait { nanos } => {
                waits.push(nanos);
                elapsed += nanos;
            }
            PollOutcome::Done(result) => {
                finished = Some(result);
                break;
            }
        }
    }
    assert_eq!(waits, vec![SEC, 3 * SEC / 2, 9 * SEC / 4]);
    let done = finished.expect("the run ends").expect("the task completes");
    assert_eq!(done.base_task.state, OpenCloudState::Complete);
}

#[test]
fn backoff_is_capped_at_sixty_seconds() {
    let mut poller = Poller::new();
    let mut last = 0;
    for _ in 0..20 {
        match poller.step(&OpenCloudState::Queued, 0) {
            PollAction::Wait { nanos } => last = nanos,
            other => panic!("unexpected {other:?}"),
        }
    }
    assert_eq!(last, 60 * SEC);
}

#[test]
fn task_that_keeps_running_times_out() {
    let mut poller = Poller::new();
    let mut elapsed = 0u64;
    let outcome = loop {
        match poller.on_reply(Ok(task(OpenCloudState::Processing)), elapsed) {
            PollOutcome::Wait { nanos } => elapsed += nanos,
            PollOutcome::Done(result) => break result,
        }
    };
    assert_eq!(elapsed, 300 * SEC);
    assert!(matches!(outcome, Err(Error::PollTimeout)));
}

#[test]
fn last_wait_is_cut_to_the_deadline() {
    let mut poller = Poller::new();
    assert_eq!(
        poller.step(&OpenCloudState::Processing, 300 * SEC - 10),
        PollAction::Wait { nanos: 10 }
    );
}

#[test]
fn terminal_reply_after_deadline_is_dropped() {
    let mut poller = Poller::new();
    let outcome = poller.on_reply(Ok(task(OpenCloudState::Complete)), 300 * SEC);
    assert!(matches!(outcome, PollOutcome::Done(Err(Error::PollTimeout))));
}

#[test]
fn unspecified_and_queued_states_keep_polling() {
    let mut poller = Poller::new();
    assert!(matches!(
        poller.step(&OpenCloudState::StateUnspecified, 0),
        PollAction::Wait { .. }
    ));
    assert!(matches!(poller.step(&OpenCloudState::Queued, 0), PollAction::Wait { .. }));
    assert_eq!(poller.step(&OpenCloudState::Failed, 0), PollAction::Finish);
    assert_eq!(poller.step(&OpenCloudState::Cancelled, 0), PollAction::Finish);
}

#[test]
fn failed_query_ends_the_run() {
    let mut poller = Poller::new();
    let failure = Error::RemoteRejection {
        code: "NOT_FOUND".to_string(),
        message: "no such task".to_string(),
    };
    match poller.on_reply(Err(failure.clone()), SEC) {
        PollOutcome::Done(Err(e)) => assert_eq!(e, failure),
        other => panic!("unexpected {other:?}"),
    }
}

#[test]
fn queued_processing_complete_returns_the_output() {
    let mut poller = Poller::new();
    let mut complete = task(OpenCloudState::Complete);
    complete.output = Some(OpenCloudOutput {
        results: vec![serde_json::Value::from(42)],
    });
    let replies = vec![
        task(OpenCloudState::Queued),
        task(OpenCloudState::Processing),
        complete,
    ];
    let mut elapsed = 0u64;
    let mut result = None;
    for reply in replies {
        match poller.on_reply(Ok(reply), elapsed) {
            PollOutcome::Wait { nanos } => elapsed += nanos,
            PollOutcome::Done(r) => {
                result = Some(r);
                break;
            }
        }
    }
    let done = result.expect("the run ends").expect("the task completes");
    assert_eq!(done.base_task.state, OpenCloudState::Complete);
    let output = done.output.expect("output is present");
    assert_eq!(output.results, vec![serde_json::Value::from(42)]);
    assert!(done.error.is_none());
}
