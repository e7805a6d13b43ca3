use std::sync::atomic::{AtomicUsize, Ordering};
use std::sync::{Arc, RwLock};

use bollard::Docker;
use dockertest::container::{CleanupContainer, PendingContainer, RunningContainer, StartStep};
use dockertest::daemon::StartReply;
use dockertest::waitfor::{NoWait, WaitFor};
use dockertest::{DockerTestError, Ipv4Address, StartPolicy};

fn local_client() -> Docker {
    Docker::connect_with_local_defaults().expect("local docker daemon connection")
}

fn pending<W>(wait: W) -> PendingContainer<W> {
    PendingContainer::new(
        "fixture_name",
        "0123456789abcdef",
        "fixture_handle",
        StartPolicy::Strict,
        wait,
        local_client(),
    )
}

/// Tests `PendingContainer::new` with associated struct member field values.
#[test]
fn test_new_pending_container() {
    let client = Docker::connect_with_local_defaults().expect("local docker daemon connection");
    let id = "this_is_an_id".to_string();
    let name = "this_is_a_container_name".to_string();
    let handle_key = "this_is_a_handle_key";

    let container = PendingContainer::new(
        &name,
        &id,
        handle_key,
        StartPolicy::Relaxed,
        Box::new(NoWait {}),
        client,
    );
    assert_eq!(id, container.id(), "wrong id set in container creation");
    assert_eq!(name, container.name(), "wrong name set in container creation");
    assert_eq!(
        name,
        container.name(),
        "container name getter returns wrong value"
    );
    assert_eq!(
        handle_key,
        container.handle(),
        "wrong handle_key set in container creation"
    );
}

#[derive(Clone)]
struct TestWaitFor {
    invoked: Arc<RwLock<bool>>,
}

impl WaitFor for TestWaitFor {
    fn wait_for_ready(
        &self,
        container: PendingContainer,
    ) -> Result<RunningContainer, DockerTestError> {
        let mut invoked = self.invoked.write().expect("failed to take invoked lock");
        *invoked = true;
        Ok(container.into())
    }
}

// Tests that the provided WaitFor trait object is invoked
// during the start method of the container.
#[test]
fn test_wait_for_invoked_during_start() {
    let wait_for = TestWaitFor {
        invoked: Arc::new(RwLock::new(false)),
    };

    let wrapped_wait_for = Box::new(wait_for);

    let client = Docker::connect_with_local_defaults().expect("local docker daemon connection");
    let repository = "dockertest-rs/hello".to_string();
    let container = PendingContainer::new(
        "dockertest_wait_for_invoked_during_start",
        "issued_by_the_daemon",
        &repository,
        StartPolicy::Relaxed,
        wrapped_wait_for.clone(),
        client,
    );

    // Start the container
    container
        .start(StartReply::Started)
        .expect("failed to start container");

    let was_invoked = wrapped_wait_for
        .invoked
        .read()
        .expect("failed to get read lock");

    assert!(
        *was_invoked,
        "wait_for trait object was not invoked during startup"
    );
}

#[test]
fn new_takes_its_inputs_as_they_are() {
    let container = PendingContainer::new(
        "  Mixed Case/Name ",
        "\tID-With-Ünïcode\n",
        "",
        StartPolicy::Strict,
        NoWait {},
        local_client(),
    );
    assert_eq!(container.name(), "  Mixed Case/Name ");
    assert_eq!(container.id(), "\tID-With-Ünïcode\n");
    assert_eq!(container.handle(), "");
    assert_eq!(container.start_policy(), StartPolicy::Strict);
}

#[test]
fn start_command_addresses_the_container_by_name() {
    let container = pending(NoWait {});
    let command = container.start_command();
    assert_eq!(command.name, "fixture_name");
    assert_ne!(command.name, container.id());
    assert!(command.options.is_none());
}

#[test]
fn new_carries_the_start_policy() {
    let relaxed = PendingContainer::new(
        "n",
        "i",
        "h",
        StartPolicy::Relaxed,
        NoWait {},
        local_client(),
    );
    assert_eq!(relaxed.start_policy(), StartPolicy::Relaxed);
    assert_ne!(relaxed.start_policy(), StartPolicy::Strict);
}

#[test]
fn start_with_no_wait_yields_the_running_container() {
    let running = pending(NoWait {})
        .start(StartReply::Started)
        .expect("failed to start container");
    assert_eq!(running.name(), "fixture_name");
    assert_eq!(running.id(), "0123456789abcdef");
    assert_eq!(running.handle(), "fixture_handle");
    assert_eq!(*running.ip(), Ipv4Address(0, 0, 0, 0));
    assert!(running.ip().is_unspecified());
}

#[test]
fn no_wait_confirms_without_an_address() {
    let container = match pending(()).commit(StartReply::Started) {
        StartStep::Wait { container, .. } => container,
        StartStep::Abort { error } => panic!("unexpected abort: {:?}", error),
    };
    let running = NoWait {}
        .wait_for_ready(container)
        .expect("no wait never fails");
    assert_eq!(*running.ip(), Ipv4Address::unspecified());
    assert_eq!(running.id(), "0123456789abcdef");
    assert_eq!(running.name(), "fixture_name");
}

#[test]
fn start_on_unknown_container_is_a_startup_error() {
    let daemon = Err(bollard::errors::Error::DockerResponseNotFoundError {
        message: "{\"message\": \"No such container: X\"}".to_string(),
    });
    let reply = StartReply::from_daemon(daemon);
    let error = pending(NoWait {})
        .start(reply)
        .expect_err("the daemon did not start the container");
    assert!(matches!(error, DockerTestError::Startup(_)));
    assert!(error.message().contains("No such container: X"));
    assert_eq!(
        error.message(),
        "failed to start container due to `No such container: X`"
    );
}

#[test]
fn start_on_undecodable_not_found_body_is_a_daemon_error() {
    let daemon = Err(bollard::errors::Error::DockerResponseNotFoundError {
        message: "not-json".to_string(),
    });
    let reply = StartReply::from_daemon(daemon);
    let error = pending(NoWait {})
        .start(reply)
        .expect_err("the daemon did not start the container");
    assert!(matches!(error, DockerTestError::Daemon(_)));
    assert!(error
        .message()
        .starts_with("daemon json response decode failure: "));
    assert_eq!(
        error.message(),
        "daemon json response decode failure: expected ident at line 1 column 2"
    );
}

#[test]
fn start_on_any_other_failure_is_a_daemon_error() {
    let daemon = Err(bollard::errors::Error::DockerResponseServerError {
        status_code: 500,
        message: "boom".to_string(),
    });
    let reply = StartReply::from_daemon(daemon);
    let error = pending(NoWait {})
        .start(reply)
        .expect_err("the daemon did not start the container");
    assert!(matches!(error, DockerTestError::Daemon(_)));
    assert_eq!(
        error.message(),
        "failed to start container: Docker responded with status code 500: boom"
    );
}

struct CountingWait {
    calls: Arc<AtomicUsize>,
}

impl WaitFor for CountingWait {
    fn wait_for_ready(
        &self,
        container: PendingContainer,
    ) -> Result<RunningContainer, DockerTestError> {
        self.calls.fetch_add(1, Ordering::SeqCst);
        Ok(RunningContainer::from(container))
    }
}

#[test]
fn strategy_is_asked_exactly_once_on_success() {
    let calls = Arc::new(AtomicUsize::new(0));
    let container = pending(CountingWait {
        calls: calls.clone(),
    });
    assert_eq!(calls.load(Ordering::SeqCst), 0);
    let running = container
        .start(StartReply::Started)
        .expect("failed to start container");
    assert_eq!(calls.load(Ordering::SeqCst), 1);
    assert_eq!(running.id(), "0123456789abcdef");
}

#[test]
fn strategy_is_not_asked_when_the_start_fails() {
    let replies = vec![
        StartReply::NotFound {
            message: "No such container: X".to_string(),
        },
        StartReply::Undecodable {
            reason: "expected value at line 1 column 1".to_string(),
        },
        StartReply::Unexplained {
            body: "{}".to_string(),
        },
        StartReply::Failed {
            reason: "Timeout error".to_string(),
        },
    ];
    for reply in replies {
        let calls = Arc::new(AtomicUsize::new(0));
        let outcome = pending(CountingWait {
            calls: calls.clone(),
        })
        .start(reply);
        assert!(outcome.is_err());
        assert_eq!(calls.load(Ordering::SeqCst), 0);
    }
}

#[test]
fn start_on_a_not_found_body_without_a_message_is_a_daemon_error() {
    let bodies = vec!["{}", "{\"message\": 5}", "[]"];
    for body in bodies {
        let daemon = Err(bollard::errors::Error::DockerResponseNotFoundError {
            message: body.to_string(),
        });
        let calls = Arc::new(AtomicUsize::new(0));
        let error = pending(CountingWait {
            calls: calls.clone(),
        })
        .start(StartReply::from_daemon(daemon))
        .expect_err("the daemon did not start the container");
        assert!(matches!(error, DockerTestError::Daemon(_)));
        assert_eq!(
            error.message(),
            format!("daemon json response without a message: {}", body)
        );
        assert_eq!(calls.load(Ordering::SeqCst), 0);
    }
}

struct FailingWait;

impl WaitFor for FailingWait {
    fn wait_for_ready(
        &self,
        _container: PendingContainer,
    ) -> Result<RunningContainer, DockerTestError> {
        Err(DockerTestError::Startup(
            "container never became ready".to_string(),
        ))
    }
}

#[test]
fn failure_of_the_strategy_is_returned_unchanged() {
    let error = pending(FailingWait)
        .start(StartReply::Started)
        .expect_err("the strategy fails");
    assert!(matches!(error, DockerTestError::Startup(_)));
    assert_eq!(error.message(), "container never became ready");
}

#[test]
fn boxed_dyn_strategy_is_asked() {
    let calls = Arc::new(AtomicUsize::new(0));
    let strategy: Box<dyn WaitFor> = Box::new(CountingWait {
        calls: calls.clone(),
    });
    let running = pending(strategy)
        .start(StartReply::Started)
        .expect("failed to start container");
    assert_eq!(calls.load(Ordering::SeqCst), 1);
    assert_eq!(running.name(), "fixture_name");
    assert!(running.ip().is_unspecified());
}

#[test]
fn cleanup_record_outlasts_the_start() {
    let container = pending(NoWait {});
    let cleanup = CleanupContainer::from(&container);
    assert_eq!(cleanup.id(), "0123456789abcdef");

    let running = container
        .start(StartReply::Started)
        .expect("failed to start container");
    assert_eq!(cleanup.id(), "0123456789abcdef");
    assert_eq!(cleanup.id(), running.id());

    let later = CleanupContainer::from(running);
    assert_eq!(later.id(), cleanup.id());
}

#[test]
fn cleanup_record_outlasts_a_failed_start() {
    let container = pending(NoWait {});
    let cleanup = CleanupContainer::from(&container);
    let outcome = container.start(StartReply::Failed {
        reason: "Timeout error".to_string(),
    });
    assert!(outcome.is_err());
    assert_eq!(cleanup.id(), "0123456789abcdef");
}

#[test]
fn pending_to_cleanup_by_value_copies_the_identifier() {
    let cleanup: CleanupContainer = pending(NoWait {}).into();
    assert_eq!(cleanup.id(), "0123456789abcdef");
}

#[test]
fn pending_to_cleanup_by_reference_leaves_the_container() {
    let container = pending(NoWait {});
    let cleanup = CleanupContainer::from(&container);
    assert_eq!(cleanup.id(), container.id());
    assert_eq!(container.name(), "fixture_name");
}

#[test]
fn running_to_cleanup_keeps_the_identifier() {
    let running = pending(NoWait {})
        .start(StartReply::Started)
        .expect("failed to start container");
    let id = running.id().to_string();
    let cleanup = CleanupContainer::from(running);
    assert_eq!(cleanup.id(), id);
    assert_eq!(cleanup.id(), "0123456789abcdef");
}

#[test]
fn commit_hands_out_the_strategy_on_an_acknowledged_start() {
    match pending(7u8).commit(StartReply::Started) {
        StartStep::Wait {
            strategy,
            container,
        } => {
            assert_eq!(strategy, 7u8);
            assert_eq!(container.name(), "fixture_name");
            assert_eq!(container.id(), "0123456789abcdef");
            assert_eq!(container.handle(), "fixture_handle");
            assert_eq!(container.start_policy(), StartPolicy::Strict);
        }
        StartStep::Abort { error } => panic!("unexpected abort: {:?}", error),
    }
}

#[test]
fn commit_aborts_on_a_failed_start() {
    let step = pending(7u8).commit(StartReply::Failed {
        reason: "Timeout error".to_string(),
    });
    match step {
        StartStep::Wait { .. } => panic!("the start was not acknowledged"),
        StartStep::Abort { error } => {
            assert!(matches!(error, DockerTestError::Daemon(_)));
            assert_eq!(
                error.message(),
                "failed to start container: Timeout error"
            );
        }
    }
}

#[test]
fn into_running_takes_the_address_it_is_given() {
    let container = match pending(()).commit(StartReply::Started) {
        StartStep::Wait { container, .. } => container,
        StartStep::Abort { error } => panic!("unexpected abort: {:?}", error),
    };
    let running = container.into_running(Ipv4Address(172, 17, 0, 2));
    assert_eq!(*running.ip(), Ipv4Address(172, 17, 0, 2));
    assert!(!running.ip().is_unspecified());
    assert_eq!(running.name(), "fixture_name");
    assert_eq!(running.id(), "0123456789abcdef");
    assert_eq!(running.handle(), "fixture_handle");
}

#[test]
fn clone_of_a_running_container_has_the_same_fields() {
    let container = match pending(()).commit(StartReply::Started) {
        StartStep::Wait { container, .. } => container,
        StartStep::Abort { error } => panic!("unexpected abort: {:?}", error),
    };
    let running = container.into_running(Ipv4Address(10, 0, 0, 9));
    let copy = running.clone();
    assert_eq!(copy.name(), running.name());
    assert_eq!(copy.id(), running.id());
    assert_eq!(copy.handle(), running.handle());
    assert_eq!(copy.ip(), running.ip());
}
