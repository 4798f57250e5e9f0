use remote_trait_object::lifecycle::{
    join_outcome, next_component, shutdown, Component, ShutdownError, Stage, Timed,
    CALL_SLOT_TIMEOUT_DEBUG_MS, CALL_SLOT_TIMEOUT_MS, CLIENT_SHUTDOWN_TIMEOUT_MS,
    SERVER_SHUTDOWN_TIMEOUT_MS,
};

#[test]
fn a_port_goes_down_multiplexer_server_client_registry() {
    let mut stage = Stage::Running;
    let mut order = Vec::new();
    while let Some(component) = next_component(stage) {
        order.push(component);
        stage = shutdown(stage, component).unwrap();
    }
    assert_eq!(order, vec![Component::Multiplexer, Component::Server, Component::Client, Component::Registry]);
    assert_eq!(stage, Stage::Closed);
}

#[test]
fn any_other_order_is_refused() {
    assert_eq!(shutdown(Stage::Running, Component::Server), Err(ShutdownError::OutOfOrder));
    assert_eq!(shutdown(Stage::Running, Component::Client), Err(ShutdownError::OutOfOrder));
    assert_eq!(shutdown(Stage::Running, Component::Registry), Err(ShutdownError::OutOfOrder));
    assert_eq!(shutdown(Stage::MultiplexerDown, Component::Client), Err(ShutdownError::OutOfOrder));
    assert_eq!(shutdown(Stage::ServerDown, Component::Server), Err(ShutdownError::OutOfOrder));
    assert_eq!(shutdown(Stage::ClientDown, Component::Client), Err(ShutdownError::OutOfOrder));
    assert_eq!(shutdown(Stage::Closed, Component::Registry), Err(ShutdownError::OutOfOrder));
}

#[test]
fn shutting_the_multiplexer_down_twice_changes_nothing() {
    for stage in [Stage::MultiplexerDown, Stage::ServerDown, Stage::ClientDown, Stage::Closed] {
        assert_eq!(shutdown(stage, Component::Multiplexer), Ok(stage));
    }
}

#[test]
fn a_silent_task_is_a_misuse() {
    assert_eq!(join_outcome(Timed::Item(())), Ok(()));
    assert_eq!(join_outcome(Timed::TimedOut), Err(ShutdownError::TimedOut));
    assert_eq!(join_outcome(Timed::Disconnected), Err(ShutdownError::TaskLost));
}

#[test]
fn the_time_limits() {
    assert_eq!(CALL_SLOT_TIMEOUT_MS, 50);
    assert_eq!(CALL_SLOT_TIMEOUT_DEBUG_MS, 1_000_000);
    assert_eq!(CLIENT_SHUTDOWN_TIMEOUT_MS, 100);
    assert_eq!(SERVER_SHUTDOWN_TIMEOUT_MS, 500);
}
