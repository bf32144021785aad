use little_nova::dispatch::{serve, Command, Outcome, RoutedRequest};
use little_nova::errors::RequestError;
use little_nova::lifecycle::{
    admission_outcome, Action, Controller, Event, Phase, DEFAULT_ADMISSION_TIMEOUT_MS,
    DEFAULT_DRAIN_WINDOW_MS,
};
use little_nova::store::Store;

#[test]
fn startup_failure_is_fatal() {
    let mut c = Controller::new(DEFAULT_ADMISSION_TIMEOUT_MS, DEFAULT_DRAIN_WINDOW_MS);
    assert_eq!(c.phase, Phase::Starting);
    let a = c.step(Event::TlsFailed);
    assert_eq!(a, Action::AbortStartup);
    assert_eq!(c.phase, Phase::Stopped);
}

#[test]
fn successful_startup_serves() {
    let mut c = Controller::new(DEFAULT_ADMISSION_TIMEOUT_MS, DEFAULT_DRAIN_WINDOW_MS);
    let a = c.step(Event::TlsLoaded);
    assert_eq!(a, Action::AcceptConnections);
    assert_eq!(c.phase, Phase::Serving);
}

#[test]
fn request_in_flight_when_signal_arrives_completes_during_drain() {
    let mut c = Controller::new(DEFAULT_ADMISSION_TIMEOUT_MS, DEFAULT_DRAIN_WINDOW_MS);
    c.step(Event::TlsLoaded);
    assert_eq!(c.step(Event::RequestArrived), Action::Admit);
    assert_eq!(c.in_flight, 1);

    // The termination signal arrives while the request is still in flight.
    assert_eq!(c.step(Event::Signal), Action::BeginDrain);
    assert_eq!(c.phase, Phase::ShuttingDown);
    assert_eq!(c.in_flight, 1);

    // The request finishes within the admission timeout and before the drain
    // deadline: it keeps its normal result.
    let outcome: Result<i32, RequestError> = Ok(7);
    let classified = admission_outcome(50, c.admission_timeout_ms, outcome);
    assert_eq!(classified, Ok(7));

    // Its completion drains the server to a stop.
    assert_eq!(c.step(Event::RequestFinished), Action::Stop);
    assert_eq!(c.phase, Phase::Stopped);
    assert_eq!(c.in_flight, 0);
}

#[test]
fn processing_beyond_the_admission_timeout_times_out() {
    let slow: Result<i32, RequestError> = Ok(7);
    let r = admission_outcome(
        DEFAULT_ADMISSION_TIMEOUT_MS + 1,
        DEFAULT_ADMISSION_TIMEOUT_MS,
        slow,
    );
    assert_eq!(r, Err(RequestError::RequestTimeout));
}

#[test]
fn processing_within_the_admission_timeout_keeps_its_result() {
    let fast: Result<i32, RequestError> = Err(RequestError::NotFound);
    let r = admission_outcome(10, DEFAULT_ADMISSION_TIMEOUT_MS, fast);
    assert_eq!(r, Err(RequestError::NotFound));
}

#[test]
fn internal_error_passes_through_admission() {
    let failed: Result<i32, RequestError> = Err(RequestError::InternalError);
    let r = admission_outcome(10, DEFAULT_ADMISSION_TIMEOUT_MS, failed);
    assert_eq!(r, Err(RequestError::InternalError));
}

#[test]
fn second_signal_during_drain_has_no_effect() {
    let mut c = Controller::new(DEFAULT_ADMISSION_TIMEOUT_MS, DEFAULT_DRAIN_WINDOW_MS);
    c.step(Event::TlsLoaded);
    c.step(Event::RequestArrived);
    c.step(Event::Signal);
    assert_eq!(c.phase, Phase::ShuttingDown);
    let a = c.step(Event::Signal);
    assert_eq!(a, Action::Continue);
    assert_eq!(c.phase, Phase::ShuttingDown);
    assert_eq!(c.in_flight, 1);
}

#[test]
fn drain_deadline_abandons_in_flight_requests() {
    let mut c = Controller::new(DEFAULT_ADMISSION_TIMEOUT_MS, DEFAULT_DRAIN_WINDOW_MS);
    c.step(Event::TlsLoaded);
    c.step(Event::RequestArrived);
    c.step(Event::RequestArrived);
    c.step(Event::Signal);
    assert_eq!(c.in_flight, 2);
    let a = c.step(Event::DrainDeadline);
    assert_eq!(a, Action::Stop);
    assert_eq!(c.phase, Phase::Stopped);
}

#[test]
fn new_connections_are_rejected_during_drain() {
    let mut c = Controller::new(DEFAULT_ADMISSION_TIMEOUT_MS, DEFAULT_DRAIN_WINDOW_MS);
    c.step(Event::TlsLoaded);
    c.step(Event::RequestArrived);
    c.step(Event::Signal);
    let a = c.step(Event::RequestArrived);
    assert_eq!(a, Action::RejectConnection);
    assert_eq!(c.in_flight, 1);
}

#[test]
fn unknown_path_gives_route_fallback_not_domain_not_found() {
    let mut store = Store::new();
    match serve(&mut store, RoutedRequest::UnknownPath) {
        Outcome::RouteNotFound => {}
        _ => panic!("an unknown path must give the generic fallback"),
    }
}

#[test]
fn missing_id_gives_domain_not_found() {
    let mut store = Store::new();
    match serve(&mut store, RoutedRequest::Known(Command::GetComment { id: 9 })) {
        Outcome::Handled(Err(RequestError::NotFound)) => {}
        _ => panic!("a missing id must give the domain NotFound"),
    }
}

#[test]
fn create_command_stores_and_returns_the_record() {
    let mut store = Store::new();
    let outcome = serve(
        &mut store,
        RoutedRequest::Known(Command::CreateComment {
            name: String::from("ada"),
            text: String::from("hi"),
            created_at: 123,
        }),
    );
    match outcome {
        Outcome::Handled(Ok(little_nova::dispatch::Reply::Created(c))) => {
            assert_eq!(c.name, "ada");
            assert_eq!(c.text, "hi");
            assert_eq!(c.created_at, 123);
            assert_eq!(store.len(), 1);
            let got = store.get(c.id).expect("created id must be found");
            assert_eq!(got.text, "hi");
        }
        _ => panic!("creation always succeeds"),
    }
}
