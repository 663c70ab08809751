use backend_supervisor::probe::{aggregate_probe, EndpointObservation};
use backend_supervisor::status::{DatabaseStatus, HealthCheckError, HealthResponse};

fn payload() -> HealthResponse {
    HealthResponse {
        status: "UP".to_string(),
        database: DatabaseStatus {
            connected: true,
            url: "jdbc:h2:file:./data/db".to_string(),
            error: Some("slow".to_string()),
        },
        timestamp: "2024-01-01T00:00:00+00:00".to_string(),
        uptime: 99,
    }
}

#[test]
fn first_success_wins() {
    let obs = vec![
        EndpointObservation::Timeout,
        EndpointObservation::JsonHealth(payload()),
        EndpointObservation::PlainSuccess,
    ];
    let r = aggregate_probe(obs, "ts".to_string()).expect("one endpoint answered");
    assert_eq!(r.uptime, 99);
    assert_eq!(r.database.error.as_deref(), Some("slow"));
}

#[test]
fn success_without_payload_degrades_gracefully() {
    let obs = vec![EndpointObservation::HttpFailure(503), EndpointObservation::PlainSuccess];
    let r = aggregate_probe(obs, "2024-02-02T00:00:00+00:00".to_string())
        .expect("a reachable server counts as up");
    assert_eq!(r.status, "UP");
    assert!(r.database.connected);
    assert_eq!(r.database.url, "jdbc:h2:file:./data/db");
    assert!(r.database.error.is_none());
    assert_eq!(r.timestamp, "2024-02-02T00:00:00+00:00");
    assert_eq!(r.uptime, 0);
}

#[test]
fn timeout_beats_connection_refusal() {
    let obs = vec![
        EndpointObservation::ConnectFailed("refused".to_string()),
        EndpointObservation::Timeout,
        EndpointObservation::HttpFailure(500),
    ];
    let e = aggregate_probe(obs, "ts".to_string()).unwrap_err();
    assert!(matches!(e, HealthCheckError::TimeoutError));
}

#[test]
fn connection_refusal_beats_other_failures() {
    let obs = vec![
        EndpointObservation::HttpFailure(500),
        EndpointObservation::ConnectFailed("refused".to_string()),
        EndpointObservation::RequestFailed("bad request".to_string()),
    ];
    let e = aggregate_probe(obs, "ts".to_string()).unwrap_err();
    match e {
        HealthCheckError::NetworkError(m) => assert_eq!(m, "Connection failed: refused"),
        _ => panic!("the refused connection is the most specific failure"),
    }
}

#[test]
fn equally_specific_failures_report_the_first() {
    let obs = vec![
        EndpointObservation::HttpFailure(503),
        EndpointObservation::RequestFailed("oops".to_string()),
    ];
    let e = aggregate_probe(obs, "ts".to_string()).unwrap_err();
    match e {
        HealthCheckError::InvalidResponse(m) => {
            assert_eq!(m, "Health endpoint returned status: 503");
        }
        _ => panic!("the earlier of two equally specific failures is reported"),
    }
}

#[test]
fn nothing_tried_is_an_unknown_error() {
    let e = aggregate_probe(vec![], "ts".to_string()).unwrap_err();
    match e {
        HealthCheckError::UnknownError(m) => assert_eq!(m, "No endpoints tried"),
        _ => panic!("an empty probe reports that nothing was tried"),
    }
}
