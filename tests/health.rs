use backend_supervisor::health::{
    after_health_poll, classify_response, connection_failed, is_ok_status_line, HealthProbe, PollStep,
    MAX_HEALTH_POLLS,
};

#[test]
fn status_line_recognised() {
    let mut buf = [0u8; 64];
    let resp = b"HTTP/1.1 200 OK\r\n";
    buf[..resp.len()].copy_from_slice(resp);
    assert!(is_ok_status_line(&buf, resp.len()));
    assert!(!is_ok_status_line(&buf, 0));
    let mut bad = [0u8; 64];
    let resp2 = b"HTTP/1.1 503 Service Unavailable\r\n";
    bad[..resp2.len()].copy_from_slice(resp2);
    assert!(!is_ok_status_line(&bad, resp2.len()));
    assert!(!is_ok_status_line(b"HTTP/1.1", 8));
}

#[test]
fn poll_policy() {
    assert_eq!(after_health_poll(1, true), PollStep::Ready);
    assert_eq!(after_health_poll(1, false), PollStep::RetryAfter(500));
    assert_eq!(after_health_poll(9, false), PollStep::RetryAfter(500));
    assert_eq!(after_health_poll(10, false), PollStep::NotReady);
    let mut polls = 0;
    let mut attempt = 1;
    loop {
        polls += 1;
        match after_health_poll(attempt, false) {
            PollStep::RetryAfter(_) => attempt += 1,
            _ => break,
        }
    }
    assert_eq!(polls, MAX_HEALTH_POLLS);
}

#[test]
fn classify_health_answers() {
    match classify_response(200, "200 OK", Ok(String::from("{\"ok\":true}"))) {
        HealthProbe::Healthy(d) => assert_eq!(d, "{\"ok\":true}"),
        HealthProbe::Unreachable(_) => panic!("expected healthy"),
    }
    match classify_response(204, "204 No Content", Err(String::from("EOF"))) {
        HealthProbe::Unreachable(m) => assert_eq!(m, "Failed to parse health response: EOF"),
        HealthProbe::Healthy(_) => panic!("expected unreachable"),
    }
    match classify_response(500, "500 Internal Server Error", Ok(String::from("{}"))) {
        HealthProbe::Unreachable(m) => assert_eq!(m, "Backend returned status: 500 Internal Server Error"),
        HealthProbe::Healthy(_) => panic!("expected unreachable"),
    }
    match connection_failed("refused") {
        HealthProbe::Unreachable(m) => assert_eq!(m, "Backend connection failed: refused"),
        HealthProbe::Healthy(_) => panic!("expected unreachable"),
    }
}
