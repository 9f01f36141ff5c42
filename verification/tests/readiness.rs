use backend_supervisor::readiness::{check_health, probe_from_response, read_status, HealthProbe};

#[test]
fn health_check_against_nothing_listening_is_false() {
    assert!(!check_health(HealthProbe::Unreachable));
}

#[test]
fn health_check_against_http_200_is_true() {
    assert!(check_health(HealthProbe::Status(200)));
    assert!(check_health(probe_from_response(b"HTTP/1.1 200 OK\r\ncontent-length: 2\r\n\r\n{}")));
}

#[test]
fn health_check_accepts_exactly_the_2xx_range() {
    assert!(!check_health(HealthProbe::Status(199)));
    assert!(check_health(HealthProbe::Status(204)));
    assert!(check_health(HealthProbe::Status(299)));
    assert!(!check_health(HealthProbe::Status(300)));
    assert!(!check_health(HealthProbe::Status(404)));
    assert!(!check_health(HealthProbe::Status(500)));
    assert!(!check_health(HealthProbe::Status(0)));
    assert!(!check_health(HealthProbe::Status(u16::MAX)));
}

#[test]
fn read_status_reads_the_three_digit_code() {
    assert_eq!(read_status(b"HTTP/1.1 200 OK\r\n"), Some(200));
    assert_eq!(read_status(b"HTTP/1.0 503 Service Unavailable\r\n"), Some(503));
    assert_eq!(read_status(b"HTTP/1.1 404"), Some(404));
    assert_eq!(read_status(b"HTTP/2.0 007 \r\n"), Some(7));
}

#[test]
fn read_status_rejects_what_is_not_a_status_line() {
    assert_eq!(read_status(b""), None);
    assert_eq!(read_status(b"HTTP/1.1 20"), None);
    assert_eq!(read_status(b"HTTP/1.1 2000 OK"), None);
    assert_eq!(read_status(b"HTTP/1.1  200 OK"), None);
    assert_eq!(read_status(b"http/1.1 200 OK"), None);
    assert_eq!(read_status(b"HTTP/11 200 OK\r\n"), None);
    assert_eq!(read_status(b"HTTP/1.1 2x0 OK\r\n"), None);
    assert_eq!(read_status(b"SSH-2.0-OpenSSH_9.6"), None);
}

#[test]
fn garbage_in_answer_counts_as_unreachable() {
    assert_eq!(probe_from_response(b"SSH-2.0-OpenSSH_9.6\r\n"), HealthProbe::Unreachable);
    assert_eq!(probe_from_response(b""), HealthProbe::Unreachable);
    assert_eq!(probe_from_response(b"HTTP/1.1 500 Internal Server Error\r\n"), HealthProbe::Status(500));
    assert!(!check_health(probe_from_response(b"HTTP/1.1 500 Internal Server Error\r\n")));
}
