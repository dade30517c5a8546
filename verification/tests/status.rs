use prompt_mixer::status::{reason_for, show_status, status_line, UNKNOWN_REASON};

#[test]
fn registered_statuses_show_their_reason() {
    assert_eq!(status_line(200), "200 OK");
    assert_eq!(status_line(404), "404 Not Found");
    assert_eq!(status_line(429), "429 Too Many Requests");
    assert_eq!(status_line(500), "500 Internal Server Error");
    assert_eq!(reason_for(503), Some("Service Unavailable"));
}

#[test]
fn other_numbers_show_no_reason() {
    assert_eq!(UNKNOWN_REASON, "<unknown status code>");
    assert_eq!(reason_for(599), None);
    assert_eq!(status_line(599), "599 <unknown status code>");
    assert_eq!(status_line(999), "999 <unknown status code>");
    assert_eq!(reason_for(99), None);
    assert_eq!(status_line(99), "99 <unknown status code>");
    assert_eq!(status_line(0), "0 <unknown status code>");
    assert_eq!(status_line(1000), "1000 <unknown status code>");
    assert_eq!(status_line(u16::MAX), "65535 <unknown status code>");
}

#[test]
fn status_is_number_space_reason() {
    assert_eq!(show_status(418, Some("I'm a teapot")), "418 I'm a teapot");
    assert_eq!(show_status(7, None), "7 <unknown status code>");
    assert_eq!(show_status(200, Some("")), "200 ");
}
