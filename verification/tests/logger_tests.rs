use search::logger::{log_line, Header};

#[test]
fn headers_carry_their_words() {
    assert_eq!(Header::SUCCESS.label(), "SUCCESS");
    assert_eq!(Header::INFO.label(), "INFO");
    assert_eq!(Header::WARNING.label(), "WARNING");
    assert_eq!(Header::ERROR.label(), "ERROR");
}

#[test]
fn line_has_time_header_and_message() {
    assert_eq!(
        log_line("10-28-2026 22:09:00", Header::ERROR, "Redis SET failed"),
        "[10-28-2026 22:09:00] ERROR Redis SET failed"
    );
    assert_eq!(log_line("", Header::INFO, ""), "[] INFO ");
}
