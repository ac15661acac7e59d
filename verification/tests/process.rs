use yawp::yawp::error_line;
use yawp::yawp::process_yawp;
use yawp::yawp::Flags;
use yawp::yawp::PostOutcome;

#[test]
fn ok_response_has_no_error_line() {
    assert_eq!(error_line("Mastodon", &PostOutcome::Sent(200)), None);
}

#[test]
fn failed_response_names_the_platform() {
    let r = error_line("Twitter", &PostOutcome::Sent(403));
    assert_eq!(
        r,
        Some(String::from("Twitter Error: Access forbidden: have you been banned?"))
    );
}

#[test]
fn transport_error_line() {
    let r = error_line("Mastodon", &PostOutcome::RequestFailed(String::from("connection refused")));
    assert_eq!(r, Some(String::from("Request Error: connection refused")));
}

#[test]
fn success_echoes_the_message() {
    let flags = Flags { mastodon: true, twitter: true, quiet: false };
    let out = process_yawp(
        &String::from("my yawp"),
        &flags,
        &Some(PostOutcome::Sent(200)),
        &Some(PostOutcome::Sent(200)),
    );
    assert_eq!(out.stderr_lines, Vec::<String>::new());
    assert_eq!(out.stdout_line, Some(String::from("my yawp")));
}

#[test]
fn quiet_suppresses_the_echo() {
    let flags = Flags { mastodon: true, twitter: false, quiet: true };
    let out = process_yawp(
        &String::from("my yawp"),
        &flags,
        &Some(PostOutcome::Sent(200)),
        &None,
    );
    assert_eq!(out.stderr_lines, Vec::<String>::new());
    assert_eq!(out.stdout_line, None);
}

#[test]
fn an_error_suppresses_the_echo() {
    let flags = Flags { mastodon: true, twitter: false, quiet: false };
    let out = process_yawp(
        &String::from("my yawp"),
        &flags,
        &Some(PostOutcome::Sent(401)),
        &None,
    );
    assert_eq!(
        out.stderr_lines,
        vec![String::from("Mastodon Error: Unauthorized: check your credentials are correct")]
    );
    assert_eq!(out.stdout_line, None);
}

#[test]
fn mastodon_error_comes_before_twitter_error() {
    let flags = Flags { mastodon: true, twitter: true, quiet: false };
    let out = process_yawp(
        &String::from("my yawp"),
        &flags,
        &Some(PostOutcome::Sent(500)),
        &Some(PostOutcome::RequestFailed(String::from("dns failure"))),
    );
    assert_eq!(
        out.stderr_lines,
        vec![
            String::from("Mastodon Error: Server error: it's not you, it's them"),
            String::from("Request Error: dns failure"),
        ]
    );
    assert_eq!(out.stdout_line, None);
}

#[test]
fn no_platform_asked_for_still_echoes() {
    let flags = Flags { mastodon: false, twitter: false, quiet: false };
    let out = process_yawp(&String::from("my yawp"), &flags, &None, &None);
    assert_eq!(out.stderr_lines, Vec::<String>::new());
    assert_eq!(out.stdout_line, Some(String::from("my yawp")));
}
