use feed_relay::config::bind_address;
use feed_relay::config::sink_url;
use feed_relay::errors::exit_code;
use feed_relay::errors::hardened_policy;
use feed_relay::errors::reference_policy;
use feed_relay::errors::ErrorAction;
use feed_relay::errors::PipelineError;

#[test]
fn reference_policy_aborts_on_everything() {
    let every_error = [
        PipelineError::Bind,
        PipelineError::Connection,
        PipelineError::Decode,
        PipelineError::SocketRead,
        PipelineError::Sink { retryable: true },
        PipelineError::Sink { retryable: false },
    ];
    for e in every_error {
        assert_eq!(reference_policy(e), ErrorAction::AbortProcess);
    }
}

#[test]
fn hardened_policy_recovers_per_message_failures() {
    assert_eq!(hardened_policy(PipelineError::Decode), ErrorAction::LogAndDrop);
    assert_eq!(
        hardened_policy(PipelineError::Sink { retryable: true }),
        ErrorAction::RetryPush
    );
    assert_eq!(
        hardened_policy(PipelineError::Sink { retryable: false }),
        ErrorAction::AbortProcess
    );
    assert_eq!(hardened_policy(PipelineError::Bind), ErrorAction::AbortProcess);
    assert_eq!(hardened_policy(PipelineError::Connection), ErrorAction::AbortProcess);
    assert_eq!(hardened_policy(PipelineError::SocketRead), ErrorAction::AbortProcess);
}

#[test]
fn exit_codes_are_distinct_and_non_zero() {
    let codes = [
        exit_code(PipelineError::Bind),
        exit_code(PipelineError::Connection),
        exit_code(PipelineError::Decode),
        exit_code(PipelineError::SocketRead),
        exit_code(PipelineError::Sink { retryable: true }),
    ];
    for (i, a) in codes.iter().enumerate() {
        assert_ne!(*a, 0);
        for b in &codes[i + 1..] {
            assert_ne!(*a, *b);
        }
    }
    // both sink failure kinds report the same stage
    assert_eq!(
        exit_code(PipelineError::Sink { retryable: true }),
        exit_code(PipelineError::Sink { retryable: false })
    );
}

#[test]
fn sink_url_with_credential() {
    assert_eq!(sink_url(Some("pw"), "127.0.0.1:6379"), "redis://:pw@127.0.0.1:6379/");
}

#[test]
fn sink_url_without_credential_has_no_password_section() {
    assert_eq!(sink_url(None, "127.0.0.1:6379"), "redis://127.0.0.1:6379/");
}

#[test]
fn bind_address_is_wildcard_with_the_given_port() {
    assert_eq!(bind_address(33322), "0.0.0.0:33322");
    assert_eq!(bind_address(0), "0.0.0.0:0");
    assert_eq!(bind_address(7), "0.0.0.0:7");
    assert_eq!(bind_address(65535), "0.0.0.0:65535");
}
