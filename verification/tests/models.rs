use biometric::request::{finish_authenticate, finish_status};
use biometric::{
    AuthOptions, AuthenticatePayload, BiometryType, Error, ErrorKind, NativeError, Request,
    Response, Status,
};

fn some(s: &str) -> Option<String> {
    Some(s.to_string())
}

#[test]
fn default_options_set_nothing() {
    let o = AuthOptions::default();
    assert!(!o.allow_device_credential);
    assert_eq!(o.cancel_title, None);
    assert_eq!(o.fallback_title, None);
    assert_eq!(o.title, None);
    assert_eq!(o.subtitle, None);
    assert_eq!(o.confirmation_required, None);
}

#[test]
fn payload_round_trip_preserves_every_field() {
    let flags = [false, true];
    let texts = [None, some(""), some("Cancel")];
    let confirmations = [None, Some(false), Some(true)];
    for allow in flags {
        for t in texts.iter() {
            for c in confirmations {
                let options = AuthOptions {
                    allow_device_credential: allow,
                    cancel_title: t.clone(),
                    fallback_title: some("fallback"),
                    title: t.clone(),
                    subtitle: None,
                    confirmation_required: c,
                };
                let payload = AuthenticatePayload::new("why".to_string(), options);
                let (reason, back) = payload.into_parts();
                assert_eq!(reason, "why");
                assert_eq!(back.allow_device_credential, allow);
                assert_eq!(back.cancel_title, *t);
                assert_eq!(back.fallback_title, some("fallback"));
                assert_eq!(back.title, *t);
                assert_eq!(back.subtitle, None);
                assert_eq!(back.confirmation_required, c);
            }
        }
    }
}

#[test]
fn payload_keeps_distinct_fields_apart() {
    let options = AuthOptions {
        allow_device_credential: true,
        cancel_title: some("a"),
        fallback_title: some("b"),
        title: some("c"),
        subtitle: some("d"),
        confirmation_required: Some(true),
    };
    let p = AuthenticatePayload::new("e".to_string(), options);
    assert_eq!(p.reason, "e");
    assert!(p.allow_device_credential);
    assert_eq!(p.cancel_title, some("a"));
    assert_eq!(p.fallback_title, some("b"));
    assert_eq!(p.title, some("c"));
    assert_eq!(p.subtitle, some("d"));
    assert_eq!(p.confirmation_required, Some(true));
}

#[test]
fn unavailable_status_is_consistent_but_unexplained() {
    let s = Status::unavailable();
    assert!(!s.is_available);
    assert_eq!(s.biometry_type, BiometryType::Absent);
    assert_eq!(s.error, None);
    assert_eq!(s.error_code, None);
    assert!(s.is_consistent());
    assert!(!s.is_explained());
}

#[test]
fn status_consistency() {
    let ok = Status { is_available: true, biometry_type: BiometryType::Iris, error: None, error_code: None };
    assert!(ok.is_consistent());
    assert!(!ok.is_explained());
    let bad = Status { is_available: true, biometry_type: BiometryType::Generic, error: some("x"), error_code: None };
    assert!(!bad.is_consistent());
    assert!(!bad.is_explained());
    let bad_code = Status { is_available: true, biometry_type: BiometryType::Generic, error: None, error_code: some("x") };
    assert!(!bad_code.is_consistent());
    let off = Status { is_available: false, biometry_type: BiometryType::TouchID, error: None, error_code: some("biometryLockout") };
    assert!(off.is_consistent());
    assert!(off.is_explained());
    let off_message = Status { is_available: false, biometry_type: BiometryType::TouchID, error: some("locked"), error_code: None };
    assert!(off_message.is_explained());
}

#[test]
fn codes_are_classified_exactly() {
    assert_eq!(ErrorKind::from_code(&None), ErrorKind::Transport);
    assert_eq!(ErrorKind::from_code(&some("biometryNotAvailable")), ErrorKind::NotAvailable);
    assert_eq!(ErrorKind::from_code(&some("biometryNotEnrolled")), ErrorKind::NotEnrolled);
    assert_eq!(ErrorKind::from_code(&some("authenticationFailed")), ErrorKind::AuthenticationFailed);
    assert_eq!(ErrorKind::from_code(&some("userCancel")), ErrorKind::UserCancelled);
    assert_eq!(ErrorKind::from_code(&some("biometryLockout")), ErrorKind::Locked);
    assert_eq!(ErrorKind::from_code(&some("")), ErrorKind::Transport);
    assert_eq!(ErrorKind::from_code(&some("usercancel")), ErrorKind::Transport);
    assert_eq!(ErrorKind::from_code(&some("userCancel ")), ErrorKind::Transport);
    assert_eq!(ErrorKind::from_code(&some("systemCancel")), ErrorKind::Transport);
}

#[test]
fn native_failure_keeps_code_and_message() {
    let e = Error::from_native(NativeError { code: some("biometryLockout"), message: some("Too many attempts") });
    assert_eq!(e.kind, ErrorKind::Locked);
    assert_eq!(e.code, some("biometryLockout"));
    assert_eq!(e.message, some("Too many attempts"));
    let t = Error::from_native(NativeError { code: None, message: None });
    assert_eq!(t.kind, ErrorKind::Transport);
    assert_eq!(t.code, None);
    assert_eq!(t.message, None);
}

#[test]
fn malformed_response_is_a_bare_transport_error() {
    let e = Error::malformed_response();
    assert_eq!(e.kind, ErrorKind::Transport);
    assert_eq!(e.code, None);
    assert_eq!(e.message, None);
}

#[test]
fn finish_status_for_each_outcome() {
    let s = finish_status(Ok(Response::Status(Status {
        is_available: true,
        biometry_type: BiometryType::TouchID,
        error: None,
        error_code: None,
    })))
    .unwrap();
    assert!(s.is_available);
    assert_eq!(s.biometry_type, BiometryType::TouchID);

    let e = finish_status(Ok(Response::Empty)).unwrap_err();
    assert_eq!(e.kind, ErrorKind::Transport);
    assert_eq!(e.code, None);

    let e = finish_status(Err(NativeError { code: some("biometryNotAvailable"), message: None })).unwrap_err();
    assert_eq!(e.kind, ErrorKind::NotAvailable);
    assert_eq!(e.code, some("biometryNotAvailable"));
    assert_eq!(e.message, None);
}

#[test]
fn finish_authenticate_for_each_outcome() {
    assert!(finish_authenticate(Ok(Response::Empty)).is_ok());

    let e = finish_authenticate(Ok(Response::Status(Status::unavailable()))).unwrap_err();
    assert_eq!(e.kind, ErrorKind::Transport);
    assert_eq!(e.code, None);
    assert_eq!(e.message, None);

    let e = finish_authenticate(Err(NativeError { code: some("authenticationFailed"), message: some("no match") }))
        .unwrap_err();
    assert_eq!(e.kind, ErrorKind::AuthenticationFailed);
    assert_eq!(e.message, some("no match"));
}

#[test]
fn request_command_names() {
    assert_eq!(Request::Status.command(), "status");
    let p = AuthenticatePayload::new("r".to_string(), AuthOptions::default());
    assert_eq!(Request::Authenticate(p).command(), "authenticate");
}
