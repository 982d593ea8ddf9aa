//! Records exchanged with the native side.

use vstd::prelude::*;

verus! {

/// The text of an optional string, as a sequence of characters.
pub open spec fn text(s: Option<String>) -> Option<Seq<char>> {
    match s {
        Some(t) => Some(t@),
        None => None,
    }
}

/// Hardware modality reported by the platform.
#[derive(Clone, Copy, Debug, PartialEq, Eq, Structural)]
pub enum BiometryType {
    /// No biometric hardware.
    Absent,
    /// Fingerprint-class sensor.
    TouchID,
    /// Face-class sensor.
    FaceID,
    /// Iris-class sensor.
    Iris,
    /// A biometric sensor the platform does not classify further.
    Generic,
}

/// How the authentication prompt should behave.
#[derive(Clone, Debug)]
pub struct AuthOptions {
    /// Allow falling back to the device credential (PIN, pattern, password).
    pub allow_device_credential: bool,
    /// Label of the cancel button.
    pub cancel_title: Option<String>,
    /// Label of the fallback button.
    pub fallback_title: Option<String>,
    /// Title of the prompt.
    pub title: Option<String>,
    /// Subtitle of the prompt.
    pub subtitle: Option<String>,
    /// Whether an explicit confirmation is asked for after a successful
    /// biometric match; `Some(false)` permits confirmation-less acceptance.
    pub confirmation_required: Option<bool>,
}

/// Mathematical content of an [`AuthOptions`].
pub ghost struct AuthOptionsView {
    pub allow_device_credential: bool,
    pub cancel_title: Option<Seq<char>>,
    pub fallback_title: Option<Seq<char>>,
    pub title: Option<Seq<char>>,
    pub subtitle: Option<Seq<char>>,
    pub confirmation_required: Option<bool>,
}

impl View for AuthOptions {
    type V = AuthOptionsView;

    open spec fn view(&self) -> AuthOptionsView {
        AuthOptionsView {
            allow_device_credential: self.allow_device_credential,
            cancel_title: text(self.cancel_title),
            fallback_title: text(self.fallback_title),
            title: text(self.title),
            subtitle: text(self.subtitle),
            confirmation_required: self.confirmation_required,
        }
    }
}

impl AuthOptions {
    /// The options in which nothing is set.
    pub open spec fn unset() -> AuthOptionsView {
        AuthOptionsView {
            allow_device_credential: false,
            cancel_title: None,
            fallback_title: None,
            title: None,
            subtitle: None,
            confirmation_required: None,
        }
    }
}

impl Default for AuthOptions {
    fn default() -> (r: AuthOptions)
        ensures
            r@ == AuthOptions::unset(),
    {
        AuthOptions {
            allow_device_credential: false,
            cancel_title: None,
            fallback_title: None,
            title: None,
            subtitle: None,
            confirmation_required: None,
        }
    }
}

/// Result of a hardware and enrollment query.
#[derive(Clone, Debug)]
pub struct Status {
    /// Whether biometric authentication can be used right now.
    pub is_available: bool,
    /// The modality of the hardware.
    pub biometry_type: BiometryType,
    /// Human-readable reason for unavailability.
    pub error: Option<String>,
    /// Machine-readable reason for unavailability.
    pub error_code: Option<String>,
}

/// Mathematical content of a [`Status`].
pub ghost struct StatusView {
    pub is_available: bool,
    pub biometry_type: BiometryType,
    pub error: Option<Seq<char>>,
    pub error_code: Option<Seq<char>>,
}

impl View for Status {
    type V = StatusView;

    open spec fn view(&self) -> StatusView {
        StatusView {
            is_available: self.is_available,
            biometry_type: self.biometry_type,
            error: text(self.error),
            error_code: text(self.error_code),
        }
    }
}

impl StatusView {
    /// An available status carries no error.
    pub open spec fn consistent(self) -> bool {
        self.is_available ==> self.error is None && self.error_code is None
    }

    /// An unavailable status that says why.
    pub open spec fn explained(self) -> bool {
        !self.is_available && (self.error is Some || self.error_code is Some)
    }
}

impl Status {
    /// The status of a platform without any biometric capability.
    pub open spec fn no_capability() -> StatusView {
        StatusView {
            is_available: false,
            biometry_type: BiometryType::Absent,
            error: None,
            error_code: None,
        }
    }

    /// The fixed answer given when there is no capability handle.
    pub fn unavailable() -> (r: Status)
        ensures
            r@ == Status::no_capability(),
            r@.consistent(),
    {
        Status {
            is_available: false,
            biometry_type: BiometryType::Absent,
            error: None,
            error_code: None,
        }
    }

    /// Whether an available status is free of error fields.
    pub fn is_consistent(&self) -> (r: bool)
        ensures
            r == self@.consistent(),
    {
        !self.is_available || (self.error.is_none() && self.error_code.is_none())
    }

    /// Whether the status is unavailable and names a reason.
    pub fn is_explained(&self) -> (r: bool)
        ensures
            r == self@.explained(),
    {
        !self.is_available && (self.error.is_some() || self.error_code.is_some())
    }
}

/// The request record of one `authenticate` call: the reason shown to the
/// user, with the options laid out beside it at the same level.
#[derive(Clone, Debug)]
pub struct AuthenticatePayload {
    pub reason: String,
    pub allow_device_credential: bool,
    pub cancel_title: Option<String>,
    pub fallback_title: Option<String>,
    pub title: Option<String>,
    pub subtitle: Option<String>,
    pub confirmation_required: Option<bool>,
}

/// Mathematical content of an [`AuthenticatePayload`].
pub ghost struct AuthenticatePayloadView {
    pub reason: Seq<char>,
    pub allow_device_credential: bool,
    pub cancel_title: Option<Seq<char>>,
    pub fallback_title: Option<Seq<char>>,
    pub title: Option<Seq<char>>,
    pub subtitle: Option<Seq<char>>,
    pub confirmation_required: Option<bool>,
}

impl AuthenticatePayloadView {
    /// The options part of the record.
    pub open spec fn options(self) -> AuthOptionsView {
        AuthOptionsView {
            allow_device_credential: self.allow_device_credential,
            cancel_title: self.cancel_title,
            fallback_title: self.fallback_title,
            title: self.title,
            subtitle: self.subtitle,
            confirmation_required: self.confirmation_required,
        }
    }
}

impl View for AuthenticatePayload {
    type V = AuthenticatePayloadView;

    open spec fn view(&self) -> AuthenticatePayloadView {
        AuthenticatePayloadView {
            reason: self.reason@,
            allow_device_credential: self.allow_device_credential,
            cancel_title: text(self.cancel_title),
            fallback_title: text(self.fallback_title),
            title: text(self.title),
            subtitle: text(self.subtitle),
            confirmation_required: self.confirmation_required,
        }
    }
}

impl AuthenticatePayload {
    /// The record that carries `reason` and every field of `options`.
    pub open spec fn flatten(reason: Seq<char>, options: AuthOptionsView) -> AuthenticatePayloadView {
        AuthenticatePayloadView {
            reason,
            allow_device_credential: options.allow_device_credential,
            cancel_title: options.cancel_title,
            fallback_title: options.fallback_title,
            title: options.title,
            subtitle: options.subtitle,
            confirmation_required: options.confirmation_required,
        }
    }

    /// Builds the request record for one call.
    pub fn new(reason: String, options: AuthOptions) -> (r: AuthenticatePayload)
        ensures
            r@ == AuthenticatePayload::flatten(reason@, options@),
    {
        AuthenticatePayload {
            reason,
            allow_device_credential: options.allow_device_credential,
            cancel_title: options.cancel_title,
            fallback_title: options.fallback_title,
            title: options.title,
            subtitle: options.subtitle,
            confirmation_required: options.confirmation_required,
        }
    }

    /// Takes the record apart again, as the receiving side does.
    pub fn into_parts(self) -> (r: (String, AuthOptions))
        ensures
            r.0@ == self@.reason,
            r.1@ == self@.options(),
    {
        let options = AuthOptions {
            allow_device_credential: self.allow_device_credential,
            cancel_title: self.cancel_title,
            fallback_title: self.fallback_title,
            title: self.title,
            subtitle: self.subtitle,
            confirmation_required: self.confirmation_required,
        };
        (self.reason, options)
    }

    /// Flattening a reason and options into a record and taking the record
    /// apart gives back the same reason and the same options, field by field.
    pub proof fn lemma_flatten_round_trip(reason: Seq<char>, options: AuthOptionsView)
        ensures
            AuthenticatePayload::flatten(reason, options).reason == reason,
            AuthenticatePayload::flatten(reason, options).options() == options,
    {
    }

    /// Two records built from different reasons or different options differ.
    pub proof fn lemma_flatten_injective(
        reason_a: Seq<char>,
        options_a: AuthOptionsView,
        reason_b: Seq<char>,
        options_b: AuthOptionsView,
    )
        requires
            AuthenticatePayload::flatten(reason_a, options_a) == AuthenticatePayload::flatten(
                reason_b,
                options_b,
            ),
        ensures
            reason_a == reason_b,
            options_a == options_b,
    {
    }
}

} // verus!
