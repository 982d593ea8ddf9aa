//! The facade and its setup.

use vstd::prelude::*;
use crate::error::{Error, NativeError};
use crate::models::{AuthOptions, AuthenticatePayload, Status};
use crate::request::{
    auth_of_outcome, auth_result_view, finish_authenticate, finish_status, outcome_view,
    status_of_outcome, status_result_view, Request, RequestView, Response,
};

verus! {

/// The name under which the plugin is known to the host.
pub const PLUGIN_NAME: &'static str = "biometric";

/// The kind of platform the application runs on.
#[derive(Clone, Copy, Debug, PartialEq, Eq, Structural)]
pub enum Platform {
    Android,
    Ios,
    Desktop,
}

impl Platform {
    /// Whether the platform has a native biometric plugin to register.
    pub open spec fn mobile(self) -> bool {
        self != Platform::Desktop
    }

    /// Whether the platform has a native biometric plugin to register.
    pub fn is_mobile(self) -> (r: bool)
        ensures
            r == self.mobile(),
    {
        match self {
            Platform::Android => true,
            Platform::Ios => true,
            Platform::Desktop => false,
        }
    }

    /// The identifier of the native plugin's package, where the platform
    /// registers plugins by package and class.
    pub open spec fn identifier(self) -> Option<Seq<char>> {
        match self {
            Platform::Android => Some("app.tauri.biometric"@),
            _ => None,
        }
    }

    /// The identifier of the native plugin's package, where the platform
    /// registers plugins by package and class.
    pub fn plugin_identifier(self) -> (r: Option<&'static str>)
        ensures
            match r {
                Some(s) => self.identifier() == Some(s@),
                None => self.identifier() is None,
            },
    {
        match self {
            Platform::Android => Some("app.tauri.biometric"),
            _ => None,
        }
    }

    /// The class of the native plugin, where the platform registers plugins
    /// by package and class.
    pub open spec fn class(self) -> Option<Seq<char>> {
        match self {
            Platform::Android => Some("BiometricPlugin"@),
            _ => None,
        }
    }

    /// The class of the native plugin, where the platform registers plugins
    /// by package and class.
    pub fn plugin_class(self) -> (r: Option<&'static str>)
        ensures
            match r {
                Some(s) => self.class() == Some(s@),
                None => self.class() is None,
            },
    {
        match self {
            Platform::Android => Some("BiometricPlugin"),
            _ => None,
        }
    }
}

/// Access to the biometric operations. Holds the handle of the registered
/// native plugin, or nothing where the platform has none. The handle is set
/// once, at construction, and never handed out.
pub struct Biometric<H> {
    handle: Option<H>,
}

impl<H> Biometric<H> {
    /// The handle the facade was made with.
    pub closed spec fn capability(&self) -> Option<H> {
        self.handle
    }

    /// Makes a facade from the handle that registration gave, or from none.
    pub fn new(handle: Option<H>) -> (r: Biometric<H>)
        ensures
            r.capability() == handle,
    {
        Biometric { handle }
    }

    /// Whether the facade holds a handle.
    pub fn has_capability(&self) -> (r: bool)
        ensures
            r == self.capability() is Some,
    {
        self.handle.is_some()
    }

    /// Reports whether biometric authentication can be used.
    ///
    /// Without a handle the answer is the fixed unavailable status, and
    /// `invoke` is not called: nothing is required of it. With a handle,
    /// `invoke` is called once, with the handle and the status request, and
    /// the result is what [`finish_status`] makes of its outcome.
    pub fn status<F>(&self, invoke: F) -> (r: Result<Status, Error>) where
        F: FnOnce(&H, Request) -> Result<Response, NativeError>,

        requires
            self.capability() matches Some(h) ==> call_requires(invoke, (&h, Request::Status)),
        ensures
            self.capability() is None ==> status_result_view(r) == Ok::<_, crate::error::ErrorView>(
                Status::no_capability(),
            ),
            self.capability() matches Some(h) ==> exists|out: Result<Response, NativeError>|
                #[trigger] call_ensures(invoke, (&h, Request::Status), out) && status_result_view(r)
                    == status_of_outcome(outcome_view(out)),
    {
        match &self.handle {
            None => Ok(Status::unavailable()),
            Some(h) => {
                let out = invoke(h, Request::Status);
                finish_status(out)
            },
        }
    }

    /// Asks the user to authenticate, for the given reason.
    ///
    /// Without a handle the call succeeds whatever the reason and the
    /// options are, and `invoke` is not called: nothing is required of it.
    /// With a handle, `invoke` is called once, with the handle and a request
    /// whose payload carries the reason and every option; the result is what
    /// [`finish_authenticate`] makes of its outcome.
    pub fn authenticate<F>(&self, reason: String, options: AuthOptions, invoke: F) -> (r: Result<
        (),
        Error,
    >) where F: FnOnce(&H, Request) -> Result<Response, NativeError>
        requires
            self.capability() matches Some(h) ==> forall|req: Request|
                req@ == RequestView::Authenticate(AuthenticatePayload::flatten(reason@, options@))
                    ==> #[trigger] call_requires(invoke, (&h, req)),
        ensures
            self.capability() is None ==> r is Ok,
            self.capability() matches Some(h) ==> exists|
                req: Request,
                out: Result<Response, NativeError>,
            |
                req@ == RequestView::Authenticate(AuthenticatePayload::flatten(reason@, options@))
                    && #[trigger] call_ensures(invoke, (&h, req), out) && auth_result_view(r)
                    == auth_of_outcome(outcome_view(out)),
    {
        match &self.handle {
            None => Ok(()),
            Some(h) => {
                let req = Request::Authenticate(AuthenticatePayload::new(reason, options));
                let ghost sent = req;
                let out = invoke(h, req);
                assert(call_ensures(invoke, (h, sent), out));
                finish_authenticate(out)
            },
        }
    }
}

/// Sets the facade up for a platform.
///
/// On a desktop platform no registration is made (nothing is required of
/// `register`) and the facade holds no handle. On a mobile platform
/// `register` is called once, with the platform; the facade holds the handle
/// it gave, and its failure is returned as it came.
pub fn init<H, E, F>(platform: Platform, register: F) -> (r: Result<Biometric<H>, E>) where
    F: FnOnce(Platform) -> Result<H, E>,

    requires
        platform.mobile() ==> call_requires(register, (platform,)),
    ensures
        !platform.mobile() ==> (r matches Ok(b) && b.capability() is None),
        platform.mobile() ==> exists|out: Result<H, E>| #[trigger]
            call_ensures(register, (platform,), out) && match out {
                Ok(h) => (r matches Ok(b) && b.capability() == Some(h)),
                Err(e) => (r matches Err(f) && f == e),
            },
{
    if platform.is_mobile() {
        match register(platform) {
            Ok(h) => Ok(Biometric::new(Some(h))),
            Err(e) => Err(e),
        }
    } else {
        Ok(Biometric::new(None))
    }
}

} // verus!
