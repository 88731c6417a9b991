//! The sign-in form: its fields, its three views, and what each button
//! decides.

use crate::erust::uiux::hcaptcha::CaptchaSlot;
use crate::erust::uiux::javascript_interop::{carries, send_action_message, ActionMessage};
use vstd::prelude::*;

verus! {

/// The three views of the form.
#[derive(Debug, Clone, Copy, PartialEq, Eq, Structural)]
pub enum AuthView {
    Login,
    Register,
    Help,
}

#[derive(Debug)]
pub struct AuthWidget {
    pub email: String,
    pub password: String,
    /// Only used by the registration view.
    pub confirm_password: String,
    pub captcha_token: Option<String>,
    pub error: Option<String>,
    pub view: AuthView,
    pub is_registered: bool,
}

/// Builds the request that registers a new user.
pub fn register_with_js(email: &str, password: &str, captcha_token: &str) -> (message:
    ActionMessage)
    ensures
        carries(message, "register"@, email@, password@, captcha_token@),
{
    send_action_message("register", email, password, captcha_token)
}

/// Builds the request that signs a user in.
pub fn login_with_js(email: &str, password: &str, captcha_token: &str) -> (message: ActionMessage)
    ensures
        carries(message, "login"@, email@, password@, captcha_token@),
{
    send_action_message("login", email, password, captcha_token)
}

impl AuthWidget {
    /// An empty form; it opens on the sign-in view for a registered user
    /// and on the registration view for a new one.
    pub fn new(is_registered: bool) -> (widget: Self)
        ensures
            widget.email@.len() == 0,
            widget.password@.len() == 0,
            widget.confirm_password@.len() == 0,
            widget.captcha_token is None,
            widget.error is None,
            widget.view == if is_registered {
                AuthView::Login
            } else {
                AuthView::Register
            },
            widget.is_registered == is_registered,
    {
        AuthWidget {
            email: String::new(),
            password: String::new(),
            confirm_password: String::new(),
            captcha_token: None,
            error: None,
            view: if is_registered {
                AuthView::Login
            } else {
                AuthView::Register
            },
            is_registered,
        }
    }

    /// True when the other fields of the form are those of `before`.
    pub open spec fn same_fields(&self, before: &Self) -> bool {
        &&& self.email == before.email
        &&& self.password == before.password
        &&& self.confirm_password == before.confirm_password
        &&& self.captcha_token == before.captcha_token
        &&& self.is_registered == before.is_registered
    }

    /// Shows another view and clears the message of the form.
    pub fn switch_to(&mut self, view: AuthView)
        ensures
            final(self).view == view,
            final(self).error is None,
            final(self).same_fields(old(self)),
    {
        self.view = view;
        self.error = None;
    }

    /// True when the sign-in view has what it needs to send a request.
    pub open spec fn login_ready(&self, captcha: Option<Seq<char>>) -> bool {
        self.email@.len() > 0 && self.password@.len() > 0 && captcha is Some
    }

    /// The sign-in button. With an address, a password and a challenge
    /// token, the token is used up and the sign-in request is built.
    /// Otherwise the form says what is missing and the token stays.
    pub fn submit_login(&mut self, captcha: &mut CaptchaSlot) -> (message: Option<ActionMessage>)
        ensures
            final(self).same_fields(old(self)),
            final(self).view == old(self).view,
            old(self).login_ready(old(captcha)@) ==> {
                &&& message is Some
                &&& carries(
                    message.unwrap(),
                    "login"@,
                    old(self).email@,
                    old(self).password@,
                    old(captcha)@.unwrap(),
                )
                &&& final(captcha)@ is None
                &&& final(self).error == old(self).error
            },
            !old(self).login_ready(old(captcha)@) ==> {
                &&& message is None
                &&& final(captcha)@ == old(captcha)@
                &&& final(self).error.deep_view() == Some(
                    "All fields and captcha are required"@,
                )
            },
    {
        if self.email.as_str().is_empty() || self.password.as_str().is_empty()
            || !captcha.has_token() {
            self.error = Some(String::from_str("All fields and captcha are required"));
            return None;
        }
        match captcha.take_captcha_token() {
            Some(token) => Some(
                login_with_js(self.email.as_str(), self.password.as_str(), token.as_str()),
            ),
            None => None,
        }
    }

    /// True when the registration view has every field and a token.
    pub open spec fn register_complete(&self, captcha: Option<Seq<char>>) -> bool {
        &&& self.email@.len() > 0
        &&& self.password@.len() > 0
        &&& self.confirm_password@.len() > 0
        &&& captcha is Some
    }

    /// The registration button. With every field filled, a challenge token
    /// and two equal passwords, the token is used up, the form says that it
    /// is processing, and the registration request is built. Otherwise the
    /// form says what is wrong and the token stays.
    pub fn submit_register(&mut self, captcha: &mut CaptchaSlot) -> (message: Option<
        ActionMessage,
    >)
        ensures
            final(self).same_fields(old(self)),
            final(self).view == old(self).view,
            !old(self).register_complete(old(captcha)@) ==> {
                &&& message is None
                &&& final(captcha)@ == old(captcha)@
                &&& final(self).error.deep_view() == Some(
                    "All fields and captcha are required"@,
                )
            },
            old(self).register_complete(old(captcha)@) && old(self).password@ != old(self).confirm_password@ ==> {
                &&& message is None
                &&& final(captcha)@ == old(captcha)@
                &&& final(self).error.deep_view() == Some("Passwords do not match"@)
            },
            old(self).register_complete(old(captcha)@) && old(self).password@ == old(self).confirm_password@ ==> {
                &&& message is Some
                &&& carries(
                    message.unwrap(),
                    "register"@,
                    old(self).email@,
                    old(self).password@,
                    old(captcha)@.unwrap(),
                )
                &&& final(captcha)@ is None
                &&& final(self).error.deep_view() == Some("Processing registration..."@)
            },
    {
        if self.email.as_str().is_empty() || self.password.as_str().is_empty()
            || self.confirm_password.as_str().is_empty() || !captcha.has_token() {
            self.error = Some(String::from_str("All fields and captcha are required"));
            return None;
        }
        if self.password != self.confirm_password {
            self.error = Some(String::from_str("Passwords do not match"));
            return None;
        }
        match captcha.take_captcha_token() {
            Some(token) => {
                self.error = Some(String::from_str("Processing registration..."));
                Some(register_with_js(self.email.as_str(), self.password.as_str(), token.as_str()))
            },
            None => None,
        }
    }

    /// True while the form says that a registration is being processed.
    pub fn is_processing(&self) -> (processing: bool)
        ensures
            processing == (self.error.deep_view() == Some("Processing registration..."@)),
    {
        match &self.error {
            Some(text) => *text == String::from_str("Processing registration..."),
            None => false,
        }
    }

    /// The button that asks for a reset link: the form says whether the
    /// address is missing.
    pub fn request_reset(&mut self)
        ensures
            final(self).same_fields(old(self)),
            final(self).view == old(self).view,
            final(self).error.deep_view() == Some(
                if old(self).email@.len() == 0 {
                    "Email is required"@
                } else {
                    "(Stub) Would call Supabase password reset here"@
                },
            ),
    {
        if self.email.as_str().is_empty() {
            self.error = Some(String::from_str("Email is required"));
        } else {
            self.error = Some(String::from_str("(Stub) Would call Supabase password reset here"));
        }
    }
}

} // verus!
