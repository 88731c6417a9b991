//! The slot that holds the last token of the bot-verification challenge.

use vstd::prelude::*;

verus! {

/// The last challenge token that the hosting page passed in, if it has not
/// been used or cleared since.
#[derive(Debug)]
pub struct CaptchaSlot {
    last_token: Option<String>,
}

impl View for CaptchaSlot {
    type V = Option<Seq<char>>;

    closed spec fn view(&self) -> Option<Seq<char>> {
        self.last_token.deep_view()
    }
}

impl CaptchaSlot {
    /// An empty slot.
    pub fn new() -> (slot: Self)
        ensures
            slot@ is None,
    {
        CaptchaSlot { last_token: None }
    }

    /// Puts a token in the slot, in place of what was there.
    pub fn pass_captcha_token(&mut self, token: String)
        ensures
            final(self)@ == Some(token@),
    {
        self.last_token = Some(token);
    }

    /// A copy of the token in the slot.
    pub fn get_captcha_token(&self) -> (token: Option<String>)
        ensures
            token.deep_view() == self@,
    {
        crate::text::copy_of_option(&self.last_token)
    }

    /// True when the slot holds a token.
    pub fn has_token(&self) -> (held: bool)
        ensures
            held == (self@ is Some),
    {
        self.last_token.is_some()
    }

    /// Empties the slot.
    pub fn clear_captcha_token(&mut self)
        ensures
            final(self)@ is None,
    {
        self.last_token = None;
    }

    /// Takes the token out of the slot.
    pub fn take_captcha_token(&mut self) -> (token: Option<String>)
        ensures
            token.deep_view() == old(self)@,
            final(self)@ is None,
    {
        self.last_token.take()
    }
}

} // verus!
