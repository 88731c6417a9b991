//! The signed-in user.

use vstd::prelude::*;

verus! {

/// The user of the application; signed in once `is_authenticated` is set.
#[derive(Debug)]
pub struct User {
    pub id: Option<String>,
    pub email: Option<String>,
    pub username: Option<String>,
    pub is_authenticated: bool,
}

impl Default for User {
    fn default() -> (user: Self)
        ensures
            user.id is None,
            user.email is None,
            user.username is None,
            !user.is_authenticated,
    {
        User { id: None, email: None, username: None, is_authenticated: false }
    }
}

impl Clone for User {
    fn clone(&self) -> (user: Self)
        ensures
            user.id.deep_view() == self.id.deep_view(),
            user.email.deep_view() == self.email.deep_view(),
            user.username.deep_view() == self.username.deep_view(),
            user.is_authenticated == self.is_authenticated,
    {
        User {
            id: crate::text::copy_of_option(&self.id),
            email: crate::text::copy_of_option(&self.email),
            username: crate::text::copy_of_option(&self.username),
            is_authenticated: self.is_authenticated,
        }
    }
}

impl User {
    /// A user who is not signed in and of whom nothing is known.
    pub fn new() -> (user: Self)
        ensures
            user.id is None,
            user.email is None,
            user.username is None,
            !user.is_authenticated,
    {
        User { id: None, email: None, username: None, is_authenticated: false }
    }

    pub fn set_id(&mut self, id: String)
        ensures
            final(self).id == Some(id),
            final(self).email == old(self).email,
            final(self).username == old(self).username,
            final(self).is_authenticated == old(self).is_authenticated,
    {
        self.id = Some(id);
    }

    pub fn set_email(&mut self, email: String)
        ensures
            final(self).email == Some(email),
            final(self).id == old(self).id,
            final(self).username == old(self).username,
            final(self).is_authenticated == old(self).is_authenticated,
    {
        self.email = Some(email);
    }

    pub fn set_username(&mut self, username: String)
        ensures
            final(self).username == Some(username),
            final(self).id == old(self).id,
            final(self).email == old(self).email,
            final(self).is_authenticated == old(self).is_authenticated,
    {
        self.username = Some(username);
    }

    /// Marks the user as signed in.
    pub fn authenticate(&mut self)
        ensures
            final(self).is_authenticated,
            final(self).id == old(self).id,
            final(self).email == old(self).email,
            final(self).username == old(self).username,
    {
        self.is_authenticated = true;
    }

    /// Signs the user out and forgets who they were.
    pub fn logout(&mut self)
        ensures
            final(self).id is None,
            final(self).email is None,
            final(self).username is None,
            !final(self).is_authenticated,
    {
        self.id = None;
        self.email = None;
        self.username = None;
        self.is_authenticated = false;
    }

    pub fn is_logged_in(&self) -> (signed_in: bool)
        ensures
            signed_in == self.is_authenticated,
    {
        self.is_authenticated
    }
}

} // verus!
