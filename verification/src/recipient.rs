//! Recipients of the bot's messages.

use vstd::prelude::*;

verus! {

/// A registered recipient: the transport's identity for a chat and the name
/// the bot addresses it by.
#[derive(Debug)]
pub struct User {
    pub id: String,
    pub username: String,
}

/// Mathematical model of a [`User`].
pub struct UserView {
    pub id: Seq<char>,
    pub username: Seq<char>,
}

impl View for User {
    type V = UserView;

    open spec fn view(&self) -> UserView {
        UserView { id: self.id@, username: self.username@ }
    }
}

impl Clone for User {
    fn clone(&self) -> (copy: User)
        ensures
            copy == *self,
    {
        User { id: self.id.clone(), username: self.username.clone() }
    }
}

impl User {
    /// Builds a recipient from borrowed text.
    pub fn new(id: &str, username: &str) -> (user: User)
        ensures
            user@.id == id@,
            user@.username == username@,
    {
        User { id: id.to_owned(), username: username.to_owned() }
    }

    /// Whether this recipient carries the identity `id`.
    pub fn has_id(&self, id: &String) -> (same: bool)
        ensures
            same == (self@.id == id@),
    {
        self.id == *id
    }
}

/// A message on its way to one recipient.
#[derive(Debug)]
pub struct Outbound {
    pub to: User,
    pub text: String,
}

impl Clone for Outbound {
    fn clone(&self) -> (copy: Outbound)
        ensures
            copy == *self,
    {
        Outbound { to: self.to.clone(), text: self.text.clone() }
    }
}

/// Mathematical model of an [`Outbound`].
pub struct OutboundView {
    pub to: UserView,
    pub text: Seq<char>,
}

impl View for Outbound {
    type V = OutboundView;

    open spec fn view(&self) -> OutboundView {
        OutboundView { to: self.to@, text: self.text@ }
    }
}

} // verus!
