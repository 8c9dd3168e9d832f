//! The rows of the bot's database.
use vstd::prelude::*;

verus! {

/// A guild's settings.
pub struct Guild {
    pub id: i64,
    pub prefix: Option<String>,
}

/// A Discord user and the Minecraft account linked to it.
pub struct User {
    pub id: i64,
    pub ign: Option<String>,
    pub uuid: Option<String>,
}

/// The mathematical content of a [`User`].
pub struct UserView {
    pub id: i64,
    pub ign: Option<Seq<char>>,
    pub uuid: Option<Seq<char>>,
}

impl View for User {
    type V = UserView;

    open spec fn view(&self) -> UserView {
        UserView { id: self.id, ign: self.ign.deep_view(), uuid: self.uuid.deep_view() }
    }
}

/// A link to store: a Discord user, the account's name and its UUID.
pub struct NewUser<'a> {
    pub id: i64,
    pub ign: &'a str,
    pub uuid: &'a str,
}

} // verus!
