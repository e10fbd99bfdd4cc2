//! The user store: usernames and the passwords they registered with.

use crate::error::{ApiError, ApiErrorView};
use vstd::hash_map::StringHashMap;
use vstd::prelude::*;

verus! {

/// The mathematical value of a [`UserStore`]: the password of each
/// registered username.
pub struct UsersView {
    pub passwords: Map<Seq<char>, Seq<char>>,
}

impl UsersView {
    /// The store in which nobody is registered.
    pub open spec fn empty() -> UsersView {
        UsersView { passwords: Map::empty() }
    }

    /// Whether `username` is registered.
    pub open spec fn knows(self, username: Seq<char>) -> bool {
        self.passwords.contains_key(username)
    }

    /// What an attempt to register `username` returns: `AlreadyExists`
    /// where the name is taken, success otherwise.
    pub open spec fn registration(self, username: Seq<char>) -> Result<(), ApiErrorView> {
        if self.knows(username) {
            Err(ApiErrorView::AlreadyExists)
        } else {
            Ok(())
        }
    }

    /// The store after an attempt to register `username` with `password`:
    /// the pair is added where the name was free, nothing changes where it
    /// was taken.
    pub open spec fn registered(self, username: Seq<char>, password: Seq<char>) -> UsersView {
        if self.knows(username) {
            self
        } else {
            UsersView { passwords: self.passwords.insert(username, password) }
        }
    }

    /// Whether `username` is registered with exactly `password`.
    pub open spec fn accepts(self, username: Seq<char>, password: Seq<char>) -> bool {
        self.knows(username) && self.passwords[username] == password
    }
}

/// The users of one backend, in memory. Passwords are kept as they were
/// given.
pub struct UserStore {
    users: StringHashMap<String>,
}

impl View for UserStore {
    type V = UsersView;

    closed spec fn view(&self) -> UsersView {
        UsersView { passwords: self.users@.map_values(|password: String| password@) }
    }
}

impl UserStore {
    /// A store in which nobody is registered.
    pub fn new() -> (store: Self)
        ensures
            store@ == UsersView::empty(),
    {
        let store = UserStore { users: StringHashMap::new() };
        assert(store@.passwords =~= Map::empty());
        store
    }

    /// Registers a user. Fails with `AlreadyExists` where the username is
    /// taken, and then changes nothing.
    pub fn register(&mut self, username: String, password: String) -> (outcome: Result<
        (),
        ApiError,
    >)
        ensures
            match outcome {
                Ok(()) => old(self)@.registration(username@) is Ok,
                Err(error) => old(self)@.registration(username@) == Err::<(), ApiErrorView>(
                    error@,
                ),
            },
            final(self)@ == old(self)@.registered(username@, password@),
    {
        if self.users.contains_key(username.as_str()) {
            return Err(ApiError::AlreadyExists);
        }
        self.users.insert(username, password);
        assert(self@.passwords =~= old(self)@.registered(username@, password@).passwords);
        Ok(())
    }

    /// Whether the credentials are those of a registered user: the username
    /// is known and the password is the one it was registered with. An
    /// unknown username is simply refused.
    pub fn login(&self, username: String, password: String) -> (accepted: bool)
        ensures
            accepted == self@.accepts(username@, password@),
    {
        match self.users.get(username.as_str()) {
            Some(stored) => *stored == password,
            None => false,
        }
    }
}

/// Registering a username a second time fails with `AlreadyExists` and
/// changes nothing; where the first registration went through, the stored
/// password is still that of the first.
pub proof fn law_second_registration_fails(
    users: UsersView,
    username: Seq<char>,
    first: Seq<char>,
    second: Seq<char>,
)
    ensures
        users.registered(username, first).registration(username) == Err::<(), ApiErrorView>(
            ApiErrorView::AlreadyExists,
        ),
        users.registered(username, first).registered(username, second) == users.registered(
            username,
            first,
        ),
        users.registration(username) is Ok ==> users.registered(username, first).registered(
            username,
            second,
        ).passwords[username] == first,
{
}

/// After a registration that went through, login with that username
/// succeeds with the registered password and with no other.
pub proof fn law_login_matches_registration(
    users: UsersView,
    username: Seq<char>,
    password: Seq<char>,
    attempt: Seq<char>,
)
    requires
        users.registration(username) is Ok,
    ensures
        users.registered(username, password).accepts(username, attempt) == (attempt == password),
{
}

/// Login for a username that was never registered fails, whatever the
/// password; registering somebody else does not change that.
pub proof fn law_unknown_user_is_refused(
    users: UsersView,
    username: Seq<char>,
    attempt: Seq<char>,
    other: Seq<char>,
    password: Seq<char>,
)
    requires
        !users.knows(username),
        other != username,
    ensures
        !users.accepts(username, attempt),
        !UsersView::empty().accepts(username, attempt),
        !users.registered(other, password).accepts(username, attempt),
{
}

} // verus!
