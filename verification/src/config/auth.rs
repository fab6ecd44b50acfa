//! The identities that test cases may borrow, and the checks an entry of the
//! roster has to pass before it is accepted.

use crate::names::{decimal, to_decimal};
use vstd::prelude::*;
use vstd::string::*;

verus! {

/// Why a roster entry was turned down.
#[derive(Debug, PartialEq, Eq)]
pub enum AuthEntrySerdeError {
    /// No user of this name exists.
    UserNotFound(String),
    /// No group of this name exists.
    GroupNotFound(String),
    /// The user's primary group is not the group named beside it.
    UserNotInGroup(String, String),
}

/// `AuthEntrySerdeError` with its names as character sequences.
pub enum AuthEntryError {
    UserNotFound(Seq<char>),
    GroupNotFound(Seq<char>),
    UserNotInGroup(Seq<char>, Seq<char>),
}

impl View for AuthEntrySerdeError {
    type V = AuthEntryError;

    open spec fn view(&self) -> AuthEntryError {
        match self {
            AuthEntrySerdeError::UserNotFound(user) => AuthEntryError::UserNotFound(user@),
            AuthEntrySerdeError::GroupNotFound(group) => AuthEntryError::GroupNotFound(group@),
            AuthEntrySerdeError::UserNotInGroup(user, group) => AuthEntryError::UserNotInGroup(
                user@,
                group@,
            ),
        }
    }
}

impl AuthEntryError {
    /// The sentence shown to the person who wrote the configuration.
    pub open spec fn message(self) -> Seq<char> {
        match self {
            AuthEntryError::UserNotFound(user) => "No user found for '"@ + user + "'"@,
            AuthEntryError::GroupNotFound(group) => "No group found for '"@ + group + "'"@,
            AuthEntryError::UserNotInGroup(user, group) => "User '"@ + user
                + "' is not part of group '"@ + group + "'"@,
        }
    }
}

impl AuthEntrySerdeError {
    /// The sentence shown to the person who wrote the configuration.
    pub fn message(&self) -> (text: String)
        ensures
            text@ == self@.message(),
    {
        match self {
            AuthEntrySerdeError::UserNotFound(user) => {
                let mut text: String = "No user found for '".to_owned();
                text.append(user.as_str());
                text.append("'");
                text
            },
            AuthEntrySerdeError::GroupNotFound(group) => {
                let mut text: String = "No group found for '".to_owned();
                text.append(group.as_str());
                text.append("'");
                text
            },
            AuthEntrySerdeError::UserNotInGroup(user, group) => {
                let mut text: String = "User '".to_owned();
                text.append(user.as_str());
                text.append("' is not part of group '");
                text.append(group.as_str());
                text.append("'");
                text
            },
        }
    }
}

/// A user account, as the system's user database describes it.
#[derive(Debug, PartialEq, Eq)]
pub struct User {
    /// Login name.
    pub name: String,
    /// User id.
    pub uid: u32,
    /// Id of the user's primary group.
    pub gid: u32,
}

/// `User` with its name as a character sequence.
pub struct UserView {
    pub name: Seq<char>,
    pub uid: u32,
    pub gid: u32,
}

impl View for User {
    type V = UserView;

    open spec fn view(&self) -> UserView {
        UserView { name: self.name@, uid: self.uid, gid: self.gid }
    }
}

impl Clone for User {
    fn clone(&self) -> (copy: Self)
        ensures
            copy@ == self@,
    {
        User { name: self.name.clone(), uid: self.uid, gid: self.gid }
    }
}

/// A group, as the system's group database describes it.
#[derive(Debug, PartialEq, Eq)]
pub struct Group {
    /// Group name.
    pub name: String,
    /// Group id.
    pub gid: u32,
}

/// `Group` with its name as a character sequence.
pub struct GroupView {
    pub name: Seq<char>,
    pub gid: u32,
}

impl View for Group {
    type V = GroupView;

    open spec fn view(&self) -> GroupView {
        GroupView { name: self.name@, gid: self.gid }
    }
}

impl Clone for Group {
    fn clone(&self) -> (copy: Self)
        ensures
            copy@ == self@,
    {
        Group { name: self.name.clone(), gid: self.gid }
    }
}

/// A user together with the group it is to act in. The user's primary group
/// is that group.
#[derive(Debug, PartialEq, Eq)]
pub struct DummyAuthEntry {
    pub user: User,
    pub group: Group,
}

/// `DummyAuthEntry` with its names as character sequences.
pub struct AuthEntryView {
    pub user: UserView,
    pub group: GroupView,
}

impl AuthEntryView {
    /// The user's primary group is the entry's group.
    pub open spec fn wf(self) -> bool {
        self.user.gid == self.group.gid
    }
}

impl View for DummyAuthEntry {
    type V = AuthEntryView;

    open spec fn view(&self) -> AuthEntryView {
        AuthEntryView { user: self.user@, group: self.group@ }
    }
}

impl Clone for DummyAuthEntry {
    fn clone(&self) -> (copy: Self)
        ensures
            copy@ == self@,
    {
        DummyAuthEntry { user: self.user.clone(), group: self.group.clone() }
    }
}

/// What `DummyAuthEntry::resolve` returns: the first check that fails names
/// the error, and an entry comes out only when all three pass.
pub open spec fn spec_resolve(
    user_name: Seq<char>,
    user: Option<UserView>,
    group_name: Seq<char>,
    group: Option<GroupView>,
) -> Result<AuthEntryView, AuthEntryError> {
    match (user, group) {
        (None, _) => Err(AuthEntryError::UserNotFound(user_name)),
        (Some(_), None) => Err(AuthEntryError::GroupNotFound(group_name)),
        (Some(u), Some(g)) => if u.gid != g.gid {
            Err(AuthEntryError::UserNotInGroup(u.name, g.name))
        } else {
            Ok(AuthEntryView { user: u, group: g })
        },
    }
}

/// `Result` of an entry or an error, with names as character sequences.
pub open spec fn result_view(r: Result<DummyAuthEntry, AuthEntrySerdeError>) -> Result<
    AuthEntryView,
    AuthEntryError,
> {
    match r {
        Ok(entry) => Ok(entry@),
        Err(error) => Err(error@),
    }
}

/// An optional user, with its name as a character sequence.
pub open spec fn user_view(user: Option<User>) -> Option<UserView> {
    match user {
        Some(u) => Some(u@),
        None => None,
    }
}

/// An optional group, with its name as a character sequence.
pub open spec fn group_view(group: Option<Group>) -> Option<GroupView> {
    match group {
        Some(g) => Some(g@),
        None => None,
    }
}

impl DummyAuthEntry {
    /// Checks one roster entry against what the user and group databases
    /// answered for its two names.
    ///
    /// `user` is the account found under `user_name`, `group` the group found
    /// under `group_name`; `None` stands for a name that the database does not
    /// know or could not be asked about. The user is checked before the
    /// group, and the group before the membership.
    pub fn resolve(user_name: &str, user: Option<User>, group_name: &str, group: Option<Group>) -> (r:
        Result<DummyAuthEntry, AuthEntrySerdeError>)
        ensures
            result_view(r) == spec_resolve(user_name@, user_view(user), group_name@, group_view(group)),
            r matches Ok(entry) ==> entry@.wf(),
    {
        let user: User = match user {
            Some(user) => user,
            None => {
                return Err(AuthEntrySerdeError::UserNotFound(user_name.to_owned()));
            },
        };
        let group: Group = match group {
            Some(group) => group,
            None => {
                return Err(AuthEntrySerdeError::GroupNotFound(group_name.to_owned()));
            },
        };
        if user.gid != group.gid {
            return Err(AuthEntrySerdeError::UserNotInGroup(user.name, group.name));
        }
        Ok(DummyAuthEntry { user, group })
    }
}

/// One roster entry as the configuration names it, with what the user and
/// group databases answered for the two names.
#[derive(Debug, PartialEq, Eq)]
pub struct AuthLookup {
    /// The user's name, as written in the configuration.
    pub user_name: String,
    /// The account found under that name, if any.
    pub user: Option<User>,
    /// The group's name, as written in the configuration.
    pub group_name: String,
    /// The group found under that name, if any.
    pub group: Option<Group>,
}

impl AuthLookup {
    /// What `DummyAuthEntry::resolve` makes of this lookup.
    pub open spec fn resolved(self) -> Result<AuthEntryView, AuthEntryError> {
        spec_resolve(self.user_name@, user_view(self.user), self.group_name@, group_view(self.group))
    }
}

/// Why a roster was turned down.
#[derive(Debug, PartialEq, Eq)]
pub enum AuthConfigError {
    /// The roster does not have exactly `ROSTER_LEN` entries; it has this many.
    WrongLength(usize),
    /// The entry at this position was turned down, for this reason.
    Entry(usize, AuthEntrySerdeError),
}

/// `AuthConfigError` with its names as character sequences.
pub enum RosterError {
    WrongLength(usize),
    Entry(usize, AuthEntryError),
}

impl View for AuthConfigError {
    type V = RosterError;

    open spec fn view(&self) -> RosterError {
        match self {
            AuthConfigError::WrongLength(found) => RosterError::WrongLength(*found),
            AuthConfigError::Entry(at, error) => RosterError::Entry(*at, error@),
        }
    }
}

impl RosterError {
    /// The sentence shown to the person who wrote the configuration.
    pub open spec fn message(self) -> Seq<char> {
        match self {
            RosterError::WrongLength(found) => "expected 3 auth entries, found "@ + decimal(
                found as nat,
            ),
            RosterError::Entry(at, error) => "auth entry "@ + decimal(at as nat) + ": "@
                + error.message(),
        }
    }
}

impl AuthConfigError {
    /// The sentence shown to the person who wrote the configuration.
    pub fn message(&self) -> (text: String)
        ensures
            text@ == self@.message(),
    {
        match self {
            AuthConfigError::WrongLength(found) => {
                let mut text: String = "expected 3 auth entries, found ".to_owned();
                text.append(to_decimal(*found as u64).as_str());
                text
            },
            AuthConfigError::Entry(at, error) => {
                let mut text: String = "auth entry ".to_owned();
                text.append(to_decimal(*at as u64).as_str());
                text.append(": ");
                text.append(error.message().as_str());
                text
            },
        }
    }
}

/// Number of entries in a roster.
pub const ROSTER_LEN: usize = 3;

/// A user of the default roster, and where its group comes from.
#[derive(Clone, Copy, Debug, PartialEq, Eq)]
pub struct DefaultEntry {
    /// The user's name.
    pub user: &'static str,
    /// The group's name, or `None` for the user's primary group.
    pub group: Option<&'static str>,
}

/// The roster: the identities that test cases may borrow, each a user with
/// its primary group.
#[derive(Debug, PartialEq, Eq)]
pub struct DummyAuthConfig {
    pub entries: [DummyAuthEntry; 3],
}

impl DummyAuthConfig {
    /// Every entry's user has the entry's group as its primary group.
    pub open spec fn wf(self) -> bool {
        forall|i: int| 0 <= i < 3 ==> (#[trigger] self.entries[i])@.wf()
    }

    /// Builds the roster from the lookups of its entries, in order.
    ///
    /// A roster has exactly three entries. Each is checked as
    /// `DummyAuthEntry::resolve` checks it, and the first that fails is
    /// reported with its position.
    pub fn load(lookups: Vec<AuthLookup>) -> (r: Result<DummyAuthConfig, AuthConfigError>)
        ensures
            lookups@.len() != 3 ==> r == Err::<DummyAuthConfig, AuthConfigError>(
                AuthConfigError::WrongLength(lookups.len()),
            ),
            lookups@.len() == 3 ==> match r {
                Ok(config) => {
                    &&& config.wf()
                    &&& forall|i: int|
                        0 <= i < 3 ==> Ok::<AuthEntryView, AuthEntryError>(
                            (#[trigger] config.entries[i])@,
                        ) == lookups@[i].resolved()
                },
                Err(AuthConfigError::Entry(at, error)) => {
                    &&& 0 <= at < 3
                    &&& Err::<AuthEntryView, AuthEntryError>(error@) == lookups@[at as int].resolved()
                    &&& forall|i: int| 0 <= i < at ==> (#[trigger] lookups@[i]).resolved() is Ok
                },
                Err(AuthConfigError::WrongLength(_)) => false,
            },
    {
        let mut lookups = lookups;
        let ghost given = lookups@;
        if lookups.len() != ROSTER_LEN {
            return Err(AuthConfigError::WrongLength(lookups.len()));
        }
        let third: AuthLookup = lookups.pop().unwrap();
        let second: AuthLookup = lookups.pop().unwrap();
        let first: AuthLookup = lookups.pop().unwrap();
        assert(first == given[0] && second == given[1] && third == given[2]);
        let first: DummyAuthEntry = match DummyAuthEntry::resolve(
            first.user_name.as_str(),
            first.user,
            first.group_name.as_str(),
            first.group,
        ) {
            Ok(entry) => entry,
            Err(error) => {
                return Err(AuthConfigError::Entry(0, error));
            },
        };
        let second: DummyAuthEntry = match DummyAuthEntry::resolve(
            second.user_name.as_str(),
            second.user,
            second.group_name.as_str(),
            second.group,
        ) {
            Ok(entry) => entry,
            Err(error) => {
                return Err(AuthConfigError::Entry(1, error));
            },
        };
        let third: DummyAuthEntry = match DummyAuthEntry::resolve(
            third.user_name.as_str(),
            third.user,
            third.group_name.as_str(),
            third.group,
        ) {
            Ok(entry) => entry,
            Err(error) => {
                return Err(AuthConfigError::Entry(2, error));
            },
        };
        Ok(DummyAuthConfig { entries: [first, second, third] })
    }

    /// Whether no two entries name the same user. Only then is every
    /// identity that the pool hands out a different one.
    pub open spec fn spec_users_distinct(self) -> bool {
        forall|i: int, j: int|
            0 <= i < j < 3 ==> (#[trigger] self.entries[i]).user.uid != (
            #[trigger] self.entries[j]).user.uid
    }

    /// Whether no two entries name the same user.
    pub fn users_distinct(&self) -> (distinct: bool)
        ensures
            distinct == self.spec_users_distinct(),
    {
        let a: u32 = self.entries[0].user.uid;
        let b: u32 = self.entries[1].user.uid;
        let c: u32 = self.entries[2].user.uid;
        a != b && a != c && b != c
    }

    /// The users of the roster that is used when the configuration names
    /// none: `nobody` with its primary group, then `pjdfstest` and `tests`,
    /// each with the group of its own name.
    pub fn default_entries() -> (names: [DefaultEntry; 3])
        ensures
            names[0] == (DefaultEntry { user: "nobody", group: None }),
            names[1] == (DefaultEntry { user: "pjdfstest", group: Some("pjdfstest") }),
            names[2] == (DefaultEntry { user: "tests", group: Some("tests") }),
    {
        [
            DefaultEntry { user: "nobody", group: None },
            DefaultEntry { user: "pjdfstest", group: Some("pjdfstest") },
            DefaultEntry { user: "tests", group: Some("tests") },
        ]
    }
}

} // verus!
