//! Users and the changes that saving one writes.
use vstd::prelude::*;
use crate::crypto::{get_sha3, password_digest};
use crate::error::LoadError;
use crate::ids::{new_id, uuid_version};
use crate::session::App;

verus! {

/// The columns of a user row that an update sets; `None` leaves a column
/// as it is.
pub struct UserChangeset<'a> {
    pub login: Option<&'a str>,
    pub password: Option<&'a str>,
    pub email: Option<Option<&'a str>>,
}

impl<'a> UserChangeset<'a> {
    /// Whether the changeset sets any column.
    pub fn is_dirty(&self) -> (r: bool)
        ensures
            r == (self.login is Some || self.password is Some || self.email is Some),
    {
        self.login.is_some() || self.password.is_some() || self.email.is_some()
    }
}

/// A user account.
pub struct User {
    id: u128,
    login: String,
    password: String,
    email: Option<String>,
    is_new: bool,
    is_dirty: (bool, bool, bool),
}

pub struct UserView {
    pub id: u128,
    pub login: Seq<char>,
    pub password: Seq<char>,
    pub email: Option<Seq<char>>,
    pub is_new: bool,
    pub is_dirty: (bool, bool, bool),
}

pub open spec fn opt_view(s: Option<String>) -> Option<Seq<char>> {
    match s {
        Some(x) => Some(x@),
        None => None,
    }
}

impl View for User {
    type V = UserView;

    closed spec fn view(&self) -> UserView {
        UserView {
            id: self.id,
            login: self.login@,
            password: self.password@,
            email: opt_view(self.email),
            is_new: self.is_new,
            is_dirty: self.is_dirty,
        }
    }
}

/// Whether a user has a column with a pending change.
pub open spec fn user_dirty(u: UserView) -> bool {
    u.is_dirty.0 || u.is_dirty.1 || u.is_dirty.2
}

/// The row to insert for a new user; the password is stored as its digest.
pub struct NewUser {
    pub id: u128,
    pub login: String,
    pub password: String,
    pub email: Option<String>,
}

/// The columns that saving an existing user writes.
pub struct UserUpdate {
    pub id: u128,
    pub login: Option<String>,
    pub password: Option<String>,
    pub email: Option<Option<String>>,
}

/// What saving a user writes.
pub enum UserWrite {
    Insert(NewUser),
    Update(UserUpdate),
    Nothing,
}

impl UserUpdate {
    /// The changeset of the update, borrowing its values.
    pub fn changeset(&self) -> (r: UserChangeset<'_>)
        ensures
            r.login is Some == self.login is Some,
            r.login matches Some(l) ==> l@ == self.login->0@,
            r.password is Some == self.password is Some,
            r.password matches Some(p) ==> p@ == self.password->0@,
            r.email is Some == self.email is Some,
            r.email matches Some(e) ==> (e is Some == self.email->0 is Some),
            r.email matches Some(Some(e)) ==> e@ == self.email->0->0@,
    {
        UserChangeset {
            login: match &self.login {
                Some(l) => Some(l.as_str()),
                None => None,
            },
            password: match &self.password {
                Some(p) => Some(p.as_str()),
                None => None,
            },
            email: match &self.email {
                Some(Some(e)) => Some(Some(e.as_str())),
                Some(None) => Some(None),
                None => None,
            },
        }
    }
}

/// `w` is the update of `u`: exactly the columns with a pending change,
/// with the user's current values.
pub open spec fn update_of(u: UserView, w: UserUpdate) -> bool {
    &&& w.id == u.id
    &&& (w.login is Some <==> u.is_dirty.0)
    &&& (w.login matches Some(l) ==> l@ == u.login)
    &&& (w.password is Some <==> u.is_dirty.1)
    &&& (w.password matches Some(p) ==> p@ == u.password)
    &&& (w.email is Some <==> u.is_dirty.2)
    &&& (w.email matches Some(e) ==> opt_view(e) == u.email)
}

fn copy_opt(s: &Option<String>) -> (r: Option<String>)
    ensures
        opt_view(r) == opt_view(*s),
{
    match s {
        Some(x) => Some(x.clone()),
        None => None,
    }
}

impl User {
    /// A new account, not yet stored; it needs a session.
    pub fn new(app: &App, login: String, password: String, email: Option<String>) -> (r: Result<
        User,
        LoadError,
    >)
        ensures
            app@ is None ==> r == Err::<User, LoadError>(LoadError::Unauthorized),
            app@ is Some ==> (r matches Ok(u) && u@.login == login@ && u@.password == password@
                && u@.email == opt_view(email) && u@.is_new && u@.is_dirty == (false, false, false)
                && uuid_version(u@.id) == 4),
    {
        if app.session().is_none() {
            return Err(LoadError::Unauthorized);
        }
        Ok(User {
            id: new_id(),
            login,
            password,
            email,
            is_new: true,
            is_dirty: (false, false, false),
        })
    }

    /// A stored account as loaded from its row; nothing is pending.
    pub fn from_row(id: u128, login: String, password: String, email: Option<String>) -> (r: User)
        ensures
            r@ == (UserView {
                id,
                login: login@,
                password: password@,
                email: opt_view(email),
                is_new: false,
                is_dirty: (false, false, false),
            }),
    {
        User { id, login, password, email, is_new: false, is_dirty: (false, false, false) }
    }

    pub fn id(&self) -> (r: u128)
        ensures
            r == self@.id,
    {
        self.id
    }

    pub fn login(&self) -> (r: &str)
        ensures
            r@ == self@.login,
    {
        self.login.as_str()
    }

    fn is_dirty(&self) -> (r: bool)
        ensures
            r == user_dirty(self@),
    {
        self.is_dirty.0 || self.is_dirty.1 || self.is_dirty.2
    }

    /// Decides what saving writes: without a session nothing; a new user is
    /// inserted (and counts as stored afterwards); a stored user with
    /// pending changes is updated in those columns, which are then clean;
    /// otherwise nothing.
    pub fn save(&mut self, app: &App) -> (r: Result<UserWrite, LoadError>)
        ensures
            app@ is None ==> r == Err::<UserWrite, LoadError>(LoadError::Unauthorized)
                && final(self)@ == old(self)@,
            app@ is Some && old(self)@.is_new ==> (r matches Ok(UserWrite::Insert(row)) && insert_of(
                old(self)@,
                row,
            )) && final(self)@ == (UserView { is_new: false, ..old(self)@ }),
            app@ is Some && !old(self)@.is_new && user_dirty(old(self)@) ==> (r matches Ok(
                UserWrite::Update(w),
            ) && update_of(old(self)@, w)) && final(self)@ == (UserView {
                is_dirty: (false, false, false),
                ..old(self)@
            }),
            app@ is Some && !old(self)@.is_new && !user_dirty(old(self)@) ==> (r matches Ok(
                UserWrite::Nothing,
            )) && final(self)@ == old(self)@,
    {
        if app.session().is_none() {
            return Err(LoadError::Unauthorized);
        }
        if self.is_new {
            Ok(UserWrite::Insert(self.save_new()))
        } else if self.is_dirty() {
            Ok(UserWrite::Update(self.update()))
        } else {
            Ok(UserWrite::Nothing)
        }
    }

    fn update(&mut self) -> (r: UserUpdate)
        ensures
            update_of(old(self)@, r),
            final(self)@ == (UserView { is_dirty: (false, false, false), ..old(self)@ }),
    {
        let mut changes = UserUpdate { id: self.id, login: None, password: None, email: None };
        if self.is_dirty.0 {
            changes.login = Some(self.login.clone());
            self.is_dirty.0 = false;
        }
        if self.is_dirty.1 {
            changes.password = Some(self.password.clone());
            self.is_dirty.1 = false;
        }
        if self.is_dirty.2 {
            changes.email = Some(copy_opt(&self.email));
            self.is_dirty.2 = false;
        }
        changes
    }

    fn save_new(&mut self) -> (r: NewUser)
        ensures
            insert_of(old(self)@, r),
            final(self)@ == (UserView { is_new: false, ..old(self)@ }),
    {
        self.is_new = false;
        NewUser {
            id: self.id,
            login: self.login.clone(),
            password: get_sha3(self.password.as_str()),
            email: copy_opt(&self.email),
        }
    }

    /// Checks that someone is logged in and gives the id of the row to delete.
    pub fn delete(self, app: &App) -> (r: Result<u128, LoadError>)
        ensures
            app@ is None ==> r == Err::<u128, LoadError>(LoadError::Unauthorized),
            app@ is Some ==> r == Ok::<u128, LoadError>(self@.id),
    {
        if app.session().is_none() {
            return Err(LoadError::Unauthorized);
        }
        Ok(self.id)
    }
}

/// `row` is the insertion of `u`: its id, login and e-mail, and the digest
/// of its password.
pub open spec fn insert_of(u: UserView, row: NewUser) -> bool {
    &&& row.id == u.id
    &&& row.login@ == u.login
    &&& row.email matches Some(e) ==> u.email == Some(e@)
    &&& row.email is None ==> u.email is None
    &&& row.password@ == password_digest(u.password)
}

} // verus!

verus! {

/// The changeset that saving a stored user writes sets a column exactly
/// when the user had a pending change.
pub proof fn lemma_update_dirty(u: UserView, w: UserUpdate)
    requires
        update_of(u, w),
    ensures
        (w.login is Some || w.password is Some || w.email is Some) == user_dirty(u),
{
}

} // verus!
