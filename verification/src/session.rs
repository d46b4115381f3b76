//! Sessions and the application context that holds the current one.
use vstd::prelude::*;
use crate::error::LoadError;

verus! {

/// Settings of a deployment: where the search index lives and which
/// directory holds the stored files.
pub trait Configuration {
    fn id(&self) -> String;
    fn es_index_name(&self) -> String;
    fn es_url(&self) -> String;
    fn working_dir(&self) -> String;
}

/// Marker for the definitions of the data model (classifications).
pub trait Definition {}

/// A logged-in session of a user.
#[derive(Debug, Clone)]
pub struct Session {
    id: u128,
    user_id: u128,
    login: String,
}

/// What a session consists of: its id, its user's id and that user's login.
pub struct SessionView {
    pub id: u128,
    pub user_id: u128,
    pub login: Seq<char>,
}

impl View for Session {
    type V = SessionView;

    closed spec fn view(&self) -> SessionView {
        SessionView { id: self.id, user_id: self.user_id, login: self.login@ }
    }
}

impl Session {
    /// The session described by a row of the session table.
    pub fn from_row(id: u128, user_id: u128, login: String) -> (r: Session)
        ensures
            r@ == (SessionView { id, user_id, login: login@ }),
    {
        Session { id, user_id, login }
    }

    pub fn id(&self) -> (r: u128)
        ensures
            r == self@.id,
    {
        self.id
    }

    pub fn user_id(&self) -> (r: u128)
        ensures
            r == self@.user_id,
    {
        self.user_id
    }

    pub fn login(&self) -> (r: &str)
        ensures
            r@ == self@.login,
    {
        self.login.as_str()
    }

    /// An equal copy of the session.
    pub fn snapshot(&self) -> (r: Session)
        ensures
            r@ == self@,
    {
        Session { id: self.id, user_id: self.user_id, login: self.login.clone() }
    }
}

/// The application context: the session that operations run under.
#[derive(Debug, Clone)]
pub struct App {
    session: Option<Session>,
}

/// The session of an application context, by its view.
pub open spec fn session_view(s: Option<Session>) -> Option<SessionView> {
    match s {
        Some(x) => Some(x@),
        None => None,
    }
}

impl View for App {
    type V = Option<SessionView>;

    closed spec fn view(&self) -> Option<SessionView> {
        session_view(self.session)
    }
}

impl App {
    /// A context with nobody logged in.
    pub fn new() -> (r: App)
        ensures
            r@ is None,
    {
        App { session: None }
    }

    /// Takes the outcome of opening a session for a login: on success the
    /// session becomes current; an error is passed on and nothing changes.
    pub fn login(&mut self, opened: Result<Session, LoadError>) -> (r: Result<(), LoadError>)
        ensures
            match opened {
                Ok(s) => r is Ok && final(self)@ == Some(s@),
                Err(e) => r == Err::<(), LoadError>(e) && final(self)@ == old(self)@,
            },
    {
        match opened {
            Ok(s) => {
                self.session = Some(s);
                Ok(())
            },
            Err(e) => Err(e),
        }
    }

    /// Takes the outcome of looking up an existing session: as `login`.
    pub fn connect_to_session(&mut self, found: Result<Session, LoadError>) -> (r: Result<
        (),
        LoadError,
    >)
        ensures
            match found {
                Ok(s) => r is Ok && final(self)@ == Some(s@),
                Err(e) => r == Err::<(), LoadError>(e) && final(self)@ == old(self)@,
            },
    {
        self.login(found)
    }

    /// The id of the current session, if any.
    pub fn session_id(&self) -> (r: Option<u128>)
        ensures
            r == match self@ {
                Some(s) => Some(s.id),
                None => None::<u128>,
            },
    {
        match &self.session {
            Some(s) => Some(s.id()),
            None => None,
        }
    }

    /// Operations on the store need a session: without one they fail with
    /// `Unauthorized`.
    pub fn require_session(&self) -> (r: Result<(), LoadError>)
        ensures
            self@ is Some ==> r is Ok,
            self@ is None ==> r == Err::<(), LoadError>(LoadError::Unauthorized),
    {
        if self.session.is_none() {
            Err(LoadError::Unauthorized)
        } else {
            Ok(())
        }
    }

    /// The current session, if any.
    pub fn session(&self) -> (r: &Option<Session>)
        ensures
            session_view(*r) == self@,
    {
        &self.session
    }

    /// An equal copy of the context.
    pub fn snapshot(&self) -> (r: App)
        ensures
            r@ == self@,
    {
        match &self.session {
            Some(s) => App { session: Some(s.snapshot()) },
            None => App { session: None },
        }
    }

    /// Runs `func` under an administrator session and then puts the
    /// caller's session back. `admin` is the administrator session that
    /// could be opened, if any; without one nothing runs and the result is
    /// `ImpersonationFailed`.
    pub fn as_admin<F, T>(&mut self, admin: Option<Session>, func: F) -> (r: Result<T, LoadError>)
        where
            F: FnOnce(App) -> T,
        requires
            forall|a: App| call_requires(func, (a,)),
        ensures
            final(self)@ == old(self)@,
            admin is None <==> r is Err,
            r is Err ==> r == Err::<T, LoadError>(LoadError::ImpersonationFailed),
            r matches Ok(v) ==> exists|a: App| a@ == session_view(admin) && call_ensures(func, (a,), v),
    {
        let mut old_session = admin;
        std::mem::swap(&mut self.session, &mut old_session);
        let res = if self.session.is_some() {
            let a = self.snapshot();
            Ok(func(a))
        } else {
            Err(LoadError::ImpersonationFailed)
        };
        self.session = old_session;
        res
    }
}

} // verus!
