use crate::model::UserAccount;
use crate::text::{trim, trim_spec};
use vstd::prelude::*;
use vstd::string::*;

verus! {

/// What bcrypt's `verify` says of `password` against the stored digest `hash`:
/// whether they match, or `None` where it reports an error.
pub uninterp spec fn bcrypt_verdict(password: Seq<char>, hash: Seq<char>) -> Option<bool>;

/// Relies on `bcrypt::verify`: it recomputes the digest of `password` with the
/// salt and cost written in `hash`, and errs on a malformed `hash`.
#[verifier::external_body]
fn check_password(password: &str, hash: &str) -> (r: Option<bool>)
    ensures
        r == bcrypt_verdict(password@, hash@),
{
    match bcrypt::verify(password, hash) {
        Ok(matches) => Some(matches),
        Err(_) => None,
    }
}

/// Relies on `bcrypt::hash` at `bcrypt::DEFAULT_COST`: a random salt each
/// time, and a digest that `bcrypt::verify` accepts for the same password
/// (it writes cost and salt into the digest, which `verify` reads back).
#[verifier::external_body]
fn hash_password(password: &str) -> (r: Option<String>)
    ensures
        r matches Some(h) ==> bcrypt_verdict(password@, h@) == Some(true),
{
    match bcrypt::hash(password, bcrypt::DEFAULT_COST) {
        Ok(h) => Some(h),
        Err(_) => None,
    }
}

/// Relies on `uuid::Uuid::new_v4` and its text form: a random id.
#[verifier::external_body]
fn fresh_id() -> (r: String) {
    uuid::Uuid::new_v4().to_string()
}

/// An account with the given fields.
pub fn new_account(username: String, uuid: String, pass_hash: String, server_role: String) -> (r:
    UserAccount)
    ensures
        r.username == username,
        r.uuid == uuid,
        r.pass_hash == pass_hash,
        r.server_role == server_role,
{
    UserAccount { username, uuid, pass_hash, server_role }
}

/// A new account for `username` with `role`, a fresh id, and the digest of
/// `password`; `None` where hashing fails.
pub fn create_account(username: String, password: &str, role: String) -> (r: Option<UserAccount>)
    ensures
        r matches Some(a) ==> {
            &&& a.username == username
            &&& a.server_role == role
            &&& bcrypt_verdict(password@, a.pass_hash@) == Some(true)
        },
{
    match hash_password(password) {
        Some(pass_hash) => Some(new_account(username, fresh_id(), pass_hash, role)),
        None => None,
    }
}

/// Why a connection failed to authenticate.
#[derive(Clone, Copy, Debug, PartialEq, Eq, Structural)]
pub enum AuthError {
    /// The user declined to register.
    Cancelled,
    /// The answer to the registration question was neither yes nor no.
    InvalidResponse,
    /// The password did not match.
    Failed,
    /// The stored digest could not be checked, or a new one not made.
    Credential,
}

/// Where a connection stands in logging in or registering.
pub enum AuthState {
    /// The username prompt has been sent.
    AwaitUsername,
    /// The user store is to be asked for this name.
    Lookup { username: String },
    /// The name is unknown; asked whether to register it.
    AwaitChoice { username: String },
    /// Registering; the new password prompt has been sent.
    AwaitNewPassword { username: String },
    /// The name is known; the password prompt has been sent.
    AwaitPassword { account: UserAccount },
    /// Logged in or registered as this account.
    Authenticated { account: UserAccount },
    /// Failed; the connection closes.
    Closed { error: AuthError },
}

/// The outcome of one step: the next state, the text to send (possibly
/// empty), and the account to insert into the user store, if one was created.
pub struct AuthStep {
    pub state: AuthState,
    pub reply: String,
    pub created: Option<UserAccount>,
}

pub open spec fn lookup_state(username: String, found: Option<UserAccount>) -> AuthState {
    match found {
        Some(account) => AuthState::AwaitPassword { account },
        None => AuthState::AwaitChoice { username },
    }
}

pub open spec fn lookup_reply(found: Option<UserAccount>) -> Seq<char> {
    match found {
        Some(_) => "Please enter password:\n"@,
        None => "Username not found. Would you like to register this username? (Y/N)\n"@,
    }
}

pub open spec fn choice_state(username: String, line: Seq<char>) -> AuthState {
    let answer = trim_spec(line);
    if answer == "Y"@ || answer == "y"@ {
        AuthState::AwaitNewPassword { username }
    } else if answer == "N"@ || answer == "n"@ {
        AuthState::Closed { error: AuthError::Cancelled }
    } else {
        AuthState::Closed { error: AuthError::InvalidResponse }
    }
}

pub open spec fn choice_reply(line: Seq<char>) -> Seq<char> {
    let answer = trim_spec(line);
    if answer == "Y"@ || answer == "y"@ {
        "Please enter new password:\n"@
    } else if answer == "N"@ || answer == "n"@ {
        "Authentication cancelled. Closing connection.."@
    } else {
        "Invalid response received"@
    }
}

pub open spec fn login_state(account: UserAccount, verdict: Option<bool>) -> AuthState {
    match verdict {
        Some(true) => AuthState::Authenticated { account },
        Some(false) => AuthState::Closed { error: AuthError::Failed },
        None => AuthState::Closed { error: AuthError::Credential },
    }
}

pub open spec fn login_reply(verdict: Option<bool>) -> Seq<char> {
    match verdict {
        Some(true) => "Authentication successful\n"@,
        Some(false) => "Invalid Password\n"@,
        None => Seq::empty(),
    }
}

impl AuthStep {
    /// The first step of a new connection: ask for the username.
    pub fn start() -> (r: AuthStep)
        ensures
            r.state is AwaitUsername,
            r.reply@ == "Please enter username:\n"@,
            r.created is None,
    {
        AuthStep {
            state: AuthState::AwaitUsername,
            reply: String::from_str("Please enter username:\n"),
            created: None,
        }
    }

    /// The username line was read: look the trimmed name up next.
    pub fn username_read(line: &str) -> (r: AuthStep)
        ensures
            r.state matches AuthState::Lookup { username } && username@ == trim_spec(line@),
            r.reply@.len() == 0,
            r.created is None,
    {
        AuthStep { state: AuthState::Lookup { username: trim(line) }, reply: String::new(), created: None }
    }

    /// The user store answered for `username`: log in if it holds the name, else
    /// offer to register it.
    pub fn lookup_done(username: String, found: Option<UserAccount>) -> (r: AuthStep)
        ensures
            r.state == lookup_state(username, found),
            r.reply@ == lookup_reply(found),
            r.created is None,
    {
        match found {
            Some(account) => AuthStep {
                state: AuthState::AwaitPassword { account },
                reply: String::from_str("Please enter password:\n"),
                created: None,
            },
            None => AuthStep {
                state: AuthState::AwaitChoice { username },
                reply: String::from_str(
                    "Username not found. Would you like to register this username? (Y/N)\n",
                ),
                created: None,
            },
        }
    }

    /// The answer to the registration question was read.
    pub fn choice_read(username: String, line: &str) -> (r: AuthStep)
        ensures
            r.state == choice_state(username, line@),
            r.reply@ == choice_reply(line@),
            r.created is None,
    {
        let answer = trim(line);
        if answer == String::from_str("Y") || answer == String::from_str("y") {
            AuthStep {
                state: AuthState::AwaitNewPassword { username },
                reply: String::from_str("Please enter new password:\n"),
                created: None,
            }
        } else if answer == String::from_str("N") || answer == String::from_str("n") {
            AuthStep {
                state: AuthState::Closed { error: AuthError::Cancelled },
                reply: String::from_str("Authentication cancelled. Closing connection.."),
                created: None,
            }
        } else {
            AuthStep {
                state: AuthState::Closed { error: AuthError::InvalidResponse },
                reply: String::from_str("Invalid response received"),
                created: None,
            }
        }
    }

    /// Registration made `created` (or failed to hash, `None`): on success the
    /// account is to be stored and the session is authenticated as it.
    pub fn registration_done(created: Option<UserAccount>) -> (r: AuthStep)
        ensures
            match created {
                Some(a) => {
                    &&& r.state == (AuthState::Authenticated { account: a })
                    &&& r.reply@ == "User account created successfully"@
                    &&& r.created == Some(a)
                },
                None => {
                    &&& r.state == (AuthState::Closed { error: AuthError::Credential })
                    &&& r.reply@.len() == 0
                    &&& r.created is None
                },
            },
    {
        match created {
            Some(a) => {
                let stored = a.duplicate();
                AuthStep {
                    state: AuthState::Authenticated { account: a },
                    reply: String::from_str("User account created successfully"),
                    created: Some(stored),
                }
            },
            None => AuthStep {
                state: AuthState::Closed { error: AuthError::Credential },
                reply: String::new(),
                created: None,
            },
        }
    }

    /// The new password line was read: hash it and create the account.
    pub fn new_password_read(username: String, line: &str) -> (r: AuthStep)
        ensures
            match r.created {
                Some(a) => {
                    &&& r.state == (AuthState::Authenticated { account: a })
                    &&& r.reply@ == "User account created successfully"@
                    &&& a.username == username
                    &&& a.server_role@ == "user"@
                    &&& bcrypt_verdict(trim_spec(line@), a.pass_hash@) == Some(true)
                },
                None => {
                    &&& r.state == (AuthState::Closed { error: AuthError::Credential })
                    &&& r.reply@.len() == 0
                },
            },
    {
        let password = trim(line);
        let created = create_account(username, password.as_str(), String::from_str("user"));
        AuthStep::registration_done(created)
    }

    /// The stored account's digest was checked against the password: `verdict`
    /// is what `bcrypt::verify` returned.
    pub fn login_decision(account: UserAccount, verdict: Option<bool>) -> (r: AuthStep)
        ensures
            r.state == login_state(account, verdict),
            r.reply@ == login_reply(verdict),
            r.created is None,
    {
        match verdict {
            Some(true) => AuthStep {
                state: AuthState::Authenticated { account },
                reply: String::from_str("Authentication successful\n"),
                created: None,
            },
            Some(false) => AuthStep {
                state: AuthState::Closed { error: AuthError::Failed },
                reply: String::from_str("Invalid Password\n"),
                created: None,
            },
            None => AuthStep {
                state: AuthState::Closed { error: AuthError::Credential },
                reply: String::new(),
                created: None,
            },
        }
    }

    /// The password line was read for a known account.
    pub fn password_read(account: UserAccount, line: &str) -> (r: AuthStep)
        ensures
            r.state == login_state(account, bcrypt_verdict(trim_spec(line@), account.pass_hash@)),
            r.reply@ == login_reply(bcrypt_verdict(trim_spec(line@), account.pass_hash@)),
            r.created is None,
    {
        let password = trim(line);
        let verdict = check_password(password.as_str(), account.pass_hash.as_str());
        AuthStep::login_decision(account, verdict)
    }
}

impl AuthState {
    /// Whether this state waits for a line from the connection.
    pub open spec fn awaits_line(&self) -> bool {
        self is AwaitUsername || self is AwaitChoice || self is AwaitNewPassword
            || self is AwaitPassword
    }

    /// Feeds one line read from the connection to a state that waits for one.
    pub fn advance(self, line: &str) -> (r: AuthStep)
        requires
            self.awaits_line(),
        ensures
            self is AwaitUsername ==> (r.state matches AuthState::Lookup { username }
                && username@ == trim_spec(line@)),
            self matches AuthState::AwaitChoice { username } ==> r.state == choice_state(
                username,
                line@,
            ) && r.reply@ == choice_reply(line@),
            self matches AuthState::AwaitNewPassword { username } ==> (r.created matches Some(a)
                ==> a.username == username && bcrypt_verdict(trim_spec(line@), a.pass_hash@)
                == Some(true)),
            self matches AuthState::AwaitPassword { account } ==> r.state == login_state(
                account,
                bcrypt_verdict(trim_spec(line@), account.pass_hash@),
            ) && r.reply@ == login_reply(bcrypt_verdict(trim_spec(line@), account.pass_hash@)),
    {
        match self {
            AuthState::AwaitUsername => AuthStep::username_read(line),
            AuthState::AwaitChoice { username } => AuthStep::choice_read(username, line),
            AuthState::AwaitNewPassword { username } => AuthStep::new_password_read(username, line),
            AuthState::AwaitPassword { account } => AuthStep::password_read(account, line),
            _ => AuthStep::start(),
        }
    }
}

/// A name the user store does not hold leads to registration; an account
/// registered with a password then logs in with that password, and a password
/// that does not match is answered with exactly "Invalid Password\n",
/// creating nothing.
pub proof fn lemma_register_then_login(
    username: String,
    account: UserAccount,
    password: Seq<char>,
    wrong: Seq<char>,
)
    requires
        bcrypt_verdict(password, account.pass_hash@) == Some(true),
        bcrypt_verdict(wrong, account.pass_hash@) == Some(false),
    ensures
        lookup_state(username, None) == (AuthState::AwaitChoice { username }),
        lookup_state(username, Some(account)) == (AuthState::AwaitPassword { account }),
        login_state(account, bcrypt_verdict(password, account.pass_hash@))
            == (AuthState::Authenticated { account }),
        login_state(account, bcrypt_verdict(wrong, account.pass_hash@))
            == (AuthState::Closed { error: AuthError::Failed }),
        login_reply(bcrypt_verdict(wrong, account.pass_hash@)) == "Invalid Password\n"@,
{
}

} // verus!
