use crate::auth::{bcrypt_verdict, create_account};
use crate::model::UserAccount;
use crate::text::{trim, trim_spec};
use vstd::prelude::*;
use vstd::string::*;

verus! {

/// Where the admin console stands in provisioning an account.
pub enum AdminState {
    /// Waiting for a command line.
    AwaitCommand,
    /// `/add_user` was given; the username prompt has been printed.
    AwaitUsername,
    /// The user store is to be asked whether it holds this name.
    Lookup { username: String },
    /// The name is free; the password prompt has been printed.
    AwaitPassword { username: String },
    /// The role prompt has been printed.
    AwaitRole { username: String, password: String },
}

/// The outcome of one console step: the next state, the line to print, and
/// the account to insert into the user store, if one was created.
pub struct AdminStep {
    pub state: AdminState,
    pub output: Option<String>,
    pub created: Option<UserAccount>,
}

/// The account is refused when the user store already holds its name.
pub open spec fn lookup_admin_state(username: String, exists: bool) -> AdminState {
    if exists {
        AdminState::AwaitCommand
    } else {
        AdminState::AwaitPassword { username }
    }
}

pub open spec fn lookup_admin_output(exists: bool) -> Seq<char> {
    if exists {
        "Username already exist"@
    } else {
        "Enter password:"@
    }
}

impl AdminStep {
    fn say(state: AdminState, text: &str) -> (r: AdminStep)
        ensures
            r.state == state,
            r.output matches Some(o) && o@ == text@,
            r.created is None,
    {
        AdminStep { state, output: Some(String::from_str(text)), created: None }
    }

    /// A command line was read.
    pub fn command_read(line: &str) -> (r: AdminStep)
        ensures
            trim_spec(line@) == "/add_user"@ ==> r.state is AwaitUsername && (r.output matches Some(
                o,
            ) && o@ == "Enter username:"@),
            trim_spec(line@) != "/add_user"@ ==> r.state is AwaitCommand && (r.output matches Some(
                o,
            ) && o@ == "Unknown command: "@ + trim_spec(line@)),
            r.created is None,
    {
        let command = trim(line);
        if command == String::from_str("/add_user") {
            AdminStep::say(AdminState::AwaitUsername, "Enter username:")
        } else {
            AdminStep {
                state: AdminState::AwaitCommand,
                output: Some(String::from_str("Unknown command: ").concat(command.as_str())),
                created: None,
            }
        }
    }

    /// The user store answered whether it holds `username`.
    pub fn lookup_done(username: String, exists: bool) -> (r: AdminStep)
        ensures
            r.state == lookup_admin_state(username, exists),
            r.output matches Some(o) && o@ == lookup_admin_output(exists),
            r.created is None,
    {
        if exists {
            AdminStep::say(AdminState::AwaitCommand, "Username already exist")
        } else {
            AdminStep::say(AdminState::AwaitPassword { username }, "Enter password:")
        }
    }

    /// The role line was read: create the account with the password given before.
    pub fn role_read(username: String, password: String, line: &str) -> (r: AdminStep)
        ensures
            r.state is AwaitCommand,
            r.created matches Some(a) ==> {
                &&& a.username == username
                &&& a.server_role@ == trim_spec(line@)
                &&& bcrypt_verdict(password@, a.pass_hash@) == Some(true)
                &&& r.output matches Some(o) && o@ == "User '"@ + username@
                    + "' created successfully"@
            },
            r.created is None ==> r.output is None,
    {
        let notice = String::from_str("User '").concat(username.as_str()).concat(
            "' created successfully",
        );
        match create_account(username, password.as_str(), trim(line)) {
            Some(account) => AdminStep {
                state: AdminState::AwaitCommand,
                output: Some(notice),
                created: Some(account),
            },
            None => AdminStep { state: AdminState::AwaitCommand, output: None, created: None },
        }
    }
}

impl AdminState {
    /// Whether this state waits for a line from the console.
    pub open spec fn awaits_line(&self) -> bool {
        !(self is Lookup)
    }

    /// Feeds one console line to a state that waits for one.
    pub fn advance(self, line: &str) -> (r: AdminStep)
        requires
            self.awaits_line(),
        ensures
            self is AwaitUsername ==> (r.state matches AdminState::Lookup { username }
                && username@ == trim_spec(line@)) && r.output is None && r.created is None,
            self matches AdminState::AwaitPassword { username } ==> (r.state matches AdminState::AwaitRole {
                username: u,
                password,
            } && u == username && password@ == trim_spec(line@)) && (r.output matches Some(o)
                && o@ == "Enter user role:"@) && r.created is None,
            self matches AdminState::AwaitRole { username, password } ==> r.state is AwaitCommand
                && (r.created matches Some(a) ==> a.username == username && a.server_role@
                == trim_spec(line@) && bcrypt_verdict(password@, a.pass_hash@) == Some(true)),
    {
        match self {
            AdminState::AwaitCommand => AdminStep::command_read(line),
            AdminState::AwaitUsername => AdminStep {
                state: AdminState::Lookup { username: trim(line) },
                output: None,
                created: None,
            },
            AdminState::AwaitPassword { username } => AdminStep::say(
                AdminState::AwaitRole { username, password: trim(line) },
                "Enter user role:",
            ),
            AdminState::AwaitRole { username, password } => AdminStep::role_read(
                username,
                password,
                line,
            ),
            AdminState::Lookup { username } => AdminStep::lookup_done(username, true),
        }
    }
}

/// `/add_user` for a name that the user store already holds is refused with
/// "Username already exist", back at the command prompt, creating nothing.
pub proof fn lemma_duplicate_add_user_rejected(username: String)
    ensures
        lookup_admin_state(username, true) is AwaitCommand,
        lookup_admin_output(true) == "Username already exist"@,
        lookup_admin_state(username, false) == (AdminState::AwaitPassword { username }),
{
}

} // verus!
