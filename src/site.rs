use vstd::prelude::*;

verus! {

/// The name shown when none is configured.
pub const DEFAULT_APP_NAME: &'static str = "CTRunner";

/// The version shown when none is configured.
pub const DEFAULT_APP_VERSION: &'static str = "local";

/// The project address shown when none is configured.
pub const DEFAULT_WEBSITE_URL: &'static str = "https://github.com/bytebury/crust";

/// What the pages say about the application itself.
pub struct AppInfo {
    pub name: String,
    pub version: String,
    pub website_url: String,
}

pub open spec fn or_default(value: Option<String>, default: Seq<char>) -> Seq<char> {
    match value {
        Some(v) => v@,
        None => default,
    }
}

fn value_or(value: Option<String>, default: &str) -> (r: String)
    ensures
        r@ == or_default(value, default@),
{
    match value {
        Some(v) => v,
        None => String::from_str(default),
    }
}

impl AppInfo {
    /// The information from the configured values, each replaced by its default
    /// when absent.
    pub fn new(name: Option<String>, version: Option<String>, website_url: Option<String>) -> (r:
        AppInfo)
        ensures
            r.name@ == or_default(name, DEFAULT_APP_NAME@),
            r.version@ == or_default(version, DEFAULT_APP_VERSION@),
            r.website_url@ == or_default(website_url, DEFAULT_WEBSITE_URL@),
    {
        AppInfo {
            name: value_or(name, DEFAULT_APP_NAME),
            version: value_or(version, DEFAULT_APP_VERSION),
            website_url: value_or(website_url, DEFAULT_WEBSITE_URL),
        }
    }
}

/// Who is making a request.
#[derive(Clone, Copy, Debug, PartialEq, Eq, Structural)]
pub enum Visitor {
    /// No one is signed in, or the session could not be read.
    SignedOut,
    /// A signed-in user, who may not have given a member number yet.
    SignedIn { has_runner_id: bool, is_admin: bool },
}

/// Where a request that may not see a page is sent instead.
#[derive(Clone, Copy, Debug, PartialEq, Eq, Structural)]
pub enum Redirect {
    Home,
    Dashboard,
    UpdateInfo,
}

pub open spec fn redirect_path(r: Redirect) -> Seq<char> {
    match r {
        Redirect::Home => "/"@,
        Redirect::Dashboard => "/dashboard"@,
        Redirect::UpdateInfo => "/update-info"@,
    }
}

impl Redirect {
    /// The path that the request is sent to.
    pub fn path(&self) -> (r: &'static str)
        ensures
            r@ == redirect_path(*self),
    {
        match self {
            Redirect::Home => "/",
            Redirect::Dashboard => "/dashboard",
            Redirect::UpdateInfo => "/update-info",
        }
    }
}

/// Proof that no one is signed in, for pages meant for visitors only.
pub struct NoUser;

impl NoUser {
    /// Lets a signed-out visitor through; sends a signed-in user to the dashboard.
    pub fn check(v: Visitor) -> (r: Result<NoUser, Redirect>)
        ensures
            r is Ok <==> v == Visitor::SignedOut,
            r matches Err(to) ==> to == Redirect::Dashboard,
    {
        match v {
            Visitor::SignedOut => Ok(NoUser),
            Visitor::SignedIn { .. } => Err(Redirect::Dashboard),
        }
    }
}

/// Admits a member who has given a member number; sends a user without one to
/// give it, and anyone else home.
pub fn member_access(v: Visitor) -> (r: Result<(), Redirect>)
    ensures
        r == (match v {
            Visitor::SignedOut => Err(Redirect::Home),
            Visitor::SignedIn { has_runner_id, .. } => if has_runner_id {
                Ok(())
            } else {
                Err(Redirect::UpdateInfo)
            },
        }),
{
    match v {
        Visitor::SignedOut => Err(Redirect::Home),
        Visitor::SignedIn { has_runner_id, .. } => if has_runner_id {
            Ok(())
        } else {
            Err(Redirect::UpdateInfo)
        },
    }
}

/// Admits a signed-in user who has not given a member number yet; sends one who
/// has to the dashboard, and anyone else home.
pub fn orphan_access(v: Visitor) -> (r: Result<(), Redirect>)
    ensures
        r == (match v {
            Visitor::SignedOut => Err(Redirect::Home),
            Visitor::SignedIn { has_runner_id, .. } => if has_runner_id {
                Err(Redirect::Dashboard)
            } else {
                Ok(())
            },
        }),
{
    match v {
        Visitor::SignedOut => Err(Redirect::Home),
        Visitor::SignedIn { has_runner_id, .. } => if has_runner_id {
            Err(Redirect::Dashboard)
        } else {
            Ok(())
        },
    }
}

/// Admits an administrator; sends another signed-in user to the dashboard, and
/// anyone else home.
pub fn admin_access(v: Visitor) -> (r: Result<(), Redirect>)
    ensures
        r == (match v {
            Visitor::SignedOut => Err(Redirect::Home),
            Visitor::SignedIn { is_admin, .. } => if is_admin {
                Ok(())
            } else {
                Err(Redirect::Dashboard)
            },
        }),
{
    match v {
        Visitor::SignedOut => Err(Redirect::Home),
        Visitor::SignedIn { is_admin, .. } => if is_admin {
            Ok(())
        } else {
            Err(Redirect::Dashboard)
        },
    }
}

/// The result of a race that a member submits.
pub struct NewRaceResult {
    pub user_id: i64,
    pub race_id: i64,
    pub notes: Option<String>,
}

impl NewRaceResult {
    /// The result of `user_id` in race `race_id`.
    pub fn new(user_id: i64, race_id: i64, notes: Option<String>) -> (r: NewRaceResult)
        ensures
            r.user_id == user_id,
            r.race_id == race_id,
            r.notes == notes,
    {
        NewRaceResult { user_id, race_id, notes }
    }
}

} // verus!
