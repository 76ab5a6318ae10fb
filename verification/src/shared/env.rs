//! The environment that the service runs in.
use vstd::prelude::*;

verus! {

/// Where the service runs.
#[derive(Clone, Copy, Debug, PartialEq, Eq, Structural)]
pub enum Environment {
    Development,
    Production,
}

impl Default for Environment {
    fn default() -> (r: Self)
        ensures
            r == Environment::Development,
    {
        Environment::Development
    }
}

/// The environment that a name stands for, if it names one.
pub open spec fn environment_named(name: Seq<char>) -> Option<Environment> {
    if name == "development"@ {
        Some(Environment::Development)
    } else if name == "production"@ {
        Some(Environment::Production)
    } else {
        None
    }
}

impl Environment {
    /// Reads an environment's name. Nothing but `development` and
    /// `production`, in lower case, is one.
    pub fn from_str(s: &str) -> (r: Option<Environment>)
        ensures
            r == environment_named(s@),
    {
        let name = String::from_str(s);
        if name == String::from_str("development") {
            Some(Environment::Development)
        } else if name == String::from_str("production") {
            Some(Environment::Production)
        } else {
            None
        }
    }
}

/// The environment to run in: what the setting names, and the default of
/// the build where there is no setting or it names none.
pub fn which(setting: Option<String>, default_env: Environment) -> (r: Environment)
    ensures
        r == match setting {
            Some(name) => match environment_named(name@) {
                Some(named) => named,
                None => default_env,
            },
            None => default_env,
        },
{
    match setting {
        None => default_env,
        Some(name) => match Environment::from_str(name.as_str()) {
            Some(named) => named,
            None => default_env,
        },
    }
}

} // verus!
