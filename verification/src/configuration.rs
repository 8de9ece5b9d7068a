//! Exchange credentials as the deployment supplies them.

use vstd::prelude::*;
use vstd::string::StringExecFns;

verus! {

#[derive(Debug)]
pub struct Settings {
    pub okx: OkxConfig,
}

#[derive(Debug)]
pub struct OkxConfig {
    pub api_key: String,
    pub api_secret: String,
}

impl Settings {
    /// The name of the file that holds the variables of the environment
    /// `env`: `.env.` and the name, `dev` where none is given.
    pub open spec fn spec_dotenv_path(env: Option<Seq<char>>) -> Seq<char> {
        match env {
            Some(name) => ".env."@ + name,
            None => ".env."@ + "dev"@,
        }
    }

    /// The name of the file to load the variables from, given the value of
    /// the variable `ENV`, `None` where unset.
    pub fn dotenv_path(env: Option<&str>) -> (path: String)
        ensures
            path@ == Settings::spec_dotenv_path(
                match env {
                    Some(name) => Some(name@),
                    None => None,
                },
            ),
    {
        match env {
            Some(name) => String::from_str(".env.").concat(name),
            None => String::from_str(".env.").concat("dev"),
        }
    }
}

} // verus!
