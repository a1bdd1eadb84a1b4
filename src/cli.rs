//! The command line as the library sees it: the chosen command and the
//! server settings, from flags or, failing those, from the environment.
use vstd::prelude::*;
use vstd::string::StringExecFns;

use crate::error::{Error, MISSING_BASE_URL_ERR, MISSING_REQUIRED_FIELD_ERR};
use crate::rest::RestHandler;

verus! {

/// Options of the dispatch command.
#[derive(Clone, Copy, Debug, PartialEq, Eq, Structural)]
pub struct DispatchArgs {
    /// Follow the logs of the dispatched job until its task finishes.
    pub follow: bool,
}

/// Options of the stop command.
#[derive(Clone, Copy, Debug, PartialEq, Eq, Structural)]
pub struct StopArgs;

/// The commands, one variant each.
#[derive(Clone, Copy, Debug, PartialEq, Eq, Structural)]
pub enum Command {
    Dispatch(DispatchArgs),
    Stop(StopArgs),
}

/// One invocation: its command, its settings and the handler built from them.
#[derive(Debug)]
pub struct Cli {
    pub nomad_url: Option<String>,
    pub token: Option<String>,
    pub command: Command,
    pub rest_handler: RestHandler,
}

/// A flag's value when given, else the environment's.
pub open spec fn setting(flag: Option<String>, env: Option<String>) -> Option<String> {
    match flag {
        Some(v) => Some(v),
        None => env,
    }
}

fn copy_setting(v: &Option<String>) -> (r: Option<String>)
    ensures
        r == *v,
{
    match v {
        Some(s) => Some(s.clone()),
        None => None,
    }
}

impl Cli {
    /// An invocation whose address and token come from the flags, or from the
    /// environment where a flag is missing; its handler is not built yet.
    pub fn new(
        command: Command,
        nomad_url: Option<String>,
        token: Option<String>,
        env_url: Option<String>,
        env_token: Option<String>,
    ) -> (r: Cli)
        ensures
            r.command == command,
            r.nomad_url == setting(nomad_url, env_url),
            r.token == setting(token, env_token),
            r.rest_handler.base_url_view() == Seq::<char>::empty(),
            r.rest_handler.token_view() is None,
    {
        let nomad_url = match nomad_url {
            Some(v) => Some(v),
            None => env_url,
        };
        let token = match token {
            Some(v) => Some(v),
            None => env_token,
        };
        Cli { nomad_url, token, command, rest_handler: RestHandler::unset() }
    }

    /// Builds the handler from the settings and hands back the invocation;
    /// without an address this fails with `MissingEnv` and leaves the
    /// invocation as it was.
    pub fn init_rest_handler(&mut self) -> (r: Result<&Self, Error>)
        ensures
            final(self).nomad_url == old(self).nomad_url,
            final(self).token == old(self).token,
            final(self).command == old(self).command,
            r matches Ok(c) ==> *c == *final(self),
            match old(self).nomad_url {
                Some(url) => r is Ok && final(self).rest_handler.base_url_view() == url@
                    && final(self).rest_handler.token_view() == old(self).token,
                None => r matches Err(Error::MissingEnv(m)) && m@ == MISSING_BASE_URL_ERR@
                    && final(self).rest_handler == old(self).rest_handler,
            },
    {
        let handler = RestHandler::new(copy_setting(&self.nomad_url), copy_setting(&self.token))?;
        self.rest_handler = handler;
        Ok(self)
    }
}

/// Checks an answer to a metadata prompt: a required field may not be left
/// blank.
pub fn accept_answer(answer: &str, required: bool) -> (r: Result<(), Error>)
    ensures
        r is Ok <==> !(required && answer@.len() == 0),
        r matches Err(e) ==> (e matches Error::ScenarioErr(m) && m@ == MISSING_REQUIRED_FIELD_ERR@),
{
    if required && answer.is_empty() {
        Err(Error::ScenarioErr(String::from_str(MISSING_REQUIRED_FIELD_ERR)))
    } else {
        Ok(())
    }
}

} // verus!
