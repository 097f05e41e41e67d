//! A credential source that obtains tokens from the installed `gcloud` tool.
//!
//! Running the tool is left to the caller, who hands each run's exit status and
//! standard output to this module; everything decided from them is here.
use crate::error::Error;
use crate::secret::new_secret;
use crate::text::utf8_string;
use crate::token::{
    lemma_fresh_token_unexpired, max_instant, offset_by_secs, Timestamp, Token, TokenView, DEFAULT_TOKEN_DURATION};
use vstd::prelude::*;
use vstd::utf8::{decode_utf8, valid_utf8};

verus! {

/// The executable that is run.
pub const GCLOUD: &'static str = "gcloud";

/// The arguments that print the tool's current project.
pub const PROJECT_ID_ARGS: [&'static str; 3] = ["config", "get-value", "project"];

/// The arguments that print a fresh access token.
pub const ACCESS_TOKEN_ARGS: [&'static str; 3] = ["auth", "print-access-token", "--quiet"];

/// How a caller should treat the credentials of a source.
#[derive(Clone, Copy, Debug, PartialEq, Eq, Structural)]
pub enum TokenStyle {
    /// Credentials of a user account, valid whatever scopes are asked for.
    Account,
    /// Credentials issued for the scopes that were asked for.
    AccountAndScopes,
}

/// One run of the tool: whether it was launched and exited with success, and
/// what it printed on standard output.
pub struct ToolRun {
    pub success: bool,
    pub stdout: Vec<u8>,
}

/// A byte that is trimmed from the end of the tool's output.
pub open spec fn is_trailing_space(b: u8) -> bool {
    b == 32 || b == 13 || b == 10
}

/// `s` without the spaces, carriage returns and newlines at its end.
pub open spec fn trim_trailing(s: Seq<u8>) -> Seq<u8>
    decreases s.len(),
{
    if s.len() > 0 && is_trailing_space(s.last()) {
        trim_trailing(s.drop_last())
    } else {
        s
    }
}

/// What a run of the tool yields: a failed run is one opaque failure; otherwise
/// the output, trimmed at its end, must be UTF-8 text.
pub open spec fn tool_outcome(success: bool, stdout: Seq<u8>) -> Result<Seq<char>, Error> {
    if !success {
        Err(Error::ProcessInvocationFailed)
    } else if valid_utf8(trim_trailing(stdout)) {
        Ok(decode_utf8(trim_trailing(stdout)))
    } else {
        Err(Error::ProcessOutputUndecodable)
    }
}

/// What a token obtained at `now` from a run that printed `text` holds.
pub open spec fn tool_token(text: Seq<char>, now: Timestamp) -> TokenView {
    TokenView {
        secret: text,
        expires_at: offset_by_secs(now.nanos as int, DEFAULT_TOKEN_DURATION as int),
    }
}

/// Removes the spaces, carriage returns and newlines at the end of `bytes`.
pub fn trim_trailing_space(bytes: &mut Vec<u8>)
    ensures
        final(bytes)@ == trim_trailing(old(bytes)@),
{
    while bytes.len() > 0 && (bytes[bytes.len() - 1] == 32u8 || bytes[bytes.len() - 1] == 13u8
        || bytes[bytes.len() - 1] == 10u8)
        invariant
            trim_trailing(bytes@) == trim_trailing(old(bytes)@),
        decreases bytes.len(),
    {
        bytes.pop();
    }
}

/// The text that a run of the tool printed.
pub fn tool_output(run: ToolRun) -> (r: Result<String, Error>)
    ensures
        match tool_outcome(run.success, run.stdout@) {
            Ok(text) => r is Ok && r->Ok_0@ == text,
            Err(e) => r == Err::<String, Error>(e),
        },
{
    if !run.success {
        return Err(Error::ProcessInvocationFailed);
    }
    let mut stdout = run.stdout;
    trim_trailing_space(&mut stdout);
    match utf8_string(stdout) {
        Some(text) => Ok(text),
        None => Err(Error::ProcessOutputUndecodable),
    }
}

/// A credential source backed by the `gcloud` tool. It holds the tool's name,
/// the project that the tool reported when the source was built, if any, and the
/// one token that is current. A token is replaced whole, never changed in place.
#[derive(Debug)]
pub struct GCloudAuthorizedUser {
    gcloud: String,
    project_id: Option<String>,
    token: Token,
}

impl GCloudAuthorizedUser {
    /// The executable that the source runs.
    pub closed spec fn tool(&self) -> Seq<char> {
        self.gcloud@
    }

    /// The project reported when the source was built.
    pub closed spec fn project(&self) -> Option<Seq<char>> {
        match self.project_id {
            Some(p) => Some(p@),
            None => None,
        }
    }

    /// The token that is current.
    pub closed spec fn cached(&self) -> TokenView {
        self.token@
    }

    /// Builds the source from the two runs of the tool made for it: one that
    /// printed the project (a failure there leaves the project unknown) and one
    /// that printed the first token, at `now`. Without a first token there is no
    /// source.
    pub fn new(gcloud: String, project_run: ToolRun, token_run: ToolRun, now: Timestamp) -> (r:
        Result<Self, Error>)
        ensures
            match tool_outcome(token_run.success, token_run.stdout@) {
                Ok(text) => r is Ok && r->Ok_0.cached() == tool_token(text, now)
                    && r->Ok_0.tool() == gcloud@ && r->Ok_0.project() == match tool_outcome(
                    project_run.success,
                    project_run.stdout@,
                ) {
                    Ok(p) => Some(p),
                    Err(_) => None::<Seq<char>>,
                },
                Err(e) => r is Err && r->Err_0 == e,
            },
    {
        let project_id = match tool_output(project_run) {
            Ok(p) => Some(p),
            Err(_) => None,
        };
        let token = Self::token(token_run, now)?;
        Ok(GCloudAuthorizedUser { gcloud, project_id, token })
    }

    /// The token that a run of the tool printed, taken to expire the default
    /// duration after `now`.
    pub fn token(run: ToolRun, now: Timestamp) -> (r: Result<Token, Error>)
        ensures
            match tool_outcome(run.success, run.stdout@) {
                Ok(text) => r is Ok && r->Ok_0@ == tool_token(text, now),
                Err(e) => r is Err && r->Err_0 == e,
            },
    {
        let text = tool_output(run)?;
        Ok(Token::from_string_at(new_secret(text), DEFAULT_TOKEN_DURATION, now))
    }

    /// The executable to run for a fresh token.
    pub fn gcloud(&self) -> (r: &str)
        ensures
            r@ == self.tool(),
    {
        self.gcloud.as_str()
    }

    pub fn get_style(&self) -> (r: TokenStyle)
        ensures
            r == TokenStyle::Account,
    {
        TokenStyle::Account
    }

    /// The project resolved when the source was built; it is never looked up again.
    pub fn project_id(&self) -> (r: Result<String, Error>)
        ensures
            match self.project() {
                Some(p) => r is Ok && r->Ok_0@ == p,
                None => r == Err::<String, Error>(Error::NoProjectId),
            },
    {
        match &self.project_id {
            Some(p) => Ok(p.clone()),
            None => Err(Error::NoProjectId),
        }
    }

    /// The current token, expired or not, whatever scopes are asked for.
    pub fn get_token(&self, _scopes: &[&str]) -> (r: Option<Token>)
        ensures
            r is Some && r->Some_0@ == self.cached(),
    {
        Some(self.token.clone())
    }

    /// Replaces the current token with the one that a fresh run of the tool
    /// printed, at `now`, and returns it. Where the run gives no token the source
    /// is left as it was.
    pub fn refresh_token(&mut self, run: ToolRun, now: Timestamp) -> (r: Result<Token, Error>)
        ensures
            final(self).tool() == old(self).tool(),
            final(self).project() == old(self).project(),
            match tool_outcome(run.success, run.stdout@) {
                Ok(text) => r is Ok && r->Ok_0@ == tool_token(text, now) && final(self).cached()
                    == tool_token(text, now),
                Err(e) => r is Err && r->Err_0 == e && *final(self) == *old(self),
            },
    {
        let token = Self::token(run, now)?;
        self.token = token.clone();
        Ok(token)
    }
}

/// The token of a source, as built or as refreshed at `now`, has not expired at
/// `now`, unless `now` is the last instant a `Timestamp` can hold.
pub proof fn lemma_tool_token_unexpired(text: Seq<char>, now: Timestamp)
    requires
        now.nanos < max_instant(),
    ensures
        !(tool_token(text, now).expires_at <= now.nanos),
{
    lemma_fresh_token_unexpired(now, DEFAULT_TOKEN_DURATION);
}

} // verus!
