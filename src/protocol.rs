//! The command protocol: each command runs against a session as a short
//! sequence of steps, and ends in exactly one response.
//!
//! Whoever drives a command performs each step that crosses into the foreign
//! runtime and hands its outcome back: the answer of a `Lookup` to
//! `Session::command_resolved`, the outcome of an `Invoke` to
//! `Session::command_returned`, the text of a `Render` to `rendered`.
use vstd::prelude::*;
use crate::dispatch::{keeps_cache, Arg, CallStep, DispatchError, Session, Val};
use crate::slots::ISSUE_BOUND;
use crate::store::MAX_HANDLES;
use crate::text::joined3;

verus! {

/// A request.
#[derive(Debug, Clone, PartialEq, Eq)]
pub enum Command {
    /// Call the function `name` on `args`; answered with the result's handle.
    Call { name: String, args: Vec<Val> },
    /// The string that the value of `key` holds.
    Str { key: u64 },
    /// Dispose of `key`; answered with the key.
    Dis { key: u64 },
}

/// The answer to a request.
#[derive(Debug, Clone, PartialEq, Eq)]
pub enum Response {
    Success { val: Val },
    Failure { msg: String },
}

/// What comes next in a command.
#[derive(Debug, Clone, PartialEq, Eq)]
pub enum Step {
    /// Look `name` up in the foreign registry.
    Lookup { name: String },
    /// Invoke the function `func` on `args`.
    Invoke { func: u64, args: Vec<Arg> },
    /// Read the foreign value `obj` as a string.
    Render { obj: u64 },
    /// The command is done; release the foreign value `release`, if any,
    /// then send `response`.
    Reply { response: Response, release: Option<u64> },
}

/// Whether `r` reports the error `e`.
pub open spec fn reports(r: Response, e: DispatchError) -> bool {
    r matches Response::Failure { msg } && msg@ == e.message_spec()
}

/// Whether `s` is the command step that carries out the call step `c`.
pub open spec fn carries_out(s: Step, c: CallStep) -> bool {
    match c {
        CallStep::Lookup { name } => s == (Step::Lookup { name }),
        CallStep::Invoke { func, args } => s == (Step::Invoke { func, args }),
        CallStep::Failed { error } => s matches Step::Reply { response, release }
            && release is None && reports(response, error),
    }
}

/// The response that reports `e`.
pub fn error_response(e: &DispatchError) -> (r: Response)
    ensures
        reports(r, *e),
{
    Response::Failure { msg: e.message() }
}

fn step_of(c: CallStep) -> (s: Step)
    ensures
        carries_out(s, c),
{
    match c {
        CallStep::Lookup { name } => Step::Lookup { name },
        CallStep::Invoke { func, args } => Step::Invoke { func, args },
        CallStep::Failed { error } => Step::Reply { response: error_response(&error), release: None },
    }
}

/// The response to a request line that could not be decoded; `detail` says why.
pub fn protocol_error(detail: &String) -> (r: Response)
    ensures
        reports(r, DispatchError::Protocol { detail: *detail }),
{
    error_response(&DispatchError::Protocol { detail: detail.clone() })
}

/// The response to a `Render` step whose value reads as `text`.
pub fn rendered(text: String) -> (r: Response)
    ensures
        r == (Response::Success { val: Val::String(text) }),
{
    Response::Success { val: Val::String(text) }
}

/// What a client takes from the response to a call: the value, or the
/// error's message.
pub fn call_result(r: Response) -> (out: Result<Val, String>)
    ensures
        match r {
            Response::Success { val } => out == Ok::<Val, String>(val),
            Response::Failure { msg } => out == Err::<Val, String>(msg),
        },
{
    match r {
        Response::Success { val } => Ok(val),
        Response::Failure { msg } => Err(msg),
    }
}

/// What a client takes from the response to `Str`: the string, or the
/// error's message; a handle in its place is an invalid response.
pub fn string_result(r: Response) -> (out: Result<String, String>)
    ensures
        match r {
            Response::Success { val: Val::String(s) } => out == Ok::<String, String>(s),
            Response::Success { val: Val::Token(_) } => out matches Err(m) && m@ == "Invalid response"@,
            Response::Failure { msg } => out == Err::<String, String>(msg),
        },
{
    match r {
        Response::Success { val: Val::String(s) } => Ok(s),
        Response::Success { val: Val::Token(_) } => Err("Invalid response".to_owned()),
        Response::Failure { msg } => Err(msg),
    }
}

/// What a client takes from the response to `Dis`: the key, or the error's
/// message; a string in its place is an invalid response.
pub fn key_result(r: Response) -> (out: Result<u64, String>)
    ensures
        match r {
            Response::Success { val: Val::Token(k) } => out == Ok::<u64, String>(k),
            Response::Success { val: Val::String(_) } => out matches Err(m) && m@ == "Invalid response"@,
            Response::Failure { msg } => out == Err::<u64, String>(msg),
        },
{
    match r {
        Response::Success { val: Val::Token(k) } => Ok(k),
        Response::Success { val: Val::String(_) } => Err("Invalid response".to_owned()),
        Response::Failure { msg } => Err(msg),
    }
}

/// What `begin_command` does with `cmd`, taking the session from `before`
/// to `after` and answering `r`.
pub open spec fn begins_command(before: Session, after: Session, cmd: Command, r: Step) -> bool {
    &&& forall|n: Seq<char>| after.function(n) == before.function(n)
    &&& keeps_cache(before, after)
    &&& after.issued() == before.issued()
    &&& match cmd {
            Command::Call { name, args } => {
                &&& after.handles() == before.handles()
                &&& match before.function(name@) {
                    None => r == (Step::Lookup { name }),
                    Some(f) => exists|c: CallStep| c.invokes_or_fails(f, before.handles(), args@)
                        && carries_out(r, c),
                }
            },
            Command::Str { key } => {
                &&& after.handles() == before.handles()
                &&& match before.handles().get(key) {
                    Some(obj) => r == (Step::Render { obj }),
                    None => carries_out(r, CallStep::Failed {
                        error: DispatchError::InvalidHandle { handle: key } }),
                }
            },
            Command::Dis { key } => {
                &&& after.handles() == before.handles().remove(key)
                &&& r == (Step::Reply {
                    response: Response::Success { val: Val::Token(key) },
                    release: before.handles().get(key),
                })
            },
        }
}

/// Whether `r` answers a line that did not decode, for the reason `detail`.
pub open spec fn rejects_line(r: Step, detail: String) -> bool {
    r matches Step::Reply { response, release } && release is None
        && reports(response, DispatchError::Protocol { detail })
}

/// What `begin_line` does with a decoded request line.
pub open spec fn begins_line(before: Session, after: Session, decoded: Result<Command, String>, r: Step) -> bool {
    match decoded {
        Ok(cmd) => begins_command(before, after, cmd, r),
        Err(detail) => after == before && rejects_line(r, detail),
    }
}

/// A line that does not decode changes nothing: it is answered with the
/// protocol error, and the command after it gets the same step, and leaves
/// the same session, as if the line had never been sent.
pub proof fn lemma_malformed_line_changes_nothing(
    s0: Session,
    s1: Session,
    detail: String,
    rejected: Step,
    cmd: Command,
    s2: Session,
    r: Step,
)
    requires
        begins_line(s0, s1, Err(detail), rejected),
        begins_command(s1, s2, cmd, r),
    ensures
        rejects_line(rejected, detail),
        begins_command(s0, s2, cmd, r),
{
}

/// The handle that a call returns reads back the value that the call
/// produced: `Str` on it renders exactly that foreign value, so a function
/// that returns its string argument gives the same string back.
pub proof fn lemma_returned_handle_renders_result(
    before: Session,
    after: Session,
    obj: u64,
    h: u64,
    later: Session,
    r: Step,
)
    requires
        after.handles() == before.handles().insert(h, obj),
        begins_command(after, later, Command::Str { key: h }, r),
    ensures
        r == (Step::Render { obj }),
        later.handles() == after.handles(),
{
}

impl Session {
    /// The first step of a request line, as decoded: a command goes as
    /// `begin_command` says; a line that did not decode is answered with the
    /// protocol error and leaves the session as it was.
    pub fn begin_line(&mut self, decoded: Result<Command, String>) -> (r: Step)
        requires
            old(self).wf(),
        ensures
            final(self).wf(),
            begins_line(*old(self), *final(self), decoded, r),
    {
        match decoded {
            Ok(cmd) => self.begin_command(&cmd),
            Err(detail) => Step::Reply { response: protocol_error(&detail), release: None },
        }
    }

    /// The first step of `cmd`. A call goes as `begin_call` says; `Str`
    /// renders the value of a live key and fails on any other; `Dis`
    /// disposes of the key, whether live or not, and answers with it.
    pub fn begin_command(&mut self, cmd: &Command) -> (r: Step)
        requires
            old(self).wf(),
        ensures
            final(self).wf(),
            begins_command(*old(self), *final(self), *cmd, r),
    {
        match cmd {
            Command::Call { name, args } => {
                let c = self.begin_call(name, args);
                step_of(c)
            },
            Command::Str { key } => {
                match self.value_of(*key) {
                    Ok(obj) => Step::Render { obj },
                    Err(e) => Step::Reply { response: error_response(&e), release: None },
                }
            },
            Command::Dis { key } => {
                let released = self.dispose(*key);
                Step::Reply { response: Response::Success { val: Val::Token(*key) }, release: released }
            },
        }
    }

    /// Takes the registry's answer in a call command, as `resolved` does.
    pub fn command_resolved(&mut self, name: &String, found: Option<u64>, args: &Vec<Val>) -> (r: Step)
        requires
            old(self).wf(),
        ensures
            final(self).wf(),
            final(self).handles() == old(self).handles(),
            final(self).issued() == old(self).issued(),
            keeps_cache(*old(self), *final(self)),
            match found {
                None => {
                    &&& carries_out(r, CallStep::Failed {
                        error: DispatchError::UnknownFunction { name: *name } })
                    &&& forall|n: Seq<char>| final(self).function(n) == old(self).function(n)
                },
                Some(f) => {
                    let g = match old(self).function(name@) {
                        Some(c) => c,
                        None => f,
                    };
                    &&& final(self).function(name@) == Some(g)
                    &&& forall|n: Seq<char>| n != name@ ==> final(self).function(n) == old(self).function(n)
                    &&& exists|c: CallStep| c.invokes_or_fails(g, old(self).handles(), args@)
                        && carries_out(r, c)
                },
            },
    {
        let c = self.resolved(name, found, args);
        step_of(c)
    }

    /// Takes the outcome of the invocation in a call command: the new
    /// handle, or the foreign error's message.
    pub fn command_returned(&mut self, outcome: Result<u64, String>) -> (r: Response)
        requires
            old(self).wf(),
            outcome is Ok ==> old(self).handles().len() <= MAX_HANDLES,
        ensures
            final(self).wf(),
            forall|n: Seq<char>| final(self).function(n) == old(self).function(n),
            keeps_cache(*old(self), *final(self)),
            match outcome {
                Ok(obj) => r matches Response::Success { val: Val::Token(h) }
                    && !old(self).handles().contains_key(h)
                    && final(self).handles() == old(self).handles().insert(h, obj)
                    && final(self).issued() == old(self).issued().insert(h)
                    && (old(self).issued().len() < ISSUE_BOUND as nat ==> !old(self).issued().contains(h)),
                Err(m) => reports(r, DispatchError::Foreign { message: m })
                    && final(self).handles() == old(self).handles()
                    && final(self).issued() == old(self).issued(),
            },
    {
        match self.returned(outcome) {
            Ok(h) => Response::Success { val: Val::Token(h) },
            Err(e) => error_response(&e),
        }
    }
}

/// The toplevel directive that runs the initialization script at `path`, if
/// one is given.
pub fn init(path: Option<&str>) -> (r: Option<String>)
    ensures
        match path {
            None => r is None,
            Some(p) => r matches Some(d) && d@ == "#use \""@ + p@ + "\";;"@,
        },
{
    match path {
        None => None,
        Some(p) => Some(joined3("#use \"", p, "\";;")),
    }
}

/// The outcome of running the initialization script: `Ok`, or the cause of
/// its failure (the script is missing, or evaluating it raised) as an
/// `InitError`.
pub fn init_outcome(outcome: Result<(), String>) -> (r: Result<(), DispatchError>)
    ensures
        match outcome {
            Ok(()) => r is Ok,
            Err(cause) => r == Err::<(), DispatchError>(DispatchError::InitError { cause }),
        },
{
    match outcome {
        Ok(()) => Ok(()),
        Err(cause) => Err(DispatchError::InitError { cause }),
    }
}

} // verus!
