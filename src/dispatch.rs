//! Calls by name: the function cache, the checking of arguments and the
//! wrapping of results into handles.
//!
//! A call crosses into the foreign runtime at two points, which the caller
//! performs: looking a name up in the runtime's registry, and invoking the
//! function found. The session decides everything around them. `begin_call`
//! says which of the two comes next; `resolved` and `returned` take their
//! outcomes.
use vstd::prelude::*;
use crate::slots::ISSUE_BOUND;
use crate::store::{Store, MAX_HANDLES};
use crate::text::{decimal, decimal_of, joined, joined3};

verus! {

/// An argument of a call: a handle to a stored value, or a string.
#[derive(Debug, Clone, PartialEq, Eq)]
pub enum Val {
    Token(u64),
    String(String),
}

impl From<String> for Val {
    fn from(s: String) -> Val {
        Val::String(s)
    }
}

impl vstd::std_specs::convert::FromSpecImpl<String> for Val {
    open spec fn obeys_from_spec() -> bool {
        true
    }

    open spec fn from_spec(s: String) -> Val {
        Val::String(s)
    }
}

impl From<u64> for Val {
    fn from(h: u64) -> Val {
        Val::Token(h)
    }
}

impl vstd::std_specs::convert::FromSpecImpl<u64> for Val {
    open spec fn obeys_from_spec() -> bool {
        true
    }

    open spec fn from_spec(h: u64) -> Val {
        Val::Token(h)
    }
}

/// An argument as the foreign function receives it: a stored value, by the
/// id under which the foreign side roots it, or a string to convert.
#[derive(Debug, Clone, PartialEq, Eq)]
pub enum Arg {
    Value(u64),
    Text(String),
}

/// Why a call or a command failed.
#[derive(Debug, Clone, PartialEq, Eq)]
pub enum DispatchError {
    /// No function of this name is registered.
    UnknownFunction { name: String },
    /// The handle is not live in the store.
    InvalidHandle { handle: u64 },
    /// The foreign function raised; the message is its printable form.
    Foreign { message: String },
    /// A request could not be decoded.
    Protocol { detail: String },
    /// The initialization script is missing or failed to evaluate.
    InitError { cause: String },
}

impl DispatchError {
    /// The text that reports the error.
    pub open spec fn message_spec(&self) -> Seq<char> {
        match self {
            DispatchError::UnknownFunction { name } => "Function "@ + name@ + " not found"@,
            DispatchError::InvalidHandle { handle } => "Invalid key "@ + decimal_of(*handle as nat),
            DispatchError::Foreign { message } => message@,
            DispatchError::Protocol { detail } => "Invalid JSON: "@ + detail@,
            DispatchError::InitError { cause } => "Initialization failed: "@ + cause@,
        }
    }

    /// The text that reports the error.
    pub fn message(&self) -> (r: String)
        ensures
            r@ == self.message_spec(),
    {
        match self {
            DispatchError::UnknownFunction { name } => joined3("Function ", name.as_str(), " not found"),
            DispatchError::InvalidHandle { handle } => {
                let n = decimal(*handle);
                joined("Invalid key ", n.as_str())
            },
            DispatchError::Foreign { message } => message.clone(),
            DispatchError::Protocol { detail } => joined("Invalid JSON: ", detail.as_str()),
            DispatchError::InitError { cause } => joined("Initialization failed: ", cause.as_str()),
        }
    }
}

/// The printable identity of the handle `h`.
pub open spec fn token_name_spec(h: u64) -> Seq<char> {
    "Token("@ + decimal_of(h as nat) + ")"@
}

/// The printable identity of the handle `h`: `Token(` and its decimal form.
pub fn token_name(h: u64) -> (r: String)
    ensures
        r@ == token_name_spec(h),
{
    let n = decimal(h);
    joined3("Token(", n.as_str(), ")")
}

/// The error text for reading a token whose handle `h` is not live.
pub fn invalid_token_message(h: u64) -> (r: String)
    ensures
        r@ == "Invalid key "@ + token_name_spec(h),
{
    let t = token_name(h);
    joined("Invalid key ", t.as_str())
}

/// What comes next in a call.
#[derive(Debug, Clone, PartialEq, Eq)]
pub enum CallStep {
    /// Look `name` up in the foreign registry, then hand the outcome to
    /// `Session::resolved`.
    Lookup { name: String },
    /// Invoke the function `func` on `args`, then hand the outcome to
    /// `Session::returned`.
    Invoke { func: u64, args: Vec<Arg> },
    /// The call fails without entering the foreign runtime.
    Failed { error: DispatchError },
}

/// How a function is invoked, by the number of its arguments.
#[derive(Debug, Clone, Copy, PartialEq, Eq, Structural)]
pub enum Convention {
    /// No argument: the function is applied to unit.
    Unit,
    /// One argument, passed directly.
    One,
    /// Two arguments, passed directly.
    Two,
    /// Three arguments, passed directly.
    Three,
    /// Four or more, passed as one vector.
    Vector,
}

/// The convention for `n` arguments.
pub open spec fn convention_spec(n: nat) -> Convention {
    if n == 0 {
        Convention::Unit
    } else if n == 1 {
        Convention::One
    } else if n == 2 {
        Convention::Two
    } else if n == 3 {
        Convention::Three
    } else {
        Convention::Vector
    }
}

/// The convention for invoking a function on `n` arguments.
pub fn convention(n: usize) -> (r: Convention)
    ensures
        r == convention_spec(n as nat),
{
    if n == 0 {
        Convention::Unit
    } else if n == 1 {
        Convention::One
    } else if n == 2 {
        Convention::Two
    } else if n == 3 {
        Convention::Three
    } else {
        Convention::Vector
    }
}

/// A function found in the foreign registry, under the name it was looked up by.
pub struct FunctionEntry {
    pub name: String,
    pub func: u64,
}

/// Whether argument `i` is a handle that is not live.
pub open spec fn invalid_at(handles: Map<u64, u64>, args: Seq<Val>, i: int) -> bool {
    &&& 0 <= i < args.len()
    &&& match args[i] {
        Val::Token(h) => !handles.contains_key(h),
        Val::String(_) => false,
    }
}

/// Whether argument `i` is the first handle that is not live.
pub open spec fn first_invalid_at(handles: Map<u64, u64>, args: Seq<Val>, i: int) -> bool {
    &&& invalid_at(handles, args, i)
    &&& forall|j: int| 0 <= j < i ==> !invalid_at(handles, args, j)
}

/// An argument as the foreign function receives it.
pub open spec fn prepared(handles: Map<u64, u64>, v: Val) -> Arg {
    match v {
        Val::Token(h) => Arg::Value(handles[h]),
        Val::String(s) => Arg::Text(s),
    }
}

/// The arguments as the foreign function receives them, or the first handle
/// among them that is not live.
pub open spec fn prepare_spec(handles: Map<u64, u64>, args: Seq<Val>) -> Result<Seq<Arg>, u64> {
    if exists|i: int| first_invalid_at(handles, args, i) {
        let i = choose|i: int| first_invalid_at(handles, args, i);
        Err(args[i]->Token_0)
    } else {
        Ok(args.map_values(|v: Val| prepared(handles, v)))
    }
}

impl CallStep {
    /// The step once `func` is known: invoke it on the prepared arguments, or
    /// fail on the first handle that is not live.
    pub open spec fn invokes_or_fails(&self, func: u64, handles: Map<u64, u64>, args: Seq<Val>) -> bool {
        match prepare_spec(handles, args) {
            Ok(a) => self matches CallStep::Invoke { func: f, args: v } && f == func && v@ == a,
            Err(h) => *self == (CallStep::Failed { error: DispatchError::InvalidHandle { handle: h } }),
        }
    }
}

/// Resolves the arguments of a call against the live handles.
pub fn prepare_args(store: &Store, args: &Vec<Val>) -> (r: Result<Vec<Arg>, u64>)
    requires
        store.wf(),
    ensures
        match prepare_spec(store@, args@) {
            Ok(a) => r matches Ok(v) && v@ == a,
            Err(h) => r == Err::<Vec<Arg>, u64>(h),
        },
{
    let mut out: Vec<Arg> = Vec::new();
    let mut i: usize = 0;
    while i < args.len()
        invariant
            store.wf(),
            i <= args@.len(),
            forall|j: int| 0 <= j < i ==> !invalid_at(store@, args@, j),
            out@ == args@.subrange(0, i as int).map_values(|v: Val| prepared(store@, v)),
        decreases args@.len() - i,
    {
        match &args[i] {
            Val::Token(h) => {
                match store.get(*h) {
                    Some(obj) => {
                        out.push(Arg::Value(obj));
                    },
                    None => {
                        assert(first_invalid_at(store@, args@, i as int));
                        let ghost k = choose|k: int| first_invalid_at(store@, args@, k);
                        assert(k == i) by {
                            if k < i {
                                assert(!invalid_at(store@, args@, k));
                            } else if k > i {
                                assert(!invalid_at(store@, args@, i as int));
                            }
                        }
                        return Err(*h);
                    },
                }
            },
            Val::String(s) => {
                out.push(Arg::Text(s.clone()));
            },
        }
        assert(args@.subrange(0, i + 1) =~= args@.subrange(0, i as int).push(args@[i as int]));
        i = i + 1;
    }
    assert(args@.subrange(0, i as int) =~= args@);
    assert(!exists|k: int| first_invalid_at(store@, args@, k));
    Ok(out)
}

/// The function that the entries record under `name`.
pub open spec fn function_in(funcs: Seq<FunctionEntry>, name: Seq<char>) -> Option<u64> {
    if exists|i: int| 0 <= i < funcs.len() && funcs[i].name@ == name {
        let i = choose|i: int| 0 <= i < funcs.len() && funcs[i].name@ == name;
        Some(funcs[i].func)
    } else {
        None
    }
}

/// What `begin_call` answers: a lookup for a name not cached, else the
/// invocation of the cached function or the failure on an argument.
pub open spec fn begins_call(s: Session, name: String, args: Seq<Val>, r: CallStep) -> bool {
    match s.function(name@) {
        None => r == (CallStep::Lookup { name }),
        Some(f) => r.invokes_or_fails(f, s.handles(), args),
    }
}

/// What `resolved` does with the registry's answer `found` for `name`.
pub open spec fn resolves(
    before: Session,
    after: Session,
    name: String,
    found: Option<u64>,
    args: Seq<Val>,
    r: CallStep,
) -> bool {
    &&& after.handles() == before.handles()
    &&& after.issued() == before.issued()
    &&& match found {
        None => {
            &&& r == (CallStep::Failed { error: DispatchError::UnknownFunction { name } })
            &&& forall|n: Seq<char>| after.function(n) == before.function(n)
        },
        Some(f) => {
            let g = match before.function(name@) {
                Some(c) => c,
                None => f,
            };
            &&& after.function(name@) == Some(g)
            &&& forall|n: Seq<char>| n != name@ ==> after.function(n) == before.function(n)
            &&& r.invokes_or_fails(g, after.handles(), args)
        },
    }
}

/// Whether every name cached in `before` is still cached, with the same
/// function, in `after`.
pub open spec fn keeps_cache(before: Session, after: Session) -> bool {
    forall|n: Seq<char>| before.function(n) is Some ==> after.function(n) == before.function(n)
}

/// The foreign functions and values that one runtime instance serves: the
/// handle store and the cache of names already resolved.
pub struct Session {
    store: Store,
    funcs: Vec<FunctionEntry>,
}

impl Session {
    /// The live handles, each with the id of the foreign value it stands for.
    pub closed spec fn handles(&self) -> Map<u64, u64> {
        self.store@
    }

    /// Every handle that the session has handed out, live or disposed.
    pub closed spec fn issued(&self) -> Set<u64> {
        self.store.issued()
    }

    /// The function cached under `name`, if that name was resolved.
    pub closed spec fn function(&self, name: Seq<char>) -> Option<u64> {
        function_in(self.funcs@, name)
    }

    /// The session's invariant: a well-formed store, and each name cached once.
    pub closed spec fn wf(&self) -> bool {
        &&& self.store.wf()
        &&& forall|i: int, j: int|
            0 <= i < self.funcs@.len() && 0 <= j < self.funcs@.len()
                && #[trigger] self.funcs@[i].name@ == #[trigger] self.funcs@[j].name@ ==> i == j
    }

    /// A session with no handles and no resolved names.
    pub fn new() -> (s: Session)
        ensures
            s.wf(),
            s.handles() == Map::<u64, u64>::empty(),
            s.issued() == Set::<u64>::empty(),
            forall|n: Seq<char>| s.function(n) is None,
    {
        Session { store: Store::new(), funcs: Vec::new() }
    }

    /// The number of live handles.
    pub fn handle_count(&self) -> (r: usize)
        requires
            self.wf(),
        ensures
            r == self.handles().len(),
    {
        self.store.len()
    }

    /// The cached function of `name`, if any.
    pub fn cached_function(&self, name: &String) -> (r: Option<u64>)
        requires
            self.wf(),
        ensures
            r == self.function(name@),
    {
        let mut i: usize = 0;
        while i < self.funcs.len()
            invariant
                self.wf(),
                i <= self.funcs@.len(),
                forall|j: int| 0 <= j < i ==> self.funcs@[j].name@ != name@,
            decreases self.funcs@.len() - i,
        {
            if self.funcs[i].name == *name {
                let ghost k = choose|k: int| 0 <= k < self.funcs@.len() && self.funcs@[k].name@ == name@;
                assert(self.funcs@[k].name@ == self.funcs@[i as int].name@);
                return Some(self.funcs[i].func);
            }
            i = i + 1;
        }
        None
    }

    /// The first step of calling `name` on `args`: look the name up if it is
    /// not cached, else invoke the cached function, unless an argument is a
    /// handle that is not live.
    pub fn begin_call(&self, name: &String, args: &Vec<Val>) -> (r: CallStep)
        requires
            self.wf(),
        ensures
            begins_call(*self, *name, args@, r),
    {
        match self.cached_function(name) {
            None => CallStep::Lookup { name: name.clone() },
            Some(f) => self.invoke_step(f, args),
        }
    }

    fn invoke_step(&self, func: u64, args: &Vec<Val>) -> (r: CallStep)
        requires
            self.wf(),
        ensures
            r.invokes_or_fails(func, self.handles(), args@),
    {
        match prepare_args(&self.store, args) {
            Ok(a) => CallStep::Invoke { func, args: a },
            Err(h) => CallStep::Failed { error: DispatchError::InvalidHandle { handle: h } },
        }
    }

    /// Takes the registry's answer for `name`: a name that is not registered
    /// fails the call; a function found is cached and invoked on `args`,
    /// unless an argument is a handle that is not live.
    pub fn resolved(&mut self, name: &String, found: Option<u64>, args: &Vec<Val>) -> (r: CallStep)
        requires
            old(self).wf(),
        ensures
            final(self).wf(),
            resolves(*old(self), *final(self), *name, found, args@, r),
            keeps_cache(*old(self), *final(self)),
    {
        match found {
            None => CallStep::Failed { error: DispatchError::UnknownFunction { name: name.clone() } },
            Some(f) => {
                let g = match self.cached_function(name) {
                    Some(c) => c,
                    None => {
                        let ghost before = self.funcs@;
                        self.funcs.push(FunctionEntry { name: name.clone(), func: f });
                        assert(self.funcs@[before.len() as int].name@ == name@);
                        assert forall|n: Seq<char>| n != name@ implies
                            function_in(self.funcs@, n) == function_in(before, n) by {
                            if exists|i: int| 0 <= i < before.len() && before[i].name@ == n {
                                let i = choose|i: int| 0 <= i < before.len() && before[i].name@ == n;
                                assert(self.funcs@[i] == before[i]);
                            }
                        }
                        f
                    },
                };
                self.invoke_step(g, args)
            },
        }
    }

    /// Takes what the foreign function returned: a value, by the id under
    /// which the foreign side roots it, gets a new handle; a raised error
    /// fails the call with its message.
    pub fn returned(&mut self, outcome: Result<u64, String>) -> (r: Result<u64, DispatchError>)
        requires
            old(self).wf(),
            outcome is Ok ==> old(self).handles().len() <= MAX_HANDLES,
        ensures
            final(self).wf(),
            forall|n: Seq<char>| final(self).function(n) == old(self).function(n),
            keeps_cache(*old(self), *final(self)),
            match outcome {
                Ok(obj) => r matches Ok(h) && !old(self).handles().contains_key(h)
                    && final(self).handles() == old(self).handles().insert(h, obj)
                    && final(self).issued() == old(self).issued().insert(h)
                    && (old(self).issued().len() < ISSUE_BOUND as nat ==> !old(self).issued().contains(h)),
                Err(m) => r == Err::<u64, DispatchError>(DispatchError::Foreign { message: m })
                    && final(self).handles() == old(self).handles()
                    && final(self).issued() == old(self).issued(),
            },
    {
        match outcome {
            Ok(obj) => Ok(self.store.insert(obj)),
            Err(m) => Err(DispatchError::Foreign { message: m }),
        }
    }

    /// The foreign value that `h` stands for.
    pub fn value_of(&self, h: u64) -> (r: Result<u64, DispatchError>)
        requires
            self.wf(),
        ensures
            match self.handles().get(h) {
                Some(obj) => r == Ok::<u64, DispatchError>(obj),
                None => r == Err::<u64, DispatchError>(DispatchError::InvalidHandle { handle: h }),
            },
    {
        match self.store.get(h) {
            Some(obj) => Ok(obj),
            None => Err(DispatchError::InvalidHandle { handle: h }),
        }
    }

    /// Disposes of `h`: its entry leaves the store, and the id of the value
    /// it stood for is returned so that the foreign side can release it. A
    /// handle that is not live changes nothing.
    pub fn dispose(&mut self, h: u64) -> (r: Option<u64>)
        requires
            old(self).wf(),
        ensures
            final(self).wf(),
            r == old(self).handles().get(h),
            final(self).handles() == old(self).handles().remove(h),
            final(self).issued() == old(self).issued(),
            forall|n: Seq<char>| final(self).function(n) == old(self).function(n),
            keeps_cache(*old(self), *final(self)),
    {
        self.store.remove(h)
    }
}

/// `resolved` never drops or changes a cached name.
pub proof fn lemma_resolving_keeps_cache(
    before: Session,
    after: Session,
    name: String,
    found: Option<u64>,
    args: Seq<Val>,
    r: CallStep,
)
    requires
        resolves(before, after, name, found, args, r),
    ensures
        keeps_cache(before, after),
{
}

/// A name is looked up in the foreign registry at most once: after
/// `resolved` has taken a function found for it, through any later
/// operations that keep the cache (all of the session's do), `begin_call`
/// on that name invokes the cached function or fails, and never asks for a
/// lookup again.
pub proof fn lemma_lookup_at_most_once(
    before: Session,
    found: u64,
    resolve_args: Seq<Val>,
    resolve_step: CallStep,
    sessions: Seq<Session>,
    name: String,
    args: Seq<Val>,
    r: CallStep,
)
    requires
        sessions.len() >= 1,
        resolves(before, sessions[0], name, Some(found), resolve_args, resolve_step),
        forall|i: int| 0 <= i < sessions.len() - 1 ==> keeps_cache(#[trigger] sessions[i], sessions[i + 1]),
        begins_call(sessions.last(), name, args, r),
    ensures
        !(r is Lookup),
{
    lemma_cache_kept(sessions, name@, sessions.len() - 1);
}

proof fn lemma_cache_kept(sessions: Seq<Session>, name: Seq<char>, k: int)
    requires
        0 <= k < sessions.len(),
        sessions[0].function(name) is Some,
        forall|i: int| 0 <= i < sessions.len() - 1 ==> keeps_cache(#[trigger] sessions[i], sessions[i + 1]),
    ensures
        sessions[k].function(name) == sessions[0].function(name),
    decreases k,
{
    if k > 0 {
        lemma_cache_kept(sessions, name, k - 1);
        assert(keeps_cache(sessions[k - 1], sessions[k]));
    }
}

/// Calling a name that is not registered fails with `UnknownFunction` and
/// never invokes anything: `begin_call` asks for a lookup, and the
/// registry's empty answer fails the call and caches nothing.
pub proof fn lemma_unknown_function_fails(
    before: Session,
    after: Session,
    name: String,
    args: Seq<Val>,
    first: CallStep,
    r: CallStep,
)
    requires
        before.function(name@) is None,
        begins_call(before, name, args, first),
        resolves(before, after, name, None, args, r),
    ensures
        first == (CallStep::Lookup { name }),
        r == (CallStep::Failed { error: DispatchError::UnknownFunction { name } }),
        after.function(name@) is None,
{
}

/// Some argument is invalid, then the first one is too.
proof fn lemma_first_invalid_exists(handles: Map<u64, u64>, args: Seq<Val>, i: int)
    requires
        invalid_at(handles, args, i),
    ensures
        exists|j: int| first_invalid_at(handles, args, j),
    decreases i,
{
    if exists|j: int| 0 <= j < i && invalid_at(handles, args, j) {
        let j = choose|j: int| 0 <= j < i && invalid_at(handles, args, j);
        lemma_first_invalid_exists(handles, args, j);
    } else {
        assert(first_invalid_at(handles, args, i));
    }
}

/// A call with a disposed handle among its arguments fails with
/// `InvalidHandle` and never invokes the function: once `h` is removed from
/// the handles, a call step for any function on such arguments is a failure.
/// When `h` is the only argument that is not live, the error names it.
pub proof fn lemma_disposed_argument_fails(
    handles: Map<u64, u64>,
    h: u64,
    args: Seq<Val>,
    i: int,
    func: u64,
    r: CallStep,
)
    requires
        0 <= i < args.len(),
        args[i] == Val::Token(h),
        r.invokes_or_fails(func, handles.remove(h), args),
    ensures
        r matches CallStep::Failed { error: DispatchError::InvalidHandle { handle } },
        (forall|j: int| j != i ==> !invalid_at(handles.remove(h), args, j)) ==> r == (CallStep::Failed {
            error: DispatchError::InvalidHandle { handle: h },
        }),
{
    let m = handles.remove(h);
    assert(invalid_at(m, args, i));
    lemma_first_invalid_exists(m, args, i);
}

} // verus!
