use caml_dyn_call::dispatch::{convention, Arg, CallStep, Convention, DispatchError, Session, Val};
use caml_dyn_call::protocol::{rendered, Command, Response, Step};

/// A stand-in for the foreign runtime: values are integers or strings, and
/// a few functions are registered by name.
#[derive(Clone, Debug, PartialEq)]
enum Foreign {
    Int(i64),
    Str(String),
}

struct Runtime {
    values: Vec<Option<Foreign>>,
    lookups: Vec<String>,
    invocations: usize,
}

const REGISTERED: [&str; 4] = ["parse_int", "add", "print_int", "identity"];

impl Runtime {
    fn new() -> Self {
        Runtime { values: Vec::new(), lookups: Vec::new(), invocations: 0 }
    }

    fn resolve(&mut self, name: &str) -> Option<u64> {
        self.lookups.push(name.to_string());
        REGISTERED.iter().position(|n| *n == name).map(|i| i as u64)
    }

    fn arg(&self, a: &Arg) -> Foreign {
        match a {
            Arg::Value(obj) => self.values[*obj as usize].clone().unwrap(),
            Arg::Text(s) => Foreign::Str(s.clone()),
        }
    }

    fn invoke(&mut self, func: u64, args: &[Arg]) -> Result<u64, String> {
        self.invocations += 1;
        let args: Vec<Foreign> = args.iter().map(|a| self.arg(a)).collect();
        let result = match (REGISTERED[func as usize], args.as_slice()) {
            ("parse_int", [Foreign::Str(s)]) => {
                Foreign::Int(s.parse().map_err(|_| "Failure(\"int_of_string\")".to_string())?)
            }
            ("add", [Foreign::Int(x), Foreign::Int(y)]) => Foreign::Int(x + y),
            ("print_int", [Foreign::Int(x)]) => Foreign::Str(x.to_string()),
            ("identity", [v]) => v.clone(),
            _ => return Err("Invalid_argument".to_string()),
        };
        self.values.push(Some(result));
        Ok(self.values.len() as u64 - 1)
    }

    fn string_of(&self, obj: u64) -> String {
        match self.values[obj as usize].clone().unwrap() {
            Foreign::Int(i) => i.to_string(),
            Foreign::Str(s) => s,
        }
    }

    fn release(&mut self, obj: u64) {
        self.values[obj as usize] = None;
    }
}

fn call(s: &mut Session, rt: &mut Runtime, name: &str, args: Vec<Val>) -> Result<u64, DispatchError> {
    let name = name.to_string();
    let mut step = s.begin_call(&name, &args);
    loop {
        match step {
            CallStep::Lookup { name } => {
                let found = rt.resolve(&name);
                step = s.resolved(&name, found, &args);
            }
            CallStep::Invoke { func, args } => return s.returned(rt.invoke(func, &args)),
            CallStep::Failed { error } => return Err(error),
        }
    }
}

fn command(s: &mut Session, rt: &mut Runtime, cmd: Command) -> Response {
    let mut step = s.begin_command(&cmd);
    loop {
        match step {
            Step::Lookup { name } => {
                let found = rt.resolve(&name);
                let args = match &cmd {
                    Command::Call { args, .. } => args.clone(),
                    _ => unreachable!(),
                };
                step = s.command_resolved(&name, found, &args);
            }
            Step::Invoke { func, args } => return s.command_returned(rt.invoke(func, &args)),
            Step::Render { obj } => return rendered(rt.string_of(obj)),
            Step::Reply { response, release } => {
                if let Some(obj) = release {
                    rt.release(obj);
                }
                return response;
            }
        }
    }
}

fn text(v: &str) -> Val {
    Val::String(v.to_string())
}

#[test]
fn add_of_parsed_ints_prints_579() {
    let mut s = Session::new();
    let mut rt = Runtime::new();
    let a = call(&mut s, &mut rt, "parse_int", vec![text("123")]).unwrap();
    let b = call(&mut s, &mut rt, "parse_int", vec![text("456")]).unwrap();
    let c = call(&mut s, &mut rt, "add", vec![Val::Token(a), Val::Token(b)]).unwrap();
    let d = call(&mut s, &mut rt, "print_int", vec![Val::Token(c)]).unwrap();
    let obj = s.value_of(d).unwrap();
    assert_eq!(rt.string_of(obj), "579");
    assert_eq!(s.handle_count(), 4);
}

#[test]
fn identity_round_trips_a_string() {
    let mut s = Session::new();
    let mut rt = Runtime::new();
    let h = call(&mut s, &mut rt, "identity", vec![text("Hello, World!")]).unwrap();
    let r = command(&mut s, &mut rt, Command::Str { key: h });
    assert_eq!(r, Response::Success { val: Val::String("Hello, World!".to_string()) });
}

#[test]
fn repeated_name_is_looked_up_once() {
    let mut s = Session::new();
    let mut rt = Runtime::new();
    for _ in 0..3 {
        call(&mut s, &mut rt, "parse_int", vec![text("1")]).unwrap();
    }
    let h = call(&mut s, &mut rt, "parse_int", vec![text("2")]).unwrap();
    call(&mut s, &mut rt, "print_int", vec![Val::Token(h)]).unwrap();
    assert_eq!(rt.lookups.iter().filter(|n| *n == "parse_int").count(), 1);
    assert_eq!(rt.lookups.iter().filter(|n| *n == "print_int").count(), 1);
    assert_eq!(s.cached_function(&"parse_int".to_string()), Some(0));
    assert_eq!(s.cached_function(&"print_int".to_string()), Some(2));
}

#[test]
fn unknown_function_fails_without_invoking() {
    let mut s = Session::new();
    let mut rt = Runtime::new();
    let r = call(&mut s, &mut rt, "nope", vec![text("1")]);
    assert_eq!(r, Err(DispatchError::UnknownFunction { name: "nope".to_string() }));
    assert_eq!(rt.invocations, 0);
    assert_eq!(s.cached_function(&"nope".to_string()), None);
    let r = command(&mut s, &mut rt, Command::Call { name: "nope".to_string(), args: vec![] });
    assert_eq!(r, Response::Failure { msg: "Function nope not found".to_string() });
    assert_eq!(rt.invocations, 0);
    assert_eq!(s.handle_count(), 0);
}

#[test]
fn disposed_argument_fails_without_invoking() {
    let mut s = Session::new();
    let mut rt = Runtime::new();
    let a = call(&mut s, &mut rt, "parse_int", vec![text("7")]).unwrap();
    let invoked = rt.invocations;
    assert_eq!(s.dispose(a), Some(0));
    let r = call(&mut s, &mut rt, "print_int", vec![Val::Token(a)]);
    assert_eq!(r, Err(DispatchError::InvalidHandle { handle: a }));
    assert_eq!(rt.invocations, invoked);
    let r = call(&mut s, &mut rt, "print_int", vec![Val::Token(a)]);
    assert_eq!(r, Err(DispatchError::InvalidHandle { handle: a }));
    assert_eq!(rt.invocations, invoked);
}

#[test]
fn first_invalid_argument_is_reported() {
    let mut s = Session::new();
    let mut rt = Runtime::new();
    let a = call(&mut s, &mut rt, "parse_int", vec![text("7")]).unwrap();
    let step = s.begin_call(&"add".to_string(), &vec![Val::Token(a), Val::Token(99), Val::Token(98)]);
    assert_eq!(step, CallStep::Lookup { name: "add".to_string() });
    let step = s.resolved(&"add".to_string(), Some(1), &vec![Val::Token(a), Val::Token(99), Val::Token(98)]);
    assert_eq!(step, CallStep::Failed { error: DispatchError::InvalidHandle { handle: 99 } });
}

#[test]
fn arguments_are_prepared_in_order() {
    let mut s = Session::new();
    let a = s.returned(Ok(41)).unwrap();
    let b = s.returned(Ok(42)).unwrap();
    let args = vec![Val::Token(b), text("x"), Val::Token(a)];
    let step = s.resolved(&"f".to_string(), Some(3), &args);
    assert_eq!(
        step,
        CallStep::Invoke { func: 3, args: vec![Arg::Value(42), Arg::Text("x".to_string()), Arg::Value(41)] }
    );
    let step = s.begin_call(&"f".to_string(), &vec![]);
    assert_eq!(step, CallStep::Invoke { func: 3, args: vec![] });
}

#[test]
fn resolved_keeps_an_earlier_entry() {
    let mut s = Session::new();
    s.resolved(&"f".to_string(), Some(3), &vec![]);
    s.resolved(&"f".to_string(), Some(9), &vec![]);
    assert_eq!(s.cached_function(&"f".to_string()), Some(3));
}

#[test]
fn foreign_error_is_reported_with_its_message() {
    let mut s = Session::new();
    let mut rt = Runtime::new();
    let r = call(&mut s, &mut rt, "parse_int", vec![text("abc")]);
    assert_eq!(r, Err(DispatchError::Foreign { message: "Failure(\"int_of_string\")".to_string() }));
    assert_eq!(s.handle_count(), 0);
    let r = command(
        &mut s,
        &mut rt,
        Command::Call { name: "parse_int".to_string(), args: vec![text("abc")] },
    );
    assert_eq!(r, Response::Failure { msg: "Failure(\"int_of_string\")".to_string() });
}

#[test]
fn protocol_call_str_dis_sequence() {
    let mut s = Session::new();
    let mut rt = Runtime::new();
    let r = command(
        &mut s,
        &mut rt,
        Command::Call { name: "parse_int".to_string(), args: vec![text("123")] },
    );
    let h = match r {
        Response::Success { val: Val::Token(h) } => h,
        other => panic!("unexpected {:?}", other),
    };
    let r = command(&mut s, &mut rt, Command::Str { key: h });
    assert_eq!(r, Response::Success { val: Val::String("123".to_string()) });
    let r = command(&mut s, &mut rt, Command::Dis { key: h });
    assert_eq!(r, Response::Success { val: Val::Token(h) });
    assert_eq!(rt.values[0], None);
    let r = command(&mut s, &mut rt, Command::Str { key: h });
    assert_eq!(r, Response::Failure { msg: format!("Invalid key {}", h) });
    let r = command(&mut s, &mut rt, Command::Dis { key: h });
    assert_eq!(r, Response::Success { val: Val::Token(h) });
}

#[test]
fn dispose_step_names_the_value_to_release() {
    let mut s = Session::new();
    let h = s.returned(Ok(5)).unwrap();
    let step = s.begin_command(&Command::Dis { key: h });
    assert_eq!(step, Step::Reply { response: Response::Success { val: Val::Token(h) }, release: Some(5) });
    let step = s.begin_command(&Command::Dis { key: h });
    assert_eq!(step, Step::Reply { response: Response::Success { val: Val::Token(h) }, release: None });
}

#[test]
fn convention_follows_argument_count() {
    assert_eq!(convention(0), Convention::Unit);
    assert_eq!(convention(1), Convention::One);
    assert_eq!(convention(2), Convention::Two);
    assert_eq!(convention(3), Convention::Three);
    assert_eq!(convention(4), Convention::Vector);
    assert_eq!(convention(usize::MAX), Convention::Vector);
}

#[test]
fn malformed_line_leaves_session_as_it_was() {
    let mut s = Session::new();
    let mut rt = Runtime::new();
    let h = call(&mut s, &mut rt, "parse_int", vec![text("5")]).unwrap();
    let step = s.begin_line(Err("expected value at line 1 column 1".to_string()));
    assert_eq!(
        step,
        Step::Reply {
            response: Response::Failure { msg: "Invalid JSON: expected value at line 1 column 1".to_string() },
            release: None,
        }
    );
    assert_eq!(s.handle_count(), 1);
    let r = command(&mut s, &mut rt, Command::Str { key: h });
    assert_eq!(r, Response::Success { val: Val::String("5".to_string()) });
    let step = s.begin_line(Ok(Command::Str { key: h }));
    assert_eq!(step, Step::Render { obj: 0 });
}

#[test]
fn handles_are_never_reissued() {
    let mut s = Session::new();
    let mut seen = Vec::new();
    for i in 0..50u64 {
        let h = s.returned(Ok(i)).unwrap();
        assert!(!seen.contains(&h));
        seen.push(h);
        assert_eq!(s.dispose(h), Some(i));
    }
    for h in &seen {
        assert_eq!(s.value_of(*h), Err(DispatchError::InvalidHandle { handle: *h }));
    }
}
