use wit_flatten::calls::eval_call;
use wit_flatten::calls::get_func_type;
use wit_flatten::calls::CallError;
use wit_flatten::calls::FuncTypeError;
use wit_flatten::schema::resolve_source;

const DEMO: &str = "package demo:pkg;\n\nworld host {\n  export queue-shader: func(source: string);\n}\n";

#[test]
fn resolves_the_demo_call() {
    let (resolve, pkg) = resolve_source("demo.wit", DEMO).unwrap();
    let call = eval_call(&resolve, &pkg, "queue-shader(\"\")").unwrap();
    assert_eq!(call.name, "queue-shader");
    assert_eq!(call.args.len(), 1);
}

#[test]
fn omitted_trailing_option_still_yields_one_value_per_param() {
    let (resolve, pkg) = resolve_source(
        "opt.wit",
        "package demo:opt;\n\nworld host {\n  export tune: func(level: u32, extra: option<string>);\n}\n",
    )
    .unwrap();
    let call = eval_call(&resolve, &pkg, "tune(7)").unwrap();
    assert_eq!(call.name, "tune");
    assert_eq!(call.args.len(), 2);
}

#[test]
fn unknown_function_is_not_found() {
    let (resolve, pkg) = resolve_source("demo.wit", DEMO).unwrap();
    let r = get_func_type(&resolve, &pkg, "nope");
    match r {
        Err(e @ FuncTypeError::NotFound { .. }) => {
            assert_eq!(e.message(), "function 'nope' not found in world exports");
        }
        _ => panic!("an unknown export must report not-found"),
    }
}

#[test]
fn non_function_export_is_rejected() {
    let (resolve, pkg) = resolve_source(
        "iface.wit",
        "package demo:iface;\n\nworld host {\n  export helpers: interface {\n    help: func();\n  }\n}\n",
    )
    .unwrap();
    let r = get_func_type(&resolve, &pkg, "helpers");
    match r {
        Err(e @ FuncTypeError::NotAFunction { .. }) => {
            assert_eq!(e.message(), "'helpers' is not a function");
        }
        _ => panic!("an interface export must not pass as a function"),
    }
}

#[test]
fn package_without_world_fails_world_selection() {
    let (resolve, pkg) = resolve_source(
        "noworld.wit",
        "package demo:noworld;\n\ninterface only {\n  ping: func();\n}\n",
    )
    .unwrap();
    let r = get_func_type(&resolve, &pkg, "ping");
    match r {
        Err(FuncTypeError::WorldSelection { message }) => assert!(!message.is_empty()),
        _ => panic!("a package with no world must fail world selection"),
    }
}

#[test]
fn malformed_call_expression_is_a_parse_error() {
    let (resolve, pkg) = resolve_source("demo.wit", DEMO).unwrap();
    let r = eval_call(&resolve, &pkg, "queue-shader(");
    match r {
        Err(CallError::Parse { message }) => assert!(!message.is_empty()),
        _ => panic!("an unterminated call must fail to parse"),
    }
}

#[test]
fn wrong_argument_count_is_a_params_error() {
    let (resolve, pkg) = resolve_source(
        "zero.wit",
        "package demo:zero;\n\nworld host {\n  export go: func();\n}\n",
    )
    .unwrap();
    let r = eval_call(&resolve, &pkg, "go(1, 2)");
    match r {
        Err(CallError::Params { message }) => assert!(!message.is_empty()),
        _ => panic!("surplus arguments must be rejected"),
    }
}

#[test]
fn signature_error_surfaces_through_eval_call() {
    let (resolve, pkg) = resolve_source("demo.wit", DEMO).unwrap();
    let r = eval_call(&resolve, &pkg, "missing()");
    match r {
        Err(e @ CallError::Signature(FuncTypeError::NotFound { .. })) => {
            assert_eq!(e.message(), "function 'missing' not found in world exports");
        }
        _ => panic!("an unknown function must surface as a signature error"),
    }
}
