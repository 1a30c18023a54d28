//! Resolving a textual function call against a schema graph.
//!
//! A call expression such as `foo("bar")` is parsed by wasm-wave; the named
//! function is looked up among the exports of the package's one world; its
//! signature is resolved to a wasm-wave function type; and the parsed
//! arguments are converted into typed runtime values, one per declared
//! parameter. Every outside step is deterministic in its arguments, so each
//! step's outcome carries a name and the functions below are pinned to the
//! full case split over those names.

use vstd::prelude::*;
use vstd::string::StringExecFns;
use wasm_wave::wasm::WasmFunc;
use crate::schema::export_of;
use crate::schema::has_function;
use crate::schema::has_package;
use crate::schema::select_world_raw;
use crate::schema::world_export_raw;
use crate::schema::world_sel;
use crate::schema::ExportLookup;

verus! {

#[verifier::external_type_specification]
#[verifier::external_body]
pub struct ExFuncType(wasm_wave::value::FuncType);

#[verifier::external_type_specification]
#[verifier::external_body]
pub struct ExValueType(wasm_wave::value::Type);

#[verifier::external_type_specification]
#[verifier::external_body]
pub struct ExValue(wasm_wave::value::Value);

#[verifier::external_type_specification]
#[verifier::external_body]
pub struct ExUntypedFuncCall<'a>(wasm_wave::untyped::UntypedFuncCall<'a>);

/// The function name that wasm-wave's call parser reads out of a call
/// expression: a function of the source text alone.
pub uninterp spec fn parsed_call_name(input: Seq<char>) -> Seq<char>;

/// What parsing the call expression yields: the parsed call (owned), or the
/// parser's report — a function of the source text alone.
pub uninterp spec fn parse_outcome(input: Seq<char>) -> Result<
    wasm_wave::untyped::UntypedFuncCall<'static>,
    Seq<char>,
>;

/// What resolving this function's signature against the graph yields: the
/// wasm-wave function type, or the resolution report — a function of the
/// graph and the function.
pub uninterp spec fn func_type_of(r: wit_parser::Resolve, f: wit_parser::Function) -> Result<
    wasm_wave::value::FuncType,
    Seq<char>,
>;

/// The parameter types of a wasm-wave function type, in declaration order:
/// a function of the type alone.
pub uninterp spec fn params_of(ft: wasm_wave::value::FuncType) -> Seq<wasm_wave::value::Type>;

/// What converting the parsed call's arguments to these types yields: one
/// typed value per given type, or the conversion report — a function of the
/// parsed call and the types alone.
pub uninterp spec fn wasm_params_of(
    call: wasm_wave::untyped::UntypedFuncCall<'static>,
    types: Seq<wasm_wave::value::Type>,
) -> Result<Seq<wasm_wave::value::Value>, Seq<char>>;

/// The three lookup steps all succeed for this function name: a world is
/// selected, the name is exported as a function, and its signature
/// resolves.
pub open spec fn signature_found(
    r: wit_parser::Resolve,
    p: wit_parser::PackageId,
    name: Seq<char>,
) -> bool {
    world_sel(r, p) matches Ok(w) && export_of(r, w, name) matches ExportLookup::Function(f)
        && func_type_of(r, f) is Ok
}

/// Relies on `wasm_wave::untyped::UntypedFuncCall::parse`, `name` and
/// `into_owned`: parsing is deterministic in the source text, `name`
/// returns the call's function name, and errors are returned, not thrown.
#[verifier::external_body]
fn parse_call_raw(input: &str) -> (r: Result<
    (String, wasm_wave::untyped::UntypedFuncCall<'static>),
    String,
>)
    ensures
        r is Ok ==> r->Ok_0.0@ == parsed_call_name(input@),
        r is Ok ==> Ok::<wasm_wave::untyped::UntypedFuncCall<'static>, Seq<char>>(r->Ok_0.1)
            == parse_outcome(input@),
        r is Err ==> Err::<wasm_wave::untyped::UntypedFuncCall<'static>, Seq<char>>(r->Err_0@)
            == parse_outcome(input@),
{
    match wasm_wave::untyped::UntypedFuncCall::parse(input) {
        Ok(call) => Ok((call.name().to_string(), call.into_owned())),
        Err(e) => Err(format!("{e}")),
    }
}

/// Relies on `wasm_wave::value::resolve_wit_func_type`: resolves the
/// function's signature against the schema graph it belongs to,
/// deterministically in the two.
#[verifier::external_body]
fn resolve_func_type_raw(
    resolve: &wit_parser::Resolve,
    func: &wit_parser::Function,
) -> (r: Result<wasm_wave::value::FuncType, String>)
    requires
        has_function(*resolve, *func),
    ensures
        r is Ok ==> Ok::<wasm_wave::value::FuncType, Seq<char>>(r->Ok_0) == func_type_of(
            *resolve,
            *func,
        ),
        r is Err ==> Err::<wasm_wave::value::FuncType, Seq<char>>(r->Err_0@) == func_type_of(
            *resolve,
            *func,
        ),
{
    match wasm_wave::value::resolve_wit_func_type(resolve, func) {
        Ok(ft) => Ok(ft),
        Err(e) => Err(format!("{e}")),
    }
}

/// Relies on `wasm_wave::wasm::WasmFunc::params` for `FuncType`: yields the
/// declared parameter types in order.
#[verifier::external_body]
fn func_params_raw(ft: &wasm_wave::value::FuncType) -> (r: Vec<wasm_wave::value::Type>)
    ensures
        r@ == params_of(*ft),
{
    ft.params().collect()
}

/// Relies on `wasm_wave::untyped::UntypedFuncCall::to_wasm_params`: on
/// success it yields exactly one value per given type (omitted trailing
/// option-typed parameters come back as `none` values), deterministically
/// in the call and the types.
#[verifier::external_body]
fn to_wasm_params_raw(
    call: &wasm_wave::untyped::UntypedFuncCall<'static>,
    types: &Vec<wasm_wave::value::Type>,
) -> (r: Result<Vec<wasm_wave::value::Value>, String>)
    ensures
        r is Ok ==> Ok::<Seq<wasm_wave::value::Value>, Seq<char>>(r->Ok_0@)
            == wasm_params_of(*call, types@),
        r is Err ==> Err::<Seq<wasm_wave::value::Value>, Seq<char>>(r->Err_0@)
            == wasm_params_of(*call, types@),
        r is Ok ==> r->Ok_0@.len() == types@.len(),
{
    match call.to_wasm_params::<wasm_wave::value::Value>(types.iter()) {
        Ok(vals) => Ok(vals),
        Err(e) => Err(format!("{e}")),
    }
}

/// Why a function's signature could not be found or resolved.
#[derive(Debug)]
pub enum FuncTypeError {
    /// No single world could be selected for the package.
    WorldSelection { message: String },
    /// The named function is not among the world's exports.
    NotFound { name: String },
    /// The name is exported, but not as a function.
    NotAFunction { name: String },
    /// The signature could not be resolved to a wasm-wave function type.
    TypeResolution { name: String, message: String },
}

impl FuncTypeError {
    /// The report for this error; where it concerns a named function, the
    /// name stands inside it.
    pub fn message(&self) -> (r: String)
        ensures
            self matches FuncTypeError::WorldSelection { message } ==> r@ == message@,
            self matches FuncTypeError::NotFound { name } ==> r@ == "function '"@ + name@
                + "' not found in world exports"@,
            self matches FuncTypeError::NotAFunction { name } ==> r@ == "'"@ + name@
                + "' is not a function"@,
            self matches FuncTypeError::TypeResolution { name, message } ==> r@
                == "failed to resolve function type for '"@ + name@ + "': "@ + message@,
    {
        match self {
            FuncTypeError::WorldSelection { message } => message.as_str().to_owned(),
            FuncTypeError::NotFound { name } => {
                let mut s = "function '".to_owned();
                s.append(name.as_str());
                s.append("' not found in world exports");
                s
            },
            FuncTypeError::NotAFunction { name } => {
                let mut s = "'".to_owned();
                s.append(name.as_str());
                s.append("' is not a function");
                s
            },
            FuncTypeError::TypeResolution { name, message } => {
                let mut s = "failed to resolve function type for '".to_owned();
                s.append(name.as_str());
                s.append("': ");
                s.append(message.as_str());
                s
            },
        }
    }
}

/// Find the signature of the named function among the exports of the
/// package's one world and resolve it to a wasm-wave function type.
///
/// Succeeds exactly when a world is selected, the name is exported as a
/// function, and its signature resolves; each failure mode yields its own
/// error, carrying the queried name and the propagated report.
pub fn get_func_type(
    resolve: &wit_parser::Resolve,
    pkg: &wit_parser::PackageId,
    func_name: &str,
) -> (r: Result<wasm_wave::value::FuncType, FuncTypeError>)
    requires
        has_package(*resolve, *pkg),
    ensures
        r is Ok <==> signature_found(*resolve, *pkg, func_name@),
        r matches Ok(t) ==> (world_sel(*resolve, *pkg) matches Ok(w) && export_of(
            *resolve,
            w,
            func_name@,
        ) matches ExportLookup::Function(f) && func_type_of(*resolve, f) == Ok::<
            wasm_wave::value::FuncType,
            Seq<char>,
        >(t)),
        (r matches Err(e) && e is WorldSelection) <==> world_sel(*resolve, *pkg) is Err,
        r matches Err(FuncTypeError::WorldSelection { message }) ==> (world_sel(
            *resolve,
            *pkg,
        ) matches Err(m) && message@ == m),
        (r matches Err(e) && e is NotFound) <==> (world_sel(*resolve, *pkg) matches Ok(w)
            && export_of(*resolve, w, func_name@) is Missing),
        (r matches Err(e) && e is NotAFunction) <==> (world_sel(*resolve, *pkg) matches Ok(w)
            && export_of(*resolve, w, func_name@) is NotFunction),
        (r matches Err(e) && e is TypeResolution) <==> (world_sel(*resolve, *pkg) matches Ok(w)
            && export_of(*resolve, w, func_name@) matches ExportLookup::Function(f)
            && func_type_of(*resolve, f) is Err),
        r matches Err(FuncTypeError::TypeResolution { name, message }) ==> (world_sel(
            *resolve,
            *pkg,
        ) matches Ok(w) && export_of(*resolve, w, func_name@) matches ExportLookup::Function(f)
            && func_type_of(*resolve, f) matches Err(m) && message@ == m),
        r matches Err(FuncTypeError::NotFound { name }) ==> name@ == func_name@,
        r matches Err(FuncTypeError::NotAFunction { name }) ==> name@ == func_name@,
        r matches Err(FuncTypeError::TypeResolution { name, .. }) ==> name@ == func_name@,
{
    let world_id = match select_world_raw(resolve, pkg) {
        Ok(w) => w,
        Err(message) => {
            return Err(FuncTypeError::WorldSelection { message });
        },
    };
    let func = match world_export_raw(resolve, &world_id, func_name) {
        ExportLookup::Function(f) => f,
        ExportLookup::NotFunction => {
            return Err(FuncTypeError::NotAFunction { name: func_name.to_owned() });
        },
        ExportLookup::Missing => {
            return Err(FuncTypeError::NotFound { name: func_name.to_owned() });
        },
    };
    match resolve_func_type_raw(resolve, &func) {
        Ok(ft) => Ok(ft),
        Err(message) => Err(FuncTypeError::TypeResolution { name: func_name.to_owned(), message }),
    }
}

/// A call expression resolved against the schema: the function's name, its
/// resolved signature, and one typed argument value per declared parameter.
pub struct TypedCall {
    pub name: String,
    pub func_type: wasm_wave::value::FuncType,
    pub args: Vec<wasm_wave::value::Value>,
}

/// Why a call expression could not be resolved to typed values.
#[derive(Debug)]
pub enum CallError {
    /// The call expression itself did not parse.
    Parse { message: String },
    /// The named function's signature could not be found or resolved.
    Signature(FuncTypeError),
    /// The parsed arguments did not fit the declared parameters.
    Params { message: String },
}

impl CallError {
    /// The report for this error.
    pub fn message(&self) -> (r: String)
        ensures
            self matches CallError::Parse { message } ==> r@ == message@,
            self matches CallError::Params { message } ==> r@ == message@,
            self matches CallError::Signature(FuncTypeError::WorldSelection { message }) ==> r@
                == message@,
            self matches CallError::Signature(FuncTypeError::NotFound { name }) ==> r@
                == "function '"@ + name@ + "' not found in world exports"@,
            self matches CallError::Signature(FuncTypeError::NotAFunction { name }) ==> r@ == "'"@
                + name@ + "' is not a function"@,
            self matches CallError::Signature(FuncTypeError::TypeResolution { name, message })
                ==> r@ == "failed to resolve function type for '"@ + name@ + "': "@ + message@,
    {
        match self {
            CallError::Parse { message } => message.as_str().to_owned(),
            CallError::Signature(e) => e.message(),
            CallError::Params { message } => message.as_str().to_owned(),
        }
    }
}

/// Parse a call expression and resolve it against the package's one world.
///
/// Succeeds exactly when the expression parses, the named function's
/// signature is found and resolves, and the arguments convert to the
/// declared parameter types; the result then carries the parsed name, the
/// resolved signature, and exactly one typed value per declared parameter.
/// Each failure mode yields its own error.
pub fn eval_call(
    resolve: &wit_parser::Resolve,
    pkg: &wit_parser::PackageId,
    input: &str,
) -> (r: Result<TypedCall, CallError>)
    requires
        has_package(*resolve, *pkg),
    ensures
        r is Ok <==> (parse_outcome(input@) matches Ok(call) && world_sel(
            *resolve,
            *pkg,
        ) matches Ok(w) && export_of(
            *resolve,
            w,
            parsed_call_name(input@),
        ) matches ExportLookup::Function(f) && func_type_of(*resolve, f) matches Ok(t)
            && wasm_params_of(call, params_of(t)) is Ok),
        r matches Ok(c) ==> c.name@ == parsed_call_name(input@),
        r matches Ok(c) ==> (parse_outcome(input@) matches Ok(call) && world_sel(
            *resolve,
            *pkg,
        ) matches Ok(w) && export_of(
            *resolve,
            w,
            c.name@,
        ) matches ExportLookup::Function(f) && func_type_of(*resolve, f) == Ok::<
            wasm_wave::value::FuncType,
            Seq<char>,
        >(c.func_type) && wasm_params_of(call, params_of(c.func_type)) == Ok::<
            Seq<wasm_wave::value::Value>,
            Seq<char>,
        >(c.args@)),
        r matches Ok(c) ==> c.args@.len() == params_of(c.func_type).len(),
        (r matches Err(e) && e is Parse) <==> parse_outcome(input@) is Err,
        r matches Err(CallError::Parse { message }) ==> (parse_outcome(input@) matches Err(m)
            && message@ == m),
        (r matches Err(e) && e is Signature) <==> (parse_outcome(input@) is Ok
            && !signature_found(*resolve, *pkg, parsed_call_name(input@))),
        r matches Err(CallError::Signature(FuncTypeError::NotFound { name })) ==> name@
            == parsed_call_name(input@),
        r matches Err(CallError::Signature(FuncTypeError::NotAFunction { name })) ==> name@
            == parsed_call_name(input@),
        (r matches Err(e) && e is Params) <==> (parse_outcome(input@) matches Ok(call)
            && world_sel(*resolve, *pkg) matches Ok(w) && export_of(
            *resolve,
            w,
            parsed_call_name(input@),
        ) matches ExportLookup::Function(f) && func_type_of(*resolve, f) matches Ok(t)
            && wasm_params_of(call, params_of(t)) is Err),
{
    let (name, call) = match parse_call_raw(input) {
        Ok(p) => p,
        Err(message) => {
            return Err(CallError::Parse { message });
        },
    };
    let func_type = match get_func_type(resolve, pkg, name.as_str()) {
        Ok(t) => t,
        Err(e) => {
            return Err(CallError::Signature(e));
        },
    };
    let types = func_params_raw(&func_type);
    let args = match to_wasm_params_raw(&call, &types) {
        Ok(v) => v,
        Err(message) => {
            return Err(CallError::Params { message });
        },
    };
    Ok(TypedCall { name, func_type, args })
}

} // verus!
