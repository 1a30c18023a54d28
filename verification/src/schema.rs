//! Declarations of the wit-parser types that the library's signatures carry,
//! and the verified loading of WIT source text into a schema graph.
//!
//! A resolved schema graph (`wit_parser::Resolve`) and the identifiers into
//! its arenas are opaque values here: the library sequences calls on them and
//! reasons about the results, it never looks inside them. wit-parser indexes
//! its arenas without a check and asserts that a package name is added only
//! once, so the contracts below track which graphs were built by wit-parser
//! itself, which identifiers a graph issued, and which package names it
//! already holds.

use vstd::prelude::*;
use vstd::string::StringExecFns;

verus! {

#[verifier::external_type_specification]
#[verifier::external_body]
pub struct ExResolve(wit_parser::Resolve);

#[verifier::external_type_specification]
#[verifier::external_body]
pub struct ExWitPackage(wit_parser::Package);

#[verifier::external_type_specification]
#[verifier::external_body]
pub struct ExWorld(wit_parser::World);

#[verifier::external_type_specification]
#[verifier::external_body]
pub struct ExFunction(wit_parser::Function);

#[verifier::external_type_specification]
#[verifier::external_body]
#[verifier::reject_recursive_types(T)]
pub struct ExArenaId<T>(id_arena::Id<T>);

/// The graph was built by wit-parser's own resolution (fresh, or grown by a
/// successful push): every identifier held in its maps indexes its arenas.
/// wit-parser's converters unwrap such lookups, so the flattener and the
/// loaders demand this. A `Resolve` assembled by hand from public fields is
/// not covered.
pub uninterp spec fn graph_valid(r: wit_parser::Resolve) -> bool;

/// The package identifier was issued by this resolve: it indexes the
/// resolve's package arena. wit-parser indexes its arenas with such
/// identifiers without a check, so every function that hands one to
/// wit-parser demands this.
pub uninterp spec fn has_package(r: wit_parser::Resolve, p: wit_parser::PackageId) -> bool;

/// The world identifier was issued by this resolve: it indexes the
/// resolve's world arena.
pub uninterp spec fn has_world(r: wit_parser::Resolve, w: wit_parser::WorldId) -> bool;

/// The function belongs to this resolve: every type it mentions resolves in
/// the resolve's type arena (wasm-wave's type resolution demands exactly
/// this of the functions it is given).
pub uninterp spec fn has_function(r: wit_parser::Resolve, f: wit_parser::Function) -> bool;

/// The graph already holds a package whose rendered identity
/// (`namespace:name`, with `@version` when versioned) is this text.
/// wit-parser asserts that the same identity is never added twice, so the
/// push below demands its absence.
pub uninterp spec fn holds_id(r: wit_parser::Resolve, id: Seq<char>) -> bool;

/// The rendered identities of the packages this WIT source text declares
/// (the main package and any nested ones), in the parser's order; empty
/// when the text does not parse.
pub uninterp spec fn declared_ids(contents: Seq<char>) -> Seq<Seq<char>>;

/// What `wit_parser::Resolve::push_source` returns for this graph, path
/// label and source text: the identifier of the package appended on
/// success, or the resolver's report. Parsing and resolution read nothing
/// but these values, so the outcome is a function of them alone.
pub uninterp spec fn push_outcome(
    r: wit_parser::Resolve,
    path: Seq<char>,
    contents: Seq<char>,
) -> Result<wit_parser::PackageId, Seq<char>>;

/// The value `wit_parser::Resolve::new` returns: the one empty graph.
pub uninterp spec fn fresh_graph(unit: ()) -> wit_parser::Resolve;

/// What `wit_parser::Resolve::select_world` returns for this graph and
/// package with no world specifier: the package's one world, or the
/// selection report — a function of the graph and the package.
pub uninterp spec fn world_sel(r: wit_parser::Resolve, p: wit_parser::PackageId) -> Result<
    wit_parser::WorldId,
    Seq<char>,
>;

/// What looking this name up among the world's exports yields — a function
/// of the graph, the world and the name.
pub uninterp spec fn export_of(
    r: wit_parser::Resolve,
    w: wit_parser::WorldId,
    name: Seq<char>,
) -> ExportLookup;

/// The outcome of looking a name up among a world's exports.
pub enum ExportLookup {
    /// The name is exported and is a function.
    Function(wit_parser::Function),
    /// The name is exported, but as an interface or a type.
    NotFunction,
    /// The name is not among the world's exports.
    Missing,
}

/// Relies on `wit_parser::Resolve::new`: a fresh, empty schema graph — the
/// same value on every call; it was built by wit-parser and holds no
/// package.
#[verifier::external_body]
fn resolve_new() -> (r: wit_parser::Resolve)
    ensures
        r == fresh_graph(()),
        graph_valid(r),
        forall|n: Seq<char>| !holds_id(r, n),
{
    wit_parser::Resolve::new()
}

/// Relies on `wit_parser::SourceMap::push_str` and `SourceMap::parse`:
/// reads out the identities of the packages the text declares, without
/// touching the graph. An unparseable text declares none.
#[verifier::external_body]
fn parse_declared_ids(contents: &str) -> (ids: Vec<String>)
    ensures
        ids@.len() == declared_ids(contents@).len(),
        forall|i: int| 0 <= i < ids@.len() ==> ids@[i]@ == declared_ids(contents@)[i],
{
    let mut map = wit_parser::SourceMap::default();
    map.push_str("input.wit", contents);
    match map.parse() {
        Ok(group) => {
            let mut ids = vec![group.main.name.to_string()];
            for pkg in group.nested.iter() {
                ids.push(pkg.name.to_string());
            }
            ids
        },
        Err(_) => Vec::new(),
    }
}

/// Relies on `wit_parser::Resolve::package_names`: whether the graph
/// already holds a package of this rendered identity.
#[verifier::external_body]
fn holds_package_id(resolve: &wit_parser::Resolve, id: &str) -> (b: bool)
    ensures
        b == holds_id(*resolve, id@),
{
    for (name, _) in resolve.package_names.iter() {
        if name.to_string() == id {
            return true;
        }
    }
    false
}

/// Relies on `wit_parser::Resolve::push_source`: parses the contents as a
/// WIT package (the path serves error messages only, nothing is read from
/// disk) and appends it to the graph, returning the identifier the arena
/// issued for it, or the resolver's report. Deterministic in the graph, the
/// path label and the text. Arenas only grow, so identifiers and functions
/// issued earlier stay valid; after a failed push the graph may be partially
/// grown and its validity is not re-promised. wit-parser asserts that an
/// appended package's identity is not already present, so that is demanded
/// here.
#[verifier::external_body]
fn push_source_raw(resolve: &mut wit_parser::Resolve, path: &str, contents: &str) -> (r: Result<
    wit_parser::PackageId,
    String,
>)
    requires
        graph_valid(*old(resolve)),
        forall|i: int|
            0 <= i < declared_ids(contents@).len() ==> !holds_id(
                *old(resolve),
                declared_ids(contents@)[i],
            ),
    ensures
        r matches Ok(id) ==> Ok::<wit_parser::PackageId, Seq<char>>(id) == push_outcome(
            *old(resolve),
            path@,
            contents@,
        ),
        r matches Err(m) ==> Err::<wit_parser::PackageId, Seq<char>>(m@) == push_outcome(
            *old(resolve),
            path@,
            contents@,
        ),
        r is Ok ==> graph_valid(*final(resolve)),
        r is Ok ==> has_package(*final(resolve), r->Ok_0),
        forall|p: wit_parser::PackageId|
            has_package(*old(resolve), p) ==> has_package(*final(resolve), p),
        forall|w: wit_parser::WorldId| has_world(*old(resolve), w) ==> has_world(*final(resolve), w),
        forall|f: wit_parser::Function|
            has_function(*old(resolve), f) ==> has_function(*final(resolve), f),
{
    match resolve.push_source(path, contents) {
        Ok(id) => Ok(id),
        Err(e) => Err(format!("{e:#}")),
    }
}

/// Relies on `wit_parser::Resolve::select_world` with no world specifier:
/// it returns a world identifier out of this resolve's world arena, and it
/// succeeds only when the package has exactly one world; the outcome is a
/// function of the graph and the package. The package identifier must index
/// this resolve's arena.
#[verifier::external_body]
pub(crate) fn select_world_raw(resolve: &wit_parser::Resolve, pkg: &wit_parser::PackageId) -> (r:
    Result<wit_parser::WorldId, String>)
    requires
        has_package(*resolve, *pkg),
    ensures
        r is Ok ==> Ok::<wit_parser::WorldId, Seq<char>>(r->Ok_0) == world_sel(*resolve, *pkg),
        r is Err ==> Err::<wit_parser::WorldId, Seq<char>>(r->Err_0@) == world_sel(
            *resolve,
            *pkg,
        ),
        r is Ok ==> has_world(*resolve, r->Ok_0),
{
    match resolve.select_world(&[*pkg], None) {
        Ok(w) => Ok(w),
        Err(e) => Err(format!("{e:#}")),
    }
}

/// Relies on the world arena's index and `IndexMap::get` on the world's
/// exports, with a `WorldKey::Name` key: tells whether the name is exported
/// as a function, exported as something else, or absent — a function of the
/// graph, the world and the name. A function found among a world's exports
/// has all its types resolved in this resolve.
#[verifier::external_body]
pub(crate) fn world_export_raw(
    resolve: &wit_parser::Resolve,
    world: &wit_parser::WorldId,
    name: &str,
) -> (r: ExportLookup)
    requires
        has_world(*resolve, *world),
    ensures
        r == export_of(*resolve, *world, name@),
        r matches ExportLookup::Function(f) ==> has_function(*resolve, f),
{
    let key = wit_parser::WorldKey::Name(name.to_string());
    match resolve.worlds[*world].exports.get(&key) {
        Some(wit_parser::WorldItem::Function(f)) => ExportLookup::Function(f.clone()),
        Some(_) => ExportLookup::NotFunction,
        None => ExportLookup::Missing,
    }
}

/// An error met while loading a package into the schema graph: the parser's
/// or resolver's own report, or a duplicate package identity.
#[derive(Debug)]
pub struct SchemaError {
    pub message: String,
}

/// Parse WIT source text and add it as one more package of the graph.
///
/// The path only labels error messages; nothing is read from disk. Succeeds
/// exactly when the resolver accepts the text against this graph, returning
/// the identifier it issued; fails with the resolver's own report. Earlier
/// packages of the graph stay valid, and a package whose references point
/// into them resolves against them. The identities the text declares must
/// not be present yet; `try_add_package_source` checks that first.
pub fn add_package_source(
    resolve: &mut wit_parser::Resolve,
    path: &str,
    contents: &str,
) -> (r: Result<wit_parser::PackageId, SchemaError>)
    requires
        graph_valid(*old(resolve)),
        forall|i: int|
            0 <= i < declared_ids(contents@).len() ==> !holds_id(
                *old(resolve),
                declared_ids(contents@)[i],
            ),
    ensures
        r matches Ok(id) ==> push_outcome(*old(resolve), path@, contents@)
            == Ok::<wit_parser::PackageId, Seq<char>>(id),
        r matches Err(e) ==> (push_outcome(*old(resolve), path@, contents@) matches Err(s)
            && e.message@ == s),
        r is Ok ==> graph_valid(*final(resolve)),
        r is Ok ==> has_package(*final(resolve), r->Ok_0),
        forall|p: wit_parser::PackageId|
            has_package(*old(resolve), p) ==> has_package(*final(resolve), p),
        forall|w: wit_parser::WorldId| has_world(*old(resolve), w) ==> has_world(*final(resolve), w),
        forall|f: wit_parser::Function|
            has_function(*old(resolve), f) ==> has_function(*final(resolve), f),
{
    match push_source_raw(resolve, path, contents) {
        Ok(id) => Ok(id),
        Err(message) => Err(SchemaError { message }),
    }
}

/// Parse WIT source text and add it to the graph, first checking that none
/// of the identities it declares is already present; a duplicate is
/// reported as an error, with the graph left unchanged.
pub fn try_add_package_source(
    resolve: &mut wit_parser::Resolve,
    path: &str,
    contents: &str,
) -> (r: Result<wit_parser::PackageId, SchemaError>)
    requires
        graph_valid(*old(resolve)),
    ensures
        r is Ok <==> ((forall|i: int|
            0 <= i < declared_ids(contents@).len() ==> !holds_id(
                *old(resolve),
                declared_ids(contents@)[i],
            )) && push_outcome(*old(resolve), path@, contents@) is Ok),
        r matches Ok(id) ==> push_outcome(*old(resolve), path@, contents@)
            == Ok::<wit_parser::PackageId, Seq<char>>(id),
        r is Ok ==> graph_valid(*final(resolve)),
        r is Ok ==> has_package(*final(resolve), r->Ok_0),
        !(forall|i: int|
            0 <= i < declared_ids(contents@).len() ==> !holds_id(
                *old(resolve),
                declared_ids(contents@)[i],
            )) ==> (r is Err && *final(resolve) == *old(resolve)),
        forall|p: wit_parser::PackageId|
            has_package(*old(resolve), p) ==> has_package(*final(resolve), p),
        forall|w: wit_parser::WorldId| has_world(*old(resolve), w) ==> has_world(*final(resolve), w),
        forall|f: wit_parser::Function|
            has_function(*old(resolve), f) ==> has_function(*final(resolve), f),
{
    let ids = parse_declared_ids(contents);
    let mut i: usize = 0;
    while i < ids.len()
        invariant
            graph_valid(*resolve),
            *resolve == *old(resolve),
            i <= ids@.len(),
            ids@.len() == declared_ids(contents@).len(),
            forall|k: int| 0 <= k < ids@.len() ==> ids@[k]@ == declared_ids(contents@)[k],
            forall|k: int| 0 <= k < i ==> !holds_id(*resolve, declared_ids(contents@)[k]),
        decreases ids@.len() - i,
    {
        if holds_package_id(resolve, ids[i].as_str()) {
            proof {
                assert(holds_id(*old(resolve), declared_ids(contents@)[i as int]));
            }
            let mut message = "package '".to_owned();
            message.append(ids[i].as_str());
            message.append("' is already present in the graph");
            return Err(SchemaError { message });
        }
        i = i + 1;
    }
    add_package_source(resolve, path, contents)
}

/// Parse WIT source text into a fresh schema graph, returning the graph and
/// the identifier of the one package group loaded into it. Succeeds exactly
/// when the resolver accepts the text on its own; fails with the resolver's
/// own report.
pub fn resolve_source(path: &str, contents: &str) -> (r: Result<
    (wit_parser::Resolve, wit_parser::PackageId),
    SchemaError,
>)
    ensures
        r is Ok <==> push_outcome(fresh_graph(()), path@, contents@) is Ok,
        r matches Ok(p) ==> push_outcome(fresh_graph(()), path@, contents@)
            == Ok::<wit_parser::PackageId, Seq<char>>(p.1),
        r matches Err(e) ==> (push_outcome(fresh_graph(()), path@, contents@) matches Err(s)
            && e.message@ == s),
        r matches Ok(p) ==> has_package(p.0, p.1),
        r matches Ok(p) ==> graph_valid(p.0),
{
    let mut resolve = resolve_new();
    match add_package_source(&mut resolve, path, contents) {
        Ok(id) => Ok((resolve, id)),
        Err(e) => Err(e),
    }
}

} // verus!
