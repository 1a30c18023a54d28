use wit_encoder::Interface;
use wit_encoder::Package;
use wit_encoder::PackageName;
use wit_encoder::World;
use wit_flatten::flatten::flatten_packages;
use wit_flatten::flatten::flatten_resolve;
use wit_flatten::flatten::FlattenError;
use wit_flatten::schema::resolve_source;
use wit_flatten::schema::try_add_package_source;

#[test]
fn empty_collection_fails() {
    let packages: Vec<Package> = Vec::new();
    let r = flatten_packages(&packages);
    match r {
        Err(e) => assert_eq!(e.message(), "no packages found"),
        Ok(_) => panic!("flattening an empty collection must fail"),
    }
}

#[test]
fn empty_resolve_fails_before_any_output() {
    let resolve = wit_parser::Resolve::new();
    let r = flatten_resolve(&resolve);
    assert!(matches!(r, Err(FlattenError::NoPackages)));
}

#[test]
fn single_empty_package_exact_output() {
    let package = Package::new(PackageName::new("a", "empty", None));
    let packages = vec![package];
    let doc = flatten_packages(&packages).unwrap();
    assert_eq!(doc, "package a:empty {\n}\n\n");
}

#[test]
fn single_package_one_function() {
    let (resolve, _pkg) = resolve_source(
        "demo.wit",
        "package demo:pkg;\n\nworld host {\n  export foo: func();\n}\n",
    )
    .unwrap();
    let doc = flatten_resolve(&resolve).unwrap();
    assert!(doc.starts_with("package demo:pkg {"));
    assert!(doc.contains("foo: func();"));
    assert!(doc.ends_with("}\n\n"));
    assert_eq!(doc.matches("package demo:pkg {").count(), 1);
}

#[test]
fn order_preserved_across_packages() {
    let names = ["one", "two", "three"];
    let mut packages: Vec<Package> = Vec::new();
    for n in names {
        packages.push(Package::new(PackageName::new("ord", n, None)));
    }
    let doc = flatten_packages(&packages).unwrap();
    assert_eq!(doc.matches("package ord:").count(), 3);
    let p1 = doc.find("package ord:one {").unwrap();
    let p2 = doc.find("package ord:two {").unwrap();
    let p3 = doc.find("package ord:three {").unwrap();
    assert!(p1 < p2);
    assert!(p2 < p3);
}

#[test]
fn item_order_and_fidelity_within_package() {
    let mut package = Package::new(PackageName::new("fid", "items", None));
    package.interface(Interface::new("alpha"));
    package.interface(Interface::new("beta"));
    package.world(World::new("omega"));
    let packages = vec![package];
    let doc = flatten_packages(&packages).unwrap();
    assert_eq!(doc.matches("interface alpha").count(), 1);
    assert_eq!(doc.matches("interface beta").count(), 1);
    assert_eq!(doc.matches("world omega").count(), 1);
    let a = doc.find("interface alpha").unwrap();
    let b = doc.find("interface beta").unwrap();
    let w = doc.find("world omega").unwrap();
    assert!(a < b);
    assert!(b < w);
}

#[test]
fn flatten_is_deterministic() {
    let (resolve, _pkg) = resolve_source(
        "demo.wit",
        "package demo:pkg;\n\nworld host {\n  export foo: func();\n}\n",
    )
    .unwrap();
    let first = flatten_resolve(&resolve).unwrap();
    let second = flatten_resolve(&resolve).unwrap();
    assert_eq!(first, second);
}

#[test]
fn two_packages_cross_reference_roundtrip() {
    let mut resolve = wit_parser::Resolve::new();
    try_add_package_source(
        &mut resolve,
        "one.wit",
        "package a:one;\n\ninterface shapes {\n  record point {\n    x: u32,\n    y: u32,\n  }\n}\n",
    )
    .unwrap();
    try_add_package_source(
        &mut resolve,
        "two.wit",
        "package a:two;\n\nworld app {\n  use a:one/shapes.{point};\n  export dist: func(p: point) -> u32;\n}\n",
    )
    .unwrap();
    let doc = flatten_resolve(&resolve).unwrap();
    let p1 = doc.find("package a:one {").unwrap();
    let p2 = doc.find("package a:two {").unwrap();
    assert!(p1 < p2);

    // The document must re-parse as part of a single compilation unit and
    // yield the same packages with the same items and a resolving
    // cross-reference. The parser family demands one main (unnested) package
    // per compilation unit, so the re-parse happens under a fresh header.
    let unit = format!("package check:roundtrip;\n{doc}");
    let (reparsed, _main) = resolve_source("flatten.wit", &unit).unwrap();
    let before = wit_encoder::packages_from_parsed(&resolve);
    let after = wit_encoder::packages_from_parsed(&reparsed);
    assert_eq!(after.len(), before.len() + 1);
    for b in before.iter() {
        let a = after
            .iter()
            .find(|a| a.name() == b.name())
            .expect("every flattened package must survive the round trip");
        assert_eq!(a.items().len(), b.items().len());
    }
}

#[test]
fn bad_source_is_a_schema_error() {
    let r = resolve_source("bad.wit", "this is not wit at all");
    match r {
        Err(e) => assert!(!e.message.is_empty()),
        Ok(_) => panic!("malformed source must not resolve"),
    }
}

#[test]
fn duplicate_package_identity_is_an_error_not_a_panic() {
    let (mut resolve, _pkg) = resolve_source(
        "demo.wit",
        "package demo:pkg;\n\nworld host {\n  export foo: func();\n}\n",
    )
    .unwrap();
    let r = try_add_package_source(
        &mut resolve,
        "again.wit",
        "package demo:pkg;\n\nworld other {\n  export bar: func();\n}\n",
    );
    match r {
        Err(e) => assert!(e.message.contains("demo:pkg")),
        Ok(_) => panic!("re-adding a package identity must be refused"),
    }
    // The graph is untouched: flattening still shows exactly one block.
    let doc = flatten_resolve(&resolve).unwrap();
    assert_eq!(doc.matches("package demo:pkg {").count(), 1);
}
