//! Trusted surface over wit-encoder's package model and renderer.
//!
//! The flattener copies packages structurally and concatenates their rendered
//! nested blocks; the rendering itself is wit-encoder's. The two named texts
//! below stand for what that renderer prints, as a function of the package
//! alone, and the wrappers promise no more of it than wit-encoder's own
//! `Display` implementations show.

use vstd::prelude::*;

verus! {

#[verifier::external_type_specification]
#[verifier::external_body]
pub struct ExPackage(wit_encoder::Package);

#[verifier::external_type_specification]
#[verifier::external_body]
pub struct ExPackageItem(wit_encoder::PackageItem);

#[verifier::external_type_specification]
#[verifier::external_body]
pub struct ExPackageName(wit_encoder::PackageName);

/// The text wit-encoder's `PackageName` `Display` gives to this package's
/// identity: `namespace:name`, with `@version` appended when a version is set.
pub uninterp spec fn name_text(p: wit_encoder::Package) -> Seq<char>;

/// The items of this package, in their declaration order, as
/// `wit_encoder::Package::items` holds them.
pub uninterp spec fn items_of(p: wit_encoder::Package) -> Seq<wit_encoder::PackageItem>;

/// The declaration text of one package item (an interface or a world) as
/// wit-encoder renders it one indent level deep.
pub uninterp spec fn item_text(it: wit_encoder::PackageItem) -> Seq<char>;

/// The items section of a package as wit-encoder renders it: for each item,
/// in order, a newline followed by that item's declaration text.
pub open spec fn items_section(items: Seq<wit_encoder::PackageItem>) -> Seq<char>
    decreases items.len(),
{
    if items.len() == 0 {
        Seq::empty()
    } else {
        items_section(items.drop_last()) + "\n"@ + item_text(items.last())
    }
}

/// The text of one package rendered as a nested unit, exactly as
/// wit-encoder's `NestedPackage` `Display` prints it at the default render
/// options: the header line naming the package, its items one indent level
/// deep, and the closing brace on its own line.
pub open spec fn nested_text(p: wit_encoder::Package) -> Seq<char> {
    "package "@ + name_text(p) + " {\n"@ + items_section(items_of(p)) + "}\n"@
}

/// Relies on `wit_encoder::NestedPackage::new`, `Package::items_mut` and
/// `NestedPackage`'s `Display` impl: a nested package built from this
/// package's name and a verbatim copy of its items renders, at the default
/// options, as `package <name> {`, a newline, the items section one indent
/// level deep, and `}` followed by a final newline.
#[verifier::external_body]
pub(crate) fn render_nested(p: &wit_encoder::Package) -> (r: String)
    ensures
        r@ == "package "@ + name_text(*p) + " {\n"@ + items_section(items_of(*p)) + "}\n"@,
        items_of(*p).len() > 0 ==> r@ == "package "@ + name_text(*p) + " {\n"@ + items_section(
            items_of(*p).drop_last(),
        ) + "\n"@ + item_text(items_of(*p).last()) + "}\n"@,
        r@ == nested_text(*p),
{
    let mut nested = wit_encoder::NestedPackage::new(p.name().clone());
    *nested.items_mut() = p.items().to_vec();
    nested.to_string()
}

/// The packages that wit-encoder's `packages_from_parsed` derives from a
/// resolved schema graph: a function of the graph alone (it walks the
/// resolve's package arena in its enumeration order and converts each
/// package in turn).
pub uninterp spec fn packages_of(r: wit_parser::Resolve) -> Seq<wit_encoder::Package>;

/// Relies on `wit_encoder::packages_from_parsed`: converts every package of
/// the resolve, in the resolve's own enumeration order. Its converter
/// unwraps arena lookups, so the graph must be one wit-parser built
/// (`graph_valid`), not one assembled by hand from public fields.
#[verifier::external_body]
pub(crate) fn packages_from_resolve(resolve: &wit_parser::Resolve) -> (r: Vec<wit_encoder::Package>)
    requires
        crate::schema::graph_valid(*resolve),
    ensures
        r@ == packages_of(*resolve),
{
    wit_encoder::packages_from_parsed(resolve)
}

} // verus!
