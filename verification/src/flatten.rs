//! The package flattener: the one non-trivial transformation of this library.
//!
//! It turns a non-empty ordered sequence of resolved packages into a single
//! textual document, one nested block per package, in the input order, each
//! block followed by a newline separator. An empty sequence is rejected
//! before anything is produced.
//!
//! Every package is nested uniformly, the designated main package included:
//! no package is rendered bare at the top level. Note that the consuming
//! parser family demands one main, unnested package per compilation unit,
//! so a document of only nested blocks re-parses when placed in a unit that
//! supplies such a header, not on its own.

use vstd::prelude::*;
use vstd::string::StringExecFns;
use crate::render::item_text;
use crate::render::items_of;
use crate::render::items_section;
use crate::render::name_text;
use crate::render::nested_text;
use crate::render::packages_of;
use crate::render::packages_from_resolve;
use crate::render::render_nested;

verus! {

/// The flattener's error: there was nothing to flatten.
#[derive(Debug)]
pub enum FlattenError {
    NoPackages,
}

impl FlattenError {
    /// The message the flattener reports for this error.
    pub fn message(&self) -> (r: &'static str)
        ensures
            r@ == "no packages found"@,
    {
        "no packages found"
    }
}

/// One block of the flattened document: the package rendered as a nested
/// unit, followed by the newline separator.
pub open spec fn block_text(p: wit_encoder::Package) -> Seq<char> {
    nested_text(p) + "\n"@
}

/// The whole flattened document for a package sequence: the blocks of all
/// packages, concatenated in order.
pub open spec fn flat_doc(ps: Seq<wit_encoder::Package>) -> Seq<char>
    decreases ps.len(),
{
    if ps.len() == 0 {
        Seq::empty()
    } else {
        flat_doc(ps.drop_last()) + block_text(ps.last())
    }
}

/// Flatten an ordered collection of packages into one document.
///
/// Fails exactly on an empty collection; otherwise the result is the
/// concatenation, in input order, of every package's nested block followed
/// by a newline.
pub fn flatten_packages(packages: &Vec<wit_encoder::Package>) -> (r: Result<
    String,
    FlattenError,
>)
    ensures
        r is Err <==> packages@.len() == 0,
        r is Err ==> r->Err_0 is NoPackages,
        r is Ok ==> r->Ok_0@ == flat_doc(packages@),
{
    if packages.len() == 0 {
        return Err(FlattenError::NoPackages);
    }
    let mut out = String::new();
    let mut i: usize = 0;
    while i < packages.len()
        invariant
            i <= packages@.len(),
            out@ == flat_doc(packages@.take(i as int)),
        decreases packages@.len() - i,
    {
        let block = render_nested(&packages[i]);
        out.append(block.as_str());
        out.append("\n");
        proof {
            assert(packages@.take(i + 1).drop_last() =~= packages@.take(i as int));
        }
        i = i + 1;
    }
    proof {
        assert(packages@.take(packages@.len() as int) =~= packages@);
    }
    Ok(out)
}

/// The start position of block `i` within the flattened document: the total
/// length of the blocks that come before it.
pub open spec fn doc_offset(ps: Seq<wit_encoder::Package>, i: int) -> int
    decreases i,
{
    if i <= 0 {
        0
    } else {
        doc_offset(ps, i - 1) + block_text(ps[i - 1]).len()
    }
}

proof fn lemma_doc_offset_nonneg(ps: Seq<wit_encoder::Package>, i: int)
    ensures
        doc_offset(ps, i) >= 0,
    decreases i,
{
    if i > 0 {
        lemma_doc_offset_nonneg(ps, i - 1);
    }
}

proof fn lemma_doc_offset_prefix(ps: Seq<wit_encoder::Package>, i: int)
    requires
        0 <= i < ps.len(),
    ensures
        doc_offset(ps.drop_last(), i) == doc_offset(ps, i),
    decreases i,
{
    if i > 0 {
        lemma_doc_offset_prefix(ps, i - 1);
    }
}

/// The blocks tile the document: its length is the end offset of the last
/// block.
pub proof fn lemma_doc_len(ps: Seq<wit_encoder::Package>)
    ensures
        flat_doc(ps).len() == doc_offset(ps, ps.len() as int),
    decreases ps.len(),
{
    if ps.len() > 0 {
        lemma_doc_len(ps.drop_last());
        lemma_doc_offset_prefix(ps, ps.len() - 1);
    }
}

/// Order preservation and block fidelity: the flattened document of `n`
/// packages consists of exactly `n` blocks, in the input order; block `i`
/// stands at offset `doc_offset(ps, i)`, ends where block `i + 1` begins,
/// and is, verbatim, package `i`'s nested block text.
pub proof fn lemma_doc_blocks(ps: Seq<wit_encoder::Package>, i: int)
    requires
        0 <= i < ps.len(),
    ensures
        doc_offset(ps, i + 1) == doc_offset(ps, i) + block_text(ps[i]).len(),
        0 <= doc_offset(ps, i),
        doc_offset(ps, i + 1) <= flat_doc(ps).len(),
        flat_doc(ps).subrange(doc_offset(ps, i), doc_offset(ps, i + 1)) == block_text(ps[i]),
    decreases ps.len(),
{
    lemma_doc_offset_nonneg(ps, i);
    lemma_doc_len(ps);
    if i == ps.len() - 1 {
        lemma_doc_len(ps.drop_last());
        lemma_doc_offset_prefix(ps, i);
        assert(flat_doc(ps).subrange(doc_offset(ps, i), doc_offset(ps, i + 1)) =~= block_text(
            ps[i],
        ));
    } else {
        lemma_doc_blocks(ps.drop_last(), i);
        lemma_doc_offset_prefix(ps, i);
        lemma_doc_offset_prefix(ps, i + 1);
        assert(flat_doc(ps).subrange(doc_offset(ps, i), doc_offset(ps, i + 1)) =~= flat_doc(
            ps.drop_last(),
        ).subrange(doc_offset(ps.drop_last(), i), doc_offset(ps.drop_last(), i + 1)));
    }
}

/// Each block names its package: at the start of block `i` the document
/// reads `package `, followed by package `i`'s rendered identity.
pub proof fn lemma_doc_block_names(ps: Seq<wit_encoder::Package>, i: int)
    requires
        0 <= i < ps.len(),
    ensures
        flat_doc(ps).subrange(doc_offset(ps, i), doc_offset(ps, i) + 8) == "package "@,
        flat_doc(ps).subrange(
            doc_offset(ps, i) + 8,
            doc_offset(ps, i) + 8 + name_text(ps[i]).len(),
        ) == name_text(ps[i]),
{
    lemma_doc_blocks(ps, i);
    reveal_strlit("package ");
    assert(flat_doc(ps).subrange(doc_offset(ps, i), doc_offset(ps, i) + 8) =~= "package "@);
    let off = doc_offset(ps, i);
    let b = block_text(ps[i]);
    let name = name_text(ps[i]);
    assert forall|k: int| 0 <= k < name.len() implies flat_doc(ps)[off + 8 + k] == name[k] by {
        assert(("package "@ + name)[8 + k] == name[k]);
        assert(b[8 + k] == ("package "@ + name)[8 + k]);
        assert(flat_doc(ps).subrange(off, doc_offset(ps, i + 1))[8 + k] == b[8 + k]);
    }
    assert(flat_doc(ps).subrange(off + 8, off + 8 + name.len()) =~= name);
}

/// The start position of item `j` within a package's items section: each
/// earlier item contributes its separating newline and its text.
pub open spec fn item_offset(items: Seq<wit_encoder::PackageItem>, j: int) -> int
    decreases j,
{
    if j <= 0 {
        0
    } else {
        item_offset(items, j - 1) + 1 + item_text(items[j - 1]).len()
    }
}

proof fn lemma_item_offset_nonneg(items: Seq<wit_encoder::PackageItem>, j: int)
    ensures
        item_offset(items, j) >= 0,
    decreases j,
{
    if j > 0 {
        lemma_item_offset_nonneg(items, j - 1);
    }
}

proof fn lemma_item_offset_prefix(items: Seq<wit_encoder::PackageItem>, j: int)
    requires
        0 <= j < items.len(),
    ensures
        item_offset(items.drop_last(), j) == item_offset(items, j),
    decreases j,
{
    if j > 0 {
        lemma_item_offset_prefix(items, j - 1);
    }
}

/// The items tile the section: its length is the end offset of the last
/// item.
pub proof fn lemma_section_len(items: Seq<wit_encoder::PackageItem>)
    ensures
        items_section(items).len() == item_offset(items, items.len() as int),
    decreases items.len(),
{
    reveal_strlit("\n");
    if items.len() > 0 {
        lemma_section_len(items.drop_last());
        lemma_item_offset_prefix(items, items.len() - 1);
    }
}

/// Item order and fidelity within one package: the items section consists
/// of exactly one entry per item, in declaration order; entry `j` stands at
/// offset `item_offset(items, j)` and is, verbatim, a newline followed by
/// item `j`'s declaration text.
pub proof fn lemma_section_items(items: Seq<wit_encoder::PackageItem>, j: int)
    requires
        0 <= j < items.len(),
    ensures
        item_offset(items, j + 1) == item_offset(items, j) + 1 + item_text(items[j]).len(),
        0 <= item_offset(items, j),
        item_offset(items, j + 1) <= items_section(items).len(),
        items_section(items).subrange(item_offset(items, j), item_offset(items, j + 1)) == "\n"@
            + item_text(items[j]),
    decreases items.len(),
{
    reveal_strlit("\n");
    lemma_item_offset_nonneg(items, j);
    lemma_section_len(items);
    if j == items.len() - 1 {
        lemma_section_len(items.drop_last());
        lemma_item_offset_prefix(items, j);
        assert(items_section(items).subrange(item_offset(items, j), item_offset(items, j + 1))
            =~= "\n"@ + item_text(items[j]));
    } else {
        lemma_section_items(items.drop_last(), j);
        lemma_item_offset_prefix(items, j);
        lemma_item_offset_prefix(items, j + 1);
        assert(items_section(items).subrange(item_offset(items, j), item_offset(items, j + 1))
            =~= items_section(items.drop_last()).subrange(
            item_offset(items.drop_last(), j),
            item_offset(items.drop_last(), j + 1),
        ));
    }
}

/// Item fidelity of the whole document: entry `j` of package `i`'s block —
/// a newline followed by that item's declaration text, verbatim — stands in
/// the flattened document right after the block's header, at the item's own
/// offset within the items section.
pub proof fn lemma_doc_items(ps: Seq<wit_encoder::Package>, i: int, j: int)
    requires
        0 <= i < ps.len(),
        0 <= j < items_of(ps[i]).len(),
    ensures
        flat_doc(ps).subrange(
            doc_offset(ps, i) + 11 + name_text(ps[i]).len() + item_offset(items_of(ps[i]), j),
            doc_offset(ps, i) + 11 + name_text(ps[i]).len() + item_offset(
                items_of(ps[i]),
                j + 1,
            ),
        ) == "\n"@ + item_text(items_of(ps[i])[j]),
{
    lemma_doc_blocks(ps, i);
    lemma_section_items(items_of(ps[i]), j);
    reveal_strlit("package ");
    reveal_strlit(" {\n");
    reveal_strlit("}\n");
    reveal_strlit("\n");
    let off = doc_offset(ps, i);
    let name = name_text(ps[i]);
    let items = items_of(ps[i]);
    let sec = items_section(items);
    let base = 11 + name.len() as int;
    let b = block_text(ps[i]);
    assert forall|m: int| 0 <= m < sec.len() implies b[base + m] == sec[m] by {
        assert(((("package "@ + name) + " {\n"@) + sec)[base + m] == sec[m]);
        assert((((("package "@ + name) + " {\n"@) + sec) + "}\n"@)[base + m] == ((("package "@
            + name) + " {\n"@) + sec)[base + m]);
    }
    assert forall|k: int| 0 <= k < b.len() implies flat_doc(ps)[off + k] == b[k] by {
        assert(flat_doc(ps).subrange(off, doc_offset(ps, i + 1))[k] == b[k]);
    }
    let lo = item_offset(items, j);
    let hi = item_offset(items, j + 1);
    assert forall|t: int| 0 <= t < hi - lo implies flat_doc(ps)[off + base + lo + t] == ("\n"@
        + item_text(items[j]))[t] by {
        assert(sec[lo + t] == sec.subrange(lo, hi)[t]);
        assert(b[base + (lo + t)] == sec[lo + t]);
        assert(flat_doc(ps)[off + (base + lo + t)] == b[base + lo + t]);
    }
    assert(flat_doc(ps).subrange(off + base + lo, off + base + hi) =~= "\n"@ + item_text(
        items[j],
    ));
}

/// Flattening is deterministic: the document is a function of the package
/// sequence alone, so flattening the same input twice gives byte-identical
/// output.
pub proof fn lemma_flatten_deterministic(ps1: Seq<wit_encoder::Package>, ps2: Seq<wit_encoder::Package>)
    requires
        ps1 == ps2,
    ensures
        flat_doc(ps1) == flat_doc(ps2),
{
}

/// Flatten every package of a resolved schema graph into one document.
///
/// The packages and their order are the ones wit-encoder derives from the
/// graph; the document is their flattening, and the empty graph is
/// rejected. The graph must be one wit-parser built (`graph_valid`): the
/// converter indexes the graph's arenas with the identifiers its maps hold.
pub fn flatten_resolve(resolve: &wit_parser::Resolve) -> (r: Result<String, FlattenError>)
    requires
        crate::schema::graph_valid(*resolve),
    ensures
        r is Err <==> packages_of(*resolve).len() == 0,
        r is Err ==> r->Err_0 is NoPackages,
        r is Ok ==> r->Ok_0@ == flat_doc(packages_of(*resolve)),
{
    let packages = packages_from_resolve(resolve);
    flatten_packages(&packages)
}

} // verus!
