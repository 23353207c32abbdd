//! The HTML collaborator: parsing and CSS-selector querying.
//!
//! The scraper crate parses the document and answers the fixed selector
//! queries; both are functions of the document text alone, so what they
//! yield is named here — [`cells_of`] for the table cells and [`table_of`]
//! for the candidate rows of the purchases table — and every decision over
//! those plain values is made by the verified code in [`crate::extract`].

use vstd::prelude::*;
use crate::extract::{CellData, RowData};

verus! {

/// What the document's table cells hold, in document order: for each
/// `td` element its descendant text fragments and the text of its last
/// child node (when that child is a text node).  Empty when the document
/// has no cells or the cell selector fails to parse.  Deterministic in
/// the document text alone.
pub uninterp spec fn cells_of(html: Seq<char>) -> Seq<CellData>;

/// What the first purchases table (class `aapl-mobile-tbl`) holds: for
/// each of its `tr` elements the inline style attribute and the text
/// fragments of its first title and first price-cell element.  `None`
/// when the document has no such table or a selector fails to parse.
/// Deterministic in the document text alone.
pub uninterp spec fn table_of(html: Seq<char>) -> Option<Seq<RowData>>;

/// Relies on `scraper::Html::parse_document`, `scraper::Selector::parse`,
/// `Html::select`, `ElementRef::text` and `ego_tree::NodeRef::last_child`
/// with `scraper::Node::as_text`: the cell data of every `td` element, in
/// document order.
#[verifier::external_body]
pub(crate) fn scan_cells(html: &str) -> (r: Vec<CellData>)
    ensures
        r@ == cells_of(html@),
{
    let doc = scraper::Html::parse_document(html);
    let cell_sel = match scraper::Selector::parse("td") {
        Ok(s) => s,
        Err(_) => return Vec::new(),
    };
    doc.select(&cell_sel)
        .map(|e| CellData {
            texts: e.text().map(|t| t.to_string()).collect(),
            last_text: e.last_child().and_then(|n| n.value().as_text()).map(|t| t.to_string()),
        })
        .collect()
}

/// Relies on `scraper::Html::parse_document`, `scraper::Selector::parse`,
/// `Html::select`, `ElementRef::select`, `ElementRef::attr` and
/// `ElementRef::text`: the row data of every `tr` element of the first
/// purchases table, in document order.
#[verifier::external_body]
pub(crate) fn scan_table(html: &str) -> (r: Option<Vec<RowData>>)
    ensures
        match r {
            Some(rows) => table_of(html@) == Some(rows@),
            None => table_of(html@) is None,
        },
{
    let doc = scraper::Html::parse_document(html);
    let sel = |x| scraper::Selector::parse(x).ok();
    let (tbl, tr, title, price) =
        (sel(".aapl-mobile-tbl")?, sel("tr")?, sel(".title")?, sel(".price-cell")?);
    let texts = |e: scraper::ElementRef| -> Vec<String> {
        e.text().map(|t| t.to_string()).collect()
    };
    Some(doc.select(&tbl).next()?.select(&tr).map(|row| RowData {
        style: row.attr("style").map(|v| v.to_string()),
        title_texts: row.select(&title).next().map(&texts),
        price_texts: row.select(&price).next().map(&texts),
    }).collect())
}

} // verus!
