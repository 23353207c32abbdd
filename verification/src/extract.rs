//! The receipt extraction core, verified over plain values.
//!
//! The DOM collaborator (see [`crate::dom`]) reduces an HTML body to plain
//! data: one [`CellData`] per table cell and one [`RowData`] per candidate
//! table row.  Every decision — which cell names the purchaser, which rows
//! are genuine line items, how a row becomes a record, which failures are
//! absorbed — is made here, against exact contracts.

use vstd::prelude::*;
use crate::records::{Price, Purchase, PurchaseView};
use crate::price::{PriceParser, price_of_text};

verus! {

/// The literal first-text label that marks the purchaser-identity cell.
pub open spec fn id_label() -> Seq<char> {
    "APPLE ID"@
}

/// The literal inline style that marks a genuine line-item row.  The source
/// service's template marks its content rows with exactly this style; keep
/// it letter for letter.
pub open spec fn line_item_style() -> Seq<char> {
    "max-height:114px;"@
}

/// What the pipeline reads of one table cell: its descendant text
/// fragments in document order, and the text of its last child node when
/// that child is a text node.
pub struct CellData {
    pub texts: Vec<String>,
    pub last_text: Option<String>,
}

/// What the pipeline reads of one candidate table row: its inline style
/// attribute, the text fragments of its first title element, and the text
/// fragments of its first price cell.  `None` marks an absent attribute or
/// an absent match.
pub struct RowData {
    pub style: Option<String>,
    pub title_texts: Option<Vec<String>>,
    pub price_texts: Option<Vec<String>>,
}

/// The first text fragment of a cell, or the empty text when it has none.
pub open spec fn cell_first_text(cell: CellData) -> Seq<char> {
    if cell.texts@.len() == 0 {
        Seq::<char>::empty()
    } else {
        cell.texts@[0]@
    }
}

/// Whether a cell carries the purchaser-identity label.
pub open spec fn is_id_cell(cell: CellData) -> bool {
    cell_first_text(cell) == id_label()
}

/// The purchaser identity that a sequence of cells yields: the last-child
/// text of the first cell labelled `APPLE ID`.  `None` when no cell is so
/// labelled, or when the first such cell has no last-child text.
pub open spec fn purchaser_of(cells: Seq<CellData>) -> Option<Seq<char>>
    decreases cells.len(),
{
    if cells.len() == 0 {
        None
    } else if is_id_cell(cells[0]) {
        match cells[0].last_text {
            Some(t) => Some(t@),
            None => None,
        }
    } else {
        purchaser_of(cells.drop_first())
    }
}

/// Whether a row carries the fixed inline style of a line item.
pub open spec fn is_line_item(row: RowData) -> bool {
    match row.style {
        Some(s) => s@ == line_item_style(),
        None => false,
    }
}

/// Whether a text fragment holds a dollar sign.
pub open spec fn has_dollar(text: Seq<char>) -> bool {
    exists|i: int| 0 <= i < text.len() && text[i] == '$'
}

/// The first fragment among a price cell's texts that holds a dollar sign:
/// where several prices are listed, the current price comes first.
pub open spec fn first_dollar_of(texts: Seq<Seq<char>>) -> Option<Seq<char>>
    decreases texts.len(),
{
    if texts.len() == 0 {
        None
    } else if has_dollar(texts[0]) {
        Some(texts[0])
    } else {
        first_dollar_of(texts.drop_first())
    }
}

/// The views of a sequence of strings.
pub open spec fn views_of(texts: Seq<String>) -> Seq<Seq<char>> {
    texts.map(|i: int, t: String| t@)
}

/// The record one row yields for a given purchaser, or `None` when the row
/// lacks a title, a price cell, or a priced text fragment.
pub open spec fn row_record_of(row: RowData, purchaser: Seq<char>) -> Option<PurchaseView> {
    match row.title_texts {
        None => None,
        Some(ts) => {
            if ts@.len() == 0 {
                None
            } else {
                match row.price_texts {
                    None => None,
                    Some(ps) => {
                        match first_dollar_of(views_of(ps@)) {
                            None => None,
                            Some(pt) => Some(PurchaseView {
                                name: ts@[0]@,
                                purchaser: purchaser,
                                price: price_of_text(pt),
                            }),
                        }
                    },
                }
            }
        },
    }
}

/// The records a single row contributes: nothing unless it is a line item
/// that yields a record.
pub open spec fn row_yield(row: RowData, purchaser: Seq<char>) -> Seq<PurchaseView> {
    if !is_line_item(row) {
        Seq::<PurchaseView>::empty()
    } else {
        match row_record_of(row, purchaser) {
            Some(r) => seq![r],
            None => Seq::<PurchaseView>::empty(),
        }
    }
}

/// The records a sequence of candidate rows yields, in row order.  Rows
/// that are not line items, and line items that yield no record, are
/// skipped without aborting their siblings.
pub open spec fn records_of(rows: Seq<RowData>, purchaser: Seq<char>) -> Seq<PurchaseView>
    decreases rows.len(),
{
    if rows.len() == 0 {
        Seq::<PurchaseView>::empty()
    } else {
        records_of(rows.drop_last(), purchaser) + row_yield(rows.last(), purchaser)
    }
}

/// What a whole receipt body yields.  `table` is `None` when the document
/// has no purchases table.  The result is `None` — the body is not a
/// receipt — when no purchaser identity or no table is found; otherwise
/// the possibly empty record list.
pub open spec fn receipt_of(cells: Seq<CellData>, table: Option<Seq<RowData>>) -> Option<
    Seq<PurchaseView>,
> {
    match purchaser_of(cells) {
        None => None,
        Some(p) => match table {
            None => None,
            Some(rows) => Some(records_of(rows, p)),
        },
    }
}

/// Whether `text` equals `other` character for character.
fn str_eq(text: &str, other: &str) -> (r: bool)
    ensures
        r == (text@ == other@),
{
    let n = text.unicode_len();
    if n != other.unicode_len() {
        assert(text@ != other@) by {
            assert(text@.len() != other@.len());
        }
        return false;
    }
    let mut i: usize = 0;
    while i < n
        invariant
            n == text@.len(),
            n == other@.len(),
            0 <= i <= n,
            forall|j: int| 0 <= j < i ==> text@[j] == other@[j],
        decreases n - i,
    {
        if text.get_char(i) != other.get_char(i) {
            return false;
        }
        i += 1;
    }
    proof {
        assert(text@ =~= other@);
    }
    true
}

/// Whether a text fragment holds a dollar sign.
fn contains_dollar(text: &str) -> (r: bool)
    ensures
        r == has_dollar(text@),
{
    let n = text.unicode_len();
    let mut i: usize = 0;
    while i < n
        invariant
            n == text@.len(),
            0 <= i <= n,
            forall|j: int| 0 <= j < i ==> text@[j] != '$',
        decreases n - i,
    {
        if text.get_char(i) == '$' {
            return true;
        }
        i += 1;
    }
    false
}

/// Whether a cell carries the purchaser-identity label.
fn cell_is_id_cell(cell: &CellData) -> (r: bool)
    ensures
        r == is_id_cell(*cell),
{
    proof {
        reveal_strlit("APPLE ID");
        assert(id_label().len() == 8);
    }
    if cell.texts.len() == 0 {
        return false;
    }
    str_eq(cell.texts[0].as_str(), "APPLE ID")
}

/// Finds the purchaser identity among the document's cells: the last-child
/// text of the first cell labelled `APPLE ID`.
pub fn find_purchaser(cells: &Vec<CellData>) -> (r: Option<String>)
    ensures
        match r {
            Some(p) => purchaser_of(cells@) == Some(p@),
            None => purchaser_of(cells@) is None,
        },
{
    let n = cells.len();
    proof {
        assert(cells@.skip(0) =~= cells@);
    }
    let mut i: usize = 0;
    while i < n
        invariant
            n == cells@.len(),
            0 <= i <= n,
            purchaser_of(cells@) == purchaser_of(cells@.skip(i as int)),
        decreases n - i,
    {
        proof {
            assert(cells@.skip(i as int).drop_first() =~= cells@.skip(i + 1));
            assert(cells@.skip(i as int)[0] == cells@[i as int]);
        }
        if cell_is_id_cell(&cells[i]) {
            return match &cells[i].last_text {
                Some(t) => Some(t.clone()),
                None => None,
            };
        }
        i += 1;
    }
    proof {
        assert(cells@.skip(n as int) =~= Seq::<CellData>::empty());
    }
    None
}

/// Whether a row carries the fixed inline style of a line item.
pub fn row_is_line_item(row: &RowData) -> (r: bool)
    ensures
        r == is_line_item(*row),
{
    match &row.style {
        Some(s) => str_eq(s.as_str(), "max-height:114px;"),
        None => false,
    }
}

/// The first text fragment holding a dollar sign, if any.
fn first_dollar_text(texts: &Vec<String>) -> (r: Option<&String>)
    ensures
        match r {
            Some(t) => first_dollar_of(views_of(texts@)) == Some(t@),
            None => first_dollar_of(views_of(texts@)) is None,
        },
{
    let n = texts.len();
    proof {
        assert(texts@.skip(0) =~= texts@);
    }
    let mut i: usize = 0;
    while i < n
        invariant
            n == texts@.len(),
            0 <= i <= n,
            first_dollar_of(views_of(texts@)) == first_dollar_of(views_of(texts@.skip(i as int))),
        decreases n - i,
    {
        proof {
            assert(views_of(texts@.skip(i as int)).drop_first() =~= views_of(
                texts@.skip(i + 1),
            ));
            assert(views_of(texts@.skip(i as int))[0] == texts@[i as int]@);
        }
        if contains_dollar(texts[i].as_str()) {
            return Some(&texts[i]);
        }
        i += 1;
    }
    proof {
        assert(views_of(texts@.skip(n as int)) =~= Seq::<Seq<char>>::empty());
    }
    None
}

/// Extracts one purchase record from one candidate row, or skips the row
/// when its title or its priced text is missing.  The price degrades to
/// the zero amount rather than failing the row.
pub fn row_record(row: &RowData, purchaser: &String) -> (r: Option<Purchase>)
    ensures
        match r {
            Some(rec) => row_record_of(*row, purchaser@) == Some(rec@),
            None => row_record_of(*row, purchaser@) is None,
        },
{
    let ts = match &row.title_texts {
        Some(ts) => ts,
        None => {
            return None;
        },
    };
    if ts.len() == 0 {
        return None;
    }
    let ps = match &row.price_texts {
        Some(ps) => ps,
        None => {
            return None;
        },
    };
    let price_text = match first_dollar_text(ps) {
        Some(t) => t,
        None => {
            return None;
        },
    };
    let price: Price = PriceParser::parse(price_text.as_str());
    Some(Purchase { name: ts[0].clone(), purchaser: purchaser.clone(), price })
}

/// Extracts the record list of one receipt from its plain table data.
/// `None` — the body is not a receipt — when no purchaser or no table is
/// found; otherwise the possibly empty list of records of the line-item
/// rows, each carrying the one purchaser identity of the email.
pub fn receipt_records(cells: &Vec<CellData>, table: &Option<Vec<RowData>>) -> (r: Option<
    Vec<Purchase>,
>)
    ensures
        match r {
            Some(v) => receipt_of(cells@, table_view(*table)) == Some(v.deep_view()),
            None => receipt_of(cells@, table_view(*table)) is None,
        },
{
    let purchaser = match find_purchaser(cells) {
        Some(p) => p,
        None => {
            return None;
        },
    };
    let rows = match table {
        Some(rows) => rows,
        None => {
            return None;
        },
    };
    let n = rows.len();
    let mut out: Vec<Purchase> = Vec::new();
    let mut i: usize = 0;
    while i < n
        invariant
            n == rows@.len(),
            0 <= i <= n,
            out.deep_view() == records_of(rows@.take(i as int), purchaser@),
        decreases n - i,
    {
        proof {
            assert(rows@.take(i + 1).drop_last() =~= rows@.take(i as int));
            assert(rows@.take(i + 1).last() == rows@[i as int]);
        }
        let ghost prev = out.deep_view();
        if row_is_line_item(&rows[i]) {
            match row_record(&rows[i], &purchaser) {
                Some(rec) => {
                    let ghost recv = rec@;
                    out.push(rec);
                    proof {
                        assert(out.deep_view() =~= prev.push(recv));
                        assert(prev.push(recv) =~= prev + seq![recv]);
                    }
                },
                None => {},
            }
        }
        proof {
            assert(out.deep_view() =~= records_of(rows@.take(i + 1), purchaser@));
        }
        i += 1;
    }
    proof {
        assert(rows@.take(n as int) =~= rows@);
    }
    Some(out)
}

/// The view of an optional row list.
pub open spec fn table_view(table: Option<Vec<RowData>>) -> Option<Seq<RowData>> {
    match table {
        Some(rows) => Some(rows@),
        None => None,
    }
}

/// One email has exactly one purchaser context: every record extracted
/// from a row sequence carries the purchaser identity it was extracted
/// with.
pub proof fn lemma_records_purchaser(rows: Seq<RowData>, purchaser: Seq<char>)
    ensures
        forall|i: int|
            0 <= i < records_of(rows, purchaser).len() ==> records_of(rows, purchaser)[i].purchaser
                == purchaser,
    decreases rows.len(),
{
    if rows.len() > 0 {
        lemma_records_purchaser(rows.drop_last(), purchaser);
        let prefix = records_of(rows.drop_last(), purchaser);
        let tail = row_yield(rows.last(), purchaser);
        assert forall|i: int|
            0 <= i < records_of(rows, purchaser).len() implies records_of(
            rows,
            purchaser,
        )[i].purchaser == purchaser by {
            if i < prefix.len() {
                assert(records_of(rows, purchaser)[i] == prefix[i]);
            } else {
                assert(records_of(rows, purchaser)[i] == tail[i - prefix.len()]);
            }
        }
    }
}

/// No purchaser-identity cell means no purchaser identity.
proof fn lemma_no_id_cell_no_purchaser(cells: Seq<CellData>)
    requires
        forall|i: int| 0 <= i < cells.len() ==> !is_id_cell(cells[i]),
    ensures
        purchaser_of(cells) is None,
    decreases cells.len(),
{
    if cells.len() > 0 {
        assert(!is_id_cell(cells[0]));
        assert forall|i: int|
            0 <= i < cells.drop_first().len() implies !is_id_cell(cells.drop_first()[i]) by {
            assert(cells.drop_first()[i] == cells[i + 1]);
        }
        lemma_no_id_cell_no_purchaser(cells.drop_first());
    }
}

/// A body with no purchaser-identity cell is not a receipt: whatever its
/// table holds, extraction yields `None` — observably distinct from a
/// receipt with an empty record list.
pub proof fn lemma_no_id_cell_no_receipt(cells: Seq<CellData>, table: Option<Seq<RowData>>)
    requires
        forall|i: int| 0 <= i < cells.len() ==> !is_id_cell(cells[i]),
    ensures
        receipt_of(cells, table) is None,
{
    lemma_no_id_cell_no_purchaser(cells);
}

/// A row that is no line item, or a line item lacking its title or its
/// priced text, contributes no record: removing it leaves the records of
/// its sibling rows unchanged.
pub proof fn lemma_skipped_row(rows: Seq<RowData>, i: int, purchaser: Seq<char>)
    requires
        0 <= i < rows.len(),
        is_line_item(rows[i]) ==> row_record_of(rows[i], purchaser) is None,
    ensures
        records_of(rows.remove(i), purchaser) == records_of(rows, purchaser),
    decreases rows.len(),
{
    assert(row_yield(rows[i], purchaser) =~= Seq::<PurchaseView>::empty());
    if i == rows.len() - 1 {
        assert(rows.remove(i) =~= rows.drop_last());
        assert(records_of(rows, purchaser) == records_of(rows.drop_last(), purchaser)
            + row_yield(rows.last(), purchaser));
        assert(records_of(rows.drop_last(), purchaser) + Seq::<PurchaseView>::empty()
            =~= records_of(rows.drop_last(), purchaser));
    } else {
        assert(rows.drop_last()[i] == rows[i]);
        lemma_skipped_row(rows.drop_last(), i, purchaser);
        assert(rows.remove(i).drop_last() =~= rows.drop_last().remove(i));
        assert(rows.remove(i).last() == rows.last());
        assert(records_of(rows.remove(i), purchaser) == records_of(
            rows.drop_last().remove(i),
            purchaser,
        ) + row_yield(rows.last(), purchaser));
    }
}

/// The number of line-item rows of a row sequence that yield no record
/// for this purchaser: the rows the caller warns about.
pub open spec fn skipped_count_of(rows: Seq<RowData>, purchaser: Seq<char>) -> int
    decreases rows.len(),
{
    if rows.len() == 0 {
        0
    } else {
        skipped_count_of(rows.drop_last(), purchaser) + (
        if is_line_item(rows.last()) && row_record_of(rows.last(), purchaser) is None {
            1int
        } else {
            0int
        })
    }
}

/// Counts the line-item rows that yield no record for this purchaser.
pub fn count_skipped_rows(rows: &Vec<RowData>, purchaser: &String) -> (n: usize)
    ensures
        n as int == skipped_count_of(rows@, purchaser@),
{
    let len = rows.len();
    proof {
        assert(rows@.take(0) =~= Seq::<RowData>::empty());
    }
    let mut n: usize = 0;
    let mut i: usize = 0;
    while i < len
        invariant
            len == rows@.len(),
            0 <= i <= len,
            n <= i,
            n as int == skipped_count_of(rows@.take(i as int), purchaser@),
        decreases len - i,
    {
        proof {
            assert(rows@.take(i + 1).drop_last() =~= rows@.take(i as int));
            assert(rows@.take(i + 1).last() == rows@[i as int]);
        }
        if row_is_line_item(&rows[i]) {
            match row_record(&rows[i], purchaser) {
                Some(_) => {},
                None => {
                    n += 1;
                },
            }
        }
        i += 1;
    }
    proof {
        assert(rows@.take(len as int) =~= rows@);
    }
    n
}

/// What one receipt body yields: the extraction result over the cells and
/// table that the HTML collaborator reads out of it.
pub open spec fn body_records_of(html: Seq<char>) -> Option<Seq<PurchaseView>> {
    receipt_of(crate::dom::cells_of(html), crate::dom::table_of(html))
}

/// The skipped line-item rows of a body, counted only when the body is
/// recognized as a receipt (a purchaser identity and a table are found).
pub open spec fn body_skipped_of(html: Seq<char>) -> int {
    match purchaser_of(crate::dom::cells_of(html)) {
        None => 0,
        Some(p) => match crate::dom::table_of(html) {
            None => 0,
            Some(rows) => skipped_count_of(rows, p),
        },
    }
}

/// One email has exactly one purchaser context: all records extracted
/// from one body share one purchaser identity.
pub proof fn lemma_body_uniform_purchaser(html: Seq<char>)
    ensures
        body_records_of(html) matches Some(recs) ==> forall|i: int, j: int|
            0 <= i < recs.len() && 0 <= j < recs.len() ==> recs[i].purchaser == recs[j].purchaser,
{
    match crate::dom::table_of(html) {
        Some(rows) => {
            match purchaser_of(crate::dom::cells_of(html)) {
                Some(p) => lemma_records_purchaser(rows, p),
                None => {},
            }
        },
        None => {},
    }
}

/// Extracts the purchase records of one receipt email body, together with
/// the number of line-item rows that were skipped, for the caller to warn
/// about.  The result is pinned to what the HTML collaborator reads out of
/// the body text: `None` exactly when that text is no receipt, and
/// otherwise the records of its style-matched rows, in order.
pub fn extract_purchases_report(html: &str) -> (r: (Option<Vec<Purchase>>, usize))
    ensures
        match r.0 {
            Some(v) => body_records_of(html@) == Some(v.deep_view()),
            None => body_records_of(html@) is None,
        },
        r.1 as int == body_skipped_of(html@),
{
    let cells = crate::dom::scan_cells(html);
    let table = crate::dom::scan_table(html);
    let recs = receipt_records(&cells, &table);
    proof {
        match &table {
            Some(rows) => {
                assert(table_view(table) == crate::dom::table_of(html@));
            },
            None => {
                assert(table_view(table) == crate::dom::table_of(html@));
            },
        }
    }
    let skipped: usize = match &table {
        Some(rows) => match find_purchaser(&cells) {
            Some(p) => count_skipped_rows(rows, &p),
            None => 0,
        },
        None => 0,
    };
    (recs, skipped)
}

/// Extracts the purchase records of one receipt email body: `None` exactly
/// when the body is no receipt, and otherwise the records of its
/// style-matched rows, in order, all sharing one purchaser identity.
pub fn extract_purchases_from_html(html: &str) -> (r: Option<Vec<Purchase>>)
    ensures
        match r {
            Some(v) => body_records_of(html@) == Some(v.deep_view()),
            None => body_records_of(html@) is None,
        },
        r matches Some(v) ==> forall|i: int, j: int|
            0 <= i < v.deep_view().len() && 0 <= j < v.deep_view().len() ==> v.deep_view()[i].purchaser
                == v.deep_view()[j].purchaser,
{
    let r = extract_purchases_report(html);
    proof {
        lemma_body_uniform_purchaser(html@);
        match &r.0 {
            Some(v) => {
                assert(body_records_of(html@) matches Some(recs) && recs == v.deep_view());
            },
            None => {},
        }
    }
    r.0
}

} // verus!
