use itunesmails::extract::extract_purchases_from_html;

fn receipt_html() -> String {
    let mut h = String::new();
    h.push_str("<html><body>");
    h.push_str("<table><tr><td>APPLE ID<br>j@example.com</td></tr></table>");
    h.push_str("<table class=\"aapl-mobile-tbl\">");
    h.push_str("<tr><td>header row</td></tr>");
    h.push_str("<tr style=\"max-height:114px;\">");
    h.push_str("<td class=\"title\">Widget</td><td class=\"price-cell\">$3.00</td></tr>");
    h.push_str("<tr style=\"max-height:114px;\">");
    h.push_str("<td class=\"title\">Gadget</td><td class=\"price-cell\">$7.50</td></tr>");
    h.push_str("</table></body></html>");
    h
}

#[test]
fn extracts_both_rows_of_a_receipt() {
    let records = extract_purchases_from_html(&receipt_html()).expect("a receipt");
    assert_eq!(records.len(), 2);
    assert_eq!(records[0].name, "Widget");
    assert_eq!(records[0].purchaser, "j@example.com");
    assert_eq!(records[0].price.text, "$3.00");
    assert_eq!(records[1].name, "Gadget");
    assert_eq!(records[1].purchaser, "j@example.com");
    assert_eq!(records[1].price.text, "$7.50");
}

#[test]
fn html_without_id_cell_is_no_receipt() {
    let html = "<html><body><table class=\"aapl-mobile-tbl\">\
                <tr style=\"max-height:114px;\">\
                <td class=\"title\">Widget</td><td class=\"price-cell\">$3.00</td></tr>\
                </table></body></html>";
    assert!(extract_purchases_from_html(html).is_none());
}

#[test]
fn html_without_table_is_no_receipt() {
    let html = "<html><body><table><tr><td>APPLE ID<br>j@example.com</td></tr></table>\
                </body></html>";
    assert!(extract_purchases_from_html(html).is_none());
}

#[test]
fn broken_row_reported_for_warning() {
    let mut h = String::new();
    h.push_str("<html><body>");
    h.push_str("<table><tr><td>APPLE ID<br>j@example.com</td></tr></table>");
    h.push_str("<table class=\"aapl-mobile-tbl\">");
    h.push_str("<tr style=\"max-height:114px;\"><td>no title here</td></tr>");
    h.push_str("<tr style=\"max-height:114px;\">");
    h.push_str("<td class=\"title\">Gadget</td><td class=\"price-cell\">$7.50</td></tr>");
    h.push_str("</table></body></html>");
    let (records, skipped) = itunesmails::extract::extract_purchases_report(&h);
    assert_eq!(records.unwrap().len(), 1);
    assert_eq!(skipped, 1);
}

#[test]
fn no_receipt_reports_no_skipped_rows() {
    let html = "<html><body><p>nothing here</p></body></html>";
    let (records, skipped) = itunesmails::extract::extract_purchases_report(html);
    assert!(records.is_none());
    assert_eq!(skipped, 0);
}

#[test]
fn broken_row_skipped_sibling_kept() {
    let mut h = String::new();
    h.push_str("<html><body>");
    h.push_str("<table><tr><td>APPLE ID<br>j@example.com</td></tr></table>");
    h.push_str("<table class=\"aapl-mobile-tbl\">");
    h.push_str("<tr style=\"max-height:114px;\"><td>no title here</td></tr>");
    h.push_str("<tr style=\"max-height:114px;\">");
    h.push_str("<td class=\"title\">Gadget</td><td class=\"price-cell\">$7.50</td></tr>");
    h.push_str("</table></body></html>");
    let records = extract_purchases_from_html(&h).expect("a receipt");
    assert_eq!(records.len(), 1);
    assert_eq!(records[0].name, "Gadget");
}

#[test]
fn strikethrough_price_takes_first_dollar_fragment() {
    let mut h = String::new();
    h.push_str("<html><body>");
    h.push_str("<table><tr><td>APPLE ID<br>j@example.com</td></tr></table>");
    h.push_str("<table class=\"aapl-mobile-tbl\">");
    h.push_str("<tr style=\"max-height:114px;\"><td class=\"title\">Widget</td>");
    h.push_str("<td class=\"price-cell\">$3.00<s>$5.00</s></td></tr>");
    h.push_str("</table></body></html>");
    let records = extract_purchases_from_html(&h).expect("a receipt");
    assert_eq!(records.len(), 1);
    assert_eq!(records[0].price.text, "$3.00");
}

#[test]
fn empty_document_is_no_receipt() {
    assert!(extract_purchases_from_html("").is_none());
}
