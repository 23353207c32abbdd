use itunesmails::mail::process_file_bytes;

fn receipt_mail() -> String {
    let html = "<html><body>\
                <table><tr><td>APPLE ID<br>j@example.com</td></tr></table>\
                <table class=\"aapl-mobile-tbl\">\
                <tr style=\"max-height:114px;\">\
                <td class=\"title\">Widget</td><td class=\"price-cell\">$3.00</td></tr>\
                <tr style=\"max-height:114px;\">\
                <td class=\"title\">Gadget</td><td class=\"price-cell\">$7.50</td></tr>\
                </table></body></html>";
    format!(
        "MIME-Version: 1.0\r\n\
         Subject: Your receipt\r\n\
         Content-Type: multipart/alternative; boundary=\"sep\"\r\n\
         \r\n\
         --sep\r\n\
         Content-Type: text/plain; charset=utf-8\r\n\
         \r\n\
         plain alternative\r\n\
         --sep\r\n\
         Content-Type: text/html; charset=utf-8\r\n\
         \r\n\
         {}\r\n\
         --sep--\r\n",
        html
    )
}

#[test]
fn receipt_mail_yields_both_records() {
    let records = process_file_bytes(receipt_mail().as_bytes()).expect("a receipt");
    assert_eq!(records.len(), 2);
    assert_eq!(records[0].name, "Widget");
    assert_eq!(records[0].purchaser, "j@example.com");
    assert_eq!(records[0].price.text, "$3.00");
    assert_eq!(records[1].name, "Gadget");
    assert_eq!(records[1].purchaser, "j@example.com");
    assert_eq!(records[1].price.text, "$7.50");
}

#[test]
fn plain_text_file_yields_no_records() {
    let contents = b"This is just some unrelated text file.\nNothing about purchases.\n";
    assert!(process_file_bytes(contents).is_none());
}

#[test]
fn mail_without_second_part_yields_no_records() {
    let mail = "MIME-Version: 1.0\r\n\
                Subject: hello\r\n\
                Content-Type: text/plain; charset=utf-8\r\n\
                \r\n\
                just one part\r\n";
    assert!(process_file_bytes(mail.as_bytes()).is_none());
}

#[test]
fn second_part_without_receipt_yields_no_records() {
    let mail = "MIME-Version: 1.0\r\n\
                Content-Type: multipart/alternative; boundary=\"sep\"\r\n\
                \r\n\
                --sep\r\n\
                Content-Type: text/plain\r\n\
                \r\n\
                plain\r\n\
                --sep\r\n\
                Content-Type: text/html\r\n\
                \r\n\
                <html><body><p>newsletter</p></body></html>\r\n\
                --sep--\r\n";
    assert!(process_file_bytes(mail.as_bytes()).is_none());
}

#[test]
fn batch_of_receipt_and_unrelated_file_end_to_end() {
    let receipt = receipt_mail();
    let unrelated = b"This is just some unrelated text file.\n".to_vec();
    let outcomes = vec![
        process_file_bytes(receipt.as_bytes()),
        process_file_bytes(&unrelated),
    ];
    assert!(outcomes[1].is_none());
    let all = itunesmails::csvout::collect_purchases(&outcomes);
    assert_eq!(all.len(), 2);
    let bytes = itunesmails::csvout::write_purchases(&all);
    let expected = "Item,Purchaser,Price\n\
                    Widget,j@example.com,$3.00\n\
                    Gadget,j@example.com,$7.50\n";
    assert_eq!(String::from_utf8(bytes).unwrap(), expected);
}

#[test]
fn receipt_mail_reports_no_skipped_rows() {
    let (records, skipped) =
        itunesmails::mail::process_file_bytes_report(receipt_mail().as_bytes());
    assert_eq!(records.unwrap().len(), 2);
    assert_eq!(skipped, 0);
}

#[test]
fn unrecognized_file_reports_no_skipped_rows() {
    let (records, skipped) = itunesmails::mail::process_file_bytes_report(b"not a mail");
    assert!(records.is_none());
    assert_eq!(skipped, 0);
}

#[test]
fn processing_twice_gives_identical_records() {
    let mail = receipt_mail();
    let a = process_file_bytes(mail.as_bytes()).unwrap();
    let b = process_file_bytes(mail.as_bytes()).unwrap();
    assert_eq!(a.len(), b.len());
    for (x, y) in a.iter().zip(b.iter()) {
        assert_eq!(x.name, y.name);
        assert_eq!(x.purchaser, y.purchaser);
        assert_eq!(x.price.text, y.price.text);
        assert_eq!(x.price.amount_digits, y.price.amount_digits);
    }
}
