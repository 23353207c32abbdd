//! Per-file processing: from raw email bytes to purchase records.
//!
//! The MIME collaborator splits a message into parts and decodes the
//! second top-level part — where the source service's template always
//! places the HTML alternative; what that scan yields is a function of
//! the bytes alone and is named [`mail_part1_body_of`].  Every failure —
//! an unparsable message, a missing part, an undecodable body, a body
//! that is no receipt — absorbs into `None` and never aborts the batch.

use vstd::prelude::*;
use crate::records::{Purchase, PurchaseView};
use crate::extract::{extract_purchases_report, body_records_of, body_skipped_of,
    lemma_body_uniform_purchaser};

verus! {

/// The decoded body of the message's second top-level MIME part: `None`
/// when the bytes do not parse as a MIME message, the message has no
/// second top-level part, or that part's body does not decode.
/// Deterministic in the bytes alone.
pub uninterp spec fn mail_part1_body_of(bytes: Seq<u8>) -> Option<Seq<char>>;

/// Relies on `mailparse::parse_mail`, the public `subparts` field of
/// `mailparse::ParsedMail`, and `ParsedMail::get_body`: the decoded body
/// of the second top-level part, when the message parses and has one.
#[verifier::external_body]
fn mail_part1_body(contents: &[u8]) -> (r: Option<String>)
    ensures
        match r {
            Some(b) => mail_part1_body_of(contents@) == Some(b@),
            None => mail_part1_body_of(contents@) is None,
        },
{
    let mail = mailparse::parse_mail(contents).ok()?;
    let part = mail.subparts.get(1)?;
    part.get_body().ok()
}

/// What one file's bytes yield: `None` — the file is no receipt — when
/// the MIME scan finds no decodable second-part body, or when that body
/// is no receipt; otherwise the body's records.
pub open spec fn file_records_of(bytes: Seq<u8>) -> Option<Seq<PurchaseView>> {
    match mail_part1_body_of(bytes) {
        None => None,
        Some(body) => body_records_of(body),
    }
}

/// The skipped line-item rows of one file: zero unless the file is a
/// recognized receipt.
pub open spec fn file_skipped_of(bytes: Seq<u8>) -> int {
    match mail_part1_body_of(bytes) {
        None => 0,
        Some(body) => body_skipped_of(body),
    }
}

/// Extracts the purchase records of one saved email, given its raw bytes,
/// together with the number of line-item rows that were skipped, for the
/// caller to warn about.  The result is pinned to the MIME scan of the
/// bytes: `None` exactly when the file is no receipt, and otherwise the
/// records of the receipt body's style-matched rows, in order.
pub fn process_file_bytes_report(contents: &[u8]) -> (r: (Option<Vec<Purchase>>, usize))
    ensures
        match r.0 {
            Some(v) => file_records_of(contents@) == Some(v.deep_view()),
            None => file_records_of(contents@) is None,
        },
        r.1 as int == file_skipped_of(contents@),
{
    let body = match mail_part1_body(contents) {
        Some(b) => b,
        None => {
            return (None, 0);
        },
    };
    extract_purchases_report(body.as_str())
}

/// Extracts the purchase records of one saved email, given its raw bytes:
/// `None` exactly when the file is no receipt, and otherwise the records
/// of the receipt body's style-matched rows, in order, all sharing one
/// purchaser identity.
pub fn process_file_bytes(contents: &[u8]) -> (r: Option<Vec<Purchase>>)
    ensures
        match r {
            Some(v) => file_records_of(contents@) == Some(v.deep_view()),
            None => file_records_of(contents@) is None,
        },
        r matches Some(v) ==> forall|i: int, j: int|
            0 <= i < v.deep_view().len() && 0 <= j < v.deep_view().len() ==> v.deep_view()[i].purchaser
                == v.deep_view()[j].purchaser,
{
    let r = process_file_bytes_report(contents);
    proof {
        match mail_part1_body_of(contents@) {
            Some(body) => {
                lemma_body_uniform_purchaser(body);
            },
            None => {},
        }
        match &r.0 {
            Some(v) => {
                assert(file_records_of(contents@) matches Some(recs) && recs == v.deep_view());
            },
            None => {},
        }
    }
    r.0
}

} // verus!
