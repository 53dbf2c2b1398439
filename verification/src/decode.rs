//! The event decoder: from the text of a pushed message to typed notifications.

use vstd::prelude::*;
use crate::json::{
    elements, integer, json_document, json_elements, json_integer, json_member, json_text,
    member, parse_document, text,
};
use crate::status::{ScanStatus, ScanStatusState};

verus! {

/// Why a message could not be decoded.
#[derive(Clone, Copy, Debug, PartialEq, Eq, Structural)]
pub enum DecodeError {
    /// The text is not a JSON document.
    Malformed,
    /// The document is not an array of objects that each carry an integer
    /// `scanId` in the range of `i32` and a string `status`.
    SchemaMismatch,
    /// A `status` string is none of the three recognised tags.
    UnknownStatus,
}

/// The notification that one element of the array stands for.
pub open spec fn notification_of(v: serde_json::Value) -> Result<ScanStatus, DecodeError> {
    match (json_member(v, "scanId"@), json_member(v, "status"@)) {
        (Some(id), Some(tag)) => match (json_integer(id), json_text(tag)) {
            (Some(n), Some(s)) => if n < i32::MIN || n > i32::MAX {
                Err(DecodeError::SchemaMismatch)
            } else {
                match ScanStatusState::of_wire_form(s) {
                    Some(status) => Ok(ScanStatus { scan_id: n as i32, status }),
                    None => Err(DecodeError::UnknownStatus),
                }
            },
            _ => Err(DecodeError::SchemaMismatch),
        },
        _ => Err(DecodeError::SchemaMismatch),
    }
}

/// The notifications that a sequence of elements stands for, in order. The
/// first element that does not decode decides the error.
pub open spec fn notifications_of(items: Seq<serde_json::Value>) -> Result<
    Seq<ScanStatus>,
    DecodeError,
>
    decreases items.len(),
{
    if items.len() == 0 {
        Ok(Seq::empty())
    } else {
        match notifications_of(items.drop_last()) {
            Err(e) => Err(e),
            Ok(before) => match notification_of(items.last()) {
                Ok(n) => Ok(before.push(n)),
                Err(e) => Err(e),
            },
        }
    }
}

/// The batch that a parsed document stands for.
pub open spec fn batch_of(v: serde_json::Value) -> Result<Seq<ScanStatus>, DecodeError> {
    match json_elements(v) {
        Some(items) => notifications_of(items),
        None => Err(DecodeError::SchemaMismatch),
    }
}

/// The batch that the text of a message stands for.
pub open spec fn decoded(payload: Seq<char>) -> Result<Seq<ScanStatus>, DecodeError> {
    match json_document(payload) {
        Some(v) => batch_of(v),
        None => Err(DecodeError::Malformed),
    }
}

/// An error among the first elements is the error of the whole sequence.
pub proof fn lemma_error_is_kept(items: Seq<serde_json::Value>, k: int)
    requires
        0 <= k <= items.len(),
        notifications_of(items.take(k)) is Err,
    ensures
        notifications_of(items) == notifications_of(items.take(k)),
    decreases items.len() - k,
{
    if k == items.len() {
        assert(items.take(k) =~= items);
    } else {
        assert(items.take(k + 1).drop_last() =~= items.take(k));
        lemma_error_is_kept(items, k + 1);
    }
}

/// Decodes one element of the array.
pub fn decode_notification(v: &serde_json::Value) -> (r: Result<ScanStatus, DecodeError>)
    ensures
        r == notification_of(*v),
{
    let id = match member(v, "scanId") {
        Some(id) => id,
        None => {
            return Err(DecodeError::SchemaMismatch);
        },
    };
    let tag = match member(v, "status") {
        Some(tag) => tag,
        None => {
            return Err(DecodeError::SchemaMismatch);
        },
    };
    let n: i64 = match integer(id) {
        Some(n) => n,
        None => {
            return Err(DecodeError::SchemaMismatch);
        },
    };
    let s = match text(tag) {
        Some(s) => s,
        None => {
            return Err(DecodeError::SchemaMismatch);
        },
    };
    if n < i32::MIN as i64 || n > i32::MAX as i64 {
        return Err(DecodeError::SchemaMismatch);
    }
    match ScanStatusState::from_label(s) {
        Some(status) => Ok(ScanStatus { scan_id: n as i32, status }),
        None => Err(DecodeError::UnknownStatus),
    }
}

/// Decodes a parsed document: an array whose elements all decode, or the
/// error of the first element that does not. Nothing of a batch is handed
/// out unless all of it decodes.
pub fn decode_batch(v: &serde_json::Value) -> (r: Result<Vec<ScanStatus>, DecodeError>)
    ensures
        match r {
            Ok(batch) => batch_of(*v) == Ok::<Seq<ScanStatus>, DecodeError>(batch@),
            Err(e) => batch_of(*v) == Err::<Seq<ScanStatus>, DecodeError>(e),
        },
{
    let items = match elements(v) {
        Some(items) => items,
        None => {
            return Err(DecodeError::SchemaMismatch);
        },
    };
    let mut batch: Vec<ScanStatus> = Vec::new();
    let mut i: usize = 0;
    assert(items@.take(0) =~= Seq::<serde_json::Value>::empty());
    while i < items.len()
        invariant
            0 <= i <= items.len(),
            json_elements(*v) == Some(items@),
            notifications_of(items@.take(i as int)) == Ok::<Seq<ScanStatus>, DecodeError>(batch@),
        decreases items.len() - i,
    {
        proof {
            let upto = items@.take(i + 1);
            assert(upto.drop_last() =~= items@.take(i as int));
            assert(upto.last() == items@[i as int]);
        }
        match decode_notification(&items[i]) {
            Ok(n) => {
                batch.push(n);
            },
            Err(e) => {
                proof {
                    assert(notifications_of(items@.take(i + 1)) is Err);
                    lemma_error_is_kept(items@, i + 1);
                }
                return Err(e);
            },
        }
        i += 1;
    }
    assert(items@.take(i as int) =~= items@);
    Ok(batch)
}

/// Decodes the text of a message.
pub fn decode_events(payload: &str) -> (r: Result<Vec<ScanStatus>, DecodeError>)
    ensures
        match r {
            Ok(batch) => decoded(payload@) == Ok::<Seq<ScanStatus>, DecodeError>(batch@),
            Err(e) => decoded(payload@) == Err::<Seq<ScanStatus>, DecodeError>(e),
        },
{
    match parse_document(payload) {
        Ok(v) => decode_batch(&v),
        Err(_) => Err(DecodeError::Malformed),
    }
}

} // verus!
