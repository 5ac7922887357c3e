//! Result decoder: normalizes the raw bytes of an actor's terminal
//! result into one canonical record.
//!
//! Two wire sub-formats feed it. A structured payload is a flat JSON
//! object with optional keys; when that object carries a `status_msg`
//! string, the string's legacy content overrides every structured field.
//! The legacy sub-format is a `|`-separated list of `KEY:VALUE` fields
//! with keys `STATUS`, `MESSAGE`, `HASH`, `COMMIT_MSG`, `FILES`, `INS`
//! and `DELS`; for `HASH` and `COMMIT_MSG` the value `none` marks an
//! absent field, and the three counters read as zero whenever their
//! value is not a well-formed number. Decoding is total: no payload is
//! rejected, it only degrades to the most complete record obtainable.

use vstd::prelude::*;
use vstd::string::StrSliceExecFns;
use crate::text::find_char_from;
use crate::text::first_index_from;
use crate::text::lemma_first_index_from;
use crate::text::lemma_first_index_from_unique;
use crate::text::parse_u64_default_zero;
use crate::text::parse_u64_or_zero;
use crate::text::parses_as_u64;
use crate::text::str_eq;

verus! {

/// The canonical result record, produced from either wire sub-format.
pub struct CanonicalResult {
    pub success: bool,
    pub message: Option<String>,
    pub commit_hash: Option<String>,
    pub commit_message: Option<String>,
    pub files_changed: u64,
    pub insertions: u64,
    pub deletions: u64,
    pub pushed: Option<bool>,
    pub error: Option<String>,
}

/// Mathematical model of a canonical result record.
pub struct CanonicalResultModel {
    pub success: bool,
    pub message: Option<Seq<char>>,
    pub commit_hash: Option<Seq<char>>,
    pub commit_message: Option<Seq<char>>,
    pub files_changed: u64,
    pub insertions: u64,
    pub deletions: u64,
    pub pushed: Option<bool>,
    pub error: Option<Seq<char>>,
}

impl View for CanonicalResult {
    type V = CanonicalResultModel;

    open spec fn view(&self) -> CanonicalResultModel {
        CanonicalResultModel {
            success: self.success,
            message: self.message.deep_view(),
            commit_hash: self.commit_hash.deep_view(),
            commit_message: self.commit_message.deep_view(),
            files_changed: self.files_changed,
            insertions: self.insertions,
            deletions: self.deletions,
            pushed: self.pushed,
            error: self.error.deep_view(),
        }
    }
}

/// The record every decoding starts from: a failure with nothing filled
/// in and all counters zero.
pub open spec fn legacy_init() -> CanonicalResultModel {
    CanonicalResultModel {
        success: false,
        message: None,
        commit_hash: None,
        commit_message: None,
        files_changed: 0,
        insertions: 0,
        deletions: 0,
        pushed: None,
        error: None,
    }
}

/// One legacy field applied to the record built so far. A field without
/// a colon, or with an unrecognized key, changes nothing; the sentinel
/// value `none` leaves the hash and the commit message absent; the
/// counters read through the total decimal parser.
pub open spec fn apply_legacy_field(acc: CanonicalResultModel, f: Seq<char>) -> CanonicalResultModel {
    let ci = first_index_from(f, ':', 0);
    if ci == f.len() {
        acc
    } else {
        let k = f.subrange(0, ci);
        let v = f.subrange(ci + 1, f.len() as int);
        if k == "STATUS"@ {
            CanonicalResultModel { success: v == "true"@, ..acc }
        } else if k == "MESSAGE"@ {
            CanonicalResultModel { message: Some(v), ..acc }
        } else if k == "HASH"@ {
            if v == "none"@ {
                acc
            } else {
                CanonicalResultModel { commit_hash: Some(v), ..acc }
            }
        } else if k == "COMMIT_MSG"@ {
            if v == "none"@ {
                acc
            } else {
                CanonicalResultModel { commit_message: Some(v), ..acc }
            }
        } else if k == "FILES"@ {
            CanonicalResultModel { files_changed: parse_u64_or_zero(v), ..acc }
        } else if k == "INS"@ {
            CanonicalResultModel { insertions: parse_u64_or_zero(v), ..acc }
        } else if k == "DELS"@ {
            CanonicalResultModel { deletions: parse_u64_or_zero(v), ..acc }
        } else {
            acc
        }
    }
}

/// The legacy string folded field by field, splitting at every `|`.
pub open spec fn legacy_fold(s: Seq<char>, acc: CanonicalResultModel) -> CanonicalResultModel
    decreases s.len(),
    via legacy_fold_decreases
{
    let bi = first_index_from(s, '|', 0);
    if bi == s.len() {
        apply_legacy_field(acc, s)
    } else {
        legacy_fold(s.subrange(bi + 1, s.len() as int), apply_legacy_field(acc, s.subrange(0, bi)))
    }
}

#[via_fn]
proof fn legacy_fold_decreases(s: Seq<char>, acc: CanonicalResultModel) {
    lemma_first_index_from(s, '|', 0);
}

/// What the legacy sub-format denotes: the fold from the initial record.
pub open spec fn spec_decode_legacy(s: Seq<char>) -> CanonicalResultModel {
    legacy_fold(s, legacy_init())
}

/// Decode a legacy `|`-separated `KEY:VALUE` string. Total: every
/// string decodes to a record.
pub fn decode_legacy(s: &str) -> (r: CanonicalResult)
    ensures
        r@ == spec_decode_legacy(s@),
{
    let len = s.unicode_len();
    let mut res = CanonicalResult {
        success: false,
        message: None,
        commit_hash: None,
        commit_message: None,
        files_changed: 0,
        insertions: 0,
        deletions: 0,
        pushed: None,
        error: None,
    };
    let mut pos: usize = 0;
    proof {
        assert(s@.subrange(0, len as int) =~= s@);
    }
    loop
        invariant
            len == s@.len(),
            pos <= len,
            legacy_fold(s@.subrange(pos as int, len as int), res@) == spec_decode_legacy(s@),
        decreases len - pos + 1,
    {
        let bar = find_char_from(s, pos, '|');
        let field = s.substring_char(pos, bar);
        let ghost sub = s@.subrange(pos as int, len as int);
        proof {
            assert(forall|j: int| 0 <= j < bar - pos ==> sub[j] != '|');
            assert(bar < len ==> sub[bar - pos] == '|');
            lemma_first_index_from_unique(sub, '|', 0, bar - pos);
            assert(field@ =~= sub.subrange(0, bar - pos));
        }
        apply_field(&mut res, field);
        if bar == len {
            proof {
                assert(sub.subrange(0, bar - pos) =~= sub);
            }
            return res;
        }
        proof {
            assert(sub.subrange(bar - pos + 1, sub.len() as int) =~= s@.subrange(
                bar + 1,
                len as int,
            ));
        }
        pos = bar + 1;
    }
}

/// The fields of a structured result payload, one flat JSON object with
/// every key optional. This is the shape the wire carries; the decoder
/// turns it into a canonical record.
pub struct StructuredPayload {
    pub success: Option<bool>,
    pub message: Option<String>,
    pub commit_hash: Option<String>,
    pub commit_message: Option<String>,
    pub files_changed: Option<u64>,
    pub insertions: Option<u64>,
    pub deletions: Option<u64>,
    pub pushed: Option<bool>,
    pub error: Option<String>,
    pub status_msg: Option<String>,
}

/// Mathematical model of a structured payload.
pub struct StructuredPayloadModel {
    pub success: Option<bool>,
    pub message: Option<Seq<char>>,
    pub commit_hash: Option<Seq<char>>,
    pub commit_message: Option<Seq<char>>,
    pub files_changed: Option<u64>,
    pub insertions: Option<u64>,
    pub deletions: Option<u64>,
    pub pushed: Option<bool>,
    pub error: Option<Seq<char>>,
    pub status_msg: Option<Seq<char>>,
}

impl View for StructuredPayload {
    type V = StructuredPayloadModel;

    open spec fn view(&self) -> StructuredPayloadModel {
        StructuredPayloadModel {
            success: self.success,
            message: self.message.deep_view(),
            commit_hash: self.commit_hash.deep_view(),
            commit_message: self.commit_message.deep_view(),
            files_changed: self.files_changed,
            insertions: self.insertions,
            deletions: self.deletions,
            pushed: self.pushed,
            error: self.error.deep_view(),
            status_msg: self.status_msg.deep_view(),
        }
    }
}

impl DeepView for StructuredPayload {
    type V = StructuredPayloadModel;

    open spec fn deep_view(&self) -> StructuredPayloadModel {
        self.view()
    }
}

/// The structured payload the given bytes denote: `Some` exactly when
/// the bytes parse as one JSON object, with each recognized key read
/// when its value has the right type and absent otherwise. The JSON
/// grammar is the outside library's; only this name ties the decoder to
/// it.
pub uninterp spec fn structured_of(b: Seq<u8>) -> Option<StructuredPayloadModel>;

/// Relies on serde_json::from_slice::<Value>, Value::is_object and the
/// accessors Value::get, Value::as_bool, Value::as_str, Value::as_u64:
/// the bytes either parse as one JSON document whose top level is an
/// object, or they do not, and each field is read from the object's
/// entry of that name; the outcome is a function of the bytes alone.
#[verifier::external_body]
fn parse_structured(bytes: &Vec<u8>) -> (r: Option<StructuredPayload>)
    ensures
        r.deep_view() == structured_of(bytes@),
{
    let v = match serde_json::from_slice::<serde_json::Value>(bytes) {
        Ok(v) if v.is_object() => v,
        _ => return None,
    };
    let s = |k: &str| v.get(k).and_then(|x| x.as_str()).map(str::to_owned);
    let b = |k: &str| v.get(k).and_then(|x| x.as_bool());
    let n = |k: &str| v.get(k).and_then(|x| x.as_u64());
    Some(StructuredPayload {
        success: b("success"), message: s("message"), commit_hash: s("commit_hash"),
        commit_message: s("commit_message"), files_changed: n("files_changed"),
        insertions: n("insertions"), deletions: n("deletions"), pushed: b("pushed"),
        error: s("error"), status_msg: s("status_msg"),
    })
}

/// What a structured payload denotes: the legacy content of `status_msg`
/// when that key is present — it strictly overrides every structured
/// field — and otherwise the structured fields themselves, absent keys
/// reading as their documented defaults.
pub open spec fn spec_decode_structured(p: StructuredPayloadModel) -> CanonicalResultModel {
    match p.status_msg {
        Some(m) => spec_decode_legacy(m),
        None => CanonicalResultModel {
            success: p.success == Some(true),
            message: p.message,
            commit_hash: p.commit_hash,
            commit_message: p.commit_message,
            files_changed: opt_count(p.files_changed),
            insertions: opt_count(p.insertions),
            deletions: opt_count(p.deletions),
            pushed: p.pushed,
            error: p.error,
        },
    }
}

/// An optional counter read with its default.
pub open spec fn opt_count(c: Option<u64>) -> u64 {
    match c {
        Some(n) => n,
        None => 0,
    }
}

/// Decode a structured payload into the canonical record.
pub fn decode_structured(p: StructuredPayload) -> (r: CanonicalResult)
    ensures
        r@ == spec_decode_structured(p@),
{
    match p.status_msg {
        Some(m) => decode_legacy(m.as_str()),
        None => CanonicalResult {
            success: match p.success {
                Some(b) => b,
                None => false,
            },
            message: p.message,
            commit_hash: p.commit_hash,
            commit_message: p.commit_message,
            files_changed: match p.files_changed {
                Some(n) => n,
                None => 0,
            },
            insertions: match p.insertions {
                Some(n) => n,
                None => 0,
            },
            deletions: match p.deletions {
                Some(n) => n,
                None => 0,
            },
            pushed: p.pushed,
            error: p.error,
        },
    }
}

/// What an optional raw result payload denotes: a missing payload and
/// bytes that fail the structured parse each degrade to a failure record
/// with a soft message; everything else decodes through the structured
/// payload.
pub open spec fn spec_decode_result(payload: Option<Seq<u8>>) -> CanonicalResultModel {
    match payload {
        None => CanonicalResultModel { message: Some("no data returned"@), ..legacy_init() },
        Some(b) => match structured_of(b) {
            None => CanonicalResultModel {
                message: Some("unable to parse actor result"@),
                ..legacy_init()
            },
            Some(p) => spec_decode_structured(p),
        },
    }
}

/// Decode the raw result bytes of an actor's terminal outcome. Total:
/// malformed or missing input never fails, it yields the most complete
/// record obtainable.
pub fn decode_result(payload: Option<Vec<u8>>) -> (r: CanonicalResult)
    ensures
        r@ == spec_decode_result(payload.deep_view()),
{
    match &payload {
        None => CanonicalResult {
            success: false,
            message: Some("no data returned".to_owned()),
            commit_hash: None,
            commit_message: None,
            files_changed: 0,
            insertions: 0,
            deletions: 0,
            pushed: None,
            error: None,
        },
        Some(bytes) => match parse_structured(bytes) {
            None => {
                proof {
                    assert(payload.deep_view() == Some(bytes@));
                }
                CanonicalResult {
                    success: false,
                    message: Some("unable to parse actor result".to_owned()),
                    commit_hash: None,
                    commit_message: None,
                    files_changed: 0,
                    insertions: 0,
                    deletions: 0,
                    pushed: None,
                    error: None,
                }
            },
            Some(p) => {
                proof {
                    assert(payload.deep_view() == Some(bytes@));
                }
                decode_structured(p)
            },
        },
    }
}

/// The value the field carries when its key is `STATUS`, and nothing
/// otherwise.
pub open spec fn field_status_value(f: Seq<char>) -> Option<Seq<char>> {
    let ci = first_index_from(f, ':', 0);
    if ci == f.len() {
        None
    } else if f.subrange(0, ci) == "STATUS"@ {
        Some(f.subrange(ci + 1, f.len() as int))
    } else {
        None
    }
}

/// The value of the last `STATUS` field of a legacy string, if any.
pub open spec fn last_status_value(s: Seq<char>) -> Option<Seq<char>>
    decreases s.len(),
    via last_status_value_decreases
{
    let bi = first_index_from(s, '|', 0);
    if bi == s.len() {
        field_status_value(s)
    } else {
        match last_status_value(s.subrange(bi + 1, s.len() as int)) {
            Some(v) => Some(v),
            None => field_status_value(s.subrange(0, bi)),
        }
    }
}

#[via_fn]
proof fn last_status_value_decreases(s: Seq<char>) {
    lemma_first_index_from(s, '|', 0);
}

proof fn lemma_fold_success(s: Seq<char>, acc: CanonicalResultModel)
    ensures
        legacy_fold(s, acc).success == match last_status_value(s) {
            Some(v) => v == "true"@,
            None => acc.success,
        },
    decreases s.len(),
{
    lemma_first_index_from(s, '|', 0);
    let bi = first_index_from(s, '|', 0);
    if bi < s.len() {
        lemma_fold_success(
            s.subrange(bi + 1, s.len() as int),
            apply_legacy_field(acc, s.subrange(0, bi)),
        );
    }
}

/// Decoding a legacy string never fails, and its `success` field holds
/// exactly when the string's last `STATUS` field carries the value
/// `true`; with no `STATUS` field at all the record reports failure.
pub proof fn lemma_success_tracks_status(s: Seq<char>)
    ensures
        spec_decode_legacy(s).success <==> last_status_value(s) == Some("true"@),
{
    lemma_fold_success(s, legacy_init());
}

proof fn lemma_fold_no_sentinel(s: Seq<char>, acc: CanonicalResultModel)
    requires
        acc.commit_hash != Some("none"@),
        acc.commit_message != Some("none"@),
    ensures
        legacy_fold(s, acc).commit_hash != Some("none"@),
        legacy_fold(s, acc).commit_message != Some("none"@),
    decreases s.len(),
{
    lemma_first_index_from(s, '|', 0);
    let bi = first_index_from(s, '|', 0);
    if bi < s.len() {
        lemma_fold_no_sentinel(
            s.subrange(bi + 1, s.len() as int),
            apply_legacy_field(acc, s.subrange(0, bi)),
        );
    }
}

/// The sentinel value `none` always decodes to an absent field: no
/// legacy string yields a record whose hash or commit message is the
/// literal string `none`. The sentinel is defined for those two keys
/// alone; a `MESSAGE` field carries its value verbatim.
pub proof fn lemma_none_sentinel_stays_absent(s: Seq<char>)
    ensures
        spec_decode_legacy(s).commit_hash != Some("none"@),
        spec_decode_legacy(s).commit_message != Some("none"@),
{
    lemma_fold_no_sentinel(s, legacy_init());
}

proof fn lemma_fold_keeps_pushed_and_error(s: Seq<char>, acc: CanonicalResultModel)
    ensures
        legacy_fold(s, acc).pushed == acc.pushed,
        legacy_fold(s, acc).error == acc.error,
    decreases s.len(),
{
    lemma_first_index_from(s, '|', 0);
    let bi = first_index_from(s, '|', 0);
    if bi < s.len() {
        lemma_fold_keeps_pushed_and_error(
            s.subrange(bi + 1, s.len() as int),
            apply_legacy_field(acc, s.subrange(0, bi)),
        );
    }
}

/// The legacy sub-format carries no pushed flag and no error field, so
/// when a `status_msg` overrides a structured payload it leaves neither
/// of them behind.
pub proof fn lemma_legacy_pushed_and_error_absent(s: Seq<char>)
    ensures
        spec_decode_legacy(s).pushed is None,
        spec_decode_legacy(s).error is None,
{
    lemma_fold_keeps_pushed_and_error(s, legacy_init());
}

/// A counter field whose value is not a well-formed unsigned decimal
/// reads as zero, never as an error: one decoding step with such a
/// `FILES`, `INS` or `DELS` field writes zero into the record.
pub proof fn lemma_unparsable_counts_read_zero(acc: CanonicalResultModel, f: Seq<char>)
    ensures
        ({
            let ci = first_index_from(f, ':', 0);
            ci < f.len() && f.subrange(0, ci) == "FILES"@ && !parses_as_u64(
                f.subrange(ci + 1, f.len() as int),
            )
        }) ==> apply_legacy_field(acc, f).files_changed == 0,
        ({
            let ci = first_index_from(f, ':', 0);
            ci < f.len() && f.subrange(0, ci) == "INS"@ && !parses_as_u64(
                f.subrange(ci + 1, f.len() as int),
            )
        }) ==> apply_legacy_field(acc, f).insertions == 0,
        ({
            let ci = first_index_from(f, ':', 0);
            ci < f.len() && f.subrange(0, ci) == "DELS"@ && !parses_as_u64(
                f.subrange(ci + 1, f.len() as int),
            )
        }) ==> apply_legacy_field(acc, f).deletions == 0,
{
    lemma_first_index_from(f, ':', 0);
    reveal_strlit("STATUS");
    reveal_strlit("MESSAGE");
    reveal_strlit("HASH");
    reveal_strlit("COMMIT_MSG");
    reveal_strlit("FILES");
    reveal_strlit("INS");
    reveal_strlit("DELS");
    assert("STATUS"@.len() == 6);
    assert("MESSAGE"@.len() == 7);
    assert("HASH"@.len() == 4);
    assert("COMMIT_MSG"@.len() == 10);
    assert("FILES"@.len() == 5);
    assert("INS"@.len() == 3);
    assert("DELS"@.len() == 4);
    assert("DELS"@[0] == 'D' && "HASH"@[0] == 'H');
}

/// A `status_msg` key strictly overrides the structured fields: the
/// record is then exactly the legacy decoding of its content.
pub proof fn lemma_status_msg_overrides(p: StructuredPayloadModel)
    ensures
        p.status_msg matches Some(m) ==> spec_decode_structured(p) == spec_decode_legacy(m),
{
}

/// What an actor's terminal outcome denotes: a success decodes through
/// its payload, a failure is a failure record carrying the reported
/// error.
pub open spec fn spec_decode_outcome(o: crate::protocol::ActorOutcome) -> CanonicalResultModel {
    match o {
        crate::protocol::ActorOutcome::Success { payload, .. } => spec_decode_result(
            payload.deep_view(),
        ),
        crate::protocol::ActorOutcome::Failure { error, .. } => CanonicalResultModel {
            error: Some(error@),
            ..legacy_init()
        },
    }
}

/// Decode an actor's terminal outcome into the canonical record.
pub fn decode_outcome(o: crate::protocol::ActorOutcome) -> (r: CanonicalResult)
    ensures
        r@ == spec_decode_outcome(o),
{
    match o {
        crate::protocol::ActorOutcome::Success { payload, .. } => decode_result(payload),
        crate::protocol::ActorOutcome::Failure { error, .. } => CanonicalResult {
            success: false,
            message: None,
            commit_hash: None,
            commit_message: None,
            files_changed: 0,
            insertions: 0,
            deletions: 0,
            pushed: None,
            error: Some(error),
        },
    }
}

/// Apply one legacy field to the record built so far.
fn apply_field(res: &mut CanonicalResult, f: &str)
    ensures
        final(res)@ == apply_legacy_field(old(res)@, f@),
{
    let flen = f.unicode_len();
    let ci = find_char_from(f, 0, ':');
    if ci == flen {
        return;
    }
    let key = f.substring_char(0, ci);
    let val = f.substring_char(ci + 1, flen);
    if str_eq(key, "STATUS") {
        res.success = str_eq(val, "true");
    } else if str_eq(key, "MESSAGE") {
        res.message = Some(val.to_owned());
    } else if str_eq(key, "HASH") {
        if !str_eq(val, "none") {
            res.commit_hash = Some(val.to_owned());
        }
    } else if str_eq(key, "COMMIT_MSG") {
        if !str_eq(val, "none") {
            res.commit_message = Some(val.to_owned());
        }
    } else if str_eq(key, "FILES") {
        res.files_changed = parse_u64_default_zero(val);
    } else if str_eq(key, "INS") {
        res.insertions = parse_u64_default_zero(val);
    } else if str_eq(key, "DELS") {
        res.deletions = parse_u64_default_zero(val);
    }
}

} // verus!
