use vstd::prelude::*;
use vstd::utf8::encode_utf8;

verus! {

/// Whether serde_json parses `text` as a JSON value.
pub uninterp spec fn json_valid(text: Seq<char>) -> bool;

/// The string member `key` of the JSON object that `text` holds, as
/// serde_json reads it: none where `text` is no JSON object, has no such
/// member, or the member is not a string.
pub uninterp spec fn json_string_member(text: Seq<char>, key: Seq<char>) -> Option<Seq<char>>;

/// Relies on serde_json::from_str into serde_json::Value: whether the text
/// parses as JSON.
#[verifier::external_body]
pub fn is_json(text: &str) -> (r: bool)
    ensures
        r == json_valid(text@),
{
    serde_json::from_str::<serde_json::Value>(text).is_ok()
}

/// Relies on serde_json::from_str into serde_json::Value, then
/// Value::get and Value::as_str: the string member `key` of the object.
#[verifier::external_body]
pub fn string_member(text: &str, key: &str) -> (r: Option<String>)
    ensures
        r matches Some(s) ==> json_string_member(text@, key@) == Some(s@),
        r is None ==> json_string_member(text@, key@) is None,
{
    let value = serde_json::from_str::<serde_json::Value>(text).ok()?;
    value.get(key)?.as_str().map(|s| s.to_string())
}

/// Deepest nesting of arrays and objects that a message body may have:
/// well within serde_json's recursion limit once the body sits inside a
/// message.
pub const MAX_BODY_NESTING: usize = 100;

/// Scanner state after one more byte: open brackets, whether inside a string
/// literal, whether the previous byte was an escape inside one.
pub open spec fn nesting_step(state: (nat, bool, bool), c: u8) -> (nat, bool, bool) {
    let (depth, in_string, escaped) = state;
    if in_string {
        if escaped {
            (depth, true, false)
        } else if c == 0x5c {
            (depth, true, true)
        } else if c == 0x22 {
            (depth, false, false)
        } else {
            (depth, true, false)
        }
    } else if c == 0x22 {
        (depth, true, false)
    } else if c == 0x5b || c == 0x7b {
        (depth + 1, false, false)
    } else if c == 0x5d || c == 0x7d {
        (if depth > 0 { (depth - 1) as nat } else { 0 }, false, false)
    } else {
        (depth, false, false)
    }
}

pub open spec fn nesting_state(bytes: Seq<u8>) -> (nat, bool, bool)
    decreases bytes.len(),
{
    if bytes.len() == 0 {
        (0, false, false)
    } else {
        nesting_step(nesting_state(bytes.drop_last()), bytes.last())
    }
}

/// Deepest nesting of brackets, outside string literals, over the text's bytes.
pub open spec fn max_nesting(bytes: Seq<u8>) -> nat
    decreases bytes.len(),
{
    if bytes.len() == 0 {
        0
    } else {
        let before = max_nesting(bytes.drop_last());
        let now = nesting_state(bytes).0;
        if before >= now {
            before
        } else {
            now
        }
    }
}

/// Whether a JSON text nests no deeper than a message body may.
pub open spec fn nesting_within_limit(text: Seq<char>) -> bool {
    max_nesting(encode_utf8(text)) <= MAX_BODY_NESTING
}

proof fn lemma_max_nesting_prefix(bytes: Seq<u8>, j: int)
    requires
        0 <= j <= bytes.len(),
    ensures
        max_nesting(bytes.take(j)) <= max_nesting(bytes),
    decreases bytes.len() - j,
{
    if j < bytes.len() {
        lemma_max_nesting_prefix(bytes, j + 1);
        assert(bytes.take(j + 1).drop_last() =~= bytes.take(j));
    } else {
        assert(bytes.take(j) =~= bytes);
    }
}

/// Whether `text` nests arrays and objects at most `MAX_BODY_NESTING` deep.
pub fn within_nesting_limit(text: &str) -> (r: bool)
    ensures
        r == nesting_within_limit(text@),
{
    let bytes = text.as_bytes();
    let ghost b = bytes@;
    let mut depth: usize = 0;
    let mut in_string = false;
    let mut escaped = false;
    let mut i: usize = 0;
    assert(b.take(0) =~= Seq::<u8>::empty());
    while i < bytes.len()
        invariant
            b == bytes@,
            b == encode_utf8(text@),
            i <= b.len(),
            nesting_state(b.take(i as int)) == (depth as nat, in_string, escaped),
            max_nesting(b.take(i as int)) <= MAX_BODY_NESTING,
            depth <= MAX_BODY_NESTING,
        decreases b.len() - i,
    {
        let c = bytes[i];
        assert(b.take(i as int + 1).drop_last() =~= b.take(i as int));
        assert(b.take(i as int + 1).last() == c);
        if in_string {
            if escaped {
                escaped = false;
            } else if c == 0x5c {
                escaped = true;
            } else if c == 0x22 {
                in_string = false;
            }
        } else if c == 0x22 {
            in_string = true;
        } else if c == 0x5b || c == 0x7b {
            if depth == MAX_BODY_NESTING {
                proof {
                    lemma_max_nesting_prefix(b, i as int + 1);
                }
                return false;
            }
            depth = depth + 1;
        } else if c == 0x5d || c == 0x7d {
            if depth > 0 {
                depth = depth - 1;
            }
        }
        i = i + 1;
    }
    assert(b.take(b.len() as int) =~= b);
    true
}

} // verus!
