use vstd::prelude::*;

use crate::errors::ServiceError;

verus! {

/// Declares mongodb's driver error so that it can stand in signatures; its
/// contents are read only through `write_error_parts`.
#[verifier::external_type_specification]
#[verifier::external_body]
pub struct ExMongoError(mongodb::error::Error);

/// True when the literal `dup key: { ` (eleven characters) stands at
/// position `p` of `s`.
pub open spec fn marker_at(s: Seq<char>, p: int) -> bool {
    &&& 0 <= p
    &&& p + 11 <= s.len()
    &&& s[p] == 'd'
    &&& s[p + 1] == 'u'
    &&& s[p + 2] == 'p'
    &&& s[p + 3] == ' '
    &&& s[p + 4] == 'k'
    &&& s[p + 5] == 'e'
    &&& s[p + 6] == 'y'
    &&& s[p + 7] == ':'
    &&& s[p + 8] == ' '
    &&& s[p + 9] == '{'
    &&& s[p + 10] == ' '
}

/// The position of the first colon of `s` at or after `j`, if any.
pub open spec fn first_colon_from(s: Seq<char>, j: int) -> Option<int>
    decreases s.len() - j,
{
    if j < 0 || j >= s.len() {
        None
    } else if s[j] == ':' {
        Some(j)
    } else {
        first_colon_from(s, j + 1)
    }
}

/// The field name captured by a match that starts at position `p`: the marker,
/// then at least one character up to the next colon.
pub open spec fn field_at(s: Seq<char>, p: int) -> Option<Seq<char>> {
    if marker_at(s, p) {
        match first_colon_from(s, p + 11) {
            Some(k) => if k > p + 11 {
                Some(s.subrange(p + 11, k))
            } else {
                None
            },
            None => None,
        }
    } else {
        None
    }
}

/// The field name of the leftmost match that starts at or after `p`.
pub open spec fn extract_from(s: Seq<char>, p: int) -> Option<Seq<char>>
    decreases s.len() - p,
{
    if p < 0 || p + 11 > s.len() {
        None
    } else if field_at(s, p) is Some {
        field_at(s, p)
    } else {
        extract_from(s, p + 1)
    }
}

/// The field name that a duplicate-key message reports: the characters between
/// the leftmost `dup key: { ` and the next colon, when there is at least one.
pub open spec fn spec_dup_field(s: Seq<char>) -> Option<Seq<char>> {
    extract_from(s, 0)
}

/// A found colon lies within the string, at or after the start of the search,
/// and no colon comes before it there.
proof fn lemma_first_colon_bounds(s: Seq<char>, j: int)
    requires
        first_colon_from(s, j) is Some,
    ensures
        match first_colon_from(s, j) {
            Some(k) => j <= k < s.len() && s[k] == ':',
            None => true,
        },
    decreases s.len() - j,
{
    if j < 0 || j >= s.len() {
    } else if s[j] == ':' {
    } else {
        lemma_first_colon_bounds(s, j + 1);
    }
}

/// A captured field name holds at least one character.
pub proof fn lemma_dup_field_nonempty(s: Seq<char>, p: int)
    requires
        extract_from(s, p) is Some,
    ensures
        match extract_from(s, p) {
            Some(f) => f.len() >= 1,
            None => true,
        },
    decreases s.len() - p,
{
    if p < 0 || p + 11 > s.len() {
    } else if field_at(s, p) is Some {
        let k = first_colon_from(s, p + 11).unwrap();
        lemma_first_colon_bounds(s, p + 11);
    } else {
        lemma_dup_field_nonempty(s, p + 1);
    }
}

/// True when the marker stands at position `p` of `s`.
fn marker_at_exec(s: &str, p: usize) -> (r: bool)
    requires
        p + 11 <= s@.len(),
        s@.len() <= usize::MAX,
    ensures
        r == marker_at(s@, p as int),
{
    let r = s.get_char(p) == 'd' && s.get_char(p + 1) == 'u' && s.get_char(p + 2) == 'p'
        && s.get_char(p + 3) == ' ' && s.get_char(p + 4) == 'k' && s.get_char(p + 5) == 'e'
        && s.get_char(p + 6) == 'y' && s.get_char(p + 7) == ':' && s.get_char(p + 8) == ' '
        && s.get_char(p + 9) == '{' && s.get_char(p + 10) == ' ';
    r
}

/// The position of the first colon of `s` at or after `from`, if any.
fn find_colon(s: &str, from: usize) -> (r: Option<usize>)
    requires
        from <= s@.len(),
    ensures
        match r {
            Some(k) => first_colon_from(s@, from as int) == Some(k as int),
            None => first_colon_from(s@, from as int) is None,
        },
{
    let n = s.unicode_len();
    let mut k = from;
    while k < n
        invariant
            n == s@.len(),
            from <= k <= n,
            first_colon_from(s@, from as int) == first_colon_from(s@, k as int),
        decreases n - k,
    {
        let c = s.get_char(k);
        if c == ':' {
            return Some(k);
        }
        k = k + 1;
    }
    None
}

/// Reads the duplicated field's name out of a server message, as the leftmost
/// occurrence of `dup key: { ` followed by the characters up to the next
/// colon; at least one such character must be there.
pub fn extract_duplicate_field(message: &str) -> (r: Option<String>)
    ensures
        r is Some <==> spec_dup_field(message@) is Some,
        r matches Some(f) ==> Some(f@) == spec_dup_field(message@),
{
    let n = message.unicode_len();
    if n < 11 {
        return None;
    }
    let mut p: usize = 0;
    while p <= n - 11
        invariant
            n == message@.len(),
            11 <= n,
            p <= n,
            extract_from(message@, 0) == extract_from(message@, p as int),
        decreases n - p,
    {
        if marker_at_exec(message, p) {
            match find_colon(message, p + 11) {
                Some(k) => {
                    if k > p + 11 {
                        proof {
                            lemma_first_colon_bounds(message@, p as int + 11);
                        }
                        let f = message.substring_char(p + 11, k);
                        return Some(f.to_owned());
                    }
                },
                None => {},
            }
        }
        p = p + 1;
    }
    None
}

/// Translates one write error's code and message: a conflict exactly when the
/// code is the duplicate-key code 11000 and the message names the field, whose
/// name the conflict message extends with ` sudah digunakan`.
pub fn conflict_from_write_error(code: i32, message: &str) -> (r: Option<ServiceError>)
    ensures
        r is Some <==> (code == 11000 && spec_dup_field(message@) is Some),
        r matches Some(e) ==> (spec_dup_field(message@) matches Some(f)
            && e matches ServiceError::Conflict(m) && m@ == f + " sudah digunakan"@),
{
    if code != 11000 {
        return None;
    }
    match extract_duplicate_field(message) {
        Some(field) => {
            let mut m = field;
            m.append(" sudah digunakan");
            Some(ServiceError::Conflict(m))
        },
        None => None,
    }
}

/// What a driver error holds for this translation: the code and message of
/// its write error, when its kind is one. A function of the error value alone.
pub uninterp spec fn mongo_write_parts(e: mongodb::error::Error) -> Option<(i32, Seq<char>)>;

/// Relies on mongodb's error model: `Error::kind` is either
/// `ErrorKind::Write(WriteFailure::WriteError(_))`, whose `code` and `message`
/// fields are handed out, or some other kind of error.
#[verifier::external_body]
fn write_error_parts(err: &mongodb::error::Error) -> (r: Option<(i32, String)>)
    ensures
        match r {
            Some(p) => mongo_write_parts(*err) == Some((p.0, p.1@)),
            None => mongo_write_parts(*err) is None,
        },
{
    match err.kind.as_ref() {
        mongodb::error::ErrorKind::Write(mongodb::error::WriteFailure::WriteError(we)) => Some(
            (we.code, we.message.clone()),
        ),
        _ => None,
    }
}

/// Turns a driver error into a conflict exactly when it reports a duplicate
/// key: a write error with code 11000 whose message names the duplicated
/// field. The conflict carries that field's name and ` sudah digunakan`.
pub fn handle_duplicate_key_error(err: &mongodb::error::Error) -> (r: Option<ServiceError>)
    ensures
        r is Some <==> (mongo_write_parts(*err) matches Some(p) && p.0 == 11000
            && spec_dup_field(p.1) is Some),
        r matches Some(e) ==> (mongo_write_parts(*err) matches Some(p) && (spec_dup_field(p.1)
            matches Some(f) && (f.len() >= 1 && (e matches ServiceError::Conflict(m) && m@ == f
            + " sudah digunakan"@)))),
{
    match write_error_parts(err) {
        Some((code, message)) => {
            let r = conflict_from_write_error(code, message.as_str());
            proof {
                if r is Some {
                    lemma_dup_field_nonempty(message@, 0);
                }
            }
            r
        },
        None => None,
    }
}

} // verus!
