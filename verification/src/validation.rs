//! Field validation shared by every request type: required fields,
//! numeric maxima, and the DNS-label rule for names.
use vstd::prelude::*;
use crate::text::{chars_of, i64_decimal, int_decimal, string_push, u64_decimal};

verus! {

/// Why a field of a request was refused.
#[derive(Debug, Clone, PartialEq, Eq)]
pub enum ValidationError {
    /// The field is missing or empty.
    Required { field: String },
    /// The field is larger than allowed.
    Maximum { field: String, maximum: String, units: String },
    /// The field does not have the required shape.
    AllowRegexViolation { field: String, pattern: String },
    /// The field cannot be used as given.
    Invalid { field: String },
}

/// The qualified name of a field: `parent.field`, or `field` at the top level.
pub open spec fn spec_field_name(field: Seq<char>, parent: Option<Seq<char>>) -> Seq<char> {
    match parent {
        Some(p) => p + seq!['.'] + field,
        None => field,
    }
}

pub open spec fn opt_view(parent: Option<&str>) -> Option<Seq<char>> {
    match parent {
        Some(p) => Some(p@),
        None => None,
    }
}

/// Builds the qualified name of a field.
pub fn field_name(field: &str, parent: Option<&str>) -> (r: String)
    ensures
        r@ == spec_field_name(field@, opt_view(parent)),
{
    match parent {
        Some(p) => {
            let mut s = String::new();
            s.append(p);
            string_push(&mut s, '.');
            s.append(field);
            proof {
                assert(Seq::<char>::empty() + p@ == p@);
                assert(p@.push('.') + field@ =~= p@ + seq!['.'] + field@);
            }
            s
        },
        None => String::from_str(field),
    }
}

/// The error for a missing field.
pub open spec fn is_required_error(e: ValidationError, field: Seq<char>, parent: Option<Seq<char>>) -> bool {
    e matches ValidationError::Required { field: f } && f@ == spec_field_name(field, parent)
}

/// The value of a field that must be present.
pub fn required<T>(input: Option<T>, field: &str, parent: Option<&str>) -> (r: Result<T, ValidationError>)
    ensures
        input matches Some(v) ==> r == Ok::<T, ValidationError>(v),
        input is None ==> r is Err && is_required_error(r->Err_0, field@, opt_view(parent)),
{
    match input {
        Some(v) => Ok(v),
        None => Err(ValidationError::Required { field: field_name(field, parent) }),
    }
}

/// The value of a text field that must be present and not empty.
pub fn required_not_empty(input: Option<String>, field: &str, parent: Option<&str>) -> (r: Result<String, ValidationError>)
    ensures
        (input matches Some(v) && v@.len() > 0) ==> r == Ok::<String, ValidationError>(input->0),
        !(input matches Some(v) && v@.len() > 0) ==> r is Err && is_required_error(r->Err_0, field@, opt_view(parent)),
{
    match input {
        Some(v) => {
            if v.as_str().is_empty() {
                Err(ValidationError::Required { field: field_name(field, parent) })
            } else {
                Ok(v)
            }
        },
        None => Err(ValidationError::Required { field: field_name(field, parent) }),
    }
}

/// The error for a value above `maximum`.
pub open spec fn is_maximum_error(e: ValidationError, field: Seq<char>, parent: Option<Seq<char>>, maximum: int, units: Seq<char>) -> bool {
    e matches ValidationError::Maximum { field: f, maximum: m, units: u }
        && f@ == spec_field_name(field, parent) && m@ == int_decimal(maximum) && u@ == units
}

/// Refuses a signed value above `maximum`.
pub fn maximum_value_i64(value: i64, maximum: i64, units: &str, field: &str, parent: Option<&str>) -> (r: Result<(), ValidationError>)
    ensures
        value <= maximum ==> r is Ok,
        value > maximum ==> r is Err && is_maximum_error(r->Err_0, field@, opt_view(parent), maximum as int, units@),
{
    if value > maximum {
        Err(ValidationError::Maximum {
            field: field_name(field, parent),
            maximum: i64_decimal(maximum),
            units: String::from_str(units),
        })
    } else {
        Ok(())
    }
}

/// Refuses an unsigned value above `maximum`.
pub fn maximum_value_u64(value: u64, maximum: u64, units: &str, field: &str, parent: Option<&str>) -> (r: Result<(), ValidationError>)
    ensures
        value <= maximum ==> r is Ok,
        value > maximum ==> r is Err && is_maximum_error(r->Err_0, field@, opt_view(parent), maximum as int, units@),
{
    if value > maximum {
        Err(ValidationError::Maximum {
            field: field_name(field, parent),
            maximum: u64_decimal(maximum),
            units: String::from_str(units),
        })
    } else {
        Ok(())
    }
}

/// A lower-case ASCII letter or a decimal digit.
pub open spec fn is_label_alnum(c: char) -> bool {
    ('a' <= c && c <= 'z') || ('0' <= c && c <= '9')
}

/// A character that may appear inside a DNS label.
pub open spec fn is_label_char(c: char) -> bool {
    is_label_alnum(c) || c == '-'
}

/// An RFC 1123 DNS label: 1 to 63 characters of lower-case letters, digits
/// and `-`, starting and ending with a letter or digit.
pub open spec fn is_dns_label(s: Seq<char>) -> bool {
    &&& 1 <= s.len() <= 63
    &&& forall|i: int| 0 <= i < s.len() ==> is_label_char(#[trigger] s[i])
    &&& is_label_alnum(s[0])
    &&& is_label_alnum(s[s.len() - 1])
}

/// The pattern that names must match, as reported in errors.
pub fn dns_label_pattern() -> (r: String)
    ensures
        r@ == dns_label_pattern_text(),
{
    let mut s = String::new();
    s.append("^[a-z0-9]([-a-z0-9]{0,61}[a-z0-9])?$");
    proof {
        assert(Seq::<char>::empty() + "^[a-z0-9]([-a-z0-9]{0,61}[a-z0-9])?$"@ =~= "^[a-z0-9]([-a-z0-9]{0,61}[a-z0-9])?$"@);
    }
    s
}

pub open spec fn dns_label_pattern_text() -> Seq<char> {
    "^[a-z0-9]([-a-z0-9]{0,61}[a-z0-9])?$"@
}

/// Whether `s` is a DNS label.
pub fn check_dns_label(s: &str) -> (r: bool)
    ensures
        r == is_dns_label(s@),
{
    let v = chars_of(s);
    let n = v.len();
    if n == 0 || n > 63 {
        return false;
    }
    let first = v[0];
    let last = v[n - 1];
    if !(('a' <= first && first <= 'z') || ('0' <= first && first <= '9')) {
        return false;
    }
    if !(('a' <= last && last <= 'z') || ('0' <= last && last <= '9')) {
        return false;
    }
    let mut i: usize = 0;
    while i < n
        invariant
            v@ == s@,
            n == v.len(),
            i <= n,
            forall|k: int| 0 <= k < i ==> is_label_char(#[trigger] v@[k]),
        decreases n - i,
    {
        let c = v[i];
        if !(('a' <= c && c <= 'z') || ('0' <= c && c <= '9') || c == '-') {
            return false;
        }
        i = i + 1;
    }
    true
}

/// A name is accepted as a DNS label exactly when it has 1 to 63
/// characters, each a lower-case ASCII letter, a decimal digit or `-`, and
/// its first and last characters are lower-case letters or digits; so a
/// name with an upper-case letter, `_`, `.` or any other character is
/// refused.
pub proof fn law_dns_label_is_lower_alnum_and_hyphen(s: Seq<char>)
    ensures
        is_dns_label(s) <==> {
            &&& 1 <= s.len() <= 63
            &&& forall|i: int| 0 <= i < s.len() ==> {
                let c = #[trigger] s[i];
                ('a' <= c && c <= 'z') || ('0' <= c && c <= '9') || c == '-'
            }
            &&& (('a' <= s[0] && s[0] <= 'z') || ('0' <= s[0] && s[0] <= '9'))
            &&& (('a' <= s[s.len() - 1] && s[s.len() - 1] <= 'z') || ('0' <= s[s.len() - 1] && s[s.len() - 1] <= '9'))
        },
        forall|i: int| 0 <= i < s.len() && 'A' <= #[trigger] s[i] && s[i] <= 'Z' ==> !is_dns_label(s),
{
}

/// The error for a name that is not a DNS label.
pub open spec fn is_pattern_error(e: ValidationError, field: Seq<char>, parent: Option<Seq<char>>) -> bool {
    e matches ValidationError::AllowRegexViolation { field: f, pattern: p }
        && f@ == spec_field_name(field, parent) && p@ == dns_label_pattern_text()
}

/// Refuses a value that is not a DNS label.
pub fn allow_dns_label(input: &str, field: &str, parent: Option<&str>) -> (r: Result<(), ValidationError>)
    ensures
        is_dns_label(input@) ==> r is Ok,
        !is_dns_label(input@) ==> r is Err && is_pattern_error(r->Err_0, field@, opt_view(parent)),
{
    if check_dns_label(input) {
        Ok(())
    } else {
        Err(ValidationError::AllowRegexViolation {
            field: field_name(field, parent),
            pattern: dns_label_pattern(),
        })
    }
}

} // verus!
