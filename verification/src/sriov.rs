//! SR-IOV: how many virtual functions to create on a network interface.
use vstd::prelude::*;
use crate::text::{chars_of, concat};

verus! {

/// Whether `c` is white space in Unicode (the `White_Space` property, as
/// `char::is_whitespace` documents it).
pub open spec fn is_white_space(c: char) -> bool {
    ||| ('\u{9}' <= c && c <= '\u{d}')
    ||| c == ' '
    ||| c == '\u{85}'
    ||| c == '\u{a0}'
    ||| c == '\u{1680}'
    ||| ('\u{2000}' <= c && c <= '\u{200a}')
    ||| c == '\u{2028}'
    ||| c == '\u{2029}'
    ||| c == '\u{202f}'
    ||| c == '\u{205f}'
    ||| c == '\u{3000}'
}

fn white_space(c: char) -> (r: bool)
    ensures
        r == is_white_space(c),
{
    ('\u{9}' <= c && c <= '\u{d}') || c == ' ' || c == '\u{85}' || c == '\u{a0}' || c == '\u{1680}'
        || ('\u{2000}' <= c && c <= '\u{200a}') || c == '\u{2028}' || c == '\u{2029}' || c == '\u{202f}'
        || c == '\u{205f}' || c == '\u{3000}'
}

/// `s` without the white space at its end.
pub open spec fn trim_end(s: Seq<char>) -> Seq<char>
    decreases s.len(),
{
    if s.len() > 0 && is_white_space(s.last()) {
        trim_end(s.drop_last())
    } else {
        s
    }
}

/// Whether `c` is an ASCII decimal digit.
pub open spec fn is_digit(c: char) -> bool {
    '0' <= c && c <= '9'
}

/// The number that the decimal digits `s` write.
pub open spec fn digits_value(s: Seq<char>) -> nat
    decreases s.len(),
{
    if s.len() == 0 {
        0
    } else {
        digits_value(s.drop_last()) * 10 + ((s.last() as nat) - ('0' as nat)) as nat
    }
}

/// The digits of a number text: after an optional `+`.
pub open spec fn unsigned_body(s: Seq<char>) -> Seq<char> {
    if s.len() > 0 && s[0] == '+' { s.drop_first() } else { s }
}

/// The `u16` a text writes, as `str::parse::<u16>` reads it: an optional
/// `+`, then one or more ASCII digits, of value at most 65535.
pub open spec fn spec_parse_u16(s: Seq<char>) -> Option<u16> {
    let body = unsigned_body(s);
    if body.len() > 0 && (forall|i: int| 0 <= i < body.len() ==> is_digit(#[trigger] body[i]))
        && digits_value(body) <= 65535 {
        Some(digits_value(body) as u16)
    } else {
        None
    }
}

/// Reads a `u16` as `str::parse::<u16>` does.
pub fn parse_u16(s: &str) -> (r: Option<u16>)
    ensures
        r == spec_parse_u16(s@),
{
    let v = chars_of(s);
    let start: usize = if v.len() > 0 && v[0] == '+' { 1 } else { 0 };
    let ghost body = unsigned_body(s@);
    proof {
        assert(body =~= v@.subrange(start as int, v@.len() as int));
    }
    if start >= v.len() {
        return None;
    }
    let mut value: u32 = 0;
    let mut i: usize = start;
    while i < v.len()
        invariant
            v@ == s@,
            start <= i <= v.len(),
            body == unsigned_body(s@),
            body =~= v@.subrange(start as int, v@.len() as int),
            forall|k: int| 0 <= k < i - start ==> is_digit(#[trigger] body[k]),
            value as nat == if digits_value(body.take(i - start) ) <= 65536 { digits_value(body.take(i - start)) } else { 65536 },
        decreases v.len() - i,
    {
        let c = v[i];
        if !('0' <= c && c <= '9') {
            proof {
                assert(body[i - start] == c);
                assert(!is_digit(body[i - start]));
            }
            return None;
        }
        let d: u32 = (c as u32) - ('0' as u32);
        proof {
            assert(body.take(i - start + 1).drop_last() =~= body.take(i - start));
            assert(body.take(i - start + 1).last() == c);
        }
        let next: u32 = value * 10 + d;
        value = if next > 65536 { 65536 } else { next };
        i = i + 1;
    }
    proof {
        assert(body.take(body.len() as int) =~= body);
    }
    if value > 65535 {
        None
    } else {
        Some(value as u16)
    }
}

/// Drops the white space at the end of a text.
pub fn trim_end_of(s: &str) -> (r: Vec<char>)
    ensures
        r@ == trim_end(s@),
{
    let mut v = chars_of(s);
    let ghost orig = s@;
    while v.len() > 0 && white_space(v[v.len() - 1])
        invariant
            trim_end(v@) == trim_end(orig),
        decreases v.len(),
    {
        let ghost before = v@;
        let _ = v.pop();
        proof {
            assert(v@ =~= before.drop_last());
        }
    }
    v
}

/// Why SR-IOV could not be set up.
#[derive(Debug, Clone)]
pub enum SriovError {
    /// The interface's capabilities could not be read.
    GetCapabilitiesFailure { iface: String },
    /// The capabilities did not hold a number.
    ParseCapabilitiesFailure { capabilities: String },
}

/// The file that holds how many virtual functions an interface supports.
pub fn sriov_totalvfs_path(iface: &str) -> (r: String)
    ensures
        r@ == "/sys/class/net/"@ + iface@ + "/device/sriov_totalvfs"@,
{
    let a = concat("/sys/class/net/", iface);
    concat(a.as_str(), "/device/sriov_totalvfs")
}

/// The file that sets how many virtual functions an interface has.
pub fn sriov_numvfs_path(iface: &str) -> (r: String)
    ensures
        r@ == "/sys/class/net/"@ + iface@ + "/device/sriov_numvfs"@,
{
    let a = concat("/sys/class/net/", iface);
    concat(a.as_str(), "/device/sriov_numvfs")
}

/// How many virtual functions to create: as many as asked, but no more
/// than the interface supports, read from its capabilities (white space
/// at the end ignored).
pub fn sriov_vfs_to_create(limit: u16, capabilities: String) -> (r: Result<u16, SriovError>)
    ensures
        spec_parse_u16(trim_end(capabilities@)) matches Some(total) ==> (r matches Ok(n)
            && n == (if limit <= total { limit } else { total })),
        spec_parse_u16(trim_end(capabilities@)) is None ==> (r matches Err(SriovError::ParseCapabilitiesFailure { capabilities: c })
            && c@ == capabilities@),
{
    let trimmed = trim_end_of(capabilities.as_str());
    let text = crate::text::string_from_chars(&trimmed);
    match parse_u16(text.as_str()) {
        Some(total) => Ok(if limit <= total { limit } else { total }),
        None => Err(SriovError::ParseCapabilitiesFailure { capabilities }),
    }
}

} // verus!
