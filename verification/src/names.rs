//! Names of cells and executables.
use vstd::prelude::*;
use crate::validation::{
    allow_dns_label, is_dns_label, is_label_char, is_pattern_error, is_required_error, opt_view,
    required_not_empty, ValidationError,
};

verus! {

/// The name of a cell. Names accepted for creation are DNS labels, so they
/// never hold `/` or `_`.
#[derive(Debug, Clone)]
pub struct CellName(String);

impl View for CellName {
    type V = Seq<char>;

    closed spec fn view(&self) -> Seq<char> {
        self.0@
    }
}

/// Whether `input` is a present, non-empty text.
pub open spec fn present_not_empty(input: Option<String>) -> bool {
    input matches Some(v) && v@.len() > 0
}

impl CellName {
    /// Wraps a name without checking it.
    pub fn new(name: String) -> (r: Self)
        ensures
            r@ == name@,
    {
        Self(name)
    }

    /// The name as a string.
    pub fn into_inner(self) -> (r: String)
        ensures
            r@ == self@,
    {
        self.0
    }

    /// The name as a string slice.
    pub fn as_str(&self) -> (r: &str)
        ensures
            r@ == self@,
    {
        self.0.as_str()
    }

    /// Accepts any present, non-empty name.
    pub fn validate(input: Option<String>, field: &str, parent: Option<&str>) -> (r: Result<Self, ValidationError>)
        ensures
            present_not_empty(input) ==> (r matches Ok(n) && n@ == input->0@),
            !present_not_empty(input) ==> (r matches Err(e) && is_required_error(e, field@, opt_view(parent))),
    {
        let input = required_not_empty(input, field, parent)?;
        Ok(Self(input))
    }

    /// Accepts a present name that is a DNS label; a missing or empty name
    /// is reported as required, any other as not matching the pattern.
    pub fn validate_for_creation(input: Option<String>, field: &str, parent: Option<&str>) -> (r: Result<Self, ValidationError>)
        ensures
            !present_not_empty(input) ==> (r matches Err(e) && is_required_error(e, field@, opt_view(parent))),
            present_not_empty(input) && is_dns_label(input->0@) ==> (r matches Ok(n) && n@ == input->0@),
            present_not_empty(input) && !is_dns_label(input->0@) ==> (r matches Err(e) && is_pattern_error(e, field@, opt_view(parent))),
    {
        let name = Self::validate(input, field, parent)?;
        allow_dns_label(name.as_str(), field, parent)?;
        Ok(name)
    }
}

/// The name of an executable within a cell.
#[derive(Debug, Clone)]
pub struct ExecutableName(String);

impl View for ExecutableName {
    type V = Seq<char>;

    closed spec fn view(&self) -> Seq<char> {
        self.0@
    }
}

impl ExecutableName {
    /// Wraps a name without checking it.
    pub fn new(name: String) -> (r: Self)
        ensures
            r@ == name@,
    {
        Self(name)
    }

    /// The name as a string.
    pub fn into_inner(self) -> (r: String)
        ensures
            r@ == self@,
    {
        self.0
    }

    /// The name as a string slice.
    pub fn as_str(&self) -> (r: &str)
        ensures
            r@ == self@,
    {
        self.0.as_str()
    }

    /// Accepts any present, non-empty name.
    pub fn validate(input: Option<String>, field: &str, parent: Option<&str>) -> (r: Result<Self, ValidationError>)
        ensures
            present_not_empty(input) ==> (r matches Ok(n) && n@ == input->0@),
            !present_not_empty(input) ==> (r matches Err(e) && is_required_error(e, field@, opt_view(parent))),
    {
        let input = required_not_empty(input, field, parent)?;
        Ok(Self(input))
    }

    /// Names for new executables follow the same rule as [ExecutableName::validate].
    pub fn validate_for_creation(input: Option<String>, field: &str, parent: Option<&str>) -> (r: Result<Self, ValidationError>)
        ensures
            present_not_empty(input) ==> (r matches Ok(n) && n@ == input->0@),
            !present_not_empty(input) ==> (r matches Err(e) && is_required_error(e, field@, opt_view(parent))),
    {
        Self::validate(input, field, parent)
    }
}

/// A name accepted for creation can stand in a cell path: it holds no `/`
/// (the path separator) and no `_`.
pub proof fn law_creation_names_split_cleanly(name: Seq<char>)
    requires
        is_dns_label(name),
    ensures
        !name.contains('/'),
        !name.contains('_'),
{
    if name.contains('/') {
        let k = choose|k: int| 0 <= k < name.len() && name[k] == '/';
        assert(is_label_char(name[k]));
    }
    if name.contains('_') {
        let k = choose|k: int| 0 <= k < name.len() && name[k] == '_';
        assert(is_label_char(name[k]));
    }
}

} // verus!
