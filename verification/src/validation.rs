//! Field-level validation of configuration values.

use vstd::prelude::*;
use crate::text::{
    cat3, cat4, concat, i128_decimal, is_blank, owned, signed_decimal, str_equal, str_is_blank,
};

verus! {

/// What a validation error says: the field's path, the message and, where
/// known, the offending value.
pub ghost struct ValidationIssue {
    pub field: Seq<char>,
    pub message: Seq<char>,
    pub value: Option<Seq<char>>,
}

pub open spec fn issue(field: Seq<char>, message: Seq<char>) -> ValidationIssue {
    ValidationIssue { field, message, value: None }
}

pub open spec fn issue_with_value(
    field: Seq<char>,
    message: Seq<char>,
    value: Seq<char>,
) -> ValidationIssue {
    ValidationIssue { field, message, value: Some(value) }
}

/// Validation error for a specific config field
#[derive(Debug, Clone, PartialEq, Eq)]
pub struct ValidationError {
    /// Path to the field (e.g., "player.default_volume")
    pub field: String,
    /// Human-readable error message
    pub message: String,
    /// The invalid value, if available
    pub value: Option<String>,
}

impl View for ValidationError {
    type V = ValidationIssue;

    open spec fn view(&self) -> ValidationIssue {
        ValidationIssue {
            field: self.field@,
            message: self.message@,
            value: match self.value {
                Some(v) => Some(v@),
                None => None,
            },
        }
    }
}

/// The text of an error: "Field 'f': m", then " (got: v)" when a value is known.
pub open spec fn issue_text(e: ValidationIssue) -> Seq<char> {
    let head = "Field '"@ + e.field + "': "@ + e.message;
    match e.value {
        Some(v) => head + " (got: "@ + v + ")"@,
        None => head,
    }
}

/// The issues of a sequence of errors, in order.
pub open spec fn issues_of(v: Seq<ValidationError>) -> Seq<ValidationIssue> {
    v.map_values(|e: ValidationError| e@)
}

impl ValidationError {
    /// Creates a new validation error
    pub fn new(field: &str, message: &str) -> (r: ValidationError)
        ensures
            r@ == issue(field@, message@),
    {
        ValidationError { field: owned(field), message: owned(message), value: None }
    }

    /// Creates a validation error with the invalid value
    pub fn with_value(field: &str, message: &str, value: &str) -> (r: ValidationError)
        ensures
            r@ == issue_with_value(field@, message@, value@),
    {
        ValidationError { field: owned(field), message: owned(message), value: Some(owned(value)) }
    }

    /// The error as text, as it is displayed.
    pub fn to_string(&self) -> (r: String)
        ensures
            r@ == issue_text(self@),
    {
        let head = cat3("Field '", self.field.as_str(), "': ");
        let head = concat(head.as_str(), self.message.as_str());
        proof {
            reveal_strlit("Field '");
            reveal_strlit("': ");
        }
        match &self.value {
            Some(v) => {
                proof {
                    reveal_strlit(" (got: ");
                    reveal_strlit(")");
                }
                cat4(head.as_str(), " (got: ", v.as_str(), ")")
            },
            None => head,
        }
    }
}

} // verus!

verus! {

/// The issue a check reports, if any, as a sequence of at most one issue.
pub open spec fn reported(outcome: Option<ValidationIssue>) -> Seq<ValidationIssue> {
    match outcome {
        Some(e) => seq![e],
        None => Seq::empty(),
    }
}

/// The issue carried by the result of a single check.
pub open spec fn outcome(r: Result<(), ValidationError>) -> Option<ValidationIssue> {
    match r {
        Ok(()) => None,
        Err(e) => Some(e@),
    }
}

/// The issues of a sequence of check results, in order.
pub open spec fn failures(results: Seq<Result<(), ValidationError>>) -> Seq<ValidationIssue>
    decreases results.len(),
{
    if results.len() == 0 {
        Seq::empty()
    } else {
        failures(results.drop_last()) + reported(outcome(results.last()))
    }
}

pub open spec fn range_message(min: int, max: int) -> Seq<char> {
    "must be between "@ + signed_decimal(min) + " and "@ + signed_decimal(max)
}

/// What `Validator::in_range` reports.
pub open spec fn range_check(value: int, min: int, max: int, field: Seq<char>) -> Option<
    ValidationIssue,
> {
    if value < min || value > max {
        Some(issue_with_value(field, range_message(min, max), signed_decimal(value)))
    } else {
        None
    }
}

/// What `Validator::not_empty` reports.
pub open spec fn blank_check(value: Seq<char>, field: Seq<char>) -> Option<ValidationIssue> {
    if is_blank(value) {
        Some(issue(field, "must not be empty"@))
    } else {
        None
    }
}

/// The texts of `items`, separated by `sep`.
pub open spec fn joined(items: Seq<Seq<char>>, sep: Seq<char>) -> Seq<char>
    decreases items.len(),
{
    if items.len() == 0 {
        Seq::empty()
    } else if items.len() == 1 {
        items[0]
    } else {
        joined(items.drop_last(), sep) + sep + items.last()
    }
}

pub open spec fn str_views(items: Seq<&str>) -> Seq<Seq<char>> {
    items.map_values(|s: &str| s@)
}

/// What `Validator::one_of` reports.
pub open spec fn membership_check(value: Seq<char>, allowed: Seq<Seq<char>>, field: Seq<char>) -> Option<
    ValidationIssue,
> {
    if allowed.contains(value) {
        None
    } else {
        Some(issue_with_value(field, "must be one of: "@ + joined(allowed, ", "@), value))
    }
}

/// What a check on a path reports, given whether the path has the property.
pub open spec fn path_check(holds: bool, path: Seq<char>, field: Seq<char>, message: Seq<char>) -> Option<
    ValidationIssue,
> {
    if holds {
        None
    } else {
        Some(issue_with_value(field, message, path))
    }
}

/// Whether a path names an existing file or directory, as `Path::exists` says.
/// What is on disk decides, so nothing is stated of the result.
#[verifier::external_body]
pub(crate) fn path_is_present(path: &str) -> bool {
    std::path::Path::new(path).exists()
}

/// Whether a path names an existing directory, as `Path::is_dir` says.
/// What is on disk decides, so nothing is stated of the result.
#[verifier::external_body]
fn path_is_directory(path: &str) -> bool {
    std::path::Path::new(path).is_dir()
}

/// Common validators for config values
pub struct Validator;

impl Validator {
    /// Validates that a numeric value is within a range
    pub fn in_range(value: i128, min: i128, max: i128, field: &str) -> (r: Result<
        (),
        ValidationError,
    >)
        ensures
            outcome(r) == range_check(value as int, min as int, max as int, field@),
    {
        if value < min || value > max {
            let message = cat4(
                "must be between ",
                i128_decimal(min).as_str(),
                " and ",
                i128_decimal(max).as_str(),
            );
            let shown = i128_decimal(value);
            proof {
                reveal_strlit("must be between ");
                reveal_strlit(" and ");
            }
            Err(ValidationError::with_value(field, message.as_str(), shown.as_str()))
        } else {
            Ok(())
        }
    }

    /// The result of a check on a path, given whether the path has the
    /// property checked for.
    pub fn path_verdict(holds: bool, path: &str, field: &str, message: &str) -> (r: Result<
        (),
        ValidationError,
    >)
        ensures
            outcome(r) == path_check(holds, path@, field@, message@),
    {
        if holds {
            Ok(())
        } else {
            Err(ValidationError::with_value(field, message, path))
        }
    }

    /// Validates that a path exists
    pub fn path_exists(path: &str, field: &str) -> (r: Result<(), ValidationError>)
        ensures
            match r {
                Ok(()) => true,
                Err(e) => e@ == issue_with_value(field@, "path does not exist"@, path@),
            },
    {
        let present = path_is_present(path);
        Self::path_verdict(present, path, field, "path does not exist")
    }

    /// Validates that a path is a directory
    pub fn is_directory(path: &str, field: &str) -> (r: Result<(), ValidationError>)
        ensures
            match r {
                Ok(()) => true,
                Err(e) => e@ == issue_with_value(field@, "path is not a directory"@, path@),
            },
    {
        let directory = path_is_directory(path);
        Self::path_verdict(directory, path, field, "path is not a directory")
    }

    /// Validates that a string is not empty
    pub fn not_empty(value: &str, field: &str) -> (r: Result<(), ValidationError>)
        ensures
            outcome(r) == blank_check(value@, field@),
    {
        if str_is_blank(value) {
            proof {
                reveal_strlit("must not be empty");
            }
            Err(ValidationError::new(field, "must not be empty"))
        } else {
            Ok(())
        }
    }

    /// Validates that a value is one of the allowed options
    pub fn one_of(value: &str, allowed: &[&str], field: &str) -> (r: Result<(), ValidationError>)
        ensures
            outcome(r) == membership_check(value@, str_views(allowed@), field@),
    {
        let ghost views = str_views(allowed@);
        let mut found = false;
        let mut listing = String::new();
        let mut i: usize = 0;
        while i < allowed.len()
            invariant
                i <= allowed.len(),
                views == str_views(allowed@),
                found == views.subrange(0, i as int).contains(value@),
                listing@ == joined(views.subrange(0, i as int), ", "@),
            decreases allowed.len() - i,
        {
            let item: &str = allowed[i];
            proof {
                let before = views.subrange(0, i as int);
                let after = views.subrange(0, i + 1);
                assert(after =~= before.push(views[i as int]));
                assert(after.drop_last() =~= before);
                assert(views[i as int] == item@);
                if before.contains(value@) {
                    let k = choose|k: int| 0 <= k < before.len() && before[k] == value@;
                    assert(after[k] == value@);
                }
                if after.contains(value@) && !before.contains(value@) {
                    let k = choose|k: int| 0 <= k < after.len() && after[k] == value@;
                    assert(k == i);
                }
                if item@ == value@ {
                    assert(after[i as int] == value@);
                }
            }
            if str_equal(item, value) {
                found = true;
            }
            if i == 0 {
                listing = owned(item);
            } else {
                listing = cat3(listing.as_str(), ", ", item);
            }
            proof {
                reveal_strlit(", ");
            }
            i = i + 1;
        }
        proof {
            assert(views.subrange(0, allowed@.len() as int) =~= views);
        }
        if found {
            Ok(())
        } else {
            let message = concat("must be one of: ", listing.as_str());
            proof {
                reveal_strlit("must be one of: ");
            }
            Err(ValidationError::with_value(field, message.as_str(), value))
        }
    }

    /// Collects multiple validation results into a single result
    pub fn collect_errors(results: Vec<Result<(), ValidationError>>) -> (r: Result<
        (),
        Vec<ValidationError>,
    >)
        ensures
            match r {
                Ok(()) => failures(results@).len() == 0,
                Err(v) => failures(results@).len() > 0 && issues_of(v@) == failures(results@),
            },
    {
        let mut errors: Vec<ValidationError> = Vec::new();
        let mut i: usize = 0;
        while i < results.len()
            invariant
                i <= results.len(),
                issues_of(errors@) == failures(results@.subrange(0, i as int)),
            decreases results.len() - i,
        {
            proof {
                let after = results@.subrange(0, i + 1);
                assert(after.drop_last() =~= results@.subrange(0, i as int));
                assert(after.last() == results@[i as int]);
            }
            match &results[i] {
                Ok(()) => {
                    proof {
                        assert(issues_of(errors@) =~= issues_of(errors@) + Seq::<
                            ValidationIssue,
                        >::empty());
                    }
                },
                Err(e) => {
                    let ghost before = errors@;
                    errors.push(e.clone_error());
                    proof {
                        assert(issues_of(errors@) =~= issues_of(before) + seq![e@]);
                    }
                },
            }
            i = i + 1;
        }
        proof {
            assert(results@.subrange(0, results@.len() as int) =~= results@);
        }
        if errors.len() == 0 {
            Ok(())
        } else {
            Err(errors)
        }
    }
}

impl ValidationError {
    /// A copy of this error.
    pub fn clone_error(&self) -> (r: ValidationError)
        ensures
            r@ == self@,
    {
        ValidationError {
            field: owned(self.field.as_str()),
            message: owned(self.message.as_str()),
            value: match &self.value {
                Some(v) => Some(owned(v.as_str())),
                None => None,
            },
        }
    }
}

/// Configuration sections that validate and merge themselves.
pub trait ConfigSection: Sized {
    /// The problems found in this section, in the order validation reports them.
    spec fn issues(&self) -> Seq<ValidationIssue>;

    /// This section after `other` was merged into it.
    spec fn merged(self, other: Self) -> Self;

    /// The section's name in error reports.
    spec fn name(&self) -> Seq<char>;

    /// Validates the configuration section; an empty list means valid.
    fn validate(&self) -> (r: Result<(), Vec<ValidationError>>)
        ensures
            match r {
                Ok(()) => self.issues().len() == 0,
                Err(v) => self.issues().len() > 0 && issues_of(v@) == self.issues(),
            },
    ;

    /// Merges another config section into this one; values from `other`
    /// take precedence.
    fn merge(&mut self, other: Self)
        ensures
            *final(self) == old(self).merged(other),
    ;

    /// Returns the section name for error reporting
    fn section_name(&self) -> (r: &'static str)
        ensures
            r@ == self.name(),
    ;
}

} // verus!

verus! {

/// Adding one result to a list adds its issue, if any, at the end.
pub proof fn lemma_failures_push(results: Seq<Result<(), ValidationError>>, r: Result<(), ValidationError>)
    ensures
        failures(results.push(r)) == failures(results) + reported(outcome(r)),
{
    assert(results.push(r).drop_last() =~= results);
}

} // verus!
