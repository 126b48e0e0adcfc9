use std::borrow::Cow;
use validator::{ValidationError, ValidationErrors, ValidationErrorsKind};
use vstd::prelude::*;

use crate::api::models::ChatRequest;

verus! {

#[verifier::external_type_specification]
#[verifier::external_body]
pub struct ExValidationError(ValidationError);

#[verifier::external_type_specification]
#[verifier::external_body]
pub struct ExValidationErrors(ValidationErrors);

/// What a recorded validation error says: its code and its message, if any.
pub type ErrorEntry = (Seq<char>, Option<Seq<char>>);

/// What a collection of validation errors holds, field by field: the list of
/// errors of a field, or `None` where the field's entry is a nested
/// collection rather than a list.
pub type FieldErrors = Map<Seq<char>, Option<Seq<ErrorEntry>>>;

/// The code and message of a `validator::ValidationError`.
pub uninterp spec fn error_entry(e: ValidationError) -> ErrorEntry;

/// The entries of a `validator::ValidationErrors`.
pub uninterp spec fn recorded_errors(e: ValidationErrors) -> FieldErrors;

/// Calls `validator::ValidationError::new`, which makes an error with the
/// given code and no message.
#[verifier::external_body]
fn new_error(code: &'static str) -> (e: ValidationError)
    ensures
        error_entry(e) == (code@, None::<Seq<char>>),
{
    ValidationError::new(code)
}

/// Calls `validator::ValidationError::with_message`, which sets the message
/// and keeps the code.
#[verifier::external_body]
fn with_message(e: ValidationError, message: &'static str) -> (r: ValidationError)
    ensures
        error_entry(r) == (error_entry(e).0, Some(message@)),
{
    e.with_message(Cow::Borrowed(message))
}

/// Calls `validator::ValidationErrors::new`, an empty collection.
#[verifier::external_body]
fn new_errors() -> (e: ValidationErrors)
    ensures
        recorded_errors(e) == FieldErrors::empty(),
{
    ValidationErrors::new()
}

/// The list of errors already recorded for `field`.
pub open spec fn field_list(entries: FieldErrors, field: Seq<char>) -> Seq<ErrorEntry> {
    if entries.contains_key(field) && entries[field] is Some {
        entries[field]->0
    } else {
        Seq::empty()
    }
}

/// Calls `validator::ValidationErrors::add`, which appends `error` to the
/// list of `field`, creating the list where the field has no entry. It
/// panics where the field's entry is a nested collection; `requires` leaves
/// that out.
#[verifier::external_body]
fn add_error(errors: &mut ValidationErrors, field: &'static str, error: ValidationError)
    requires
        !(recorded_errors(*old(errors)).contains_key(field@)
            && recorded_errors(*old(errors))[field@] is None),
    ensures
        recorded_errors(*final(errors)) == recorded_errors(*old(errors)).insert(
            field@,
            Some(field_list(recorded_errors(*old(errors)), field@).push(error_entry(error))),
        ),
{
    errors.add(field, error)
}

/// Reads the errors recorded for `field` through
/// `validator::ValidationErrors::errors` and renders each with `Display` of
/// `validator::ValidationError`, which writes an error's message where it
/// has one. A field without an entry, or whose entry is a nested
/// collection, gives no text. The text of an error without a message
/// (its code and parameters) is not stated, since the parameters are not
/// modelled here.
#[verifier::external_body]
pub(crate) fn field_error_texts(errors: &ValidationErrors, field: &'static str) -> (texts: Vec<String>)
    ensures
        texts@.len() == field_list(recorded_errors(*errors), field@).len(),
        forall|i: int|
            0 <= i < texts@.len() ==> (field_list(recorded_errors(*errors), field@)[i].1 matches Some(
                m,
            ) ==> (#[trigger] texts@[i])@ == m),
{
    match errors.errors().get(field) {
        Some(ValidationErrorsKind::Field(list)) => list.iter().map(|e| e.to_string()).collect(),
        Some(ValidationErrorsKind::Struct(_)) => Vec::new(),
        Some(ValidationErrorsKind::List(_)) => Vec::new(),
        None => Vec::new(),
    }
}

/// The prompt must hold between 1 and 4096 characters.
pub open spec fn prompt_is_valid(req: ChatRequest) -> bool {
    1 <= req.prompt@.len() <= 4096
}

/// A requested token budget, where given, must lie between 1 and 2048.
pub open spec fn max_tokens_is_valid(req: ChatRequest) -> bool {
    match req.max_tokens {
        Some(n) => 1 <= n <= 2048,
        None => true,
    }
}

pub open spec fn prompt_error() -> ErrorEntry {
    ("length"@, Some("Prompt must be between 1 and 4096 characters"@))
}

pub open spec fn max_tokens_error() -> ErrorEntry {
    ("range"@, Some("max_tokens must be between 1 and 2048"@))
}

/// The errors that a request's rules record, field by field.
pub open spec fn expected_errors(req: ChatRequest) -> FieldErrors {
    let after_prompt = if prompt_is_valid(req) {
        FieldErrors::empty()
    } else {
        FieldErrors::empty().insert("prompt"@, Some(seq![prompt_error()]))
    };
    if max_tokens_is_valid(req) {
        after_prompt
    } else {
        after_prompt.insert("max_tokens"@, Some(seq![max_tokens_error()]))
    }
}

/// Which requests are accepted, for every request: exactly those whose
/// prompt holds between 1 and 4096 characters and whose token budget, where
/// given, lies between 1 and 2048. Nothing else in the request matters: the
/// budget's rule reads the budget alone, and the prompt's rule the number
/// of its characters alone.
pub proof fn lemma_accepted_requests(req: ChatRequest, accepted: bool)
    requires
        accepted <==> prompt_is_valid(req) && max_tokens_is_valid(req),
    ensures
        accepted <==> {
            &&& 1 <= req.prompt@.len() <= 4096
            &&& match req.max_tokens {
                None => true,
                Some(n) => 1 <= n && n <= 2048,
            }
        },
        forall|other: ChatRequest|
            other.max_tokens == req.max_tokens ==> #[trigger] max_tokens_is_valid(other)
                == max_tokens_is_valid(req),
        forall|other: ChatRequest|
            other.prompt@.len() == req.prompt@.len() ==> #[trigger] prompt_is_valid(other)
                == prompt_is_valid(req),
{
}

impl ChatRequest {
    /// Checks the prompt's length and the requested token budget. On failure
    /// the returned collection holds exactly one error for each field that
    /// breaks its rule.
    pub fn validate(&self) -> (r: Result<(), ValidationErrors>)
        ensures
            r is Ok <==> prompt_is_valid(*self) && max_tokens_is_valid(*self),
            r matches Err(e) ==> recorded_errors(e) == expected_errors(*self),
    {
        let mut errors = new_errors();
        let mut failed = false;
        let n = self.prompt.as_str().unicode_len();
        if n < 1 || n > 4096 {
            let e = with_message(new_error("length"), "Prompt must be between 1 and 4096 characters");
            add_error(&mut errors, "prompt", e);
            failed = true;
        }
        match self.max_tokens {
            Some(m) => {
                if m < 1 || m > 2048 {
                    proof {
                        // the two field names differ, so the second entry
                        // does not overwrite the first
                        reveal_strlit("prompt");
                        reveal_strlit("max_tokens");
                        assert("prompt"@.len() != "max_tokens"@.len());
                    }
                    let e = with_message(new_error("range"), "max_tokens must be between 1 and 2048");
                    add_error(&mut errors, "max_tokens", e);
                    failed = true;
                }
            },
            None => {},
        }
        if failed {
            Err(errors)
        } else {
            Ok(())
        }
    }
}

} // verus!
