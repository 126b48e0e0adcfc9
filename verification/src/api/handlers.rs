use axum::http::StatusCode;
use validator::ValidationErrors;
use vstd::prelude::*;
use vstd::std_specs::convert::FromSpecImpl;
use vstd::string::*;

use crate::api::models::{ChatRequest, ErrorResponse};
use crate::api::validation::{
    expected_errors, field_error_texts, field_list, max_tokens_error, max_tokens_is_valid,
    prompt_error, prompt_is_valid, recorded_errors, ErrorEntry, FieldErrors,
};
use crate::error::{spec_detail_message, spec_status_code, LlmError};

verus! {

/// A failure on its way to becoming an HTTP answer.
#[derive(Debug)]
pub struct ApiError(pub LlmError);

impl From<LlmError> for ApiError {
    fn from(err: LlmError) -> (r: Self) {
        ApiError(err)
    }
}

impl FromSpecImpl<LlmError> for ApiError {
    open spec fn obeys_from_spec() -> bool {
        true
    }

    open spec fn from_spec(v: LlmError) -> Self {
        ApiError(v)
    }
}

/// Calls `http::StatusCode::from_u16`, which accepts exactly the numbers
/// from 100 to 999, and reports whether it accepted `code`.
#[verifier::external_body]
fn is_valid_status(code: u16) -> (ok: bool)
    ensures
        ok <==> 100 <= code <= 999,
{
    StatusCode::from_u16(code).is_ok()
}

impl ApiError {
    /// The body of the HTTP answer for this failure: its description and
    /// the status under which it is sent.
    pub fn error_response(&self) -> (r: ErrorResponse)
        ensures
            r.code == spec_status_code(self.0),
            spec_detail_message(self.0) matches Some(m) ==> r.error@ == m,
            self.0 matches LlmError::Io(e) ==> to_string_from_display_ensures::<std::io::Error>(&e, r.error),
            self.0 matches LlmError::Other(e) ==> to_string_from_display_ensures::<anyhow::Error>(&e, r.error),
    {
        let wanted = self.0.status_code();
        let code = if is_valid_status(wanted) { wanted } else { 500 };
        ErrorResponse { error: self.0.to_message(), code }
    }
}

impl ChatRequest {
    /// Whether the answer is to be streamed; a request that does not say
    /// is answered at once.
    pub fn wants_stream(&self) -> (b: bool)
        ensures
            b <==> self.stream == Some(true),
    {
        match self.stream {
            Some(s) => s,
            None => false,
        }
    }
}

/// The messages of a list of recorded errors.
pub open spec fn messages_of(list: Seq<ErrorEntry>) -> Seq<Seq<char>> {
    list.map_values(|e: ErrorEntry| e.1->0)
}

/// Every error in the list has a message.
pub open spec fn all_have_messages(list: Seq<ErrorEntry>) -> bool {
    forall|i: int| 0 <= i < list.len() ==> (#[trigger] list[i]).1 is Some
}

/// Texts joined with `sep` between them.
pub open spec fn separated(parts: Seq<Seq<char>>, sep: Seq<char>) -> Seq<char>
    decreases parts.len(),
{
    if parts.len() == 0 {
        Seq::empty()
    } else if parts.len() == 1 {
        parts[0]
    } else {
        separated(parts.drop_last(), sep) + sep + parts.last()
    }
}

/// The line of a field in the text of a refusal: the messages recorded for
/// it, separated by `", "`; a field with no recorded error has no line.
pub open spec fn field_lines(entries: FieldErrors, field: Seq<char>) -> Seq<Seq<char>> {
    let m = messages_of(field_list(entries, field));
    if m.len() == 0 {
        Seq::empty()
    } else {
        seq![separated(m, ", "@)]
    }
}

/// The lines of the text of a refusal, field by field in the order in
/// which a chat request declares its fields.
pub open spec fn failure_lines(entries: FieldErrors) -> Seq<Seq<char>> {
    field_lines(entries, "prompt"@) + field_lines(entries, "max_tokens"@) + field_lines(
        entries,
        "temperature"@,
    ) + field_lines(entries, "top_p"@)
}

/// The text of a refusal: its lines, separated by line breaks.
pub open spec fn failure_text(entries: FieldErrors) -> Seq<char> {
    separated(failure_lines(entries), "\n"@)
}

/// Every error recorded for a field of a chat request has a message.
pub open spec fn failure_has_messages(entries: FieldErrors) -> bool {
    &&& all_have_messages(field_list(entries, "prompt"@))
    &&& all_have_messages(field_list(entries, "max_tokens"@))
    &&& all_have_messages(field_list(entries, "temperature"@))
    &&& all_have_messages(field_list(entries, "top_p"@))
}

/// The texts of a list of strings.
pub open spec fn texts(v: Seq<String>) -> Seq<Seq<char>> {
    v.map_values(|s: String| s@)
}

fn join_with(parts: &Vec<String>, sep: &str) -> (s: String)
    ensures
        s@ == separated(texts(parts@), sep@),
{
    let mut s = String::new();
    let n = parts.len();
    let mut i: usize = 0;
    while i < n
        invariant
            n == parts@.len(),
            i <= n,
            s@ == separated(texts(parts@.take(i as int)), sep@),
        decreases n - i,
    {
        if i > 0 {
            s.append(sep);
        }
        s.append(parts[i].as_str());
        proof {
            let t = texts(parts@.take(i + 1));
            assert(t.drop_last() =~= texts(parts@.take(i as int)));
            assert(t.last() == parts@[i as int]@);
            if i == 0 {
                assert(s@ =~= separated(t, sep@));
            }
        }
        i = i + 1;
    }
    assert(parts@.take(n as int) =~= parts@);
    s
}

/// Adds the line of a field whose error texts are `field_texts`, where it
/// has any.
fn push_field_line(lines: &mut Vec<String>, field_texts: &Vec<String>)
    ensures
        texts(final(lines)@) == texts(old(lines)@) + (if field_texts@.len() == 0 {
            Seq::<Seq<char>>::empty()
        } else {
            seq![separated(texts(field_texts@), ", "@)]
        }),
{
    if field_texts.len() > 0 {
        let line = join_with(field_texts, ", ");
        lines.push(line);
        assert(texts(lines@) =~= texts(old(lines)@).push(line@));
    } else {
        assert(texts(lines@) =~= texts(old(lines)@) + Seq::<Seq<char>>::empty());
    }
}

proof fn lemma_texts_are_messages(v: Seq<String>, list: Seq<ErrorEntry>)
    requires
        v.len() == list.len(),
        forall|i: int| 0 <= i < v.len() ==> (list[i].1 matches Some(m) ==> (#[trigger] v[i])@ == m),
        all_have_messages(list),
    ensures
        texts(v) == messages_of(list),
{
    assert forall|i: int| 0 <= i < v.len() implies texts(v)[i] == messages_of(list)[i] by {
        assert(list[i].1 is Some);
        assert(v[i]@ == list[i].1->0);
    }
    assert(texts(v) =~= messages_of(list));
}

/// The failure by which a request that breaks its rules is refused: a
/// validation error whose detail has one line per field with recorded
/// errors, in the order in which the request declares its fields; a line
/// holds the messages of the field's errors, separated by `", "`.
pub fn validation_failure(errors: &ValidationErrors) -> (e: LlmError)
    ensures
        e is ValidationError,
        failure_has_messages(recorded_errors(*errors)) ==> e->ValidationError_0@ == failure_text(
            recorded_errors(*errors),
        ),
{
    let ghost entries = recorded_errors(*errors);
    let t1 = field_error_texts(errors, "prompt");
    let t2 = field_error_texts(errors, "max_tokens");
    let t3 = field_error_texts(errors, "temperature");
    let t4 = field_error_texts(errors, "top_p");
    proof {
        if failure_has_messages(entries) {
            lemma_texts_are_messages(t1@, field_list(entries, "prompt"@));
            lemma_texts_are_messages(t2@, field_list(entries, "max_tokens"@));
            lemma_texts_are_messages(t3@, field_list(entries, "temperature"@));
            lemma_texts_are_messages(t4@, field_list(entries, "top_p"@));
        }
    }
    let mut lines: Vec<String> = Vec::new();
    push_field_line(&mut lines, &t1);
    push_field_line(&mut lines, &t2);
    push_field_line(&mut lines, &t3);
    push_field_line(&mut lines, &t4);
    proof {
        if failure_has_messages(entries) {
            assert(texts(lines@) =~= failure_lines(entries));
        }
    }
    LlmError::ValidationError(join_with(&lines, "\n"))
}

/// The messages of the rules that a request breaks, in field order.
pub open spec fn broken_rule_messages(req: ChatRequest) -> Seq<Seq<char>> {
    (if prompt_is_valid(req) {
        Seq::<Seq<char>>::empty()
    } else {
        seq![prompt_error().1->0]
    }) + (if max_tokens_is_valid(req) {
        Seq::<Seq<char>>::empty()
    } else {
        seq![max_tokens_error().1->0]
    })
}

/// A request that breaks its rules is answered with status 400, and the
/// answer's text is `"Validation error: "` followed by the messages of the
/// broken rules, one per line, in field order: reading back what
/// `ChatRequest::validate` records gives exactly those lines.
pub proof fn lemma_refused_request_answer(req: ChatRequest)
    requires
        !(prompt_is_valid(req) && max_tokens_is_valid(req)),
    ensures
        failure_has_messages(expected_errors(req)),
        failure_lines(expected_errors(req)) == broken_rule_messages(req),
        forall|detail: String|
            detail@ == failure_text(expected_errors(req)) ==> {
                &&& #[trigger] spec_status_code(LlmError::ValidationError(detail)) == 400
                &&& spec_detail_message(LlmError::ValidationError(detail)) == Some(
                    "Validation error: "@ + separated(broken_rule_messages(req), "\n"@),
                )
            },
{
    reveal_strlit("prompt");
    reveal_strlit("max_tokens");
    reveal_strlit("temperature");
    reveal_strlit("top_p");
    let entries = expected_errors(req);
    assert("temperature"@.len() != "prompt"@.len() && "temperature"@.len() != "max_tokens"@.len());
    assert("top_p"@.len() != "prompt"@.len() && "top_p"@.len() != "max_tokens"@.len());
    assert("prompt"@.len() != "max_tokens"@.len());
    assert(!entries.contains_key("temperature"@));
    assert(!entries.contains_key("top_p"@));
    assert(field_list(entries, "temperature"@) =~= Seq::<ErrorEntry>::empty());
    assert(field_list(entries, "top_p"@) =~= Seq::<ErrorEntry>::empty());
    assert(messages_of(Seq::<ErrorEntry>::empty()) =~= Seq::<Seq<char>>::empty());
    if prompt_is_valid(req) {
        assert(field_list(entries, "prompt"@) =~= Seq::<ErrorEntry>::empty());
    } else {
        assert(field_list(entries, "prompt"@) =~= seq![prompt_error()]);
        assert(messages_of(seq![prompt_error()]) =~= seq![prompt_error().1->0]);
    }
    if max_tokens_is_valid(req) {
        assert(field_list(entries, "max_tokens"@) =~= Seq::<ErrorEntry>::empty());
    } else {
        assert(field_list(entries, "max_tokens"@) =~= seq![max_tokens_error()]);
        assert(messages_of(seq![max_tokens_error()]) =~= seq![max_tokens_error().1->0]);
    }
    assert(failure_lines(entries) =~= broken_rule_messages(req));
}

} // verus!
