use std::sync::Arc;
use std::time::{Duration, Instant};
use tokio::sync::Semaphore;
use vstd::prelude::*;
use vstd::string::*;

use crate::api::models::{ChatRequest, ChatResponse, HealthResponse, StreamChunk};
use crate::settings::Settings;
use crate::text::{
    count_words, find_word_cut, first_words, is_word_cut, lemma_word_cut_unique,
    lemma_words_of_prefix, word_count, word_cut, words_before,
};

verus! {

#[verifier::external_type_specification]
#[verifier::external_body]
pub struct ExSemaphore(Semaphore);

#[verifier::external_type_specification]
#[verifier::external_body]
pub struct ExInstant(Instant);

/// The largest number of permits a `tokio::sync::Semaphore` can hold,
/// `usize::MAX >> 3`.
pub open spec fn max_semaphore_permits() -> int {
    usize::MAX as int / 8
}

/// The number of permits a semaphore was made with. The number it holds
/// at a given moment changes through shared references, so no name stands
/// for that.
pub uninterp spec fn semaphore_capacity(s: Semaphore) -> nat;

/// Calls `tokio::sync::Semaphore::new`, which makes a semaphore holding
/// `permits` permits and panics above `Semaphore::MAX_PERMITS`; `requires`
/// leaves that out.
#[verifier::external_body]
fn new_semaphore(permits: usize) -> (s: Semaphore)
    requires
        permits <= max_semaphore_permits(),
    ensures
        semaphore_capacity(s) == permits,
{
    Semaphore::new(permits)
}

/// Calls `std::time::Instant::now`; what it returns depends on the clock.
#[verifier::external_body]
fn now() -> Instant {
    Instant::now()
}

/// Calls `Instant::elapsed`: the time that passed since `start`, which
/// depends on the clock.
#[verifier::external_body]
fn elapsed(start: &Instant) -> Duration {
    start.elapsed()
}

/// Calls `Duration::as_secs`: the whole seconds of `d`. A `Duration` is
/// opaque here, so no clause speaks of the result.
#[verifier::external_body]
fn whole_seconds(d: &Duration) -> u64 {
    d.as_secs()
}

/// The number of characters in one event of a streamed answer.
pub const STREAM_CHUNK_CHARS: usize = 10;

/// The text of a chat answer to `prompt`.
pub open spec fn answer_text(prompt: Seq<char>) -> Seq<char> {
    "Response to: "@ + prompt
}

/// The number of pieces into which a text of `n` characters is cut.
pub open spec fn chunk_count(n: nat) -> nat {
    ((n + 9) / 10) as nat
}

/// The `i`-th piece of `s`: ten characters from position `10 * i`, fewer at
/// the end.
pub open spec fn chunk_at(s: Seq<char>, i: int) -> Seq<char> {
    let end = if 10 * i + 10 <= s.len() { 10 * i + 10 } else { s.len() as int };
    s.subrange(10 * i, end)
}

/// The pieces of `s`, in order.
pub open spec fn text_chunks(s: Seq<char>) -> Seq<Seq<char>> {
    Seq::new(chunk_count(s.len()), |i: int| chunk_at(s, i))
}

/// The pieces of a list joined end to end.
pub open spec fn joined(parts: Seq<Seq<char>>) -> Seq<char>
    decreases parts.len(),
{
    if parts.len() == 0 {
        Seq::empty()
    } else {
        joined(parts.drop_last()) + parts.last()
    }
}

/// The health answer of a running service.
pub open spec fn is_health_response(r: HealthResponse, uptime_seconds: u64) -> bool {
    &&& r.status@ == "healthy"@
    &&& r.model_loaded
    &&& r.uptime_seconds == uptime_seconds
}

/// The text of the answer to `prompt` when at most `budget` tokens may be
/// generated: the answer cut after its first `budget` words.
pub open spec fn budgeted_answer(prompt: Seq<char>, budget: nat) -> Seq<char> {
    first_words(answer_text(prompt), budget)
}

/// The answer to a chat request whose prompt is `prompt` and that may
/// generate at most `budget` tokens.
pub open spec fn is_chat_response(r: ChatResponse, prompt: Seq<char>, budget: nat) -> bool {
    &&& r.response@ == budgeted_answer(prompt, budget)
    &&& r.tokens_generated == word_count(r.response@)
    &&& r.tokens_generated <= budget
    &&& r.finish_reason@ == "stop"@
}

/// The most tokens an answer to `request` may hold: the request's own
/// budget where it gives one, else the configured one.
pub open spec fn token_budget(request: ChatRequest, settings: Settings) -> nat {
    match request.max_tokens {
        Some(m) => m as nat,
        None => settings.inference.max_tokens as nat,
    }
}

/// What a chat answer is, for every prompt and budget: the words of
/// `"Response to: "` followed by the whole prompt, whatever characters it
/// holds, cut after as many words as the budget allows. The answer is a
/// prefix of that text, it counts the budget's number of words or all the
/// words there are, whichever is fewer, and where the budget covers every
/// word the answer is the whole text.
pub proof fn lemma_chat_answer(r: ChatResponse, prompt: Seq<char>, budget: nat)
    requires
        is_chat_response(r, prompt, budget),
    ensures
        r.response@.len() <= ("Response to: "@ + prompt).len(),
        r.response@ == ("Response to: "@ + prompt).take(r.response@.len() as int),
        r.tokens_generated == if budget < word_count("Response to: "@ + prompt) {
            budget
        } else {
            word_count("Response to: "@ + prompt)
        },
        budget >= word_count("Response to: "@ + prompt) ==> r.response@ == "Response to: "@ + prompt,
        r.finish_reason@ == "stop"@,
{
    let s = "Response to: "@ + prompt;
    assert(answer_text(prompt) == s);
    let j = word_cut(s, budget);
    let witness: int = find_cut_witness(s, budget);
    lemma_word_cut_unique(s, budget, witness, j);
    lemma_words_of_prefix(s, j, j);
    assert(s.take(j).take(j) =~= s.take(j));
    if budget >= word_count(s) {
        assert(is_word_cut(s, budget, s.len() as int));
        lemma_word_cut_unique(s, budget, s.len() as int, j);
        assert(s.take(s.len() as int) =~= s);
    } else {
        if j == s.len() {
            assert(false);
        }
        lemma_words_before_step(s, j);
    }
}

/// A place to cut exists: the longest prefix holding at most `k` words.
proof fn find_cut_witness(s: Seq<char>, k: nat) -> (j: int)
    ensures
        is_word_cut(s, k, j),
{
    find_cut_from(s, k, 0)
}

proof fn find_cut_from(s: Seq<char>, k: nat, i: int) -> (j: int)
    requires
        0 <= i <= s.len(),
        words_before(s, i) <= k,
    ensures
        is_word_cut(s, k, j),
    decreases s.len() - i,
{
    if i == s.len() || words_before(s, i + 1) > k {
        i
    } else {
        find_cut_from(s, k, i + 1)
    }
}

/// One more character adds at most one word.
proof fn lemma_words_before_step(s: Seq<char>, j: int)
    requires
        0 <= j,
    ensures
        words_before(s, j + 1) <= words_before(s, j) + 1,
{
}

/// The events of a streamed answer of text `s`: one per piece, then a
/// final empty event that carries the finish reason.
pub open spec fn is_stream_of(events: Seq<StreamChunk>, s: Seq<char>) -> bool {
    let pieces = text_chunks(s);
    &&& events.len() == pieces.len() + 1
    &&& forall|i: int|
        0 <= i < pieces.len() ==> {
            &&& (#[trigger] events[i]).delta@ == pieces[i]
            &&& events[i].finish_reason is None
        }
    &&& events.last().delta@ == Seq::<char>::empty()
    &&& events.last().finish_reason matches Some(f) && f@ == "stop"@
}

/// The health answer for a service that has run for `uptime_seconds`.
pub fn health_response(uptime_seconds: u64) -> (r: HealthResponse)
    ensures
        is_health_response(r, uptime_seconds),
{
    HealthResponse { status: String::from_str("healthy"), model_loaded: true, uptime_seconds }
}

/// The answer to a chat request with the given prompt: the prompt echoed
/// after a fixed prefix and cut after its first `budget` words, and the
/// number of words of that answer.
pub fn chat_response(prompt: &str, budget: usize) -> (r: ChatResponse)
    ensures
        is_chat_response(r, prompt@, budget as nat),
{
    let full = String::from_str("Response to: ").concat(prompt);
    let ghost s = full@;
    let cut = find_word_cut(full.as_str(), budget);
    let response = String::from_str(full.as_str().substring_char(0, cut));
    assert(response@ =~= s.take(cut as int));
    let tokens = count_words(response.as_str());
    proof {
        lemma_words_of_prefix(s, cut as int, cut as int);
    }
    ChatResponse { response, tokens_generated: tokens, finish_reason: String::from_str("stop") }
}

/// Cuts an answer into the events of a stream: pieces of ten characters
/// (the last one shorter where the length is not a multiple of ten), each
/// without a finish reason, then an empty event whose finish reason is
/// `"stop"`.
pub fn stream_chunks(text: &str) -> (events: Vec<StreamChunk>)
    ensures
        is_stream_of(events@, text@),
{
    let n = text.unicode_len();
    let ghost s = text@;
    let mut events: Vec<StreamChunk> = Vec::new();
    let mut pos: usize = 0;
    let ghost mut k: int = 0;
    while pos < n
        invariant
            n == s.len(),
            s == text@,
            events.len() == k,
            0 <= k,
            pos <= n,
            pos < n ==> pos == 10 * k,
            pos == n ==> (n <= 10 * k && (k == 0 || 10 * (k - 1) < n)),
            forall|j: int|
                0 <= j < k ==> {
                    &&& (#[trigger] events@[j]).delta@ == chunk_at(s, j)
                    &&& events@[j].finish_reason is None
                },
        decreases n - pos,
    {
        let end = if n - pos > STREAM_CHUNK_CHARS { pos + STREAM_CHUNK_CHARS } else { n };
        let piece = String::from_str(text.substring_char(pos, end));
        events.push(StreamChunk { delta: piece, finish_reason: None });
        proof {
            k = k + 1;
        }
        pos = end;
    }
    events.push(StreamChunk { delta: String::new(), finish_reason: Some(String::from_str("stop")) });
    assert(chunk_count(s.len()) == k);
    events
}

/// Joining the events' pieces of a streamed answer gives back the answer.
pub proof fn lemma_stream_rejoins(s: Seq<char>)
    ensures
        joined(text_chunks(s)) == s,
{
    let pieces = text_chunks(s);
    lemma_joined_prefix(s, pieces.len() as int);
    assert(pieces.subrange(0, pieces.len() as int) =~= pieces);
}

/// The texts carried by a list of events.
pub open spec fn deltas(events: Seq<StreamChunk>) -> Seq<Seq<char>> {
    events.map_values(|e: StreamChunk| e.delta@)
}

/// Joining the texts of all the events of a stream of `s` gives back `s`:
/// a streamed answer carries the same text as the answer given at once.
pub proof fn lemma_stream_events_rejoin(events: Seq<StreamChunk>, s: Seq<char>)
    requires
        is_stream_of(events, s),
    ensures
        joined(deltas(events)) == s,
{
    let d = deltas(events);
    assert(d.drop_last() =~= text_chunks(s));
    lemma_stream_rejoins(s);
    assert(d.last() =~= Seq::<char>::empty());
    assert(joined(d) =~= joined(d.drop_last()) + d.last());
}

proof fn lemma_joined_prefix(s: Seq<char>, k: int)
    requires
        0 <= k <= chunk_count(s.len()),
    ensures
        joined(text_chunks(s).subrange(0, k)) == s.subrange(
            0,
            if 10 * k <= s.len() { 10 * k } else { s.len() as int },
        ),
    decreases k,
{
    let pieces = text_chunks(s);
    if k == 0 {
        assert(pieces.subrange(0, 0) =~= Seq::<Seq<char>>::empty());
        assert(s.subrange(0, 0) =~= Seq::<char>::empty());
    } else {
        lemma_joined_prefix(s, k - 1);
        let front = pieces.subrange(0, k);
        assert(front.drop_last() =~= pieces.subrange(0, k - 1));
        assert(front.last() == chunk_at(s, k - 1));
        let a = 10 * (k - 1);
        let b = if 10 * k <= s.len() { 10 * k } else { s.len() as int };
        assert(s.subrange(0, a) + s.subrange(a, b) =~= s.subrange(0, b));
    }
}

/// The state of the chat service: its settings, the semaphore that bounds
/// how many requests are served at once, and the moment it started.
pub struct LlmService {
    settings: Settings,
    semaphore: Arc<Semaphore>,
    start_time: Instant,
}

impl LlmService {
    /// A service whose semaphore starts with as many permits as the
    /// settings allow concurrent requests.
    pub fn new(settings: Settings) -> (s: Self)
        requires
            settings.security.max_concurrent_requests <= max_semaphore_permits(),
        ensures
            s.settings() == settings,
            semaphore_capacity(*s.request_semaphore()) == settings.security.max_concurrent_requests,
    {
        let max_concurrent = settings.security.max_concurrent_requests;
        let semaphore = Arc::new(new_semaphore(max_concurrent));
        LlmService { settings, semaphore, start_time: now() }
    }

    pub closed spec fn settings(&self) -> Settings {
        self.settings
    }

    /// The semaphore the service holds, shared by all its requests.
    pub closed spec fn request_semaphore(&self) -> Arc<Semaphore> {
        self.semaphore
    }

    /// The semaphore through which each request acquires its permit: the
    /// one the service holds, the same at every call.
    pub fn semaphore(&self) -> (s: &Arc<Semaphore>)
        ensures
            *s == self.request_semaphore(),
    {
        &self.semaphore
    }

    /// The settings the service was made with.
    pub fn get_settings(&self) -> (s: &Settings)
        ensures
            *s == self.settings(),
    {
        &self.settings
    }

    /// The service is healthy and reports how long it has run.
    pub fn health_check(&self) -> (r: HealthResponse)
        ensures
            r.status@ == "healthy"@,
            r.model_loaded,
    {
        let uptime = elapsed(&self.start_time);
        health_response(whole_seconds(&uptime))
    }

    /// The answer to a chat request, within the request's token budget (the
    /// configured one where the request gives none); the caller holds a
    /// permit.
    pub fn chat(&self, request: &ChatRequest) -> (r: ChatResponse)
        ensures
            is_chat_response(r, request.prompt@, token_budget(*request, self.settings())),
    {
        let budget = match request.max_tokens {
            Some(m) => m,
            None => self.settings.inference.max_tokens,
        };
        chat_response(request.prompt.as_str(), budget)
    }

    /// The events of the streamed answer to a chat request; the caller
    /// holds a permit.
    pub fn chat_stream(&self, request: &ChatRequest) -> (events: Vec<StreamChunk>)
        ensures
            is_stream_of(
                events@,
                budgeted_answer(request.prompt@, token_budget(*request, self.settings())),
            ),
    {
        let response = self.chat(request);
        stream_chunks(response.response.as_str())
    }
}

} // verus!
