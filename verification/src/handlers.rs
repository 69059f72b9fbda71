//! The two request handlers, written as step machines: each function takes
//! what the last external call returned and decides the next step. The
//! application shell performs the HTTP calls and feeds the replies back, so
//! every decision — the fixed filter, the prompts, the error policy that
//! swallows causes behind one fixed message per handler — is verified here.

use vstd::prelude::*;
use crate::database::{
    context_of, filter_body, scroll_url, spec_context, spec_numbers_json, Filter, QueryResponse,
    VectorMatch,
};
use crate::embedding::{
    embedding_request_body, embedding_url, first_embedding, spec_embedding_request,
    spec_embedding_url, EmbeddingResponse,
};
use crate::json::{
    digits_len, is_digit, is_fraction_tail, is_number_lit, spec_dec, spec_json_string, JsonNumber,
};
use crate::prompt::{brace, spec_render, Message, Prompt};
use crate::text::spec_replace;

verus! {

/// What can go wrong before a handler replies: the required credential is
/// missing from the configuration, the transport failed, the reply did not
/// match the expected shape, or an expected non-empty list came back empty.
#[derive(Clone, Copy, Debug, PartialEq, Eq)]
pub enum RagError {
    MissingKey,
    Network,
    Schema,
    EmptyData,
}

/// An HTTP POST the application shell must perform: a URL and the exact
/// JSON body.
pub struct HttpRequest {
    pub url: String,
    pub body: String,
}

/// A completion call the application shell must perform: the ordered
/// role-tagged messages and the sampling temperature.
pub struct CompletionRequest {
    pub messages: Vec<Message>,
    pub temperature: JsonNumber,
}

/// The next thing a handler needs done: one of the three external calls,
/// or the finished user-facing result.
pub enum Step {
    CallEmbedding(HttpRequest),
    CallScroll(HttpRequest),
    CallCompletion(CompletionRequest),
    Finished(Result<String, String>),
}

/// The base URL of the vector store's collections API.
pub open spec fn spec_base_url() -> Seq<char> {
    "http://localhost:6333/collections"@
}

/// The fixed collection queried for context.
pub open spec fn spec_collection() -> Seq<char> {
    "Rug_sage"@
}

/// The vector field a question's embedding is matched against.
pub open spec fn spec_vector_field() -> Seq<char> {
    "text_embedding"@
}

/// The fixed similarity threshold of the answer handler's filter.
pub open spec fn spec_threshold() -> Seq<char> {
    "0.8"@
}

/// The sampling temperature of the answer handler.
pub open spec fn spec_answer_temperature() -> Seq<char> {
    "0.5"@
}

/// The sampling temperature of the summarize handler.
pub open spec fn spec_summary_temperature() -> Seq<char> {
    "0.2"@
}

/// The one message the answer handler shows when anything fails.
pub open spec fn spec_answer_failure() -> Seq<char> {
    "Cannot process the request"@
}

/// The one message the summarize handler shows when anything fails.
pub open spec fn spec_summary_failure() -> Seq<char> {
    "cant summarize this text"@
}

/// The answer handler's fixed system prompt.
pub open spec fn spec_answer_system_prompt() -> Seq<char> {
    "
            You are an AI critical thinker research assistant specializing in rugs, particularly oriental rugs,
            and all that is relevant to them. Your sole purpose is answer questions based on the given text.
            Your answers are always in HTML which can be readily rendered.
             Dont use ```html at the begining or the end of your answers.
            Please do your best, this is very important to my career."@
}

/// The answer handler's user prompt template.
pub open spec fn spec_answer_user_template() -> Seq<char> {
    "question: {question} \n {info}, {chat_history}"@
}

/// The summarize handler's fixed system prompt.
pub open spec fn spec_summary_system_prompt() -> Seq<char> {
    "You are a helpful AI assistant that summarizes text in less than 50 words"@
}

/// The summarize handler's user prompt template.
pub open spec fn spec_summary_user_template() -> Seq<char> {
    "summarize this text:\n {text}"@
}

/// The answer user prompt with the question, the retrieved context and the
/// chat history substituted, in that order.
pub open spec fn spec_answer_user_content(q: Seq<char>, info: Seq<char>, h: Seq<char>) -> Seq<
    char,
> {
    spec_replace(
        spec_replace(
            spec_replace(spec_answer_user_template(), brace("question"@), q),
            brace("info"@),
            info,
        ),
        brace("chat_history"@),
        h,
    )
}

/// The summarize user prompt with the raw text substituted.
pub open spec fn spec_summary_user_content(t: Seq<char>) -> Seq<char> {
    spec_replace(spec_summary_user_template(), brace("text"@), t)
}

/// The exact scroll body the answer handler sends for an embedding vector:
/// the fixed filter, limit two, one similarity constraint at the fixed
/// threshold.
pub open spec fn spec_answer_scroll_body(emb: Seq<JsonNumber>) -> Seq<char> {
    "{\"limit\":"@ + spec_dec(2) + ",\"offset\":"@ + "null"@ + ",\"must\":"@ + "null"@
        + ",\"should\":"@ + "["@ + "{\"vector\":"@ + spec_json_string(spec_vector_field())
        + ",\"value\":["@ + spec_numbers_json(emb) + "],\"threshold\":"@ + spec_threshold() + "}"@
        + "]"@ + "}"@
}

/// A text of the shape `0.d` with a digit `d` is a number literal.
proof fn lemma_zero_point_digit(s: Seq<char>, d: char)
    requires
        s =~= seq!['0', '.', d],
        is_digit(d),
    ensures
        is_number_lit(s),
{
    assert(s.skip(1) =~= seq!['.', d]);
    assert(seq!['.', d].skip(1) =~= seq![d]);
    assert(seq![d].skip(1) =~= Seq::<char>::empty());
    assert(digits_len(Seq::<char>::empty()) == 0);
    assert(digits_len(seq![d]) == 1);
    assert(!is_digit('.'));
    assert(digits_len(seq!['.', d]) == 0);
    assert(digits_len(s) == 1);
    assert(is_fraction_tail(seq!['.', d]));
    assert(s.skip(1 as int) == s.skip(digits_len(s) as int));
}

/// The fixed similarity threshold, as a checked number.
pub fn answer_threshold() -> (r: JsonNumber)
    ensures
        r@ == spec_threshold(),
        r.wf(),
{
    proof {
        reveal_strlit("0.8");
        assert("0.8"@ =~= seq!['0', '.', '8']);
        lemma_zero_point_digit("0.8"@, '8');
    }
    JsonNumber::from_lit(String::from_str("0.8"))
}

/// The answer handler's sampling temperature, as a checked number.
pub fn answer_temperature() -> (r: JsonNumber)
    ensures
        r@ == spec_answer_temperature(),
        r.wf(),
{
    proof {
        reveal_strlit("0.5");
        assert("0.5"@ =~= seq!['0', '.', '5']);
        lemma_zero_point_digit("0.5"@, '5');
    }
    JsonNumber::from_lit(String::from_str("0.5"))
}

/// The summarize handler's sampling temperature, as a checked number.
pub fn summary_temperature() -> (r: JsonNumber)
    ensures
        r@ == spec_summary_temperature(),
        r.wf(),
{
    proof {
        reveal_strlit("0.2");
        assert("0.2"@ =~= seq!['0', '.', '2']);
        lemma_zero_point_digit("0.2"@, '2');
    }
    JsonNumber::from_lit(String::from_str("0.2"))
}

fn answer_failure() -> (r: String)
    ensures
        r@ == spec_answer_failure(),
{
    String::from_str("Cannot process the request")
}

fn summary_failure() -> (r: String)
    ensures
        r@ == spec_summary_failure(),
{
    String::from_str("cant summarize this text")
}

/// The fixed retrieval filter over a question's embedding: result limit
/// two, no offset, no exact match constraints, one similarity constraint on
/// the text embedding field at the fixed threshold.
pub fn build_filter(embedding: Vec<JsonNumber>) -> (f: Filter)
    ensures
        f.limit == 2,
        f.offset is None,
        f.must is None,
        f.should matches Some(vs) && vs@.len() == 1 && vs@[0].vector@ == spec_vector_field()
            && vs@[0].value == embedding && vs@[0].threshold@ == spec_threshold(),
{
    let threshold = answer_threshold();
    let vm = VectorMatch {
        vector: String::from_str("text_embedding"),
        value: embedding,
        threshold,
    };
    let mut should: Vec<VectorMatch> = Vec::new();
    should.push(vm);
    Filter { limit: 2, offset: None, must: None, should: Some(should) }
}

/// The two messages of an answer request: the fixed system prompt, then
/// the user prompt with the question, the retrieved context and the chat
/// history filled in, in that order.
pub fn answer_messages(question: &str, info: &str, chat_history: &str) -> (ms: Vec<Message>)
    ensures
        ms@.len() == 2,
        ms@[0].role@ == "system"@,
        ms@[0].content@ == spec_answer_system_prompt(),
        ms@[1].role@ == "user"@,
        ms@[1].content@ == spec_answer_user_content(question@, info@, chat_history@),
{
    let sys = Prompt::new(
        String::from_str(
            "
            You are an AI critical thinker research assistant specializing in rugs, particularly oriental rugs,
            and all that is relevant to them. Your sole purpose is answer questions based on the given text.
            Your answers are always in HTML which can be readily rendered.
             Dont use ```html at the begining or the end of your answers.
            Please do your best, this is very important to my career.",
        ),
        String::from_str("system"),
    ).to_message();
    let p = Prompt::new(
        String::from_str("question: {question} \n {info}, {chat_history}"),
        String::from_str("user"),
    );
    let p = p.add_variable(String::from_str("question"), String::from_str(question));
    let p = p.add_variable(String::from_str("info"), String::from_str(info));
    let p = p.add_variable(String::from_str("chat_history"), String::from_str(chat_history));
    let user = p.to_message();
    proof {
        let vs = p.variables@;
        assert(vs.len() == 3);
        let t0 = spec_answer_user_template();
        let t1 = spec_replace(t0, brace("question"@), question@);
        let t2 = spec_replace(t1, brace("info"@), info@);
        let t3 = spec_replace(t2, brace("chat_history"@), chat_history@);
        assert(spec_render(t0, vs) == spec_render(t1, vs.skip(1)));
        assert(vs.skip(1)[0] == vs[1]);
        assert(spec_render(t1, vs.skip(1)) == spec_render(t2, vs.skip(1).skip(1)));
        assert(vs.skip(1).skip(1) =~= vs.skip(2));
        assert(vs.skip(2)[0] == vs[2]);
        assert(spec_render(t2, vs.skip(2)) == spec_render(t3, vs.skip(2).skip(1)));
        assert(vs.skip(2).skip(1) =~= vs.skip(3));
        assert(vs.skip(3).len() == 0);
        assert(spec_render(t3, vs.skip(3)) == t3);
    }
    let mut ms: Vec<Message> = Vec::new();
    ms.push(sys);
    ms.push(user);
    ms
}

/// The two messages of a summarize request: the fixed system prompt, then
/// the user prompt with the raw text filled in.
pub fn summary_messages(text: &str) -> (ms: Vec<Message>)
    ensures
        ms@.len() == 2,
        ms@[0].role@ == "system"@,
        ms@[0].content@ == spec_summary_system_prompt(),
        ms@[1].role@ == "user"@,
        ms@[1].content@ == spec_summary_user_content(text@),
{
    let sys = Prompt::new(
        String::from_str(
            "You are a helpful AI assistant that summarizes text in less than 50 words",
        ),
        String::from_str("system"),
    ).to_message();
    let p = Prompt::new(
        String::from_str("summarize this text:\n {text}"),
        String::from_str("user"),
    );
    let p = p.add_variable(String::from_str("text"), String::from_str(text));
    let user = p.to_message();
    proof {
        let vs = p.variables@;
        assert(vs.len() == 1);
        let t0 = spec_summary_user_template();
        let t1 = spec_replace(t0, brace("text"@), text@);
        assert(spec_render(t0, vs) == spec_render(t1, vs.skip(1)));
        assert(vs.skip(1).len() == 0);
        assert(spec_render(t1, vs.skip(1)) == t1);
    }
    let mut ms: Vec<Message> = Vec::new();
    ms.push(sys);
    ms.push(user);
    ms
}

/// Begins the answer pipeline: the embedding request for the question.
pub fn answer_start(question: &str) -> (s: Step)
    ensures
        s matches Step::CallEmbedding(r) && r.url@ == spec_embedding_url() && r.body@
            == spec_embedding_request(question@),
{
    Step::CallEmbedding(
        HttpRequest { url: embedding_url(), body: embedding_request_body(question) },
    )
}

/// Carries the answer pipeline past the embedding call. A failure, or a
/// reply without embedding objects, ends the pipeline with the fixed
/// failure message; otherwise the next step is the scroll query over the
/// first embedding vector.
pub fn answer_after_embedding(resp: Result<EmbeddingResponse, RagError>) -> (s: Step)
    ensures
        resp is Err ==> (s matches Step::Finished(r) && r matches Err(m) && m@
            == spec_answer_failure()),
        resp matches Ok(e) ==> ((e.data@.len() == 0 ==> (s matches Step::Finished(r) && r matches
            Err(m) && m@ == spec_answer_failure())) && (e.data@.len() > 0 ==> (s matches
            Step::CallScroll(q) && q.url@ == spec_base_url() + "/"@ + spec_collection()
            + "/points/scroll"@ && q.body@ == spec_answer_scroll_body(e.data@[0].embedding@)))),
{
    match resp {
        Result::Err(_) => Step::Finished(Err(answer_failure())),
        Result::Ok(e) => {
            match first_embedding(e) {
                Option::None => Step::Finished(Err(answer_failure())),
                Option::Some(v) => {
                    let f = build_filter(v);
                    let url = scroll_url("http://localhost:6333/collections", "Rug_sage");
                    let body = filter_body(&f);
                    proof {
                        assert(body@ =~= spec_answer_scroll_body(e.data@[0].embedding@));
                    }
                    Step::CallScroll(HttpRequest { url, body })
                },
            }
        },
    }
}

/// Carries the answer pipeline past the scroll call. A failure ends the
/// pipeline with the fixed failure message; otherwise the next step is the
/// completion call over the assembled messages, at the answer temperature.
pub fn answer_after_context(
    question: &str,
    chat_history: &str,
    resp: Result<QueryResponse, RagError>,
) -> (s: Step)
    ensures
        resp is Err ==> (s matches Step::Finished(r) && r matches Err(m) && m@
            == spec_answer_failure()),
        resp matches Ok(q) ==> (s matches Step::CallCompletion(c) && c.temperature@
            == spec_answer_temperature() && c.messages@.len() == 2 && c.messages@[0].role@
            == "system"@ && c.messages@[0].content@ == spec_answer_system_prompt()
            && c.messages@[1].role@ == "user"@ && c.messages@[1].content@
            == spec_answer_user_content(question@, spec_context(q.result.points@), chat_history@)),
{
    match resp {
        Result::Err(_) => Step::Finished(Err(answer_failure())),
        Result::Ok(q) => {
            let info = context_of(&q);
            let ms = answer_messages(question, info.as_str(), chat_history);
            Step::CallCompletion(
                CompletionRequest { messages: ms, temperature: answer_temperature() },
            )
        },
    }
}

/// Ends the answer pipeline: a completion reply is passed through
/// unchanged as the answer; any failure becomes the fixed failure message,
/// and the underlying cause is discarded, never surfaced.
pub fn answer_after_completion(resp: Result<String, RagError>) -> (s: Step)
    ensures
        resp matches Ok(t) ==> (s matches Step::Finished(r) && r matches Ok(a) && a@ == t@),
        resp is Err ==> (s matches Step::Finished(r) && r matches Err(m) && m@
            == spec_answer_failure()),
{
    match resp {
        Result::Ok(t) => Step::Finished(Ok(t)),
        Result::Err(_) => Step::Finished(Err(answer_failure())),
    }
}

/// Begins the summarize pipeline: the completion call over the two
/// summarize messages, at the summarize temperature.
pub fn summarize_start(text: &str) -> (s: Step)
    ensures
        s matches Step::CallCompletion(c) && c.temperature@ == spec_summary_temperature()
            && c.messages@.len() == 2 && c.messages@[0].role@ == "system"@
            && c.messages@[0].content@ == spec_summary_system_prompt() && c.messages@[1].role@
            == "user"@ && c.messages@[1].content@ == spec_summary_user_content(text@),
{
    let ms = summary_messages(text);
    Step::CallCompletion(CompletionRequest { messages: ms, temperature: summary_temperature() })
}

/// Ends the summarize pipeline. Success is surfaced only for a non-empty
/// summary: an empty completion, like any failure, becomes the fixed
/// failure message.
pub fn summarize_after_completion(resp: Result<String, RagError>) -> (s: Step)
    ensures
        resp matches Ok(t) ==> ((t@.len() > 0 ==> (s matches Step::Finished(r) && r matches Ok(a)
            && a@ == t@)) && (t@.len() == 0 ==> (s matches Step::Finished(r) && r matches Err(m)
            && m@ == spec_summary_failure()))),
        resp is Err ==> (s matches Step::Finished(r) && r matches Err(m) && m@
            == spec_summary_failure()),
{
    match resp {
        Result::Ok(t) => {
            if t.as_str().is_empty() {
                Step::Finished(Err(summary_failure()))
            } else {
                Step::Finished(Ok(t))
            }
        },
        Result::Err(_) => Step::Finished(Err(summary_failure())),
    }
}

/// With a deterministic backend the answer is repeatable: every stage of
/// the pipeline is a function of its inputs alone, so two runs given the
/// same question, chat history and external replies build the same
/// embedding request, the same scroll body and the same user prompt, and
/// hand the same completion text through.
pub proof fn lemma_answer_deterministic(
    q1: Seq<char>,
    q2: Seq<char>,
    emb1: Seq<JsonNumber>,
    emb2: Seq<JsonNumber>,
    info1: Seq<char>,
    info2: Seq<char>,
    h1: Seq<char>,
    h2: Seq<char>,
)
    requires
        q1 == q2,
        emb1 == emb2,
        info1 == info2,
        h1 == h2,
    ensures
        spec_embedding_request(q1) == spec_embedding_request(q2),
        spec_answer_scroll_body(emb1) == spec_answer_scroll_body(emb2),
        spec_answer_user_content(q1, info1, h1) == spec_answer_user_content(q2, info2, h2),
{
}

} // verus!
