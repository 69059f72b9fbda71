use rug_sage::database::{ApiResponse, Payload, Point, QueryResponse};
use rug_sage::embedding::{first_embedding, EmbeddingObject, EmbeddingResponse, Usage};
use rug_sage::handlers::{
    answer_after_completion, answer_after_context, answer_after_embedding, answer_start,
    build_filter, summarize_after_completion, summarize_start, RagError, Step,
};
use rug_sage::json::JsonNumber;

fn num(text: &str) -> JsonNumber {
    JsonNumber::new(text.to_string()).expect("number literal should be accepted")
}

fn embedding_response(vectors: Vec<Vec<JsonNumber>>) -> EmbeddingResponse {
    EmbeddingResponse {
        object: "list".to_string(),
        model: "text-embedding-3-large".to_string(),
        usage: Usage { prompt_tokens: 8, total_tokens: 8 },
        data: vectors
            .into_iter()
            .enumerate()
            .map(|(i, v)| EmbeddingObject {
                object: "embedding".to_string(),
                index: i as u32,
                embedding: v,
            })
            .collect(),
    }
}

fn query_response(contents: &[&str]) -> QueryResponse {
    QueryResponse {
        result: ApiResponse {
            next_page_offset: None,
            points: contents
                .iter()
                .enumerate()
                .map(|(i, c)| Point {
                    id: format!("{}", i),
                    payload: Payload { metadata: None, page_content: c.to_string() },
                })
                .collect(),
        },
        status: "ok".to_string(),
        time: num("0.002"),
    }
}

#[test]
fn first_embedding_returns_the_first_vector() {
    let resp = embedding_response(vec![vec![num("0.1"), num("0.2")], vec![num("9")]]);
    let v = first_embedding(resp).expect("a non-empty reply yields a vector");
    assert_eq!(v.len(), 2);
    assert_eq!(v[0].as_str(), "0.1");
    assert_eq!(v[1].as_str(), "0.2");
}

#[test]
fn first_embedding_of_empty_reply_is_none() {
    let resp = embedding_response(vec![]);
    assert!(first_embedding(resp).is_none());
}

#[test]
fn build_filter_uses_limit_two_and_threshold() {
    let f = build_filter(vec![num("0.1"), num("0.2")]);
    assert_eq!(f.limit, 2);
    assert!(f.offset.is_none());
    assert!(f.must.is_none());
    let should = f.should.expect("one similarity constraint");
    assert_eq!(should.len(), 1);
    assert_eq!(should[0].vector, "text_embedding");
    assert_eq!(should[0].threshold.as_str(), "0.8");
    assert_eq!(should[0].value.len(), 2);
}

#[test]
fn answer_start_requests_an_embedding() {
    let step = answer_start("What is the history of Persian rugs?");
    match step {
        Step::CallEmbedding(req) => {
            assert_eq!(req.url, "https://api.openai.com/v1/embeddings");
            assert_eq!(
                req.body,
                "{\"input\":\"What is the history of Persian rugs?\",\
                 \"model\":\"text-embedding-3-large\"}"
            );
        }
        _ => panic!("the first step must call the embedding endpoint"),
    }
}

#[test]
fn answer_after_embedding_builds_the_scroll_request() {
    let resp = embedding_response(vec![vec![num("0.1"), num("0.2")]]);
    match answer_after_embedding(Ok(resp)) {
        Step::CallScroll(req) => {
            assert_eq!(
                req.url,
                "http://localhost:6333/collections/Rug_sage/points/scroll"
            );
            assert_eq!(
                req.body,
                "{\"limit\":2,\"offset\":null,\"must\":null,\"should\":[{\"vector\":\
                 \"text_embedding\",\"value\":[0.1,0.2],\"threshold\":0.8}]}"
            );
        }
        _ => panic!("a good embedding reply must lead to the scroll call"),
    }
}

#[test]
fn answer_after_embedding_failure_yields_the_fixed_message() {
    // The embedding endpoint answering with a server error reaches the
    // library as a network failure; only the fixed message comes out.
    match answer_after_embedding(Err(RagError::Network)) {
        Step::Finished(Err(m)) => assert_eq!(m, "Cannot process the request"),
        _ => panic!("a failure must finish the pipeline"),
    }
    match answer_after_embedding(Err(RagError::MissingKey)) {
        Step::Finished(Err(m)) => assert_eq!(m, "Cannot process the request"),
        _ => panic!("a missing key must finish the pipeline"),
    }
    match answer_after_embedding(Err(RagError::Schema)) {
        Step::Finished(Err(m)) => assert_eq!(m, "Cannot process the request"),
        _ => panic!("a malformed reply must finish the pipeline"),
    }
}

#[test]
fn answer_after_embedding_empty_reply_yields_the_fixed_message() {
    let resp = embedding_response(vec![]);
    match answer_after_embedding(Ok(resp)) {
        Step::Finished(Err(m)) => assert_eq!(m, "Cannot process the request"),
        _ => panic!("an empty embedding list must finish the pipeline"),
    }
}

#[test]
fn answer_after_context_assembles_both_messages() {
    let resp = query_response(&["first chunk", "second chunk"]);
    match answer_after_context("Why medallions?", "earlier talk", Ok(resp)) {
        Step::CallCompletion(c) => {
            assert_eq!(c.temperature.as_str(), "0.5");
            assert_eq!(c.messages.len(), 2);
            assert_eq!(c.messages[0].role, "system");
            assert!(c.messages[0].content.contains("oriental rugs"));
            assert_eq!(c.messages[1].role, "user");
            assert_eq!(
                c.messages[1].content,
                "question: Why medallions? \n first chunk\nsecond chunk, earlier talk"
            );
        }
        _ => panic!("retrieved context must lead to the completion call"),
    }
}

#[test]
fn answer_after_context_failure_yields_the_fixed_message() {
    match answer_after_context("q", "", Err(RagError::Network)) {
        Step::Finished(Err(m)) => assert_eq!(m, "Cannot process the request"),
        _ => panic!("a failed scroll must finish the pipeline"),
    }
}

#[test]
fn answer_after_completion_passes_the_text_through() {
    match answer_after_completion(Ok("<p>They are old.</p>".to_string())) {
        Step::Finished(Ok(a)) => assert_eq!(a, "<p>They are old.</p>"),
        _ => panic!("a completion reply is the answer"),
    }
    match answer_after_completion(Err(RagError::Schema)) {
        Step::Finished(Err(m)) => assert_eq!(m, "Cannot process the request"),
        _ => panic!("a failed completion must finish the pipeline"),
    }
}

fn run_answer(question: &str, chat_history: &str) -> Result<String, String> {
    // A deterministic stand-in backend: fixed embedding, fixed context, and
    // a completion that echoes an HTML rendering of the user prompt's start.
    let step = answer_start(question);
    let _req = match step {
        Step::CallEmbedding(req) => req,
        _ => panic!("expected the embedding call"),
    };
    let step = answer_after_embedding(Ok(embedding_response(vec![vec![num("0.5"), num("0.25")]])));
    let _req = match step {
        Step::CallScroll(req) => req,
        _ => panic!("expected the scroll call"),
    };
    let step = answer_after_context(question, chat_history, Ok(query_response(&["ctx"])));
    let completion = match step {
        Step::CallCompletion(c) => {
            format!("<p>{}</p>", c.messages[1].content)
        }
        _ => panic!("expected the completion call"),
    };
    match answer_after_completion(Ok(completion)) {
        Step::Finished(r) => r,
        _ => panic!("expected the finished result"),
    }
}

#[test]
fn answer_twice_with_deterministic_backend_is_identical() {
    let a = run_answer("What is the history of Persian rugs?", "");
    let b = run_answer("What is the history of Persian rugs?", "");
    assert_eq!(a, b);
}

#[test]
fn answer_scenario_produces_clean_non_empty_text() {
    let a = run_answer("What is the history of Persian rugs?", "")
        .expect("the deterministic run succeeds");
    assert!(!a.is_empty());
    assert!(!a.contains("```"));
}

#[test]
fn summarize_start_builds_both_messages() {
    match summarize_start("This is a long chat history text that needs summarization.") {
        Step::CallCompletion(c) => {
            assert_eq!(c.temperature.as_str(), "0.2");
            assert_eq!(c.messages.len(), 2);
            assert_eq!(c.messages[0].role, "system");
            assert_eq!(
                c.messages[0].content,
                "You are a helpful AI assistant that summarizes text in less than 50 words"
            );
            assert_eq!(c.messages[1].role, "user");
            assert_eq!(
                c.messages[1].content,
                "summarize this text:\n This is a long chat history text that needs summarization."
            );
        }
        _ => panic!("summarizing starts with the completion call"),
    }
}

#[test]
fn summarize_success_is_only_signalled_with_text() {
    match summarize_after_completion(Ok("A short summary.".to_string())) {
        Step::Finished(Ok(s)) => {
            assert_eq!(s, "A short summary.");
            assert!(!s.is_empty());
        }
        _ => panic!("a non-empty summary is a success"),
    }
    match summarize_after_completion(Ok("".to_string())) {
        Step::Finished(Err(m)) => assert_eq!(m, "cant summarize this text"),
        _ => panic!("an empty summary is never a success"),
    }
    match summarize_after_completion(Err(RagError::EmptyData)) {
        Step::Finished(Err(m)) => assert_eq!(m, "cant summarize this text"),
        _ => panic!("a failure must finish the pipeline"),
    }
}
