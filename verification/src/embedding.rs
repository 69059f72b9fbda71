//! The embedding client's data model and verified logic: the exact JSON
//! body of an embedding request, the endpoint URL, and the extraction of
//! the first embedding vector from the endpoint's reply. The authenticated
//! HTTP POST is done by the application shell.

use vstd::prelude::*;
use crate::json::{json_string, spec_json_string, JsonNumber};

verus! {

/// Token accounting reported by the embedding endpoint.
pub struct Usage {
    pub prompt_tokens: u32,
    pub total_tokens: u32,
}

/// One embedding object in the endpoint's reply.
pub struct EmbeddingObject {
    pub object: String,
    pub index: u32,
    pub embedding: Vec<JsonNumber>,
}

/// The embedding endpoint's reply: a list of embedding objects.
pub struct EmbeddingResponse {
    pub object: String,
    pub model: String,
    pub usage: Usage,
    pub data: Vec<EmbeddingObject>,
}

/// The model identifier named in every embedding request.
pub open spec fn spec_embedding_model() -> Seq<char> {
    "text-embedding-3-large"@
}

/// The URL of the embedding endpoint.
pub open spec fn spec_embedding_url() -> Seq<char> {
    "https://api.openai.com/v1/embeddings"@
}

pub fn embedding_url() -> (r: String)
    ensures
        r@ == spec_embedding_url(),
{
    String::from_str("https://api.openai.com/v1/embeddings")
}

/// The exact JSON body of an embedding request: the input text and the
/// model identifier.
pub open spec fn spec_embedding_request(input: Seq<char>) -> Seq<char> {
    "{\"input\":"@ + spec_json_string(input) + ",\"model\":"@ + spec_json_string(
        spec_embedding_model(),
    ) + "}"@
}

/// Renders the embedding request body for a question.
pub fn embedding_request_body(question: &str) -> (r: String)
    ensures
        r@ == spec_embedding_request(question@),
{
    let mut out = String::from_str("{\"input\":");
    let s = json_string(question);
    out.append(s.as_str());
    out.append(",\"model\":");
    let s = json_string("text-embedding-3-large");
    out.append(s.as_str());
    out.append("}");
    out
}

/// Takes the first embedding object's vector out of a reply. Returns
/// nothing exactly when the reply carries no embedding object.
pub fn first_embedding(resp: EmbeddingResponse) -> (r: Option<Vec<JsonNumber>>)
    ensures
        r is Some <==> resp.data@.len() > 0,
        r matches Some(v) ==> v == resp.data@[0].embedding,
{
    let mut data = resp.data;
    if data.len() == 0 {
        None
    } else {
        let first = data.remove(0);
        Some(first.embedding)
    }
}

} // verus!
