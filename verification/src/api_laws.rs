//! What holds of the interface to a provider.
use crate::api::{header_from, ApiErrorModel, HttpHeaderModel};
use crate::text::{lemma_occurs_itself, lemma_occurs_longer, occurs};
use vstd::prelude::*;

verus! {

/// The message of an error tells everything that the error knows.
pub proof fn law_api_errors_tell_what_they_know(error: ApiErrorModel)
    ensures
        match error {
            ApiErrorModel::Transport(error) => occurs(error.text(), error.text()),
            ApiErrorModel::Stream(message) => occurs(error.text(), message),
            ApiErrorModel::Retryable { message, .. } => occurs(error.text(), message),
            ApiErrorModel::RateLimit(message) => occurs(error.text(), message),
            ApiErrorModel::InvalidRequest { message } => occurs(error.text(), message),
            _ => true,
        },
{
    match error {
        ApiErrorModel::Transport(error) => {
            lemma_occurs_itself(error.text());
        },
        ApiErrorModel::Stream(message) => {
            let t0 = "stream error: "@;
            let t1 = t0 + message;
            lemma_occurs_itself(message);
            lemma_occurs_longer(t0, message, Seq::empty());
            lemma_occurs_longer(Seq::empty(), t0, message);
        },
        ApiErrorModel::Retryable { message, .. } => {
            let t0 = "retryable error: "@;
            let t1 = t0 + message;
            lemma_occurs_itself(message);
            lemma_occurs_longer(t0, message, Seq::empty());
            lemma_occurs_longer(Seq::empty(), t0, message);
        },
        ApiErrorModel::RateLimit(message) => {
            let t0 = "rate limit: "@;
            let t1 = t0 + message;
            lemma_occurs_itself(message);
            lemma_occurs_longer(t0, message, Seq::empty());
            lemma_occurs_longer(Seq::empty(), t0, message);
        },
        ApiErrorModel::InvalidRequest { message } => {
            let t0 = "invalid request: "@;
            let t1 = t0 + message;
            lemma_occurs_itself(message);
            lemma_occurs_longer(t0, message, Seq::empty());
            lemma_occurs_longer(Seq::empty(), t0, message);
        },
        _ => {},
    }
}

/// The value of a header is that of the first one of its name.
pub proof fn law_the_first_header_of_a_name_counts(headers: Seq<HttpHeaderModel>, name: Seq<char>, place: int)
    ensures
        0 <= place < headers.len() && headers[place].name == name && (forall|i: int|
            0 <= i < place ==> (#[trigger] headers[i]).name != name) ==> header_from(headers, name, 0)
            == headers[place].value,
        (forall|i: int| 0 <= i < headers.len() ==> (#[trigger] headers[i]).name != name) ==> header_from(
            headers,
            name,
            0,
        ) is None,
{
    lemma_header(headers, name, place, 0);
}

proof fn lemma_header(headers: Seq<HttpHeaderModel>, name: Seq<char>, place: int, at: int)
    requires
        0 <= at <= headers.len(),
    ensures
        at <= place < headers.len() && headers[place].name == name && (forall|i: int|
            at <= i < place ==> (#[trigger] headers[i]).name != name) ==> header_from(headers, name, at)
            == headers[place].value,
        (forall|i: int| at <= i < headers.len() ==> (#[trigger] headers[i]).name != name) ==> header_from(
            headers,
            name,
            at,
        ) is None,
    decreases headers.len() - at,
{
    if at < headers.len() && headers[at].name != name {
        lemma_header(headers, name, place, at + 1);
    }
}

} // verus!
