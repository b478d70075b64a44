//! The text of the answer to a link query, as it is handed to the caller.
//!
//! An answer is a JSON object `{"links":[...]}` with one object for each
//! link: its address, the headers of its current entry, its tag and its
//! status. What the caller receives wraps the outcome of the query: a flag
//! that says whether it succeeded, the answer as a JSON string, and the
//! error as a JSON string.

use crate::content::{comma_separated, write_comma_separated};
use crate::entry::{status_text, ChainHeader, ChainHeaderView, CrudStatus};
use crate::error::{HolochainError, HolochainErrorView};
use crate::json::{json_quote, json_string_literal};
use crate::links::{query_result_view, GetLinksResult, LinksResult, LinksResultView};
use crate::views::seq_view;
use vstd::prelude::*;

verus! {

/// The JSON object of a header, from the JSON literals of its texts; the
/// pointer of a header that supersedes nothing is `null`.
pub open spec fn header_json(
    entry_address: Seq<char>,
    author: Seq<char>,
    timestamp: Seq<char>,
    link_update_delete: Option<Seq<char>>,
) -> Seq<char> {
    "{\"entry_address\":"@ + entry_address + ",\"author\":"@ + author + ",\"timestamp\":"@
        + timestamp + ",\"link_update_delete\":"@ + (match link_update_delete {
        Some(literal) => literal,
        None => "null"@,
    }) + "}"@
}

/// The JSON object of a header.
pub open spec fn header_to_json(header: ChainHeaderView) -> Seq<char> {
    header_json(
        json_string_literal(header.entry_address),
        json_string_literal(header.author),
        json_string_literal(header.timestamp),
        match header.link_update_delete {
            Some(link) => Some(json_string_literal(link)),
            None => None,
        },
    )
}

/// The JSON objects of the headers, in order.
pub open spec fn headers_to_json(headers: Seq<ChainHeaderView>) -> Seq<Seq<char>> {
    Seq::new(headers.len(), |i: int| header_to_json(headers[i]))
}

/// The JSON object of the answer for one link, from the JSON literals of
/// its address and tag and the JSON objects of its headers.
pub open spec fn link_answer_json(
    address: Seq<char>,
    headers: Seq<Seq<char>>,
    tag: Seq<char>,
    status: CrudStatus,
) -> Seq<char> {
    "{\"address\":"@ + address + ",\"headers\":["@ + comma_separated(headers) + "],\"tag\":"@ + tag
        + ",\"status\":\""@ + status_text(status) + "\"}"@
}

/// The JSON object of the answer for one link.
pub open spec fn link_answer_to_json(answer: LinksResultView) -> Seq<char> {
    link_answer_json(
        json_string_literal(answer.address),
        headers_to_json(answer.headers),
        json_string_literal(answer.tag),
        answer.status,
    )
}

/// The JSON objects of the answers, in order.
pub open spec fn link_answers_to_json(answers: Seq<LinksResultView>) -> Seq<Seq<char>> {
    Seq::new(answers.len(), |i: int| link_answer_to_json(answers[i]))
}

/// The JSON text of an answer, from the JSON objects of its links.
pub open spec fn links_json(links: Seq<Seq<char>>) -> Seq<char> {
    "{\"links\":["@ + comma_separated(links) + "]}"@
}

/// The JSON text of an answer.
pub open spec fn get_links_result_json(answers: Seq<LinksResultView>) -> Seq<char> {
    links_json(link_answers_to_json(answers))
}

/// The JSON object of an error, from the JSON literal of its message. A
/// timeout has no message.
pub open spec fn error_json(error: HolochainErrorView, message: Seq<char>) -> Seq<char> {
    match error {
        HolochainErrorView::ErrorGeneric(_) => "{\"ErrorGeneric\":"@ + message + "}"@,
        HolochainErrorView::NotImplemented(_) => "{\"NotImplemented\":"@ + message + "}"@,
        HolochainErrorView::ValidationFailed(_) => "{\"ValidationFailed\":"@ + message + "}"@,
        HolochainErrorView::Timeout => "\"Timeout\""@,
    }
}

/// The JSON text of an error.
pub open spec fn error_to_json(error: HolochainErrorView) -> Seq<char> {
    match error {
        HolochainErrorView::Timeout => error_json(error, Seq::empty()),
        _ => error_json(error, json_string_literal(error.message())),
    }
}

/// The text handed to the caller, from whether the query succeeded and the
/// JSON literals of its answer and of its error.
pub open spec fn call_result_json(ok: bool, value: Seq<char>, error: Seq<char>) -> Seq<char> {
    "{\"ok\":"@ + (if ok {
        "true"@
    } else {
        "false"@
    }) + ",\"value\":"@ + value + ",\"error\":"@ + error + "}"@
}

/// The text handed to the caller for the outcome of a query: for an answer,
/// the answer as value and `null` as error; for an error, `null` as value
/// and the error as error. Value and error are JSON strings that hold JSON
/// text.
pub open spec fn query_response(outcome: Result<Seq<LinksResultView>, HolochainErrorView>)
    -> Seq<char> {
    match outcome {
        Ok(answers) => call_result_json(
            true,
            json_string_literal(get_links_result_json(answers)),
            json_string_literal("null"@),
        ),
        Err(failure) => call_result_json(
            false,
            json_string_literal("null"@),
            json_string_literal(error_to_json(failure)),
        ),
    }
}

/// Writes the JSON object of a header from the JSON literals of its texts.
pub fn write_header_json(
    entry_address: &str,
    author: &str,
    timestamp: &str,
    link_update_delete: Option<&str>,
) -> (json: String)
    ensures
        json@ == header_json(
            entry_address@,
            author@,
            timestamp@,
            match link_update_delete {
                Some(literal) => Some(literal@),
                None => None,
            },
        ),
{
    let mut json = String::from_str("{\"entry_address\":");
    json.append(entry_address);
    json.append(",\"author\":");
    json.append(author);
    json.append(",\"timestamp\":");
    json.append(timestamp);
    json.append(",\"link_update_delete\":");
    match link_update_delete {
        Some(literal) => json.append(literal),
        None => json.append("null"),
    }
    json.append("}");
    json
}

/// The JSON object of a header.
pub fn header_json_of(header: &ChainHeader) -> (json: String)
    ensures
        json@ == header_to_json(header@),
{
    let entry_address = json_quote(header.entry_address.as_str());
    let author = json_quote(header.author.as_str());
    let timestamp = json_quote(header.timestamp.as_str());
    match &header.link_update_delete {
        None => write_header_json(
            entry_address.as_str(),
            author.as_str(),
            timestamp.as_str(),
            None,
        ),
        Some(link) => {
            let literal = json_quote(link.as_str());
            write_header_json(
                entry_address.as_str(),
                author.as_str(),
                timestamp.as_str(),
                Some(literal.as_str()),
            )
        },
    }
}

/// Writes the JSON object of the answer for one link from the JSON literals
/// of its address and tag and the JSON objects of its headers.
pub fn write_link_answer_json(address: &str, headers: &Vec<String>, tag: &str, status: CrudStatus) -> (json:
    String)
    ensures
        json@ == link_answer_json(address@, seq_view(headers@), tag@, status),
{
    let mut json = String::from_str("{\"address\":");
    json.append(address);
    json.append(",\"headers\":[");
    let list = write_comma_separated(headers);
    json.append(list.as_str());
    json.append("],\"tag\":");
    json.append(tag);
    json.append(",\"status\":\"");
    json.append(status.as_str());
    json.append("\"}");
    json
}

/// The JSON object of the answer for one link.
pub fn link_answer_json_of(answer: &LinksResult) -> (json: String)
    ensures
        json@ == link_answer_to_json(answer@),
{
    let address = json_quote(answer.address.as_str());
    let mut headers: Vec<String> = Vec::new();
    let mut i: usize = 0;
    while i < answer.headers.len()
        invariant
            i <= answer.headers.len(),
            headers.len() == i,
            forall|k: int| 0 <= k < i ==> headers@[k]@ == header_to_json(answer.headers@[k]@),
        decreases answer.headers.len() - i,
    {
        headers.push(header_json_of(&answer.headers[i]));
        i += 1;
    }
    assert(seq_view(headers@) =~= headers_to_json(answer@.headers));
    let tag = json_quote(answer.tag.as_str());
    write_link_answer_json(address.as_str(), &headers, tag.as_str(), answer.status)
}

/// Writes the JSON text of an answer from the JSON objects of its links.
pub fn write_links_json(links: &Vec<String>) -> (json: String)
    ensures
        json@ == links_json(seq_view(links@)),
{
    let mut json = String::from_str("{\"links\":[");
    let list = write_comma_separated(links);
    json.append(list.as_str());
    json.append("]}");
    json
}

impl GetLinksResult {
    /// The JSON text of the answer.
    pub fn to_json(&self) -> (json: String)
        ensures
            json@ == get_links_result_json(self@),
    {
        let answers = self.links();
        let mut links: Vec<String> = Vec::new();
        let mut i: usize = 0;
        while i < answers.len()
            invariant
                i <= answers.len(),
                links.len() == i,
                seq_view(answers@) == self@,
                forall|k: int| 0 <= k < i ==> links@[k]@ == link_answer_to_json(answers@[k]@),
            decreases answers.len() - i,
        {
            links.push(link_answer_json_of(&answers[i]));
            i += 1;
        }
        assert(seq_view(links@) =~= link_answers_to_json(self@)) by {
            assert forall|k: int| 0 <= k < self@.len() implies self@[k] == answers@[k]@ by {
                assert(seq_view(answers@)[k] == answers@[k]@);
            }
        }
        write_links_json(&links)
    }
}

/// Writes the JSON object of an error from the JSON literal of its message.
pub fn write_error_json(error: &HolochainError, message: &str) -> (json: String)
    ensures
        json@ == error_json(error@, message@),
{
    let mut json = match error {
        HolochainError::ErrorGeneric(_) => String::from_str("{\"ErrorGeneric\":"),
        HolochainError::NotImplemented(_) => String::from_str("{\"NotImplemented\":"),
        HolochainError::ValidationFailed(_) => String::from_str("{\"ValidationFailed\":"),
        HolochainError::Timeout => {
            return String::from_str("\"Timeout\"");
        },
    };
    json.append(message);
    json.append("}");
    json
}

impl HolochainError {
    /// The JSON text of the error.
    pub fn to_json(&self) -> (json: String)
        ensures
            json@ == error_to_json(self@),
    {
        match self {
            HolochainError::Timeout => write_error_json(self, ""),
            _ => {
                let message = json_quote(self.message());
                write_error_json(self, message.as_str())
            },
        }
    }
}

/// Writes the text handed to the caller from whether the query succeeded
/// and the JSON literals of its answer and of its error.
pub fn write_call_result_json(ok: bool, value: &str, error: &str) -> (json: String)
    ensures
        json@ == call_result_json(ok, value@, error@),
{
    let mut json = String::from_str("{\"ok\":");
    if ok {
        json.append("true");
    } else {
        json.append("false");
    }
    json.append(",\"value\":");
    json.append(value);
    json.append(",\"error\":");
    json.append(error);
    json.append("}");
    json
}

/// The text handed to the caller for the outcome of a link query.
pub fn store_result(outcome: &Result<GetLinksResult, HolochainError>) -> (response: String)
    ensures
        response@ == query_response(query_result_view(*outcome)),
{
    let null = json_quote("null");
    match outcome {
        Ok(answer) => {
            let json = answer.to_json();
            let value = json_quote(json.as_str());
            write_call_result_json(true, value.as_str(), null.as_str())
        },
        Err(failure) => {
            let json = failure.to_json();
            let error = json_quote(json.as_str());
            write_call_result_json(false, null.as_str(), error.as_str())
        },
    }
}

} // verus!
