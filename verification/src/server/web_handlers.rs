use vstd::prelude::*;
use vstd::string::StringExecFns;
use std::sync::Arc;
use arrow::datatypes::Schema;
use crate::config::dataset::AppConfig;
use crate::server::arrow_stream::encode_stream;
use crate::server::arrow_stream::encoded_stream;
use crate::server::arrow_stream::stream_of;
use crate::server::arrow_stream::Batch;
use crate::server::arrow_stream::StreamFailure;
use crate::server::reply::not_found;
use crate::server::reply::ok_asset;
use crate::server::reply::ok_json;
use crate::server::reply::ok_stream;
use crate::server::reply::server_error;
use crate::server::reply::BodyView;
use crate::server::reply::HttpReply;
use crate::server::reply::ReplyView;
use crate::text::contains;
use crate::text::matches_at;
use crate::text::occurs_in;
use crate::text::stands_at;

verus! {

/// Why reading a table gave no result.
#[derive(Debug, Clone, Copy, PartialEq, Eq, Structural)]
pub enum QueryFailure {
    /// The pool gave no connection.
    Connection,
    /// The store holds no table of that name: nothing was ever ingested
    /// under it. This is no error to the client.
    MissingTable,
    /// The store refused to prepare the query, for another reason.
    Prepare,
    /// The store failed to run the query.
    Execute,
}

/// What a table held when it was read: its schema and its rows, in batches.
pub struct QueryResult {
    pub schema: Arc<Schema>,
    pub batches: Vec<Batch>,
}

/// The query that reads a whole table.
pub open spec fn select_all(table_name: Seq<char>) -> Seq<char> {
    "SELECT * FROM \""@ + table_name + "\""@
}

/// The query that reads the whole table of a dataset.
pub fn select_all_query(table_name: &str) -> (sql: String)
    ensures
        sql@ == select_all(table_name@),
{
    let mut sql = String::from_str("SELECT * FROM \"");
    sql.append(table_name);
    sql.append("\"");
    sql
}

/// How the store's message opens when a query names a table that it does
/// not hold.
pub open spec fn missing_table_opening() -> Seq<char> {
    "Catalog Error: Table with name "@
}

/// What the store's message goes on to say of such a table.
pub open spec fn missing_table_words() -> Seq<char> {
    " does not exist"@
}

/// Whether the store's refusal to prepare a query says that the table is
/// missing: the message opens with `Catalog Error: Table with name ` and
/// holds ` does not exist`.
pub open spec fn reports_missing_table(message: Seq<char>) -> bool {
    stands_at(message, 0, missing_table_opening()) && occurs_in(missing_table_words(), message)
}

/// Why a query could not be prepared, read from the store's message: the
/// table is missing where the message says so, and the query was refused for
/// another reason where it does not.
pub open spec fn refusal_of(message: Seq<char>) -> QueryFailure {
    if reports_missing_table(message) {
        QueryFailure::MissingTable
    } else {
        QueryFailure::Prepare
    }
}

/// Why the query could not be prepared, read from the store's message.
pub fn prepare_failure(message: &str) -> (failure: QueryFailure)
    ensures
        failure == refusal_of(message@),
{
    if matches_at(message, 0, "Catalog Error: Table with name ") && contains(
        message,
        " does not exist",
    ) {
        QueryFailure::MissingTable
    } else {
        QueryFailure::Prepare
    }
}

/// The reply where reading a table gave no result. A missing table is the
/// empty stream under `200`, as a table without rows is; every other failure
/// is a `500` with the message of the step that failed.
pub open spec fn reply_for_failure(failure: QueryFailure) -> ReplyView {
    match failure {
        QueryFailure::Connection => server_error("Error getting connection"@),
        QueryFailure::MissingTable => ok_stream(Seq::empty()),
        QueryFailure::Prepare => server_error("Error preparing query"@),
        QueryFailure::Execute => server_error("Error executing query_arrow"@),
    }
}

/// What a client is told when a result could not be serialized.
pub open spec fn stream_failure_message(failure: StreamFailure) -> Seq<char> {
    match failure {
        StreamFailure::Create(_) => "Error creating Arrow stream"@,
        StreamFailure::Write(_) => "Error writing Arrow batch"@,
        StreamFailure::Finish(_) => "Error finishing Arrow stream"@,
    }
}

/// The reply for a serialized result: the stream under `200`, or `500` with
/// the message of the step that failed.
pub open spec fn reply_for_stream(encoded: Result<Seq<u8>, StreamFailure>) -> ReplyView {
    match encoded {
        Ok(bytes) => ok_stream(bytes),
        Err(failure) => server_error(stream_failure_message(failure)),
    }
}

/// Answers with a serialized result, or with the failure to serialize it.
pub fn stream_reply(encoded: Result<Vec<u8>, StreamFailure>) -> (reply: HttpReply)
    ensures
        reply@ == reply_for_stream(stream_of(encoded)),
{
    match encoded {
        Ok(bytes) => HttpReply::stream(bytes),
        Err(StreamFailure::Create(_)) => HttpReply::failure("Error creating Arrow stream"),
        Err(StreamFailure::Write(_)) => HttpReply::failure("Error writing Arrow batch"),
        Err(StreamFailure::Finish(_)) => HttpReply::failure("Error finishing Arrow stream"),
    }
}

/// The reply to a request for a table, given what reading the table gave:
/// the table's stream where it was read, else the reply for the failure.
pub open spec fn reply_for_table(fetched: Result<QueryResult, QueryFailure>) -> ReplyView {
    match fetched {
        Err(failure) => reply_for_failure(failure),
        Ok(table) => reply_for_stream(encoded_stream(*table.schema, table.batches@)),
    }
}

/// Answers a request for a dataset's table as a columnar stream.
///
/// `fetched` is what reading the table with [`select_all_query`] gave, with
/// a refusal to prepare the query classified by [`prepare_failure`]. A table
/// without batches and a table that the store does not hold are both
/// answered with `200` and an empty body. Otherwise the reply is the whole
/// stream under `200`, or a `500` and no part of it.
pub fn api_get_arrow(fetched: Result<QueryResult, QueryFailure>) -> (reply: HttpReply)
    ensures
        reply@ == reply_for_table(fetched),
        fetched matches Ok(table) && table.batches@.len() == 0 ==> reply@ == ok_stream(
            Seq::empty(),
        ),
        fetched == Err::<QueryResult, QueryFailure>(QueryFailure::MissingTable) ==> reply@
            == ok_stream(Seq::empty()),
{
    match fetched {
        Err(QueryFailure::Connection) => HttpReply::failure("Error getting connection"),
        Err(QueryFailure::MissingTable) => {
            let bytes: Vec<u8> = Vec::new();
            assert(bytes@ =~= Seq::<u8>::empty());
            HttpReply::stream(bytes)
        },
        Err(QueryFailure::Prepare) => HttpReply::failure("Error preparing query"),
        Err(QueryFailure::Execute) => HttpReply::failure("Error executing query_arrow"),
        Ok(table) => stream_reply(encode_stream(&table.schema, &table.batches)),
    }
}

/// A request for a table that was never materialized is answered like one
/// for an empty table, whatever else the store's message says: with `200`,
/// the content type of a stream, and no byte.
pub proof fn a_missing_table_is_an_empty_stream(message: Seq<char>)
    requires
        reports_missing_table(message),
    ensures
        reply_for_table(Err(refusal_of(message))) == ok_stream(Seq::empty()),
{
}

/// A reply to a stream request is the whole stream or an error, never a part
/// of a stream: it is `200` exactly when every step of the serialization
/// succeeded, and then its body is the bytes that came out of it; otherwise
/// it is `500` with a text body.
pub proof fn a_stream_is_delivered_whole_or_not_at_all(encoded: Result<Seq<u8>, StreamFailure>)
    ensures
        reply_for_stream(encoded).status == 200 <==> encoded is Ok,
        encoded matches Ok(bytes) ==> reply_for_stream(encoded).body == BodyView::Binary(bytes),
        encoded is Err ==> reply_for_stream(encoded).status == 500 && reply_for_stream(
            encoded,
        ).body is Text,
{
}

/// The JSON text of an array of strings, as `serde_json` writes it.
pub uninterp spec fn json_array_text(names: Seq<Seq<char>>) -> Seq<char>;

/// Calls `serde_json::to_string` on the names. The call fails only where a
/// `Serialize` impl decides to fail or a map has a key that is no string;
/// a list of strings has neither, so the text is always there, and it is the
/// JSON array of the names.
#[verifier::external_body]
fn names_to_json(names: &Vec<String>) -> (text: Option<String>)
    ensures
        text is Some,
        text->Some_0@ == json_array_text(names.deep_view()),
{
    serde_json::to_string(names).ok()
}

/// The names of the configured datasets, in configuration order.
pub fn dataset_names(config: &AppConfig) -> (names: Vec<String>)
    ensures
        names.deep_view() == config@.names(),
{
    let mut names: Vec<String> = Vec::new();
    let n = config.datasets.len();
    let mut i: usize = 0;
    while i < n
        invariant
            n == config.datasets@.len(),
            i <= n,
            names@.len() == i,
            forall|k: int| 0 <= k < i ==> names@[k]@ == config@.datasets[k].name,
        decreases n - i,
    {
        names.push(config.datasets[i].name.clone());
        i = i + 1;
    }
    assert(names.deep_view() =~= config@.names());
    names
}

/// The reply for the list of datasets, given its JSON text.
pub open spec fn reply_for_names(encoded: Option<Seq<char>>) -> ReplyView {
    match encoded {
        Some(json) => ok_json(json),
        None => server_error("Error serializing dataset names"@),
    }
}

/// Answers with the JSON text of the dataset names, or with `500` where
/// there is none.
pub fn datasets_reply(encoded: Option<String>) -> (reply: HttpReply)
    ensures
        reply@ == reply_for_names(
            match encoded {
                Some(json) => Some(json@),
                None => None,
            },
        ),
{
    match encoded {
        Some(json) => HttpReply::json(json),
        None => HttpReply::failure("Error serializing dataset names"),
    }
}

/// Answers a request for the list of datasets: `200` with the JSON array of
/// their names, in configuration order.
pub fn api_get_datasets(config: &AppConfig) -> (reply: HttpReply)
    ensures
        reply@ == ok_json(json_array_text(config@.names())),
{
    let names = dataset_names(config);
    datasets_reply(names_to_json(&names))
}

/// The example payload.
pub open spec fn example_json() -> Seq<char> {
    "{\"id\":1,\"value\":\"Hello from Rust!\"}"@
}

/// Answers with the static example payload.
pub fn api_get_json() -> (reply: HttpReply)
    ensures
        reply@ == ok_json(example_json()),
{
    HttpReply::json(String::from_str("{\"id\":1,\"value\":\"Hello from Rust!\"}"))
}

/// The asset a request names: the file asked for, or the index page where
/// none is named.
pub open spec fn asset_path(filename: Seq<char>) -> Seq<char> {
    if filename.len() == 0 {
        "index.html"@
    } else {
        filename
    }
}

/// The path under which the asset of a request is looked up.
pub fn embedded_path(filename: &str) -> (path: String)
    ensures
        path@ == asset_path(filename@),
{
    if filename.is_empty() {
        String::from_str("index.html")
    } else {
        String::from_str(filename)
    }
}

/// The media types that `mime_guess` knows for a path's extension.
#[verifier::external_type_specification]
#[verifier::external_body]
pub struct ExMimeGuess(mime_guess::MimeGuess);

/// What `mime_guess::from_path` returns for a path.
pub uninterp spec fn guess_of_path(path: Seq<char>) -> mime_guess::MimeGuess;

/// What `MimeGuess::first_or_octet_stream` returns for a guess, as text.
pub uninterp spec fn first_type_or_octet_stream(guess: mime_guess::MimeGuess) -> Seq<char>;

/// Calls `mime_guess::from_path`: the guess for the path's extension, made
/// from the crate's table without touching the disk. The contract only names
/// the guess, which depends on the path alone.
#[verifier::external_body]
fn guess_from_path(path: &str) -> (guess: mime_guess::MimeGuess)
    ensures
        guess == guess_of_path(path@),
{
    mime_guess::from_path(path)
}

/// Calls `MimeGuess::first_or_octet_stream` and writes the media type out as
/// text: the first type of the guess, or `application/octet-stream` where the
/// guess is empty. The contract only names the text, which depends on the
/// guess alone.
#[verifier::external_body]
fn first_or_octet_stream(guess: &mime_guess::MimeGuess) -> (content_type: String)
    ensures
        content_type@ == first_type_or_octet_stream(*guess),
{
    guess.first_or_octet_stream().as_ref().to_string()
}

/// The content type under which the asset at `path` is served: the first
/// media type guessed from the path.
pub open spec fn content_type_for(path: Seq<char>) -> Seq<char> {
    first_type_or_octet_stream(guess_of_path(path))
}

/// What was found for an asset, in specifications.
pub open spec fn bytes_of(content: Option<Vec<u8>>) -> Option<Seq<u8>> {
    match content {
        Some(bytes) => Some(bytes@),
        None => None,
    }
}

/// The reply for an asset, given the content type to serve it under: the
/// asset whole under `200`, or `404` where there is none.
pub open spec fn reply_for_asset(content_type: Seq<char>, content: Option<Seq<u8>>) -> ReplyView {
    match content {
        Some(bytes) => ok_asset(content_type, bytes),
        None => not_found(),
    }
}

/// Answers with an asset under the given content type, or with `404` where
/// there is no such asset.
pub fn asset_reply(content_type: String, content: Option<Vec<u8>>) -> (reply: HttpReply)
    ensures
        reply@ == reply_for_asset(content_type@, bytes_of(content)),
{
    match content {
        Some(bytes) => HttpReply::asset(content_type, bytes),
        None => HttpReply::missing(),
    }
}

/// Answers a request for a frontend asset. `path` is the asset's path, as
/// [`embedded_path`] gave it, and `content` what was found under it. A
/// missing asset is a `404`; a found one is served whole under the media type
/// guessed from its path.
pub fn serve_embedded(path: &str, content: Option<Vec<u8>>) -> (reply: HttpReply)
    ensures
        reply@ == reply_for_asset(content_type_for(path@), bytes_of(content)),
{
    let guess = guess_from_path(path);
    asset_reply(first_or_octet_stream(&guess), content)
}

} // verus!
