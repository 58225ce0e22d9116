use vstd::prelude::*;
use arrow::datatypes::Schema;
use arrow::error::ArrowError;
use arrow::ipc::writer::StreamWriter;
use arrow::record_batch::RecordBatch;

verus! {

/// A table's column names and types, as `arrow` holds them.
#[verifier::external_type_specification]
#[verifier::external_body]
pub struct ExSchema(arrow::datatypes::Schema);

/// A run of rows of one schema, column by column: one `RecordBatch` of
/// `arrow`.
///
/// Verus cannot take `RecordBatch` itself into a signature (one of its impls
/// names a trait that Verus does not know), so a batch travels through the
/// library inside this struct, which Verus treats as opaque. Nothing here
/// looks into a batch; it is only handed to the stream writer.
#[verifier::external_body]
pub struct Batch {
    pub rows: RecordBatch,
}

/// The error of an `arrow` operation.
#[verifier::external_type_specification]
#[verifier::external_body]
pub struct ExArrowError(arrow::error::ArrowError);

/// The `arrow` writer of the IPC streaming format over a byte sink.
#[verifier::external_type_specification]
#[verifier::external_body]
#[verifier::reject_recursive_types(W)]
pub struct ExStreamWriter<W>(arrow::ipc::writer::StreamWriter<W>);

/// Why a result could not be serialized. No byte of a stream that failed is
/// ever handed out.
#[derive(Debug)]
pub enum StreamFailure {
    /// The writer could not be set up with the schema.
    Create(ArrowError),
    /// A batch could not be written.
    Write(ArrowError),
    /// The stream could not be closed.
    Finish(ArrowError),
}

/// What `StreamWriter::try_new` returns for an empty byte vector and a
/// schema: a writer that holds the schema header, or an error.
pub uninterp spec fn try_new_result(schema: Schema) -> Result<StreamWriter<Vec<u8>>, ArrowError>;

/// What `StreamWriter::write` does with a writer and a batch: the writer
/// afterwards, and whether the batch was written.
pub uninterp spec fn write_result(writer: StreamWriter<Vec<u8>>, batch: Batch) -> (
    StreamWriter<Vec<u8>>,
    Result<(), ArrowError>,
);

/// What `StreamWriter::into_inner` returns for a writer: the bytes of the
/// stream, closed by the end-of-stream marker, or an error.
pub uninterp spec fn into_inner_result(writer: StreamWriter<Vec<u8>>) -> Result<
    Seq<u8>,
    ArrowError,
>;

/// Calls `StreamWriter::try_new` on an empty byte vector. The writer encodes
/// the schema and writes it as the header of the stream; the contract only
/// names what comes back, which depends on the schema alone.
#[verifier::external_body]
fn open_stream(schema: &Schema) -> (opened: Result<StreamWriter<Vec<u8>>, ArrowError>)
    ensures
        opened == try_new_result(*schema),
{
    StreamWriter::try_new(Vec::new(), schema)
}

/// Calls `StreamWriter::write`, which encodes the batch and appends it to the
/// stream. The contract only names the outcome, which depends on the writer
/// and the batch alone. The call panics only on array data that breaks
/// `arrow`'s own invariants, which no safe constructor of a `RecordBatch`
/// lets through.
#[verifier::external_body]
fn write_batch(writer: &mut StreamWriter<Vec<u8>>, batch: &Batch) -> (written: Result<
    (),
    ArrowError,
>)
    ensures
        (*final(writer), written) == write_result(*old(writer), *batch),
{
    writer.write(&batch.rows)
}

/// Calls `StreamWriter::into_inner`, which writes the end-of-stream marker
/// and hands out the byte vector. The contract only names what comes back,
/// which depends on the writer alone.
#[verifier::external_body]
fn close_stream(writer: StreamWriter<Vec<u8>>) -> (closed: Result<Vec<u8>, ArrowError>)
    ensures
        match closed {
            Ok(bytes) => into_inner_result(writer) == Ok::<Seq<u8>, ArrowError>(bytes@),
            Err(error) => into_inner_result(writer) == Err::<Seq<u8>, ArrowError>(error),
        },
{
    writer.into_inner()
}

/// The writer after the batches were written to it in order, or the error of
/// the first batch that could not be written; no batch after that one is
/// written.
pub open spec fn written_in_order(writer: StreamWriter<Vec<u8>>, batches: Seq<Batch>) -> Result<
    StreamWriter<Vec<u8>>,
    ArrowError,
>
    decreases batches.len(),
{
    if batches.len() == 0 {
        Ok(writer)
    } else {
        let (next, written) = write_result(writer, batches[0]);
        match written {
            Ok(()) => written_in_order(next, batches.subrange(1, batches.len() as int)),
            Err(error) => Err(error),
        }
    }
}

/// A query result as one columnar stream: the schema header, then each batch
/// in order, then the end-of-stream marker.
///
/// A result without batches is the empty stream: no byte at all, and never an
/// error. Otherwise the first step that fails decides the failure, and no
/// byte written before it is kept.
pub open spec fn encoded_stream(schema: Schema, batches: Seq<Batch>) -> Result<
    Seq<u8>,
    StreamFailure,
> {
    if batches.len() == 0 {
        Ok(Seq::empty())
    } else {
        match try_new_result(schema) {
            Err(error) => Err(StreamFailure::Create(error)),
            Ok(writer) => match written_in_order(writer, batches) {
                Err(error) => Err(StreamFailure::Write(error)),
                Ok(filled) => match into_inner_result(filled) {
                    Err(error) => Err(StreamFailure::Finish(error)),
                    Ok(bytes) => Ok(bytes),
                },
            },
        }
    }
}

/// A serialized result in specifications.
pub open spec fn stream_of(encoded: Result<Vec<u8>, StreamFailure>) -> Result<
    Seq<u8>,
    StreamFailure,
> {
    match encoded {
        Ok(bytes) => Ok(bytes@),
        Err(failure) => Err(failure),
    }
}

/// Serializes a query result as one columnar stream: the schema header, then
/// each batch in order, then the end-of-stream marker.
///
/// A result without batches is the empty stream: no byte at all, and never an
/// error. Otherwise the first step that fails ends the serialization with that
/// step's failure, and the bytes written so far are dropped.
pub fn encode_stream(schema: &Schema, batches: &Vec<Batch>) -> (encoded: Result<
    Vec<u8>,
    StreamFailure,
>)
    ensures
        stream_of(encoded) == encoded_stream(*schema, batches@),
{
    if batches.len() == 0 {
        let bytes: Vec<u8> = Vec::new();
        assert(bytes@ =~= Seq::<u8>::empty());
        return Ok(bytes);
    }
    let mut writer = match open_stream(schema) {
        Ok(writer) => writer,
        Err(error) => {
            return Err(StreamFailure::Create(error));
        },
    };
    let ghost opened = writer;
    let n = batches.len();
    let mut i: usize = 0;
    assert(batches@.subrange(0, n as int) =~= batches@);
    while i < n
        invariant
            n == batches@.len(),
            0 < n,
            i <= n,
            try_new_result(*schema) == Ok::<StreamWriter<Vec<u8>>, ArrowError>(opened),
            written_in_order(opened, batches@) == written_in_order(
                writer,
                batches@.subrange(i as int, n as int),
            ),
        decreases n - i,
    {
        let ghost rest = batches@.subrange(i as int, n as int);
        match write_batch(&mut writer, &batches[i]) {
            Ok(()) => {
                assert(rest[0] == batches@[i as int]);
                assert(rest.subrange(1, rest.len() as int) =~= batches@.subrange(i + 1, n as int));
            },
            Err(error) => {
                assert(rest[0] == batches@[i as int]);
                return Err(StreamFailure::Write(error));
            },
        }
        i = i + 1;
    }
    assert(batches@.subrange(n as int, n as int).len() == 0);
    match close_stream(writer) {
        Ok(bytes) => Ok(bytes),
        Err(error) => Err(StreamFailure::Finish(error)),
    }
}

/// A failure never yields bytes, and the steps fail in order: a stream fails
/// at `Create` exactly when the writer cannot be set up, at `Write` exactly
/// when the writer is set up and some batch cannot be written, and at
/// `Finish` only once every batch is written.
pub proof fn the_first_failure_decides(schema: Schema, batches: Seq<Batch>)
    requires
        batches.len() > 0,
    ensures
        encoded_stream(schema, batches) matches Err(StreamFailure::Create(_)) <==> try_new_result(
            schema,
        ) is Err,
        encoded_stream(schema, batches) matches Err(StreamFailure::Write(_)) <==> (try_new_result(
            schema,
        ) matches Ok(writer) && written_in_order(writer, batches) is Err),
        encoded_stream(schema, batches) matches Err(StreamFailure::Finish(_)) ==> (try_new_result(
            schema,
        ) matches Ok(writer) && written_in_order(writer, batches) is Ok),
{
}

} // verus!
