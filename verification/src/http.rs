//! Mapping of sink outcomes to the upload routes' replies. A reply is a
//! status code and a body: completion answers 201 Created with the byte count
//! in decimal, truncation answers 400 Bad Request with the cap in decimal,
//! and a read failure answers 500 Internal Server Error with the error
//! detail.

use vstd::prelude::*;

use crate::decimal::spec_decimal;
use crate::decimal::usize_to_decimal;
use crate::sink::spec_consume;
use crate::sink::total_len;
use crate::sink::BoundedSink;
use crate::sink::ConsumeOutcome;

verus! {

/// The status code owed for an outcome.
pub open spec fn spec_status(outcome: ConsumeOutcome) -> u16 {
    match outcome {
        ConsumeOutcome::Complete(_) => 201,
        ConsumeOutcome::Truncated(_) => 400,
        ConsumeOutcome::Failed(_) => 500,
    }
}

/// The body owed for an outcome: the byte count in decimal, or the failure
/// detail.
pub open spec fn spec_body(outcome: ConsumeOutcome) -> Seq<char> {
    match outcome {
        ConsumeOutcome::Complete(n) => spec_decimal(n as nat),
        ConsumeOutcome::Truncated(n) => spec_decimal(n as nat),
        ConsumeOutcome::Failed(detail) => detail@,
    }
}

/// Turn one sink outcome into the reply the upload routes send.
pub fn upload_reply(outcome: ConsumeOutcome) -> (reply: (u16, String))
    ensures
        reply.0 == spec_status(outcome),
        reply.1@ == spec_body(outcome),
{
    match outcome {
        ConsumeOutcome::Complete(n) => (201, usize_to_decimal(n)),
        ConsumeOutcome::Truncated(n) => (400, usize_to_decimal(n)),
        ConsumeOutcome::Failed(detail) => (500, detail),
    }
}

/// Handle one upload: drain the inbound stream through a `BoundedSink` with
/// the given cap, and answer with the status and body its outcome owes.
pub fn upload(chunks: &Vec<Vec<u8>>, terminal_error: Option<String>, cap: usize) -> (reply: (
    u16,
    String,
))
    ensures
        reply.0 == spec_status(spec_consume(chunks@, terminal_error, cap)),
        reply.1@ == spec_body(spec_consume(chunks@, terminal_error, cap)),
{
    upload_reply(BoundedSink::consume(chunks, terminal_error, cap))
}

/// Handle one replace-style upload; handled exactly as `upload` is.
pub fn put(chunks: &Vec<Vec<u8>>, terminal_error: Option<String>, cap: usize) -> (reply: (
    u16,
    String,
))
    ensures
        reply.0 == spec_status(spec_consume(chunks@, terminal_error, cap)),
        reply.1@ == spec_body(spec_consume(chunks@, terminal_error, cap)),
{
    upload(chunks, terminal_error, cap)
}

/// An upload no longer than the cap that ends cleanly is consumed completely:
/// the outcome carries its exact length, and the reply is 201 with that
/// length in decimal.
pub proof fn lemma_upload_within_cap(chunks: Seq<Vec<u8>>, cap: usize)
    requires
        total_len(chunks) <= cap,
    ensures
        spec_consume(chunks, Option::None, cap) == ConsumeOutcome::Complete(
            total_len(chunks) as usize,
        ),
        spec_status(spec_consume(chunks, Option::None, cap)) == 201,
        spec_body(spec_consume(chunks, Option::None, cap)) == spec_decimal(total_len(chunks)),
{
}

/// An upload longer than the cap is truncated at the cap, whatever terminal
/// event would have followed: the outcome and the reply body carry the cap,
/// not the upload's length, and the reply is 400 with the cap in decimal.
pub proof fn lemma_upload_beyond_cap(chunks: Seq<Vec<u8>>, terminal_error: Option<String>, cap: usize)
    requires
        total_len(chunks) > cap,
    ensures
        spec_consume(chunks, terminal_error, cap) == ConsumeOutcome::Truncated(cap),
        spec_status(spec_consume(chunks, terminal_error, cap)) == 400,
        spec_body(spec_consume(chunks, terminal_error, cap)) == spec_decimal(cap as nat),
{
}

/// A read failure before the cap is reached is reported as a failure, never
/// as completion or truncation: the reply is 500 and its body preserves the
/// error detail, whatever byte count was seen before the failure.
pub proof fn lemma_upload_failure(chunks: Seq<Vec<u8>>, detail: String, cap: usize)
    requires
        total_len(chunks) <= cap,
    ensures
        spec_consume(chunks, Option::Some(detail), cap) == ConsumeOutcome::Failed(detail),
        spec_status(spec_consume(chunks, Option::Some(detail), cap)) == 500,
        spec_body(spec_consume(chunks, Option::Some(detail), cap)) == detail@,
{
}

/// The two upload routes are interchangeable: any replies that `upload`'s and
/// `put`'s contracts allow for identical inbound bodies, terminal events and
/// caps have the same status and the same body.
pub proof fn lemma_put_post_identical(
    post_reply: (u16, String),
    put_reply: (u16, String),
    chunks: Seq<Vec<u8>>,
    terminal_error: Option<String>,
    cap: usize,
)
    requires
        post_reply.0 == spec_status(spec_consume(chunks, terminal_error, cap)),
        post_reply.1@ == spec_body(spec_consume(chunks, terminal_error, cap)),
        put_reply.0 == spec_status(spec_consume(chunks, terminal_error, cap)),
        put_reply.1@ == spec_body(spec_consume(chunks, terminal_error, cap)),
    ensures
        post_reply.0 == put_reply.0,
        post_reply.1@ == put_reply.1@,
{
}

} // verus!
