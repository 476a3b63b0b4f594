//! One message on an upload connection, from arrival to reply.

use vstd::prelude::*;
use crate::messages::reply_for;
use crate::messages::reply_view_for;
use crate::messages::UploadReply;
use crate::reassembly::base64_decoded;
use crate::reassembly::metadata_ok;
use crate::reassembly::spec_accept;
use crate::reassembly::FragmentOutcome;
use crate::reassembly::SessionTable;
use crate::types::Chunk;
use crate::types::UploadFilePayload;

verus! {

/// What an upload connection does after one message.
#[derive(Clone, Debug, PartialEq, Eq)]
pub struct UploadStep {
    /// The reply to send, if any.
    pub reply: Option<UploadReply>,
    /// The assembled file to hand to the upload backend, if the message
    /// completed an upload.
    pub upload: Option<UploadFilePayload>,
}

/// The file that an outcome hands out.
pub open spec fn payload_of(out: FragmentOutcome) -> Option<UploadFilePayload> {
    match out {
        FragmentOutcome::Completed { chunk_index, payload } => Some(payload),
        _ => None,
    }
}

/// Splits an outcome into the reply it calls for and the file it hands out.
pub fn step_for(chunk: &Chunk, outcome: FragmentOutcome) -> (step: UploadStep)
    ensures
        step.reply matches Some(reply) && reply@ == reply_view_for(chunk.metadata@, outcome),
        step.upload == payload_of(outcome),
{
    let reply = reply_for(&chunk.metadata, &outcome);
    let upload = match outcome {
        FragmentOutcome::Completed { chunk_index: _, payload } => Some(payload),
        _ => None,
    };
    UploadStep { reply: Some(reply), upload }
}

/// Handles one message of an upload connection; `None` stands for a message
/// that could not be read as a fragment, which is passed over without a
/// reply. A fragment goes through the reassembly engine: it is acknowledged
/// or rejected in the reply, and where it completed its upload the file is
/// handed out for the backend. A rejected fragment leaves the table as it
/// was, and the connection goes on either way.
pub fn handle_upload_message(table: &mut SessionTable, message: Option<Chunk>) -> (step: UploadStep)
    requires
        old(table).wf(),
    ensures
        final(table).wf(),
        message is None ==> step.reply is None && step.upload is None && final(table)@ == old(
            table,
        )@,
        message matches Some(chunk) ==> exists|allocated: bool, out: FragmentOutcome|
            {
                &&& (final(table)@, out@) == #[trigger] spec_accept(
                    old(table)@,
                    chunk.metadata@,
                    base64_decoded(chunk.data@),
                    allocated,
                )
                &&& step.reply matches Some(reply) && reply@ == #[trigger] reply_view_for(
                    chunk.metadata@,
                    out,
                )
                &&& step.upload == payload_of(out)
            },
        message matches Some(chunk) ==> (!metadata_ok(chunk.metadata@) || base64_decoded(
            chunk.data@,
        ) is None) ==> final(table)@ == old(table)@ && step.upload is None && step.reply matches Some(
            UploadReply::UploadError { .. },
        ),
{
    match message {
        None => UploadStep { reply: None, upload: None },
        Some(chunk) => {
            let outcome = table.accept_fragment(&chunk);
            step_for(&chunk, outcome)
        },
    }
}

} // verus!
