use vstd::prelude::*;
use crate::upload::{HttpReply, UploadResult, reply_outcome};

verus! {

/// The title of the notification shown after a successful upload.
pub const NOTIFY_SUMMARY: &'static str = "CordX Upload";

/// The notification text that precedes the link.
pub const NOTIFY_BODY_PREFIX: &'static str = "Picture Uploaded! URL Copied to Clipboard: ";

/// What to do once an upload attempt is over.
#[derive(Debug, Clone, PartialEq, Eq)]
pub enum Completion {
    /// Put `clipboard` on the clipboard; if that worked, show a notification
    /// with `summary` and `body`, then log the link.
    Deliver { clipboard: String, summary: String, body: String },
    /// Log the failure; touch neither clipboard nor notifications.
    Report(UploadResult),
}

/// The notification text for a link.
pub open spec fn notify_body_spec(url: Seq<char>) -> Seq<char> {
    NOTIFY_BODY_PREFIX@ + url
}

/// What `complete` promises for an outcome.
pub open spec fn completion_for(result: UploadResult, c: Completion) -> bool {
    match result {
        UploadResult::Success { url } => match c {
            Completion::Deliver { clipboard, summary, body } => {
                &&& clipboard@ == url@
                &&& summary@ == NOTIFY_SUMMARY@
                &&& body@ == notify_body_spec(url@)
            },
            Completion::Report(_) => false,
        },
        _ => c == Completion::Report(result),
    }
}

/// A success delivers its link to the clipboard and a notification; every
/// other outcome is only reported.
pub fn complete(result: UploadResult) -> (c: Completion)
    ensures
        completion_for(result, c),
{
    match result {
        UploadResult::Success { url } => {
            let body = NOTIFY_BODY_PREFIX.to_string().concat(url.as_str());
            Completion::Deliver { clipboard: url, summary: NOTIFY_SUMMARY.to_string(), body }
        },
        _ => Completion::Report(result),
    }
}

/// The link in a 200 response is exactly what goes to the clipboard, and it
/// stands in the notification text.
pub proof fn lemma_link_reaches_user(link: String, result: UploadResult, c: Completion)
    requires
        reply_outcome(HttpReply::Status { code: 200, url: Some(link) }, result),
        completion_for(result, c),
    ensures
        c matches Completion::Deliver { clipboard, body, .. } && clipboard@ == link@
            && body@.subrange(NOTIFY_BODY_PREFIX@.len() as int, body@.len() as int) == link@,
{
    if let Completion::Deliver { clipboard, body, .. } = c {
        assert(body@.subrange(NOTIFY_BODY_PREFIX@.len() as int, body@.len() as int) =~= link@);
    }
}

} // verus!
