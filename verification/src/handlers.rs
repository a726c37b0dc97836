//! The two request handlers, as functions from plain values to plain values.
//!
//! A handler decides what is answered and what becomes of the store. Turning
//! a reply into markup and sending it is left to the caller.

use vstd::prelude::*;

use crate::store::{all_valid, appended, NameStore};
use crate::validation::{is_valid, valid_name};

verus! {

/// The path of the endpoint that takes submissions.
pub const ADD_URL: &'static str = "/add";

/// The text sent back for a name that is too short.
pub const REJECTION_MESSAGE: &'static str = "Name must be at least 4 character long";

/// Status code of a successful reply.
pub const STATUS_OK: u16 = 200;

/// Status code of a reply to input that cannot be processed.
pub const STATUS_UNPROCESSABLE_ENTITY: u16 = 422;

/// What a handler answers.
pub enum Reply {
    /// The home page, which refers to the endpoint at `add_url`.
    Home { add_url: &'static str },
    /// The list of all stored names, oldest first.
    Names { names: Vec<String> },
    /// The submission was refused, and `message` says why.
    Rejected { message: &'static str },
}

/// A reply with its texts as sequences of characters.
pub enum ReplyView {
    Home { add_url: Seq<char> },
    Names { names: Seq<Seq<char>> },
    Rejected { message: Seq<char> },
}

impl View for Reply {
    type V = ReplyView;

    open spec fn view(&self) -> ReplyView {
        match *self {
            Reply::Home { add_url } => ReplyView::Home { add_url: add_url@ },
            Reply::Names { names } => ReplyView::Names { names: names.deep_view() },
            Reply::Rejected { message } => ReplyView::Rejected { message: message@ },
        }
    }
}

impl ReplyView {
    /// The status code that goes with the reply: only a refusal is not a success.
    pub open spec fn status(self) -> u16 {
        if self is Rejected {
            STATUS_UNPROCESSABLE_ENTITY
        } else {
            STATUS_OK
        }
    }

    /// Whether the body is markup. A refusal is plain text.
    pub open spec fn is_html(self) -> bool {
        !(self is Rejected)
    }
}

impl Reply {
    /// The status code to send with this reply.
    pub fn status(&self) -> (code: u16)
        ensures
            code == self@.status(),
    {
        match self {
            Reply::Rejected { .. } => STATUS_UNPROCESSABLE_ENTITY,
            _ => STATUS_OK,
        }
    }

    /// Whether the body of this reply is markup, as opposed to plain text.
    pub fn is_html(&self) -> (html: bool)
        ensures
            html == self@.is_html(),
    {
        match self {
            Reply::Rejected { .. } => false,
            _ => true,
        }
    }
}

/// The store's entries after `name` was submitted to a store that held `names`.
pub open spec fn after_submit(names: Seq<Seq<char>>, name: Seq<char>) -> Seq<Seq<char>> {
    if valid_name(name) {
        appended(names, name)
    } else {
        names
    }
}

/// The reply to the submission of `name` to a store that held `names`.
pub open spec fn submit_reply(names: Seq<Seq<char>>, name: Seq<char>) -> ReplyView {
    if valid_name(name) {
        ReplyView::Names { names: appended(names, name) }
    } else {
        ReplyView::Rejected { message: REJECTION_MESSAGE@ }
    }
}

/// A submission that is refused changes nothing: the store holds the same
/// entries, as many as before, and the reply is the refusal with its fixed
/// message and status.
pub proof fn lemma_rejected_submission_changes_nothing(names: Seq<Seq<char>>, name: Seq<char>)
    requires
        name.len() < 4,
    ensures
        after_submit(names, name) == names,
        after_submit(names, name).len() == names.len(),
        submit_reply(names, name) == (ReplyView::Rejected { message: REJECTION_MESSAGE@ }),
        submit_reply(names, name).status() == 422,
{
}

/// A submission that is accepted keeps the earlier entries in their places
/// and puts the name last, and the reply lists exactly the new entries.
pub proof fn lemma_accepted_submission_appends(names: Seq<Seq<char>>, name: Seq<char>)
    requires
        name.len() >= 4,
    ensures
        after_submit(names, name) == names + seq![name],
        submit_reply(names, name) == (ReplyView::Names { names: names + seq![name] }),
        submit_reply(names, name).status() == 200,
{
    assert(appended(names, name) =~= names + seq![name]);
}

/// Submitting an acceptable name twice stores it twice.
pub proof fn lemma_resubmission_is_kept(names: Seq<Seq<char>>, name: Seq<char>)
    requires
        name.len() >= 4,
    ensures
        after_submit(after_submit(names, name), name) == names + seq![name, name],
        submit_reply(after_submit(names, name), name) == (ReplyView::Names {
            names: names + seq![name, name],
        }),
{
    assert(appended(appended(names, name), name) =~= names + seq![name, name]);
}

/// Answers a request for the home page. The store plays no part in it.
pub fn home() -> (reply: Reply)
    ensures
        reply@ == (ReplyView::Home { add_url: ADD_URL@ }),
{
    Reply::Home { add_url: ADD_URL }
}

/// Handles the submission of `name` with exclusive access to the store.
///
/// An acceptable name becomes the last entry, and the reply lists all entries
/// as they then stand. Any other name is refused, and the store is left as it was.
pub fn submit(store: &mut NameStore, name: String) -> (reply: Reply)
    ensures
        final(store)@ == after_submit(old(store)@, name@),
        reply@ == submit_reply(old(store)@, name@),
        !valid_name(name@) ==> final(store)@ == old(store)@,
        all_valid(final(store)@),
{
    if is_valid(name.as_str()) {
        let names = store.append(name);
        Reply::Names { names }
    } else {
        proof {
            use_type_invariant(&*store);
        }
        Reply::Rejected { message: REJECTION_MESSAGE }
    }
}

} // verus!
