//! The data model: request payloads and the persisted document, with its
//! fixed expiry policy.

use vstd::prelude::*;

verus! {

/// Seconds in the fixed expiry window: a document stays readable for
/// thirty days from its creation.
pub const DOCUMENT_EXPIRY_SECONDS: i64 = 30 * 86400;

/// The markdown payload of a preview, edit or share request.
pub struct MarkdownInput {
    pub content: String,
}

/// Query parameters of the editor page: optional initial content. An
/// absent payload is treated as empty content, not rejected.
pub struct RenderParams {
    pub content: Option<String>,
}

/// The mathematical model of a stored document.
#[verifier::ext_equal]
pub ghost struct DocView {
    pub id: Seq<char>,
    pub content: Seq<char>,
    pub created_at: int,
    pub expires_at: int,
}

/// A persisted markdown submission: immutable once created, readable
/// while the current time is before `expires_at`.
pub struct MarkdownDocument {
    pub id: String,
    pub content: String,
    pub created_at: i64,
    pub expires_at: i64,
}

impl View for MarkdownDocument {
    type V = DocView;

    open spec fn view(&self) -> DocView {
        DocView {
            id: self.id@,
            content: self.content@,
            created_at: self.created_at as int,
            expires_at: self.expires_at as int,
        }
    }
}

impl MarkdownDocument {
    /// The expiry invariant: `expires_at` is exactly thirty days after
    /// `created_at`, computed once at creation and never updated.
    pub open spec fn wf(self) -> bool {
        self.expires_at == self.created_at + DOCUMENT_EXPIRY_SECONDS
    }

    /// Build a document expiring exactly thirty days after its creation.
    pub fn new(id: String, content: String, created_at: i64) -> (d: Self)
        requires
            created_at + DOCUMENT_EXPIRY_SECONDS <= i64::MAX,
        ensures
            d.wf(),
            d@.id == id@,
            d@.content == content@,
            d@.created_at == created_at as int,
            d@.expires_at == created_at + DOCUMENT_EXPIRY_SECONDS,
    {
        let expires_at = created_at + DOCUMENT_EXPIRY_SECONDS;
        MarkdownDocument { id, content, created_at, expires_at }
    }
}

} // verus!
