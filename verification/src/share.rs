//! The share flow: generate a short identifier, sanitize the submitted
//! markdown, stamp the expiry window, and insert the document. No
//! uniqueness retry: a generation collision surfaces as the store's
//! duplicate error, which callers treat as fatal.

use vstd::prelude::*;
use crate::ids::generate_short_uuid;
use crate::ids::is_short_id;
use crate::models::MarkdownDocument;
use crate::models::DOCUMENT_EXPIRY_SECONDS;
use crate::sanitize::clean;
use crate::sanitize::clean_of;
use crate::store::DocumentStore;
use crate::store::StoreError;

verus! {

/// Persist a new document built from `raw_content` at time `now`: its
/// content is the sanitized input, its identifier fresh and random, its
/// expiry exactly thirty days after `now`. Failure can only be a collision
/// of the drawn identifier, so it is ruled out wherever the store holds no
/// identifier of the short shape at all.
pub fn share_document(store: &mut DocumentStore, raw_content: &str, now: i64) -> (r: Result<
    MarkdownDocument,
    StoreError,
>)
    requires
        old(store).wf(),
        now + DOCUMENT_EXPIRY_SECONDS <= i64::MAX,
    ensures
        final(store).wf(),
        match r {
            Ok(d) => {
                &&& d.wf()
                &&& is_short_id(d@.id)
                &&& d@.content == clean_of(raw_content@)
                &&& d@.created_at == now as int
                &&& d@.expires_at == now + DOCUMENT_EXPIRY_SECONDS
                &&& !old(store)@.contains_key(d@.id)
                &&& final(store)@ == old(store)@.insert(d@.id, d@)
            },
            Err(e) => {
                &&& final(store)@ == old(store)@
                &&& e == StoreError::DuplicateId
                &&& exists|k: Seq<char>| old(store)@.contains_key(k) && is_short_id(k)
            },
        },
{
    let document_id = generate_short_uuid();
    let sanitized_content = clean(raw_content);
    let expires_at = now + DOCUMENT_EXPIRY_SECONDS;
    match store.save_markdown_document(
        document_id.as_str(),
        sanitized_content.as_str(),
        now,
        expires_at,
    ) {
        Ok(()) => Ok(
            MarkdownDocument {
                id: document_id,
                content: sanitized_content,
                created_at: now,
                expires_at,
            },
        ),
        Err(e) => {
            proof {
                assert(old(store)@.contains_key(document_id@) && is_short_id(document_id@));
            }
            Err(e)
        },
    }
}

} // verus!
