//! The document store: a single table from identifier to document, with
//! expiry-gated reads. Expiry is enforced at query time by a time
//! comparison, not by deletion: expired rows stay present and simply
//! become unreachable.

use vstd::prelude::*;
use crate::models::DocView;
use crate::models::MarkdownDocument;
use crate::models::DOCUMENT_EXPIRY_SECONDS;
use crate::text::str_equal;

verus! {

/// Why an insertion failed.
#[derive(Clone, Copy, Debug, PartialEq, Eq, Structural)]
pub enum StoreError {
    /// The identifier is already present: the primary key constraint
    /// rejects the row.
    DuplicateId,
}

/// No two documents share an identifier.
pub open spec fn unique_ids(s: Seq<MarkdownDocument>) -> bool {
    forall|i: int, j: int| 0 <= i < j < s.len() ==> s[i]@.id != s[j]@.id
}

/// The table as a map from identifier to document model.
spec fn docs_map(s: Seq<MarkdownDocument>) -> Map<Seq<char>, DocView>
    decreases s.len(),
{
    if s.len() == 0 {
        Map::empty()
    } else {
        docs_map(s.drop_last()).insert(s.last()@.id, s.last()@)
    }
}

proof fn lemma_docs_map_contains(s: Seq<MarkdownDocument>, id: Seq<char>)
    ensures
        docs_map(s).contains_key(id) <==> exists|i: int|
            0 <= i < s.len() && s[i]@.id == id,
    decreases s.len(),
{
    if s.len() == 0 {
    } else {
        let s0 = s.drop_last();
        lemma_docs_map_contains(s0, id);
        if docs_map(s).contains_key(id) {
            if id == s.last()@.id {
                assert(s[s.len() - 1]@.id == id);
            } else {
                let i = choose|i: int| 0 <= i < s0.len() && s0[i]@.id == id;
                assert(s[i]@.id == id);
            }
        }
        if exists|i: int| 0 <= i < s.len() && s[i]@.id == id {
            let i = choose|i: int| 0 <= i < s.len() && s[i]@.id == id;
            if i < s.len() - 1 {
                assert(s0[i]@.id == id);
            }
        }
    }
}

proof fn lemma_docs_map_index(s: Seq<MarkdownDocument>, i: int)
    requires
        unique_ids(s),
        0 <= i < s.len(),
    ensures
        docs_map(s).contains_key(s[i]@.id),
        docs_map(s)[s[i]@.id] == s[i]@,
    decreases s.len(),
{
    if i == s.len() - 1 {
    } else {
        let s0 = s.drop_last();
        assert forall|a: int, b: int| 0 <= a < b < s0.len() implies s0[a]@.id != s0[b]@.id by {
            assert(s0[a] == s[a]);
            assert(s0[b] == s[b]);
        }
        lemma_docs_map_index(s0, i);
        assert(s0[i] == s[i]);
        assert(s[i]@.id != s.last()@.id);
    }
}

proof fn lemma_docs_map_values_wf(s: Seq<MarkdownDocument>, id: Seq<char>)
    requires
        forall|i: int| 0 <= i < s.len() ==> (#[trigger] s[i]).wf(),
        docs_map(s).contains_key(id),
    ensures
        docs_map(s)[id].expires_at == docs_map(s)[id].created_at + DOCUMENT_EXPIRY_SECONDS,
    decreases s.len(),
{
    if s.len() == 0 {
    } else {
        let s0 = s.drop_last();
        if id == s.last()@.id {
            assert(s[s.len() - 1].wf());
        } else {
            assert forall|i: int| 0 <= i < s0.len() implies (#[trigger] s0[i]).wf() by {
                assert(s0[i] == s[i]);
            }
            lemma_docs_map_values_wf(s0, id);
        }
    }
}

/// The lookup rule: the document for `id`, only while `now` is strictly
/// before its expiry; otherwise nothing, indistinguishable from a truly
/// absent identifier.
pub open spec fn spec_find_active(
    m: Map<Seq<char>, DocView>,
    id: Seq<char>,
    now: int,
) -> Option<DocView> {
    if m.contains_key(id) && now < m[id].expires_at {
        Some(m[id])
    } else {
        None
    }
}

/// Durable persistence and expiry-aware retrieval of documents, modeled
/// as a map from identifier to document.
pub struct DocumentStore {
    docs: Vec<MarkdownDocument>,
}

impl View for DocumentStore {
    type V = Map<Seq<char>, DocView>;

    closed spec fn view(&self) -> Map<Seq<char>, DocView> {
        docs_map(self.docs@)
    }
}

impl DocumentStore {
    /// Identifiers are unique and every row satisfies the expiry
    /// invariant.
    pub closed spec fn wf(&self) -> bool {
        &&& unique_ids(self.docs@)
        &&& forall|i: int|
            0 <= i < self.docs@.len() ==> (#[trigger] self.docs@[i]).wf()
    }

    /// An empty table.
    pub fn new() -> (s: Self)
        ensures
            s@ == Map::<Seq<char>, DocView>::empty(),
            s.wf(),
    {
        DocumentStore { docs: Vec::new() }
    }

    /// Insert a new document. Succeeds exactly when the identifier is not
    /// already present; a duplicate leaves the table unchanged and is
    /// reported, never silently updated.
    pub fn save_markdown_document(
        &mut self,
        id: &str,
        content: &str,
        created_at: i64,
        expires_at: i64,
    ) -> (r: Result<(), StoreError>)
        requires
            old(self).wf(),
            expires_at == created_at + DOCUMENT_EXPIRY_SECONDS,
        ensures
            final(self).wf(),
            r is Ok <==> !old(self)@.contains_key(id@),
            r is Ok ==> final(self)@ == old(self)@.insert(
                id@,
                (DocView {
                    id: id@,
                    content: content@,
                    created_at: created_at as int,
                    expires_at: expires_at as int,
                }),
            ),
            r is Err ==> final(self)@ == old(self)@ && r == Err::<(), StoreError>(
                StoreError::DuplicateId,
            ),
    {
        let n = self.docs.len();
        let mut i: usize = 0;
        while i < n
            invariant
                old(self).wf(),
                n == self.docs@.len(),
                i <= n,
                self.docs@ == old(self).docs@,
                forall|k: int| 0 <= k < i ==> self.docs@[k]@.id != id@,
            decreases n - i,
        {
            if str_equal(self.docs[i].id.as_str(), id) {
                proof {
                    lemma_docs_map_contains(self.docs@, id@);
                    assert(self.docs@[i as int]@.id == id@);
                }
                return Err(StoreError::DuplicateId);
            }
            i += 1;
        }
        proof {
            lemma_docs_map_contains(self.docs@, id@);
        }
        let doc = MarkdownDocument {
            id: id.to_owned(),
            content: content.to_owned(),
            created_at,
            expires_at,
        };
        let ghost dv = doc@;
        let ghost pre = self.docs@;
        self.docs.push(doc);
        proof {
            assert(self.docs@.drop_last() =~= pre);
            assert(self.docs@.last() == self.docs@[pre.len() as int]);
            assert(self.docs@.last()@ == dv);
            assert(docs_map(self.docs@) == docs_map(pre).insert(dv.id, dv));
            assert forall|a: int, b: int|
                0 <= a < b < self.docs@.len() implies self.docs@[a]@.id
                != self.docs@[b]@.id by {
                if b < pre.len() {
                    assert(pre[a]@.id != pre[b]@.id);
                } else {
                    assert(self.docs@[a]@.id != id@);
                }
            }
        }
        Ok(())
    }

    /// Look up a document by identifier at time `now`. Returns the stored
    /// document exactly when it exists and has not expired.
    pub fn find_active(&self, id: &str, now: i64) -> (r: Option<MarkdownDocument>)
        requires
            self.wf(),
        ensures
            match r {
                Some(d) => spec_find_active(self@, id@, now as int) == Some(d@) && d.wf(),
                None => spec_find_active(self@, id@, now as int) is None,
            },
    {
        let n = self.docs.len();
        let mut i: usize = 0;
        while i < n
            invariant
                self.wf(),
                n == self.docs@.len(),
                i <= n,
                forall|k: int| 0 <= k < i ==> self.docs@[k]@.id != id@,
            decreases n - i,
        {
            if str_equal(self.docs[i].id.as_str(), id) {
                proof {
                    lemma_docs_map_index(self.docs@, i as int);
                }
                let d = &self.docs[i];
                if now < d.expires_at {
                    return Some(
                        MarkdownDocument {
                            id: d.id.clone(),
                            content: d.content.clone(),
                            created_at: d.created_at,
                            expires_at: d.expires_at,
                        },
                    );
                } else {
                    return None;
                }
            }
            i += 1;
        }
        proof {
            lemma_docs_map_contains(self.docs@, id@);
        }
        None
    }
}

/// Every document a well-formed store holds expires exactly thirty days
/// after its creation.
pub proof fn lemma_store_expiry_invariant(s: &DocumentStore, id: Seq<char>)
    requires
        s.wf(),
        s@.contains_key(id),
    ensures
        s@[id].expires_at == s@[id].created_at + DOCUMENT_EXPIRY_SECONDS,
{
    lemma_docs_map_values_wf(s.docs@, id);
}

/// A saved document is found by `find_active` at every time strictly
/// before its expiry, and not found from its expiry on.
pub proof fn lemma_find_active_after_save(
    m1: Map<Seq<char>, DocView>,
    m2: Map<Seq<char>, DocView>,
    id: Seq<char>,
    d: DocView,
    t: int,
)
    requires
        m2 == m1.insert(id, d),
    ensures
        t < d.expires_at ==> spec_find_active(m2, id, t) == Some(d),
        t >= d.expires_at ==> spec_find_active(m2, id, t) is None,
{
}

/// An identifier the store does not hold is never found, at any time.
pub proof fn lemma_find_active_unknown(m: Map<Seq<char>, DocView>, id: Seq<char>, t: int)
    requires
        !m.contains_key(id),
    ensures
        spec_find_active(m, id, t) is None,
{
}

/// Round trip: fetching a saved document while it is active returns its
/// content unchanged; nothing mutates content in storage or retrieval.
pub proof fn lemma_save_fetch_round_trip(
    m1: Map<Seq<char>, DocView>,
    m2: Map<Seq<char>, DocView>,
    id: Seq<char>,
    d: DocView,
    t: int,
)
    requires
        m2 == m1.insert(id, d),
        t < d.expires_at,
    ensures
        spec_find_active(m2, id, t) matches Some(f) && f.content == d.content,
{
}

} // verus!
