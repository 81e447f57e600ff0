use vstd::prelude::*;
use crate::text::{decimal, to_decimal};

verus! {

/// The persona preamble placed before the user's words.
pub const PERSONA_PREAMBLE: &'static str = "You are Dwight, an advanced AI assistant specialized in audio analysis, surveillance, and security systems. You are brilliant, analytical, loyal, and technically proficient. You help users with:\n- Audio transcription and analysis\n- Sound pattern recognition\n- Security monitoring and alerts\n- Forensic audio investigation\n- Real-time audio processing\n\nUser input: ";

/// The instruction placed after the user's words.
pub const PERSONA_SUFFIX: &'static str = "\n\nRespond as Dwight with technical expertise and helpful guidance:";

/// The persona prompt around `input`.
pub open spec fn persona_prompt_of(input: Seq<char>) -> Seq<char> {
    PERSONA_PREAMBLE@ + input + PERSONA_SUFFIX@
}

/// Wraps the user's words in the persona preamble and instruction.
pub fn persona_prompt(input: &str) -> (r: String)
    ensures
        r@ == persona_prompt_of(input@),
{
    let mut s = String::from_str(PERSONA_PREAMBLE);
    s.append(input);
    s.append(PERSONA_SUFFIX);
    s
}

/// How the document at 0-based index `i` is introduced: "Document N: text".
pub open spec fn document_entry(i: nat, doc: Seq<char>) -> Seq<char> {
    "Document "@ + decimal(i + 1) + ": "@ + doc
}

/// The lines for the first `n` documents, each entry followed by a line break.
pub open spec fn document_lines(docs: Seq<String>, n: nat) -> Seq<char>
    decreases n,
{
    if n == 0 {
        Seq::empty()
    } else {
        document_lines(docs, (n - 1) as nat) + document_entry((n - 1) as nat, docs[n - 1]@) + "\n"@
    }
}

/// The retrieval-augmented prompt: the documents in order, numbered from 1, then
/// the query and the instruction to answer from them.
pub open spec fn rag_prompt_of(query: Seq<char>, docs: Seq<String>) -> Seq<char> {
    "Context documents:\n"@ + document_lines(docs, docs.len()) + "\nQuery: "@ + query
        + "\n\nPlease answer the query based on the provided context."@
}

/// Renders the retrieval-augmented prompt for `query` over `docs`.
pub fn rag_prompt(query: &str, docs: &Vec<String>) -> (r: String)
    ensures
        r@ == rag_prompt_of(query@, docs@),
{
    let mut s = String::from_str("Context documents:\n");
    let ghost head = s@;
    let mut i: usize = 0;
    while i < docs.len()
        invariant
            i <= docs@.len(),
            head == "Context documents:\n"@,
            s@ == head + document_lines(docs@, i as nat),
        decreases docs@.len() - i,
    {
        s.append("Document ");
        let number = to_decimal(i + 1);
        s.append(number.as_str());
        s.append(": ");
        s.append(docs[i].as_str());
        s.append("\n");
        proof {
            assert(s@ =~= head + document_lines(docs@, (i + 1) as nat));
        }
        i += 1;
    }
    s.append("\nQuery: ");
    s.append(query);
    s.append("\n\nPlease answer the query based on the provided context.");
    s
}

/// A query and the documents that a retrieval-augmented answer draws on, in order.
pub struct RAGContext {
    pub query: String,
    pub documents: Vec<String>,
}

impl RAGContext {
    /// The retrieval-augmented prompt for this context.
    pub fn prompt(&self) -> (r: String)
        ensures
            r@ == rag_prompt_of(self.query@, self.documents@),
    {
        rag_prompt(self.query.as_str(), &self.documents)
    }
}

/// The lines for `m` documents start with those for the first `n`, then the entry of
/// document `n`.
proof fn lemma_lines_prefix(docs: Seq<String>, n: nat, m: nat)
    requires
        n < m,
    ensures
        document_lines(docs, m).len() >= document_lines(docs, n + 1).len(),
        document_lines(docs, n + 1).subrange(0, document_lines(docs, n).len() as int) == document_lines(docs, n),
        document_lines(docs, m).subrange(0, document_lines(docs, n + 1).len() as int) == document_lines(docs, n + 1),
    decreases m - n,
{
    let a = document_lines(docs, n);
    let b = document_lines(docs, n + 1);
    assert(b.subrange(0, a.len() as int) =~= a);
    if m > n + 1 {
        lemma_lines_prefix(docs, n, (m - 1) as nat);
        let c = document_lines(docs, (m - 1) as nat);
        let d = document_lines(docs, m);
        assert(d.subrange(0, c.len() as int) =~= c);
        assert(d.subrange(0, b.len() as int) =~= c.subrange(0, b.len() as int));
    }
}

/// The entry of document `i` stands in the rendered prompt at the offset where the
/// lines before it end.
proof fn lemma_entry_at(query: Seq<char>, docs: Seq<String>, i: nat)
    requires
        i < docs.len(),
    ensures
        ({
            let p: int = ("Context documents:\n"@.len() + document_lines(docs, i).len()) as int;
            let e = document_entry(i, docs[i as int]@);
            &&& p + e.len() + 1 <= "Context documents:\n"@.len() + document_lines(docs, i + 1).len()
            &&& "Context documents:\n"@.len() + document_lines(docs, i + 1).len()
                <= "Context documents:\n"@.len() + document_lines(docs, docs.len()).len()
            &&& "Context documents:\n"@.len() + document_lines(docs, docs.len()).len() <= rag_prompt_of(query, docs).len()
            &&& rag_prompt_of(query, docs).subrange(p, p + e.len()) == e
        }),
{
    reveal_strlit("\n");
    let h = "Context documents:\n"@;
    let all = rag_prompt_of(query, docs);
    let a = document_lines(docs, i);
    let b = document_lines(docs, i + 1);
    let e = document_entry(i, docs[i as int]@);
    let l = document_lines(docs, docs.len());
    if i + 1 < docs.len() {
        lemma_lines_prefix(docs, i, docs.len());
    } else {
        assert(l.subrange(0, b.len() as int) =~= b);
    }
    assert(b =~= a + e + "\n"@);
    let hl: int = (h.len() + l.len()) as int;
    let p: int = (h.len() + a.len()) as int;
    let pre = all.subrange(0, hl);
    assert(pre =~= h + l);
    assert(all.subrange(p, p + e.len()) =~= pre.subrange(p, p + e.len()));
    assert(pre.subrange(p, p + e.len()) =~= l.subrange(a.len() as int, (a.len() + e.len()) as int));
    assert forall|k: int| 0 <= k < b.len() implies l[k] == #[trigger] b[k] by {
        assert(l.subrange(0, b.len() as int)[k] == l[k]);
    }
    assert(l.subrange(a.len() as int, (a.len() + e.len()) as int) =~= b.subrange(a.len() as int, (a.len() + e.len()) as int));
    assert(b.subrange(a.len() as int, (a.len() + e.len()) as int) =~= e);
}

/// Documents keep their order in the rendered prompt and are numbered from 1:
/// for documents `i < j`, "Document i+1: ..." for the first stands wholly before
/// "Document j+1: ..." for the second.
pub proof fn lemma_documents_in_order(query: Seq<char>, docs: Seq<String>, i: nat, j: nat)
    requires
        i < j < docs.len(),
    ensures
        exists|p: int, q: int|
            0 <= p && p + document_entry(i, docs[i as int]@).len() <= q
            && q + document_entry(j, docs[j as int]@).len() <= rag_prompt_of(query, docs).len()
            && #[trigger] rag_prompt_of(query, docs).subrange(p, p + document_entry(i, docs[i as int]@).len())
                == document_entry(i, docs[i as int]@)
            && #[trigger] rag_prompt_of(query, docs).subrange(q, q + document_entry(j, docs[j as int]@).len())
                == document_entry(j, docs[j as int]@),
{
    let h = "Context documents:\n"@;
    lemma_entry_at(query, docs, i);
    lemma_entry_at(query, docs, j);
    if i + 1 < j {
        lemma_lines_prefix(docs, i, j);
    }
    let p: int = (h.len() + document_lines(docs, i).len()) as int;
    let q: int = (h.len() + document_lines(docs, j).len()) as int;
    let all = rag_prompt_of(query, docs);
    let ei = document_entry(i, docs[i as int]@);
    let ej = document_entry(j, docs[j as int]@);
    assert(all.subrange(p, p + ei.len()) == ei);
    assert(all.subrange(q, q + ej.len()) == ej);
}

} // verus!
