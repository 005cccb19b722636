//! The decoded Completions-style answer, and the text extracted from it.
use vstd::prelude::*;
use vstd::string::*;

verus! {

/// The message a candidate carries.
#[derive(Clone, Debug)]
pub struct ChatMessage {
    pub role: Option<String>,
    pub content: Option<String>,
}

/// One candidate output.
#[derive(Clone, Debug)]
pub struct Choice {
    pub message: Option<ChatMessage>,
}

/// A decoded Completions-style answer.
#[derive(Clone, Debug)]
pub struct ChatResponse {
    pub choices: Option<Vec<Choice>>,
}

/// The text returned where the answer has no candidate.
pub open spec fn no_content() -> Seq<char> {
    "No response content available."@
}

/// The text a candidate contributes: its message's content, or nothing
/// where the message or its content is absent.
pub open spec fn piece(c: Choice) -> Seq<char> {
    match c.message {
        Some(m) => match m.content {
            Some(t) => t@,
            None => Seq::empty(),
        },
        None => Seq::empty(),
    }
}

/// The contents of the candidates, joined in order.
pub open spec fn fold_contents(cs: Seq<Choice>) -> Seq<char>
    decreases cs.len(),
{
    if cs.len() == 0 {
        Seq::empty()
    } else {
        fold_contents(cs.drop_last()) + piece(cs.last())
    }
}

/// The text extracted from an answer.
pub open spec fn extracted(r: ChatResponse) -> Seq<char> {
    match r.choices {
        Some(v) => if v@.len() > 0 {
            fold_contents(v@)
        } else {
            no_content()
        },
        None => no_content(),
    }
}

/// The answer's text: the contents of its candidates joined in order,
/// skipping those without a message or without content; where there is no
/// candidate at all, the fixed text "No response content available.".
pub fn extract_text(response: &ChatResponse) -> (r: String)
    ensures
        r@ == extracted(*response),
{
    match &response.choices {
        Some(v) => {
            if v.len() == 0 {
                return String::from_str("No response content available.");
            }
            let mut out = String::new();
            let mut i: usize = 0;
            while i < v.len()
                invariant
                    i <= v@.len(),
                    out@ == fold_contents(v@.take(i as int)),
                decreases v@.len() - i,
            {
                match &v[i].message {
                    Some(m) => match &m.content {
                        Some(t) => out.append(t.as_str()),
                        None => {},
                    },
                    None => {},
                }
                assert(v@.take(i + 1).drop_last() =~= v@.take(i as int));
                assert(out@ =~= fold_contents(v@.take(i + 1)));
                i = i + 1;
            }
            assert(v@.take(v@.len() as int) =~= v@);
            out
        },
        None => String::from_str("No response content available."),
    }
}

/// Extraction over two runs of candidates is the extraction of the first
/// followed by that of the second: order is kept.
pub proof fn lemma_fold_append(a: Seq<Choice>, b: Seq<Choice>)
    ensures
        fold_contents(a + b) == fold_contents(a) + fold_contents(b),
    decreases b.len(),
{
    if b.len() == 0 {
        assert(a + b =~= a);
        assert(fold_contents(a) + fold_contents(b) =~= fold_contents(a));
    } else {
        lemma_fold_append(a, b.drop_last());
        assert((a + b).drop_last() =~= a + b.drop_last());
        assert((a + b).last() == b.last());
        assert(fold_contents(a + b) =~= fold_contents(a) + fold_contents(b));
    }
}

/// A candidate without a message or without content is skipped: removing it
/// leaves the extracted text unchanged, and it causes no failure.
pub proof fn lemma_contentless_skipped(a: Seq<Choice>, c: Choice, b: Seq<Choice>)
    requires
        piece(c).len() == 0,
    ensures
        fold_contents(a + seq![c] + b) == fold_contents(a + b),
{
    lemma_fold_append(a + seq![c], b);
    lemma_fold_append(a, seq![c]);
    lemma_fold_append(a, b);
    assert(seq![c].drop_last() =~= Seq::<Choice>::empty());
    assert(seq![c].last() == c);
    assert(fold_contents(Seq::<Choice>::empty()) == Seq::<char>::empty());
    assert(fold_contents(seq![c]) =~= piece(c));
    assert(fold_contents(a + seq![c] + b) =~= fold_contents(a + b));
}

/// With an empty or absent candidate list the extracted text is exactly
/// "No response content available.".
pub proof fn lemma_no_candidates(r: ChatResponse)
    requires
        r.choices is None || r.choices->Some_0@.len() == 0,
    ensures
        extracted(r) == "No response content available."@,
{
}

} // verus!
