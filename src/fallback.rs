use vstd::prelude::*;
use crate::error::{AiError, AllModelsFailedError, Attempt};
use crate::inference::LlamaResponse;

verus! {

/// The models tried when the caller names none, lightest and most specific first,
/// the bare family name last.
pub open spec fn default_candidates_spec() -> Seq<Seq<char>> {
    seq![
        "llama3.2:1b"@, "llama3.2"@, "llama3:8b"@, "llama3"@,
        "llama3-8b"@, "llama2:7b"@, "llama2"@, "llama"@,
    ]
}

/// The default preference order of candidate models.
pub fn default_candidates() -> (r: Vec<String>)
    ensures
        r@.map_values(|s: String| s@) == default_candidates_spec(),
{
    let r = vec![
        String::from_str("llama3.2:1b"), String::from_str("llama3.2"),
        String::from_str("llama3:8b"), String::from_str("llama3"),
        String::from_str("llama3-8b"), String::from_str("llama2:7b"),
        String::from_str("llama2"), String::from_str("llama"),
    ];
    assert(r@.map_values(|s: String| s@) =~= default_candidates_spec());
    r
}

/// The candidates for a chat: the model the caller named, alone, or the default order.
pub fn candidates_for(model: Option<String>) -> (r: Vec<String>)
    ensures
        model matches Some(m) ==> r@ == seq![m],
        model is None ==> r@.map_values(|s: String| s@) == default_candidates_spec(),
{
    match model {
        Some(m) => {
            let r = vec![m];
            assert(r@ =~= seq![m]);
            r
        },
        None => default_candidates(),
    }
}

/// What the driver of a fallback does next.
#[derive(Debug)]
pub enum Action {
    /// Ask this model; feed back what came of it.
    Query(String),
    /// A model answered: the fallback is over; take the answer with `into_result`.
    Done,
    /// Every candidate failed: take the error with `into_result`.
    Exhausted,
}

/// The action that a fallback in state `v` calls for.
pub open spec fn action_of(v: FallbackView) -> Action {
    if v.answer is Some {
        Action::Done
    } else {
        match next_query(v) {
            Some(m) => Action::Query(m),
            None => Action::Exhausted,
        }
    }
}

/// The state of a fallback over candidates, as a value.
pub ghost struct FallbackView {
    pub candidates: Seq<String>,
    pub attempts: Seq<Attempt>,
    pub answer: Option<LlamaResponse>,
}

/// The state before anything was tried.
pub open spec fn initial(candidates: Seq<String>) -> FallbackView {
    FallbackView { candidates, attempts: Seq::empty(), answer: None }
}

/// The fallback has an answer or has no candidate left.
pub open spec fn finished(v: FallbackView) -> bool {
    v.answer is Some || v.attempts.len() >= v.candidates.len()
}

/// The state after the outcome `o` of asking the current candidate. A finished
/// fallback takes no more outcomes.
pub open spec fn fed(v: FallbackView, o: Result<LlamaResponse, AiError>) -> FallbackView {
    if finished(v) {
        v
    } else {
        match o {
            Ok(resp) => FallbackView { answer: Some(resp), ..v },
            Err(e) => FallbackView {
                attempts: v.attempts.push(Attempt { model: v.candidates[v.attempts.len() as int], cause: e }),
                ..v
            },
        }
    }
}

/// The state after the outcomes `os`, in order.
pub open spec fn driven(v: FallbackView, os: Seq<Result<LlamaResponse, AiError>>) -> FallbackView
    decreases os.len(),
{
    if os.len() == 0 {
        v
    } else {
        fed(driven(v, os.drop_last()), os.last())
    }
}

/// The candidate to ask next, if the fallback is not finished.
pub open spec fn next_query(v: FallbackView) -> Option<String> {
    if finished(v) { None } else { Some(v.candidates[v.attempts.len() as int]) }
}

/// Sequential fallback over an ordered list of candidate models: the first that
/// answers wins, and every failure before it is recorded.
pub struct Fallback {
    candidates: Vec<String>,
    attempts: Vec<Attempt>,
    answer: Option<LlamaResponse>,
}

impl Fallback {
    pub closed spec fn view(&self) -> FallbackView {
        FallbackView { candidates: self.candidates@, attempts: self.attempts@, answer: self.answer }
    }

    /// A fallback over `candidates`, in their order.
    pub fn new(candidates: Vec<String>) -> (r: Fallback)
        ensures
            r.view() == initial(candidates@),
    {
        Fallback { candidates, attempts: Vec::new(), answer: None }
    }

    /// What to do next: ask the current candidate, stop with the answer, or give up.
    /// Asking again without feeding anything gives the same action.
    pub fn next_action(&self) -> (r: Action)
        ensures
            r == action_of(self.view()),
    {
        if self.answer.is_some() {
            Action::Done
        } else {
            let n = self.attempts.len();
            if n < self.candidates.len() {
                Action::Query(self.candidates[n].clone())
            } else {
                Action::Exhausted
            }
        }
    }

    /// Records the outcome of asking the current candidate.
    pub fn feed(&mut self, outcome: Result<LlamaResponse, AiError>)
        ensures
            final(self).view() == fed(old(self).view(), outcome),
    {
        if self.answer.is_none() && self.attempts.len() < self.candidates.len() {
            match outcome {
                Ok(resp) => {
                    self.answer = Some(resp);
                },
                Err(e) => {
                    let model = self.candidates[self.attempts.len()].clone();
                    self.attempts.push(Attempt { model, cause: e });
                },
            }
        }
    }

    /// The answer, if a model gave one; else the error that gathers every recorded
    /// failure, in order.
    pub fn into_result(self) -> (r: Result<LlamaResponse, AllModelsFailedError>)
        ensures
            self.view().answer matches Some(resp) ==> r == Ok::<LlamaResponse, AllModelsFailedError>(resp),
            self.view().answer is None ==> (r matches Err(e) && e.attempts@ == self.view().attempts),
    {
        match self.answer {
            Some(resp) => Ok(resp),
            None => Err(AllModelsFailedError { attempts: self.attempts }),
        }
    }

    /// The failures recorded so far, in order.
    pub fn attempts(&self) -> (r: &Vec<Attempt>)
        ensures
            r@ == self.view().attempts,
    {
        &self.attempts
    }
}

/// Feeding outcomes never records more failures than there are candidates.
pub proof fn lemma_attempts_bounded(c: Seq<String>, os: Seq<Result<LlamaResponse, AiError>>)
    ensures
        driven(initial(c), os).attempts.len() <= c.len(),
        driven(initial(c), os).candidates == c,
    decreases os.len(),
{
    if os.len() > 0 {
        lemma_attempts_bounded(c, os.drop_last());
    }
}

/// When the candidate at index `i` answers and every one before it failed, the
/// fallback ends with that answer, holds exactly the `i` earlier failures, each
/// under its candidate and in order, and asks no later candidate whatever comes after.
pub proof fn lemma_first_success_wins(
    c: Seq<String>,
    os: Seq<Result<LlamaResponse, AiError>>,
    i: int,
    later: Seq<Result<LlamaResponse, AiError>>,
)
    requires
        0 <= i < c.len(),
        os.len() == i + 1,
        forall|k: int| 0 <= k < i ==> (#[trigger] os[k]) is Err,
        os[i] is Ok,
    ensures
        driven(initial(c), os).answer == Some(os[i]->Ok_0),
        driven(initial(c), os).attempts.len() == i,
        forall|k: int| 0 <= k < i ==> (#[trigger] driven(initial(c), os).attempts[k]).model == c[k]
            && Err::<LlamaResponse, AiError>(driven(initial(c), os).attempts[k].cause) == os[k],
        next_query(driven(initial(c), os)) is None,
        action_of(driven(initial(c), os)) == Action::Done,
        driven(initial(c), os + later) == driven(initial(c), os),
{
    lemma_failures_recorded(c, os.drop_last());
    assert(os.drop_last() =~= os.subrange(0, i));
    lemma_finished_stays(c, os, later);
}

/// After `os`, all failures and no more of them than candidates, each failure is
/// recorded under its candidate, in order, with no answer.
pub proof fn lemma_failures_recorded(c: Seq<String>, os: Seq<Result<LlamaResponse, AiError>>)
    requires
        os.len() <= c.len(),
        forall|k: int| 0 <= k < os.len() ==> (#[trigger] os[k]) is Err,
    ensures
        driven(initial(c), os).answer is None,
        driven(initial(c), os).candidates == c,
        driven(initial(c), os).attempts.len() == os.len(),
        forall|k: int| 0 <= k < os.len() ==> (#[trigger] driven(initial(c), os).attempts[k]).model == c[k]
            && Err::<LlamaResponse, AiError>(driven(initial(c), os).attempts[k].cause) == os[k],
    decreases os.len(),
{
    if os.len() > 0 {
        let prev = os.drop_last();
        assert forall|k: int| 0 <= k < prev.len() implies (#[trigger] prev[k]) is Err by {
            assert(prev[k] == os[k]);
        }
        lemma_failures_recorded(c, prev);
        let n = os.len() - 1;
        assert(os[n as int] is Err);
        let v = driven(initial(c), os);
        assert forall|k: int| 0 <= k < os.len() implies (#[trigger] v.attempts[k]).model == c[k]
            && Err::<LlamaResponse, AiError>(v.attempts[k].cause) == os[k] by {
            if k < n {
                assert(prev[k] == os[k]);
            }
        }
    }
}

/// A finished fallback ignores every later outcome.
pub proof fn lemma_finished_stays(
    c: Seq<String>,
    os: Seq<Result<LlamaResponse, AiError>>,
    later: Seq<Result<LlamaResponse, AiError>>,
)
    requires
        finished(driven(initial(c), os)),
    ensures
        driven(initial(c), os + later) == driven(initial(c), os),
    decreases later.len(),
{
    if later.len() == 0 {
        assert(os + later =~= os);
    } else {
        lemma_finished_stays(c, os, later.drop_last());
        assert((os + later).drop_last() =~= os + later.drop_last());
    }
}

/// When every candidate fails (or there is none), the fallback gives up with one
/// recorded failure per candidate, in order.
pub proof fn lemma_all_fail_exhausts(c: Seq<String>, os: Seq<Result<LlamaResponse, AiError>>)
    requires
        os.len() == c.len(),
        forall|k: int| 0 <= k < os.len() ==> (#[trigger] os[k]) is Err,
    ensures
        driven(initial(c), os).answer is None,
        next_query(driven(initial(c), os)) is None,
        action_of(driven(initial(c), os)) == Action::Exhausted,
        driven(initial(c), os).attempts.len() == c.len(),
        forall|k: int| 0 <= k < c.len() ==> (#[trigger] driven(initial(c), os).attempts[k]).model == c[k],
{
    lemma_failures_recorded(c, os);
}

} // verus!
