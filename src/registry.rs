use vstd::prelude::*;
use crate::error::AiError;
use crate::text::{has_infix, contains_str, lower_of, lowercase};

verus! {

/// The generation endpoint of the local inference server.
pub const GENERATE_URL: &'static str = "http://localhost:11434/api/generate";

/// How to reach one model.
#[derive(Debug, Clone)]
pub struct ModelConfig {
    pub name: String,
    pub model_type: String,
    pub api_endpoint: Option<String>,
    pub local_path: Option<String>,
    pub enabled: bool,
}

/// A field-by-field copy of `c`.
fn copy_config(c: &ModelConfig) -> (r: ModelConfig)
    ensures
        r == *c,
{
    let api_endpoint = match &c.api_endpoint {
        Some(e) => Some(e.clone()),
        None => None,
    };
    let local_path = match &c.local_path {
        Some(p) => Some(p.clone()),
        None => None,
    };
    ModelConfig {
        name: c.name.clone(),
        model_type: c.model_type.clone(),
        api_endpoint,
        local_path,
        enabled: c.enabled,
    }
}

/// A coarse classification of models.
#[derive(Debug, Clone, Copy, PartialEq, Eq, Structural)]
pub enum Family {
    Llama,
    Mistral,
    Gemma,
    Other,
    Rag,
}

/// The tag that a configuration of the family carries.
pub open spec fn family_tag(f: Family) -> Seq<char> {
    match f {
        Family::Llama => "llama"@,
        Family::Mistral => "mistral"@,
        Family::Gemma => "gemma"@,
        Family::Other => "other"@,
        Family::Rag => "rag"@,
    }
}

impl Family {
    /// The tag that a configuration of this family carries.
    pub fn tag(&self) -> (r: String)
        ensures
            r@ == family_tag(*self),
    {
        match self {
            Family::Llama => String::from_str("llama"),
            Family::Mistral => String::from_str("mistral"),
            Family::Gemma => String::from_str("gemma"),
            Family::Other => String::from_str("other"),
            Family::Rag => String::from_str("rag"),
        }
    }
}

/// The family of a model whose lower-case name is `lowered`, by the first keyword it holds.
pub open spec fn family_of_lowered(lowered: Seq<char>) -> Family {
    if has_infix(lowered, "llama"@) {
        Family::Llama
    } else if has_infix(lowered, "mistral"@) || has_infix(lowered, "mixtral"@) {
        Family::Mistral
    } else if has_infix(lowered, "gemma"@) {
        Family::Gemma
    } else {
        Family::Other
    }
}

/// The family of a model whose lower-case name is `lowered`.
pub fn classify_lowered(lowered: &str) -> (r: Family)
    ensures
        r == family_of_lowered(lowered@),
{
    if contains_str(lowered, "llama") {
        Family::Llama
    } else if contains_str(lowered, "mistral") || contains_str(lowered, "mixtral") {
        Family::Mistral
    } else if contains_str(lowered, "gemma") {
        Family::Gemma
    } else {
        Family::Other
    }
}

/// The family of a model named `name`, matched without regard to case.
pub fn classify(name: &str) -> (r: Family)
    ensures
        r == family_of_lowered(lower_of(name@)),
{
    let lowered = lowercase(name);
    classify_lowered(lowered.as_str())
}

/// `c` is an enabled entry on the local generation endpoint with this name and tag.
pub open spec fn is_local(c: ModelConfig, name: Seq<char>, tag: Seq<char>, enabled: bool) -> bool {
    &&& c.name@ == name
    &&& c.model_type@ == tag
    &&& c.api_endpoint matches Some(e) && e@ == GENERATE_URL@
    &&& c.local_path is None
    &&& c.enabled == enabled
}

fn local_config(name: String, tag: String, enabled: bool) -> (r: ModelConfig)
    ensures
        is_local(r, name@, tag@, enabled),
{
    ModelConfig {
        name,
        model_type: tag,
        api_endpoint: Some(String::from_str(GENERATE_URL)),
        local_path: None,
        enabled,
    }
}

/// The display name that a listed model of family `f` gets.
pub open spec fn listed_name(f: Family, model: Seq<char>) -> Seq<char> {
    match f {
        Family::Llama => "Llama ("@ + model + ")"@,
        Family::Mistral => "Mistral ("@ + model + ")"@,
        Family::Gemma => "Gemma ("@ + model + ")"@,
        _ => model,
    }
}

/// The entry for a listed model named `model`, whose lower-case name is `lowered`.
pub open spec fn listed_config(c: ModelConfig, model: Seq<char>, lowered: Seq<char>) -> bool {
    let f = family_of_lowered(lowered);
    is_local(c, listed_name(f, model), family_tag(f), true)
}

/// The entry for a listed model, given its name and its lower-case name.
pub fn config_for_lowered(model: &str, lowered: &str) -> (r: ModelConfig)
    ensures
        listed_config(r, model@, lowered@),
{
    let f = classify_lowered(lowered);
    let name = match f {
        Family::Llama => String::from_str("Llama (").concat(model).concat(")"),
        Family::Mistral => String::from_str("Mistral (").concat(model).concat(")"),
        Family::Gemma => String::from_str("Gemma (").concat(model).concat(")"),
        _ => String::from_str(model),
    };
    local_config(name, f.tag(), true)
}

/// The entries that a listing of model names gives: one per name, in order, and one
/// retrieval entry after them when there is any.
pub open spec fn listing_configs(r: Seq<ModelConfig>, names: Seq<String>) -> bool {
    &&& r.len() == if names.len() == 0 { 0 } else { names.len() + 1 }
    &&& forall|k: int| 0 <= k < names.len()
            ==> listed_config(#[trigger] r[k], names[k]@, lower_of(names[k]@))
    &&& names.len() > 0 ==> is_local(r[names.len() as int], "RAG Search"@, "rag"@, true)
}

/// The entries for the model names that the server listed.
pub fn configs_for_names(names: &Vec<String>) -> (r: Vec<ModelConfig>)
    ensures
        listing_configs(r@, names@),
{
    let mut out: Vec<ModelConfig> = Vec::new();
    let mut i: usize = 0;
    while i < names.len()
        invariant
            i <= names@.len(),
            out@.len() == i,
            forall|k: int| 0 <= k < i ==> listed_config(#[trigger] out@[k], names@[k]@, lower_of(names@[k]@)),
        decreases names@.len() - i,
    {
        let lowered = lowercase(names[i].as_str());
        let c = config_for_lowered(names[i].as_str(), lowered.as_str());
        out.push(c);
        i += 1;
    }
    if out.len() > 0 {
        out.push(local_config(String::from_str("RAG Search"), String::from_str("rag"), true));
    }
    out
}

/// The entries to show as available: those of the listing, or none when listing failed.
pub fn available_models(listing: Result<Vec<String>, AiError>) -> (r: Vec<ModelConfig>)
    ensures
        listing is Err ==> r@.len() == 0,
        listing matches Ok(names) ==> listing_configs(r@, names@),
{
    match listing {
        Ok(names) => configs_for_names(&names),
        Err(_) => Vec::new(),
    }
}

/// The names in a listing body: `None` when it held no model array, else the name of
/// each descriptor that has one, in order.
pub open spec fn named(entries: Seq<Option<String>>) -> Seq<String>
    decreases entries.len(),
{
    if entries.len() == 0 {
        Seq::empty()
    } else {
        let rest = named(entries.drop_last());
        match entries.last() {
            Some(n) => rest.push(n),
            None => rest,
        }
    }
}

/// The model names in a listing body whose descriptors' name fields are `entries`.
pub fn model_names(entries: Option<Vec<Option<String>>>) -> (r: Result<Vec<String>, AiError>)
    ensures
        entries is None ==> r matches Err(AiError::MalformedListing),
        entries matches Some(v) ==> r matches Ok(names) && names@ == named(v@),
{
    match entries {
        None => Err(AiError::MalformedListing),
        Some(v) => {
            let mut out: Vec<String> = Vec::new();
            let mut i: usize = 0;
            while i < v.len()
                invariant
                    i <= v@.len(),
                    out@ == named(v@.subrange(0, i as int)),
                decreases v@.len() - i,
            {
                proof {
                    assert(v@.subrange(0, i + 1).drop_last() =~= v@.subrange(0, i as int));
                }
                match &v[i] {
                    Some(n) => out.push(n.clone()),
                    None => {},
                }
                i += 1;
            }
            assert(v@.subrange(0, v@.len() as int) =~= v@);
            Ok(out)
        },
    }
}

/// What came back from one listing request.
pub enum ListingReply {
    /// The request did not reach the server, for this reason.
    Unreachable(String),
    /// The server answered with a non-success status: its code and its displayed form.
    Rejected(u16, String),
    /// The server answered with success, but the body could not be decoded, for this reason.
    Undecodable(String),
    /// The decoded body: `None` when it held no model array, else the name field
    /// of each descriptor in it.
    Decoded(Option<Vec<Option<String>>>),
}

/// The model names that a listing reply gives, or why there are none.
pub fn finish_listing(reply: ListingReply) -> (r: Result<Vec<String>, AiError>)
    ensures
        reply matches ListingReply::Unreachable(cause)
            ==> (r matches Err(AiError::ListingUnreachable { cause: c }) && c@ == cause@),
        reply matches ListingReply::Rejected(code, text)
            ==> (r matches Err(AiError::ListingStatus { status, text: t }) && status == code && t@ == text@),
        reply matches ListingReply::Undecodable(cause)
            ==> (r matches Err(AiError::ListingUndecodable { cause: c }) && c@ == cause@),
        reply matches ListingReply::Decoded(None) ==> r matches Err(AiError::MalformedListing),
        reply matches ListingReply::Decoded(Some(v)) ==> (r matches Ok(names) && names@ == named(v@)),
{
    match reply {
        ListingReply::Unreachable(cause) => Err(AiError::ListingUnreachable { cause }),
        ListingReply::Rejected(code, text) => Err(AiError::ListingStatus { status: code, text }),
        ListingReply::Undecodable(cause) => Err(AiError::ListingUndecodable { cause }),
        ListingReply::Decoded(entries) => model_names(entries),
    }
}

} // verus!

verus! {

/// The registry of known models, keyed by short identifiers.
///
/// The entries are a vector of (identifier, configuration) pairs with no
/// identifier twice (`wf`), in the order they were registered: vstd specifies a
/// hash map's lookups only for keys whose hashing it models, and `String` is not
/// among them, so a hash map keyed by identifier would leave `lookup` unprovable.
pub struct AdvancedAI {
    models: Vec<(String, ModelConfig)>,
}

/// The entries of `s` whose enabled flag is set, in order.
pub open spec fn enabled_of(s: Seq<(String, ModelConfig)>) -> Seq<ModelConfig>
    decreases s.len(),
{
    if s.len() == 0 {
        Seq::empty()
    } else {
        let rest = enabled_of(s.drop_last());
        if s.last().1.enabled {
            rest.push(s.last().1)
        } else {
            rest
        }
    }
}

impl AdvancedAI {
    /// The entries as (identifier, configuration) pairs.
    pub closed spec fn entries(&self) -> Seq<(String, ModelConfig)> {
        self.models@
    }

    /// No identifier occurs twice.
    pub open spec fn wf(&self) -> bool {
        forall|i: int, j: int|
            0 <= i < j < self.entries().len() ==> #[trigger] self.entries()[i].0@ != #[trigger] self.entries()[j].0@
    }

    /// The configuration registered under `id`, if any.
    pub open spec fn config_of(&self, id: Seq<char>) -> Option<ModelConfig> {
        if exists|k: int| 0 <= k < self.entries().len() && #[trigger] self.entries()[k].0@ == id {
            let k = choose|k: int| 0 <= k < self.entries().len() && #[trigger] self.entries()[k].0@ == id;
            Some(self.entries()[k].1)
        } else {
            None
        }
    }

    /// The built-in catalog: two Llama entries (the larger one disabled), one Mixtral
    /// entry and one Mistral entry, both of the Mistral family, all on the local generation endpoint.
    pub fn new() -> (r: AdvancedAI)
        ensures
            r.wf(),
            r.entries().len() == 4,
            r.entries()[0].0@ == "llama3-8b"@,
            is_local(r.entries()[0].1, "Llama 3 8B"@, family_tag(Family::Llama), true),
            r.entries()[1].0@ == "llama3-70b"@,
            is_local(r.entries()[1].1, "Llama 3 70B"@, family_tag(Family::Llama), false),
            r.entries()[2].0@ == "mixtral-8x7b"@,
            is_local(r.entries()[2].1, "Mixtral 8x7B"@, family_tag(Family::Mistral), true),
            r.entries()[3].0@ == "mistral-7b"@,
            is_local(r.entries()[3].1, "Mistral 7B"@, family_tag(Family::Mistral), true),
    {
        let mut models: Vec<(String, ModelConfig)> = Vec::new();
        models.push((
            String::from_str("llama3-8b"),
            local_config(String::from_str("Llama 3 8B"), Family::Llama.tag(), true),
        ));
        models.push((
            String::from_str("llama3-70b"),
            local_config(String::from_str("Llama 3 70B"), Family::Llama.tag(), false),
        ));
        models.push((
            String::from_str("mixtral-8x7b"),
            local_config(String::from_str("Mixtral 8x7B"), Family::Mistral.tag(), true),
        ));
        models.push((
            String::from_str("mistral-7b"),
            local_config(String::from_str("Mistral 7B"), Family::Mistral.tag(), true),
        ));
        proof {
            reveal_strlit("llama3-8b");
            reveal_strlit("llama3-70b");
            reveal_strlit("mixtral-8x7b");
            reveal_strlit("mistral-7b");
            assert("llama3-70b"@[0] != "mistral-7b"@[0]);
            let e = models@;
            assert(e[0].0@ == "llama3-8b"@);
            assert(e[1].0@ == "llama3-70b"@);
            assert(e[2].0@ == "mixtral-8x7b"@);
            assert(e[3].0@ == "mistral-7b"@);
            assert("llama3-8b"@.len() == 9);
            assert("llama3-70b"@.len() == 10);
            assert("mixtral-8x7b"@.len() == 12);
            assert("mistral-7b"@.len() == 10);
            assert(e[0].0@ != e[1].0@);
            assert(e[0].0@ != e[2].0@);
            assert(e[0].0@ != e[3].0@);
            assert(e[1].0@ != e[2].0@);
            assert(e[1].0@ != e[3].0@);
            assert(e[2].0@ != e[3].0@);
        }
        AdvancedAI { models }
    }

    /// The configuration registered under `id`, if any.
    pub fn lookup(&self, id: &str) -> (r: Option<&ModelConfig>)
        requires
            self.wf(),
        ensures
            r matches Some(c) ==> self.config_of(id@) == Some(*c),
            r is None ==> self.config_of(id@) is None,
    {
        let key = String::from_str(id);
        let mut i: usize = 0;
        while i < self.models.len()
            invariant
                i <= self.entries().len(),
                key@ == id@,
                self.wf(),
                self.entries() == self.models@,
                forall|k: int| 0 <= k < i ==> #[trigger] self.entries()[k].0@ != id@,
            decreases self.models@.len() - i,
        {
            if self.models[i].0 == key {
                assert(self.entries()[i as int].0@ == id@);
                let ghost k = choose|k: int| 0 <= k < self.entries().len() && #[trigger] self.entries()[k].0@ == id@;
                assert(k == i as int) by {
                    if k < i {
                    } else if k > i {
                        assert(self.entries()[i as int].0@ != self.entries()[k].0@);
                    }
                }
                return Some(&self.models[i].1);
            }
            i += 1;
        }
        None
    }

    /// The enabled configurations, in registry order.
    pub fn list_enabled(&self) -> (r: Vec<ModelConfig>)
        ensures
            r@ == enabled_of(self.entries()),
            forall|k: int| 0 <= k < r@.len() ==> (#[trigger] r@[k]).enabled,
    {
        let mut out: Vec<ModelConfig> = Vec::new();
        let mut i: usize = 0;
        while i < self.models.len()
            invariant
                i <= self.entries().len(),
                self.entries() == self.models@,
                out@ == enabled_of(self.entries().subrange(0, i as int)),
            decreases self.models@.len() - i,
        {
            proof {
                assert(self.entries().subrange(0, i + 1).drop_last() =~= self.entries().subrange(0, i as int));
            }
            if self.models[i].1.enabled {
                out.push(copy_config(&self.models[i].1));
            }
            i += 1;
        }
        assert(self.entries().subrange(0, self.entries().len() as int) =~= self.entries());
        proof {
            lemma_enabled_only(self.entries());
        }
        out
    }
}

/// Every entry that `enabled_of` keeps has its enabled flag set.
pub proof fn lemma_enabled_only(s: Seq<(String, ModelConfig)>)
    ensures
        forall|k: int| 0 <= k < enabled_of(s).len() ==> (#[trigger] enabled_of(s)[k]).enabled,
    decreases s.len(),
{
    if s.len() > 0 {
        lemma_enabled_only(s.drop_last());
    }
}

} // verus!
