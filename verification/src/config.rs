//! The configuration of the tool, and what of it may be kept beside the
//! artefacts of a run. Every field is required.

use vstd::prelude::*;
use serde_json::Value;
use crate::error::AtsError;
use crate::json;
use crate::json::Tree;
use crate::text;

verus! {

/// The whole of `config.json`.
#[derive(Debug, Clone, PartialEq)]
pub struct Config {
    pub openrouter: OpenRouterConfig,
    pub models: ModelsConfig,
    pub scrape: ScrapeConfig,
    pub retries: RetriesConfig,
}

/// How to reach the language model.
#[derive(Debug, Clone, PartialEq)]
pub struct OpenRouterConfig {
    pub api_key: String,
    pub base_url: String,
}

/// The model of each stage.
#[derive(Debug, Clone, PartialEq)]
pub struct ModelsConfig {
    pub scrape_to_markdown: ModelStageConfig,
    pub keyword_extraction: ModelStageConfig,
    pub resume_optimization: ModelStageConfig,
}

/// One model and its sampling.
#[derive(Debug, Clone, PartialEq)]
pub struct ModelStageConfig {
    pub name: String,
    /// A JSON number.
    pub temperature: Value,
    pub seed: i64,
}

impl ModelStageConfig {
    /// `other` names the same model with the same sampling.
    pub open spec fn same(self, other: ModelStageConfig) -> bool {
        &&& self.name@ == other.name@
        &&& json::json_tree(self.temperature) == json::json_tree(other.temperature)
        &&& self.seed == other.seed
    }

    /// The same model with the same sampling.
    pub fn copied(&self) -> (r: ModelStageConfig)
        ensures
            self.same(r),
    {
        ModelStageConfig {
            name: self.name.clone(),
            temperature: self.temperature.clone(),
            seed: self.seed,
        }
    }
}

/// How long a page may take to settle.
#[derive(Debug, Clone, PartialEq)]
pub struct ScrapeConfig {
    pub network_idle_timeout_ms: u64,
}

/// How often a call is repeated.
#[derive(Debug, Clone, PartialEq)]
pub struct RetriesConfig {
    pub llm_transient_max_attempts: u32,
    pub llm_transient_backoff_ms: Vec<u64>,
    pub schema_validation_max_attempts: u32,
}

/// A model as JSON.
pub open spec fn model_tree(m: ModelStageConfig) -> Tree {
    Tree::Object(
        Map::empty().insert("name"@, Tree::Text(m.name@)).insert(
            "temperature"@,
            json::json_tree(m.temperature),
        ).insert("seed"@, Tree::Int(m.seed as int)),
    )
}

/// The three models as JSON.
pub open spec fn models_tree(m: ModelsConfig) -> Tree {
    Tree::Object(
        Map::empty().insert("scrape_to_markdown"@, model_tree(m.scrape_to_markdown)).insert(
            "keyword_extraction"@,
            model_tree(m.keyword_extraction),
        ).insert("resume_optimization"@, model_tree(m.resume_optimization)),
    )
}

/// The backoff as JSON.
pub open spec fn backoff_trees(delays: Seq<u64>) -> Seq<Tree> {
    Seq::new(delays.len(), |i: int| Tree::Int(delays[i] as int))
}

/// The retry policy as JSON.
pub open spec fn retries_tree(r: RetriesConfig) -> Tree {
    Tree::Object(
        Map::empty().insert(
            "llm_transient_max_attempts"@,
            Tree::Int(r.llm_transient_max_attempts as int),
        ).insert(
            "llm_transient_backoff_ms"@,
            Tree::List(backoff_trees(r.llm_transient_backoff_ms@)),
        ).insert(
            "schema_validation_max_attempts"@,
            Tree::Int(r.schema_validation_max_attempts as int),
        ),
    )
}

/// The whole configuration as JSON, with `key` in place of the API key.
pub open spec fn config_tree(c: Config, key: Seq<char>) -> Tree {
    Tree::Object(
        Map::empty().insert(
            "openrouter"@,
            Tree::Object(
                Map::empty().insert("api_key"@, Tree::Text(key)).insert(
                    "base_url"@,
                    Tree::Text(c.openrouter.base_url@),
                ),
            ),
        ).insert("models"@, models_tree(c.models)).insert(
            "scrape"@,
            Tree::Object(
                Map::empty().insert(
                    "network_idle_timeout_ms"@,
                    Tree::Int(c.scrape.network_idle_timeout_ms as int),
                ),
            ),
        ).insert("retries"@, retries_tree(c.retries)),
    )
}

fn model_value(m: &ModelStageConfig) -> (r: Value)
    ensures
        json::json_tree(r) == model_tree(*m),
{
    let mut out = json::empty_object();
    json::insert_member(&mut out, "name", json::text_value(m.name.as_str()));
    json::insert_member(&mut out, "temperature", m.temperature.clone());
    json::insert_member(&mut out, "seed", json::signed_value(m.seed));
    out
}

fn models_value(m: &ModelsConfig) -> (r: Value)
    ensures
        json::json_tree(r) == models_tree(*m),
{
    let mut out = json::empty_object();
    json::insert_member(&mut out, "scrape_to_markdown", model_value(&m.scrape_to_markdown));
    json::insert_member(&mut out, "keyword_extraction", model_value(&m.keyword_extraction));
    json::insert_member(&mut out, "resume_optimization", model_value(&m.resume_optimization));
    out
}

fn retries_value(c: &RetriesConfig) -> (r: Value)
    ensures
        json::json_tree(r) == retries_tree(*c),
{
    let mut delays: Vec<Value> = Vec::new();
    for i in 0..c.llm_transient_backoff_ms.len()
        invariant
            delays@.len() == i,
            forall|k: int|
                0 <= k < i ==> json::json_tree(#[trigger] delays@[k]) == Tree::Int(
                    c.llm_transient_backoff_ms@[k] as int,
                ),
    {
        delays.push(json::unsigned_value(c.llm_transient_backoff_ms[i]));
    }
    assert(json::trees(delays@) =~= backoff_trees(c.llm_transient_backoff_ms@));
    let mut out = json::empty_object();
    json::insert_member(
        &mut out,
        "llm_transient_max_attempts",
        json::unsigned_value(c.llm_transient_max_attempts as u64),
    );
    json::insert_member(&mut out, "llm_transient_backoff_ms", json::list_value(delays));
    json::insert_member(
        &mut out,
        "schema_validation_max_attempts",
        json::unsigned_value(c.schema_validation_max_attempts as u64),
    );
    out
}

impl Config {
    /// The configuration as it may be kept beside the artefacts of a run: with
    /// the API key masked.
    pub fn redacted_snapshot(&self) -> (r: Value)
        ensures
            json::json_tree(r) == config_tree(*self, "***"@),
    {
        let mut openrouter = json::empty_object();
        json::insert_member(&mut openrouter, "api_key", json::text_value("***"));
        json::insert_member(
            &mut openrouter,
            "base_url",
            json::text_value(self.openrouter.base_url.as_str()),
        );
        let mut scrape = json::empty_object();
        json::insert_member(
            &mut scrape,
            "network_idle_timeout_ms",
            json::unsigned_value(self.scrape.network_idle_timeout_ms),
        );
        let mut out = json::empty_object();
        json::insert_member(&mut out, "openrouter", openrouter);
        json::insert_member(&mut out, "models", models_value(&self.models));
        json::insert_member(&mut out, "scrape", scrape);
        json::insert_member(&mut out, "retries", retries_value(&self.retries));
        out
    }

    /// The error for a configuration file that is not there.
    pub fn not_found(path: &str) -> (r: AtsError)
        ensures
            r matches AtsError::Config(m) && m@ == "config.json not found at "@ + path@,
    {
        AtsError::Config(text::concat2("config.json not found at ", path))
    }

    /// The error for a configuration file that cannot be read.
    pub fn unreadable(path: &str, cause: &str) -> (r: AtsError)
        ensures
            r matches AtsError::Config(m) && m@ == path@ + ": cannot read: "@ + cause@,
    {
        AtsError::Config(text::concat3(path, ": cannot read: ", cause))
    }

    /// The error for a configuration file that does not parse: what is wrong,
    /// and at which place in the document.
    pub fn malformed(path: &str, cause: &str, at: &str) -> (r: AtsError)
        ensures
            r matches AtsError::Config(m) && m@ == path@ + ": "@ + cause@ + " at `"@ + at@ + "`"@,
    {
        let mut out = text::concat3(path, ": ", cause);
        out.push_str(" at `");
        out.push_str(at);
        out.push_str("`");
        AtsError::Config(out)
    }
}

// ---------------------------------------------------------------------------
// Laws
// ---------------------------------------------------------------------------

/// Two configurations that agree but for the API key.
pub open spec fn same_but_key(a: Config, b: Config) -> bool {
    &&& a.openrouter.base_url@ == b.openrouter.base_url@
    &&& a.models == b.models
    &&& a.scrape == b.scrape
    &&& a.retries == b.retries
}

/// The snapshot says nothing of the API key: it is the same for any key, and
/// shows three asterisks in its place.
pub proof fn snapshot_hides_api_key(a: Config, b: Config)
    requires
        same_but_key(a, b),
    ensures
        config_tree(a, "***"@) == config_tree(b, "***"@),
        json::tree_path2(config_tree(a, "***"@), "openrouter"@, "api_key"@) == Some(
            Tree::Text("***"@),
        ),
        json::tree_path2(config_tree(a, "***"@), "openrouter"@, "base_url"@) == Some(
            Tree::Text(a.openrouter.base_url@),
        ),
{
    reveal_strlit("openrouter");
    reveal_strlit("models");
    reveal_strlit("scrape");
    reveal_strlit("retries");
    reveal_strlit("api_key");
    reveal_strlit("base_url");
    assert("openrouter"@.len() == 10);
    assert("models"@.len() == 6);
    assert("scrape"@.len() == 6);
    assert("retries"@.len() == 7);
    assert("api_key"@.len() == 7);
    assert("base_url"@.len() == 8);
}

} // verus!
