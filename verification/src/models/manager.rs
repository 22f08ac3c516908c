//! Embedding models manager: the facade resolving default and named models
//! and dispatching embed operations through the registry.
//!
//! The manager never invents results: when the requested model is absent it
//! reports `ModelNotFound` with that name, and when the model is present the
//! outcome is whatever the model computed.  Loading takes a fully built
//! model instance; building one from its artifacts happens outside the
//! verified core, before the registry is touched, so a failed build leaves
//! the registry unchanged.

use crate::models::config::str_eq;
use crate::models::config::EmbeddingModelsConfig;
use crate::models::model::spec_info_of_config;
use crate::models::model::EmbeddingModel;
use crate::models::model::ModelInfo;
use crate::models::registry::ModelRegistry;
use crate::models::Embedding;
use crate::models::EmbeddingError;
use crate::models::EmbeddingResult;
use vstd::prelude::*;

verus! {

/// Main manager for embedding models.
pub struct EmbeddingModelsManager<M> {
    /// Configuration.
    config: EmbeddingModelsConfig,
    /// Model registry.
    registry: ModelRegistry<M>,
}

impl<M> EmbeddingModelsManager<M> {
    /// Well-formedness: the registry's own invariant.
    pub open spec fn wf(self) -> bool {
        self.spec_registry().wf()
    }

    /// The configuration the manager serves.
    pub closed spec fn spec_config(self) -> EmbeddingModelsConfig {
        self.config
    }

    /// The registry the manager owns.
    pub closed spec fn spec_registry(self) -> ModelRegistry<M> {
        self.registry
    }
}

impl<M: EmbeddingModel> EmbeddingModelsManager<M> {
    /// A manager with the default configuration and no loaded models.
    pub fn new() -> (r: EmbeddingModelsManager<M>)
        ensures
            r.wf(),
            r.spec_config().global.default_model@ == "all-MiniLM-L6-v2"@,
            r.spec_config().global.max_batch_size == 32,
            r.spec_config().global.cache_enabled,
            r.spec_config().global.cache_size_mb == 512,
            r.spec_config().global.init_timeout == 300,
            r.spec_config().global.inference_timeout == 60,
            r.spec_config().models@.len() == 0,
            r.spec_registry().spec_infos().len() == 0,
    {
        EmbeddingModelsManager {
            config: EmbeddingModelsConfig::default(),
            registry: ModelRegistry::new(),
        }
    }

    /// A manager over a validated configuration, with no loaded models;
    /// fails exactly when the configuration is invalid.
    pub fn from_config(config: EmbeddingModelsConfig) -> (r: Result<
        EmbeddingModelsManager<M>,
        EmbeddingError,
    >)
        ensures
            r is Ok <==> config.spec_valid(),
            r matches Ok(m) ==> m.wf() && m.spec_config() == config
                && m.spec_registry().spec_infos().len() == 0,
            r matches Err(e) ==> e is ConfigError,
    {
        match config.validate() {
            Ok(_) => Ok(EmbeddingModelsManager { config, registry: ModelRegistry::new() }),
            Err(e) => Err(e),
        }
    }

    /// The configuration.
    pub fn config(&self) -> (r: &EmbeddingModelsConfig)
        ensures
            *r == self.spec_config(),
    {
        &self.config
    }

    /// The model registry.
    pub fn registry(&self) -> (r: &ModelRegistry<M>)
        ensures
            *r == self.spec_registry(),
    {
        &self.registry
    }

    /// Embeds one text with the default model.  Fails with `ModelNotFound`
    /// naming the default model exactly when it is not loaded; otherwise the
    /// outcome is the model's.
    pub fn embed_text(&self, text: &str) -> (r: EmbeddingResult<Embedding>)
        ensures
            !self.spec_registry().spec_contains(self.spec_config().global.default_model@) ==> (r
                matches Err(e) && e matches EmbeddingError::ModelNotFound { model_name }
                && model_name@ == self.spec_config().global.default_model@),
    {
        match self.registry.get_default_model(&self.config) {
            Some(model) => model.embed_text(text),
            None => Err(
                EmbeddingError::ModelNotFound {
                    model_name: self.config.global.default_model.clone(),
                },
            ),
        }
    }

    /// Embeds one text with the named model.  Fails with `ModelNotFound`
    /// naming it exactly when it is not loaded; otherwise the outcome is the
    /// model's.
    pub fn embed_text_with_model(&self, text: &str, model_name: &str) -> (r: EmbeddingResult<
        Embedding,
    >)
        ensures
            !self.spec_registry().spec_contains(model_name@) ==> (r matches Err(e) && e
                matches EmbeddingError::ModelNotFound { model_name: n } && n@ == model_name@),
    {
        match self.registry.get_model(model_name) {
            Some(model) => model.embed_text(text),
            None => Err(EmbeddingError::ModelNotFound { model_name: model_name.to_owned() }),
        }
    }

    /// Embeds a batch with the default model; resolution as in
    /// [`Self::embed_text`].
    pub fn embed_batch(&self, texts: &[String]) -> (r: EmbeddingResult<Vec<Embedding>>)
        ensures
            !self.spec_registry().spec_contains(self.spec_config().global.default_model@) ==> (r
                matches Err(e) && e matches EmbeddingError::ModelNotFound { model_name }
                && model_name@ == self.spec_config().global.default_model@),
    {
        match self.registry.get_default_model(&self.config) {
            Some(model) => model.embed_batch(texts),
            None => Err(
                EmbeddingError::ModelNotFound {
                    model_name: self.config.global.default_model.clone(),
                },
            ),
        }
    }

    /// Embeds a batch with the named model; resolution as in
    /// [`Self::embed_text_with_model`].
    pub fn embed_batch_with_model(&self, texts: &[String], model_name: &str) -> (r:
        EmbeddingResult<Vec<Embedding>>)
        ensures
            !self.spec_registry().spec_contains(model_name@) ==> (r matches Err(e) && e
                matches EmbeddingError::ModelNotFound { model_name: n } && n@ == model_name@),
    {
        match self.registry.get_model(model_name) {
            Some(model) => model.embed_batch(texts),
            None => Err(EmbeddingError::ModelNotFound { model_name: model_name.to_owned() }),
        }
    }

    /// Information about all loaded models, in registry order.
    pub fn get_loaded_models_info(&self) -> (r: Vec<ModelInfo>)
        ensures
            r@.len() == self.spec_registry().spec_infos().len(),
            forall|i: int|
                0 <= i < r@.len() ==> (#[trigger] r@[i]@) == self.spec_registry().spec_infos()[i],
    {
        self.registry.list_model_infos()
    }

    /// Information about the named model, present exactly when it is loaded.
    pub fn get_model_info(&self, name: &str) -> (r: Option<ModelInfo>)
        requires
            self.wf(),
        ensures
            r is Some <==> self.spec_registry().spec_contains(name@),
            r matches Some(info) ==> info@ == self.spec_registry().spec_info_map()[name@],
    {
        self.registry.get_model_info(name)
    }

    /// Whether the named model is loaded.
    pub fn is_model_loaded(&self, name: &str) -> (r: bool)
        ensures
            r == self.spec_registry().spec_contains(name@),
    {
        self.registry.is_model_loaded(name)
    }

    /// Publishes a fully built model under the named configuration.  Fails
    /// with `ModelNotFound` exactly when the configuration declares no model
    /// of that name, leaving everything unchanged; on success the registry
    /// maps the name to the configuration's information.
    pub fn load_model(&mut self, model_name: &str, model: M) -> (r: EmbeddingResult<()>)
        requires
            old(self).wf(),
        ensures
            final(self).wf(),
            final(self).spec_config() == old(self).spec_config(),
            r is Ok <==> old(self).spec_config().spec_has_model_named(model_name@),
            r matches Ok(_) ==> (crate::models::config::spec_find_named(
                old(self).spec_config().models@,
                model_name@,
            ) matches Some(i) && final(self).spec_registry().spec_info_map() == old(self).spec_registry().spec_info_map().insert(
                old(self).spec_config().models@[i].config.name@,
                spec_info_of_config(old(self).spec_config().models@[i].config),
            )),
            r matches Err(e) ==> *final(self) == *old(self) && (e
                matches EmbeddingError::ModelNotFound { model_name: n } && n@ == model_name@),
    {
        match self.config.get_model(model_name) {
            Some(config) => self.registry.load_model(config, model),
            None => Err(EmbeddingError::ModelNotFound { model_name: model_name.to_owned() }),
        }
    }

    /// Removes the named model from the registry; fails with
    /// `ModelNotFound` exactly when it is not loaded.
    pub fn unload_model(&mut self, model_name: &str) -> (r: EmbeddingResult<()>)
        requires
            old(self).wf(),
        ensures
            final(self).wf(),
            final(self).spec_config() == old(self).spec_config(),
            r is Ok <==> old(self).spec_registry().spec_contains(model_name@),
            r is Ok ==> final(self).spec_registry().spec_info_map() == old(self).spec_registry().spec_info_map().remove(model_name@),
            r is Ok ==> !final(self).spec_registry().spec_contains(model_name@),
            r matches Err(e) ==> *final(self) == *old(self) && (e
                matches EmbeddingError::ModelNotFound { model_name: n } && n@ == model_name@),
    {
        self.registry.unload_model(model_name)
    }

    /// The configured name list of a group; an unknown group yields nothing.
    /// Group membership is independent of load state.
    pub fn get_models_by_group(&self, group: &str) -> (r: Vec<String>)
        ensures
            group@ == "general"@ ==> names_match(r@, self.spec_config().model_groups.general@),
            group@ == "multilingual"@ ==> names_match(
                r@,
                self.spec_config().model_groups.multilingual@,
            ),
            group@ == "high_dim"@ ==> names_match(r@, self.spec_config().model_groups.high_dim@),
            group@ == "gpu_models"@ ==> names_match(
                r@,
                self.spec_config().model_groups.gpu_models@,
            ),
            (group@ != "general"@ && group@ != "multilingual"@ && group@ != "high_dim"@ && group@
                != "gpu_models"@) ==> r@.len() == 0,
    {
        proof {
            // Reveal the group names so the unmatched clauses are decidably
            // vacuous; the length facts make the literals distinct.
            reveal_strlit("general");
            reveal_strlit("multilingual");
            reveal_strlit("high_dim");
            reveal_strlit("gpu_models");
            assert("general"@.len() == 7);
            assert("multilingual"@.len() == 12);
            assert("high_dim"@.len() == 8);
            assert("gpu_models"@.len() == 10);
            assert("general"@ != "multilingual"@);
            assert("general"@ != "high_dim"@);
            assert("general"@ != "gpu_models"@);
            assert("multilingual"@ != "high_dim"@);
            assert("multilingual"@ != "gpu_models"@);
            assert("high_dim"@ != "gpu_models"@);
        }
        if str_eq(group, "general") {
            clone_string_vec(&self.config.model_groups.general)
        } else if str_eq(group, "multilingual") {
            clone_string_vec(&self.config.model_groups.multilingual)
        } else if str_eq(group, "high_dim") {
            clone_string_vec(&self.config.model_groups.high_dim)
        } else if str_eq(group, "gpu_models") {
            clone_string_vec(&self.config.model_groups.gpu_models)
        } else {
            Vec::new()
        }
    }

    /// The names of the loaded models whose information reports GPU use, in
    /// registry order.
    pub fn get_gpu_models(&self) -> (r: Vec<String>)
        ensures
            r@.map_values(|s: String| s@) == spec_gpu_names(self.spec_registry().spec_infos()),
    {
        let infos = self.registry.list_model_infos();
        let mut r: Vec<String> = Vec::new();
        let mut i: usize = 0;
        while i < infos.len()
            invariant
                i <= infos@.len(),
                infos@.len() == self.spec_registry().spec_infos().len(),
                forall|j: int|
                    0 <= j < infos@.len() ==> (#[trigger] infos@[j]@) == self.spec_registry(
                    ).spec_infos()[j],
                r@.map_values(|s: String| s@) == spec_gpu_names(
                    self.spec_registry().spec_infos().subrange(0, i as int),
                ),
            decreases infos@.len() - i,
        {
            proof {
                let prefix = self.spec_registry().spec_infos().subrange(0, i + 1);
                assert(prefix.drop_last() =~= self.spec_registry().spec_infos().subrange(
                    0,
                    i as int,
                ));
                assert(prefix.last() == self.spec_registry().spec_infos()[i as int]);
                assert(infos@[i as int]@ == self.spec_registry().spec_infos()[i as int]);
            }
            if infos[i].uses_gpu {
                r.push(infos[i].name.clone());
                assert(r@.map_values(|s: String| s@) =~= spec_gpu_names(
                    self.spec_registry().spec_infos().subrange(0, i + 1),
                ));
            } else {
                assert(r@.map_values(|s: String| s@) =~= spec_gpu_names(
                    self.spec_registry().spec_infos().subrange(0, i + 1),
                ));
            }
            i += 1;
        }
        proof {
            assert(self.spec_registry().spec_infos().subrange(
                0,
                self.spec_registry().spec_infos().len() as int,
            ) =~= self.spec_registry().spec_infos());
        }
        r
    }

    /// Replaces the configuration after shutting every model down.  Fails
    /// exactly when the new configuration is invalid, leaving everything
    /// unchanged; on success the registry is empty and the new configuration
    /// governs — prior models are not restored, and the caller re-initializes
    /// from the new configuration.
    pub fn reload_config(&mut self, new_config: EmbeddingModelsConfig) -> (r: EmbeddingResult<()>)
        requires
            old(self).wf(),
        ensures
            final(self).wf(),
            r is Ok <==> new_config.spec_valid(),
            r is Ok ==> final(self).spec_config() == new_config && final(self).spec_registry().spec_infos().len() == 0,
            r matches Err(e) ==> *final(self) == *old(self) && e is ConfigError,
    {
        match new_config.validate() {
            Ok(_) => {
                let _ = self.registry.shutdown_all();
                self.config = new_config;
                Ok(())
            },
            Err(e) => Err(e),
        }
    }

    /// Shuts every model down; the registry is empty afterwards.
    pub fn shutdown(&mut self) -> (r: EmbeddingResult<()>)
        ensures
            final(self).wf(),
            r is Ok,
            final(self).spec_config() == old(self).spec_config(),
            final(self).spec_registry().spec_infos().len() == 0,
    {
        self.registry.shutdown_all()
    }
}

/// Lists hold the same names.
pub open spec fn names_match(r: Seq<String>, orig: Seq<String>) -> bool {
    r.len() == orig.len() && forall|i: int|
        0 <= i < r.len() ==> (#[trigger] r[i]@) == orig[i]@
}

/// The names of the records reporting GPU use, in order.
pub open spec fn spec_gpu_names(infos: Seq<crate::models::model::ModelInfoView>) -> Seq<Seq<char>>
    decreases infos.len(),
{
    if infos.len() == 0 {
        Seq::empty()
    } else {
        spec_gpu_names(infos.drop_last()) + (if infos.last().uses_gpu {
            seq![infos.last().name]
        } else {
            Seq::empty()
        })
    }
}

/// A copy of a name list, name for name.
fn clone_string_vec(v: &Vec<String>) -> (r: Vec<String>)
    ensures
        names_match(r@, v@),
{
    let mut r: Vec<String> = Vec::new();
    let mut i: usize = 0;
    while i < v.len()
        invariant
            i <= v@.len(),
            r@.len() == i,
            forall|j: int| 0 <= j < i ==> (#[trigger] r@[j]@) == v@[j]@,
        decreases v@.len() - i,
    {
        r.push(v[i].clone());
        i += 1;
    }
    r
}

} // verus!
