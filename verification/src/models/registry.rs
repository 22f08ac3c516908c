//! Model registry: the store mapping model name to its loaded, ready-to-serve
//! instance.
//!
//! The registry is the sole source of truth for model existence.  Its
//! mathematical model is a map from model name to the model's information;
//! loading publishes a fully built entry, unloading removes the handle and
//! its information together — an entry and its information cannot go out of
//! step, as one record holds both.  The callers serialize access; the
//! sharing discipline around the store lives outside the verified core.

use crate::models::config::str_eq;
use crate::models::config::ModelConfig;
use crate::models::model::spec_info_of_config;
use crate::models::model::EmbeddingModel;
use crate::models::model::ModelInfo;
use crate::models::model::ModelInfoView;
use crate::models::EmbeddingError;
use crate::models::EmbeddingResult;
use vstd::prelude::*;

verus! {

/// One loaded model: its registry key, the instance, and its information.
pub struct RegistryEntry<M> {
    /// The name the model is registered under.
    pub name: String,
    /// The loaded instance.
    pub model: M,
    /// The model's information.
    pub info: ModelInfo,
}

/// The registry of loaded models.
pub struct ModelRegistry<M> {
    entries: Vec<RegistryEntry<M>>,
}

/// No two entries share a name.
spec fn wf_entries<M>(s: Seq<RegistryEntry<M>>) -> bool {
    forall|i: int, j: int|
        0 <= i < j < s.len() ==> (#[trigger] s[i].name@) != (#[trigger] s[j].name@)
}

/// The name-to-information map the entries denote.
spec fn info_map_of<M>(s: Seq<RegistryEntry<M>>) -> Map<Seq<char>, ModelInfoView>
    decreases s.len(),
{
    if s.len() == 0 {
        Map::empty()
    } else {
        info_map_of(s.drop_last()).insert(s.last().name@, s.last().info@)
    }
}

/// A name is in the map exactly when some entry carries it.
proof fn lemma_info_map_contains<M>(s: Seq<RegistryEntry<M>>, n: Seq<char>)
    ensures
        info_map_of(s).contains_key(n) <==> exists|i: int|
            0 <= i < s.len() && (#[trigger] s[i].name@) == n,
    decreases s.len(),
{
    if s.len() > 0 {
        lemma_info_map_contains(s.drop_last(), n);
        if info_map_of(s).contains_key(n) && s.last().name@ != n {
            let i = choose|i: int| 0 <= i < s.drop_last().len() && (#[trigger] s.drop_last()[i].name@) == n;
            assert(s[i].name@ == n);
        }
        if exists|i: int| 0 <= i < s.len() && (#[trigger] s[i].name@) == n {
            let i = choose|i: int| 0 <= i < s.len() && (#[trigger] s[i].name@) == n;
            if i < s.len() - 1 {
                assert(s.drop_last()[i].name@ == n);
            }
        }
    }
}

/// Under well-formedness, the map sends each entry's name to its information.
proof fn lemma_info_map_at<M>(s: Seq<RegistryEntry<M>>, i: int)
    requires
        wf_entries(s),
        0 <= i < s.len(),
    ensures
        info_map_of(s).contains_key(s[i].name@),
        info_map_of(s)[s[i].name@] == s[i].info@,
    decreases s.len(),
{
    if i < s.len() - 1 {
        assert(wf_entries(s.drop_last()));
        lemma_info_map_at(s.drop_last(), i);
        assert(s.drop_last()[i] == s[i]);
    }
}

/// Under well-formedness, removing an entry removes exactly its name.
proof fn lemma_info_map_remove<M>(s: Seq<RegistryEntry<M>>, i: int)
    requires
        wf_entries(s),
        0 <= i < s.len(),
    ensures
        info_map_of(s.remove(i)) == info_map_of(s).remove(s[i].name@),
    decreases s.len(),
{
    let n = s[i].name@;
    if i == s.len() - 1 {
        assert(s.remove(i) =~= s.drop_last());
        lemma_info_map_contains(s.drop_last(), n);
        assert(!info_map_of(s.drop_last()).contains_key(n));
        assert(info_map_of(s.drop_last()).insert(n, s.last().info@).remove(n) =~= info_map_of(
            s.drop_last(),
        ));
    } else {
        assert(wf_entries(s.drop_last()));
        lemma_info_map_remove(s.drop_last(), i);
        assert(s.remove(i).drop_last() =~= s.drop_last().remove(i));
        assert(s.remove(i).last() == s.last());
        assert(s.last().name@ != n);
        assert(info_map_of(s.drop_last()).remove(n).insert(s.last().name@, s.last().info@)
            =~= info_map_of(s.drop_last()).insert(s.last().name@, s.last().info@).remove(n));
    }
}

impl<M> ModelRegistry<M> {
    /// Well-formedness: no two entries share a name.
    pub closed spec fn wf(self) -> bool {
        wf_entries(self.entries@)
    }

    /// The mathematical content of the registry: name to information.
    pub closed spec fn spec_info_map(self) -> Map<Seq<char>, ModelInfoView> {
        info_map_of(self.entries@)
    }

    /// Whether a model of this name is loaded.
    pub open spec fn spec_contains(self, name: Seq<char>) -> bool {
        self.spec_info_map().contains_key(name)
    }

    /// The information records, in registry order.
    pub closed spec fn spec_infos(self) -> Seq<ModelInfoView> {
        self.entries@.map_values(|e: RegistryEntry<M>| e.info@)
    }

    /// The registered names, in registry order.
    pub closed spec fn spec_names(self) -> Seq<Seq<char>> {
        self.entries@.map_values(|e: RegistryEntry<M>| e.name@)
    }

    /// The loaded instances, in registry order.
    pub closed spec fn spec_models(self) -> Seq<M> {
        self.entries@.map_values(|e: RegistryEntry<M>| e.model)
    }

    /// Whether `m` is one of the loaded instances.
    pub open spec fn is_registered_model(self, m: M) -> bool {
        exists|j: int| 0 <= j < self.spec_models().len() && m == (#[trigger] self.spec_models()[j])
    }
}

impl<M: EmbeddingModel> ModelRegistry<M> {
    /// An empty registry.
    pub fn new() -> (r: ModelRegistry<M>)
        ensures
            r.wf(),
            r.spec_info_map() == Map::<Seq<char>, ModelInfoView>::empty(),
            r.spec_infos().len() == 0,
            r.spec_names().len() == 0,
    {
        let r = ModelRegistry { entries: Vec::new() };
        proof {
            assert(r.entries@.map_values(|e: RegistryEntry<M>| e.info@) =~= Seq::<
                ModelInfoView,
            >::empty());
            assert(r.entries@.map_values(|e: RegistryEntry<M>| e.name@) =~= Seq::<
                Seq<char>,
            >::empty());
        }
        r
    }

    /// The index of the entry named `name`, unique when one exists.
    fn find_index(&self, name: &str) -> (r: Option<usize>)
        ensures
            match r {
                Some(i) => i < self.entries@.len() && self.entries@[i as int].name@ == name@,
                None => forall|j: int|
                    0 <= j < self.entries@.len() ==> (#[trigger] self.entries@[j].name@) != name@,
            },
    {
        let mut i: usize = 0;
        while i < self.entries.len()
            invariant
                i <= self.entries@.len(),
                forall|j: int| 0 <= j < i ==> (#[trigger] self.entries@[j].name@) != name@,
            decreases self.entries@.len() - i,
        {
            if str_eq(self.entries[i].name.as_str(), name) {
                return Some(i);
            }
            i += 1;
        }
        None
    }

    /// Publishes a fully built model under its configuration's name: the
    /// registry afterwards maps that name to the configuration's information,
    /// and every other name exactly as before.
    pub fn load_model(&mut self, config: &ModelConfig, model: M) -> (r: EmbeddingResult<()>)
        requires
            old(self).wf(),
        ensures
            final(self).wf(),
            r is Ok,
            final(self).spec_info_map() == old(self).spec_info_map().insert(
                config.name@,
                spec_info_of_config(*config),
            ),
            final(self).spec_contains(config.name@),
    {
        let info = ModelInfo::from_model_config(config);
        let name = config.name.clone();
        match self.find_index(name.as_str()) {
            Some(i) => {
                proof {
                    lemma_info_map_remove(self.entries@, i as int);
                }
                self.entries.remove(i);
                proof {
                    assert(wf_entries(self.entries@));
                    lemma_info_map_contains(self.entries@, config.name@);
                }
            },
            None => {
                proof {
                    lemma_info_map_contains(self.entries@, config.name@);
                }
            },
        }
        let ghost mid = self.entries@;
        self.entries.push(RegistryEntry { name, model, info });
        proof {
            assert(self.entries@.drop_last() =~= mid);
            assert(!info_map_of(mid).contains_key(config.name@));
            assert(wf_entries(self.entries@)) by {
                lemma_info_map_contains(mid, config.name@);
                assert forall|i: int, j: int|
                    0 <= i < j < self.entries@.len() implies (#[trigger] self.entries@[i].name@)
                    != (#[trigger] self.entries@[j].name@) by {
                    if j == self.entries@.len() - 1 {
                        assert(mid[i].name@ == self.entries@[i].name@);
                    } else {
                        assert(mid[i] == self.entries@[i]);
                        assert(mid[j] == self.entries@[j]);
                    }
                }
            }
            assert(old(self).spec_info_map().remove(config.name@).insert(
                config.name@,
                spec_info_of_config(*config),
            ) =~= old(self).spec_info_map().insert(config.name@, spec_info_of_config(*config)));
        }
        Ok(())
    }

    /// The loaded model of this name, present exactly when one is registered.
    pub fn get_model(&self, name: &str) -> (r: Option<&M>)
        ensures
            r is Some <==> self.spec_contains(name@),
            r matches Some(m) ==> self.is_registered_model(*m),
    {
        proof {
            lemma_info_map_contains(self.entries@, name@);
        }
        match self.find_index(name) {
            Some(i) => {
                proof {
                    assert(self.spec_models()[i as int] == self.entries@[i as int].model);
                }
                Some(&self.entries[i].model)
            },
            None => None,
        }
    }

    /// The information of the model of this name, present exactly when one
    /// is registered, and then exactly what the registry's map holds.
    pub fn get_model_info(&self, name: &str) -> (r: Option<ModelInfo>)
        requires
            self.wf(),
        ensures
            r is Some <==> self.spec_contains(name@),
            r matches Some(info) ==> info@ == self.spec_info_map()[name@],
    {
        proof {
            lemma_info_map_contains(self.entries@, name@);
        }
        match self.find_index(name) {
            Some(i) => {
                proof {
                    lemma_info_map_at(self.entries@, i as int);
                }
                Some(self.entries[i].info.clone())
            },
            None => None,
        }
    }

    /// The names of all loaded models, in registry order.
    pub fn list_models(&self) -> (r: Vec<String>)
        ensures
            r@.len() == self.spec_names().len(),
            forall|i: int| 0 <= i < r@.len() ==> (#[trigger] r@[i]@) == self.spec_names()[i],
    {
        let mut r: Vec<String> = Vec::new();
        let mut i: usize = 0;
        while i < self.entries.len()
            invariant
                i <= self.entries@.len(),
                r@.len() == i,
                forall|j: int| 0 <= j < i ==> (#[trigger] r@[j]@) == self.entries@[j].name@,
            decreases self.entries@.len() - i,
        {
            r.push(self.entries[i].name.clone());
            i += 1;
        }
        r
    }

    /// The information of all loaded models, in registry order.
    pub fn list_model_infos(&self) -> (r: Vec<ModelInfo>)
        ensures
            r@.len() == self.spec_infos().len(),
            forall|i: int| 0 <= i < r@.len() ==> (#[trigger] r@[i]@) == self.spec_infos()[i],
    {
        let mut r: Vec<ModelInfo> = Vec::new();
        let mut i: usize = 0;
        while i < self.entries.len()
            invariant
                i <= self.entries@.len(),
                r@.len() == i,
                forall|j: int| 0 <= j < i ==> (#[trigger] r@[j]@) == self.entries@[j].info@,
            decreases self.entries@.len() - i,
        {
            r.push(self.entries[i].info.clone());
            i += 1;
        }
        r
    }

    /// Whether a model of this name is loaded.
    pub fn is_model_loaded(&self, name: &str) -> (r: bool)
        ensures
            r == self.spec_contains(name@),
    {
        proof {
            lemma_info_map_contains(self.entries@, name@);
        }
        match self.find_index(name) {
            Some(_) => true,
            None => false,
        }
    }

    /// Removes the model of this name: afterwards the registry maps every
    /// other name exactly as before and this one not at all.  Fails with
    /// `ModelNotFound` exactly when no such model is loaded, leaving the
    /// registry unchanged.
    pub fn unload_model(&mut self, name: &str) -> (r: EmbeddingResult<()>)
        requires
            old(self).wf(),
        ensures
            final(self).wf(),
            r is Ok <==> old(self).spec_contains(name@),
            r is Ok ==> final(self).spec_info_map() == old(self).spec_info_map().remove(name@),
            r is Ok ==> !final(self).spec_contains(name@),
            r matches Err(e) ==> *final(self) == *old(self) && (e
                matches EmbeddingError::ModelNotFound { model_name } && model_name@ == name@),
    {
        proof {
            lemma_info_map_contains(self.entries@, name@);
        }
        match self.find_index(name) {
            Some(i) => {
                proof {
                    lemma_info_map_remove(self.entries@, i as int);
                }
                self.entries.remove(i);
                proof {
                    assert(wf_entries(self.entries@));
                    lemma_info_map_contains(self.entries@, name@);
                }
                Ok(())
            },
            None => Err(
                EmbeddingError::ModelNotFound { model_name: name.to_owned() },
            ),
        }
    }

    /// The loaded default model of the configuration, if any.
    pub fn get_default_model<'a>(
        &'a self,
        config: &crate::models::config::EmbeddingModelsConfig,
    ) -> (r: Option<&'a M>)
        ensures
            r is Some <==> self.spec_contains(config.global.default_model@),
    {
        let name = config.global.default_model.clone();
        self.get_model(name.as_str())
    }

    /// The loaded models a named group lists; a member not loaded is skipped,
    /// and an unknown group yields nothing.
    pub fn get_models_by_group<'a>(
        &'a self,
        group: &str,
        config: &crate::models::config::EmbeddingModelsConfig,
    ) -> (r: Vec<&'a M>)
        ensures
            forall|k: int| 0 <= k < r@.len() ==> self.is_registered_model(*(#[trigger] r@[k])),
    {
        let names: &Vec<String> = if str_eq(group, "general") {
            &config.model_groups.general
        } else if str_eq(group, "multilingual") {
            &config.model_groups.multilingual
        } else if str_eq(group, "high_dim") {
            &config.model_groups.high_dim
        } else if str_eq(group, "gpu_models") {
            &config.model_groups.gpu_models
        } else {
            return Vec::new();
        };
        let mut r: Vec<&'a M> = Vec::new();
        let mut i: usize = 0;
        while i < names.len()
            invariant
                forall|k: int| 0 <= k < r@.len() ==> self.is_registered_model(*(#[trigger] r@[k])),
            decreases names@.len() - i,
        {
            let ghost prev = r@;
            match self.get_model(names[i].as_str()) {
                Some(m) => {
                    r.push(m);
                    proof {
                        assert forall|k: int|
                            0 <= k < r@.len() implies self.is_registered_model(
                            *(#[trigger] r@[k]),
                        ) by {
                            if k < prev.len() {
                                assert(r@[k] == prev[k]);
                            } else {
                                assert(r@[k] == m);
                            }
                        }
                    }
                },
                None => {},
            }
            i += 1;
        }
        r
    }

    /// The loaded models that report GPU support.
    pub fn get_gpu_models<'a>(&'a self) -> (r: Vec<&'a M>)
        ensures
            forall|k: int| 0 <= k < r@.len() ==> self.is_registered_model(*(#[trigger] r@[k])),
    {
        let mut r: Vec<&'a M> = Vec::new();
        let mut i: usize = 0;
        while i < self.entries.len()
            invariant
                i <= self.entries@.len(),
                forall|k: int| 0 <= k < r@.len() ==> self.is_registered_model(*(#[trigger] r@[k])),
            decreases self.entries@.len() - i,
        {
            let ghost prev = r@;
            if self.entries[i].model.supports_gpu() {
                r.push(&self.entries[i].model);
                proof {
                    assert forall|k: int|
                        0 <= k < r@.len() implies self.is_registered_model(
                        *(#[trigger] r@[k]),
                    ) by {
                        if k < prev.len() {
                            assert(r@[k] == prev[k]);
                        } else {
                            assert(*r@[k] == self.entries@[i as int].model);
                            assert(self.spec_models()[i as int] == self.entries@[i as int].model);
                        }
                    }
                }
            }
            i += 1;
        }
        r
    }

    /// Drops every loaded model; the registry is empty afterwards.
    pub fn shutdown_all(&mut self) -> (r: EmbeddingResult<()>)
        ensures
            final(self).wf(),
            r is Ok,
            final(self).spec_info_map() == Map::<Seq<char>, ModelInfoView>::empty(),
            final(self).spec_infos().len() == 0,
            final(self).spec_names().len() == 0,
    {
        self.entries.clear();
        proof {
            assert(self.entries@.map_values(|e: RegistryEntry<M>| e.info@) =~= Seq::<
                ModelInfoView,
            >::empty());
            assert(self.entries@.map_values(|e: RegistryEntry<M>| e.name@) =~= Seq::<
                Seq<char>,
            >::empty());
        }
        Ok(())
    }
}

/// What the registry's contracts compose to: a name just loaded is present
/// with exactly its configuration's information, and a name just unloaded is
/// absent — stated over the registry's mathematical model.
pub proof fn lemma_load_unload_visibility(
    m: Map<Seq<char>, ModelInfoView>,
    name: Seq<char>,
    info: ModelInfoView,
)
    ensures
        m.insert(name, info).contains_key(name),
        m.insert(name, info)[name] == info,
        !m.remove(name).contains_key(name),
{
}

} // verus!
