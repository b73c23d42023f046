//! The bot's configuration: its credentials, the model providers it knows, and which provider
//! and model it uses by default.

use vstd::prelude::*;

use crate::text::chars_equal;

verus! {

/// A model a provider offers; `P` is what the configuration says of its price.
pub struct ModelConfig<P> {
    pub model: String,
    pub price: Option<P>,
}

/// A model provider: where it is reached, with which key, and the models it offers by name.
pub struct ProviderConfig<P> {
    pub url: String,
    pub key: String,
    models: Vec<(String, ModelConfig<P>)>,
}

/// The configuration of the bot.
pub struct Config<P> {
    pub app_id: String,
    pub client_secret: String,
    default_provider: String,
    default_model: String,
    providers: Vec<(String, ProviderConfig<P>)>,
}

/// The names of named entries.
pub open spec fn names<V>(entries: Seq<(String, V)>) -> Seq<Seq<char>> {
    Seq::new(entries.len(), |i: int| entries[i].0@)
}

/// Whether no name occurs twice.
pub open spec fn names_unique<V>(entries: Seq<(String, V)>) -> bool {
    forall|i: int, j: int|
        0 <= i < j < entries.len() ==> (#[trigger] entries[i]).0@ != (#[trigger] entries[j]).0@
}

/// The entry named `name`: the first one, which with unique names is the only one.
pub open spec fn find<V>(entries: Seq<(String, V)>, name: Seq<char>) -> Option<V>
    decreases entries.len(),
{
    if entries.len() == 0 {
        None
    } else if entries[0].0@ == name {
        Some(entries[0].1)
    } else {
        find(entries.skip(1), name)
    }
}

proof fn lemma_find_step<V>(entries: Seq<(String, V)>, name: Seq<char>, i: int)
    requires
        0 <= i <= entries.len(),
        forall|j: int| 0 <= j < i ==> (#[trigger] entries[j]).0@ != name,
    ensures
        find(entries, name) == find(entries.skip(i), name),
    decreases i,
{
    if i > 0 {
        assert(entries[0].0@ != name);
        assert forall|j: int| 0 <= j < i - 1 implies (#[trigger] entries.skip(1)[j]).0@ != name by {
            assert(entries.skip(1)[j] == entries[j + 1]);
        }
        lemma_find_step(entries.skip(1), name, i - 1);
        assert(entries.skip(1).skip(i - 1) =~= entries.skip(i));
    } else {
        assert(entries.skip(0) =~= entries);
    }
}

/// The entry named `name`.
fn find_entry<'a, V>(entries: &'a Vec<(String, V)>, name: &str) -> (r: Option<&'a V>)
    ensures
        r matches Some(v) ==> find(entries@, name@) == Some(*v),
        r is None ==> find(entries@, name@) is None,
{
    let mut i: usize = 0;
    while i < entries.len()
        invariant
            i <= entries@.len(),
            forall|j: int| 0 <= j < i ==> (#[trigger] entries@[j]).0@ != name@,
        decreases entries@.len() - i,
    {
        if chars_equal(entries[i].0.as_str(), name) {
            proof {
                lemma_find_step(entries@, name@, i as int);
                assert(entries@.skip(i as int)[0] == entries@[i as int]);
            }
            return Some(&entries[i].1);
        }
        i += 1;
    }
    proof {
        lemma_find_step(entries@, name@, i as int);
    }
    None
}

/// Whether no name occurs twice among `entries`.
fn unique_names<V>(entries: &Vec<(String, V)>) -> (r: bool)
    ensures
        r == names_unique(entries@),
{
    let mut i: usize = 0;
    while i < entries.len()
        invariant
            i <= entries@.len(),
            forall|a: int, b: int|
                0 <= a < b < entries@.len() && a < i ==> (#[trigger] entries@[a]).0@ != (
                #[trigger] entries@[b]).0@,
        decreases entries@.len() - i,
    {
        let mut j: usize = i + 1;
        while j < entries.len()
            invariant
                i < entries@.len(),
                i + 1 <= j <= entries@.len(),
                forall|a: int, b: int|
                    0 <= a < b < entries@.len() && a < i ==> (#[trigger] entries@[a]).0@ != (
                    #[trigger] entries@[b]).0@,
                forall|b: int| i < b < j ==> entries@[i as int].0@ != (#[trigger] entries@[b]).0@,
            decreases entries@.len() - j,
        {
            if chars_equal(entries[i].0.as_str(), entries[j].0.as_str()) {
                return false;
            }
            j += 1;
        }
        i += 1;
    }
    true
}

impl<P> ProviderConfig<P> {
    pub closed spec fn spec_url(&self) -> String {
        self.url
    }

    pub closed spec fn spec_key(&self) -> String {
        self.key
    }

    /// The models offered, by name.
    pub closed spec fn spec_models(&self) -> Seq<(String, ModelConfig<P>)> {
        self.models@
    }

    /// A provider offering `models`; `None` when a model name occurs twice.
    pub fn new(url: String, key: String, models: Vec<(String, ModelConfig<P>)>) -> (r: Option<Self>)
        ensures
            names_unique(models@) ==> (r matches Some(p) && p.spec_url() == url && p.spec_key() == key
                && p.spec_models() == models@),
            !names_unique(models@) ==> r is None,
    {
        if unique_names(&models) {
            Some(ProviderConfig { url, key, models })
        } else {
            None
        }
    }

    /// The models offered, by name; no name occurs twice.
    pub fn models(&self) -> (r: &Vec<(String, ModelConfig<P>)>)
        ensures
            r@ == self.spec_models(),
    {
        &self.models
    }
}

impl<P> Config<P> {
    pub closed spec fn spec_app_id(&self) -> String {
        self.app_id
    }

    pub closed spec fn spec_client_secret(&self) -> String {
        self.client_secret
    }

    pub closed spec fn spec_default_provider(&self) -> Seq<char> {
        self.default_provider@
    }

    pub closed spec fn spec_default_model(&self) -> Seq<char> {
        self.default_model@
    }

    pub closed spec fn spec_providers(&self) -> Seq<(String, ProviderConfig<P>)> {
        self.providers@
    }

    /// The provider used by default.
    pub open spec fn selected_provider(&self) -> Option<ProviderConfig<P>> {
        find(self.spec_providers(), self.spec_default_provider())
    }

    /// The model used by default: the default model of the default provider.
    pub open spec fn selected_model(&self) -> Option<ModelConfig<P>> {
        match self.selected_provider() {
            Some(p) => find(p.spec_models(), self.spec_default_model()),
            None => None,
        }
    }

    /// A configuration; `None` when a provider name occurs twice.
    pub fn new(
        app_id: String,
        client_secret: String,
        default_provider: String,
        default_model: String,
        providers: Vec<(String, ProviderConfig<P>)>,
    ) -> (r: Option<Self>)
        ensures
            names_unique(providers@) ==> (r matches Some(c) && c.spec_app_id() == app_id
                && c.spec_client_secret() == client_secret && c.spec_default_provider()
                == default_provider@ && c.spec_default_model() == default_model@
                && c.spec_providers() == providers@),
            !names_unique(providers@) ==> r is None,
    {
        if unique_names(&providers) {
            Some(Config { app_id, client_secret, default_provider, default_model, providers })
        } else {
            None
        }
    }

    /// The name of the provider used by default.
    pub fn default_provider_name(&self) -> (r: &str)
        ensures
            r@ == self.spec_default_provider(),
    {
        self.default_provider.as_str()
    }

    /// The name of the model used by default.
    pub fn default_model_name(&self) -> (r: &str)
        ensures
            r@ == self.spec_default_model(),
    {
        self.default_model.as_str()
    }

    /// The providers, by name; no name occurs twice.
    pub fn providers(&self) -> (r: &Vec<(String, ProviderConfig<P>)>)
        ensures
            r@ == self.spec_providers(),
    {
        &self.providers
    }

    /// The provider used by default, when the configuration has it.
    pub fn get_default_provider(&self) -> (r: Option<&ProviderConfig<P>>)
        ensures
            r matches Some(p) ==> self.selected_provider() == Some(*p),
            r is None ==> self.selected_provider() is None,
    {
        find_entry(&self.providers, self.default_provider.as_str())
    }

    /// The model used by default, when the default provider offers it.
    pub fn get_default_model(&self) -> (r: Option<&ModelConfig<P>>)
        ensures
            r matches Some(m) ==> self.selected_model() == Some(*m),
            r is None ==> self.selected_model() is None,
    {
        match self.get_default_provider() {
            Some(p) => find_entry(&p.models, self.default_model.as_str()),
            None => None,
        }
    }

    /// Makes `provider` the provider used by default.
    pub fn set_default_provider(&mut self, provider: &str)
        ensures
            final(self).spec_default_provider() == provider@,
            final(self).selected_provider() == find(old(self).spec_providers(), provider@),
            final(self).spec_default_model() == old(self).spec_default_model(),
            final(self).spec_providers() == old(self).spec_providers(),
            final(self).spec_app_id() == old(self).spec_app_id(),
            final(self).spec_client_secret() == old(self).spec_client_secret(),
    {
        self.default_provider = provider.to_owned();
    }

    /// Makes `model` the model used by default.
    pub fn set_default_model(&mut self, model: &str)
        ensures
            final(self).spec_default_model() == model@,
            final(self).selected_model() == match old(self).selected_provider() {
                Some(p) => find(p.spec_models(), model@),
                None => None,
            },
            final(self).spec_default_provider() == old(self).spec_default_provider(),
            final(self).spec_providers() == old(self).spec_providers(),
            final(self).spec_app_id() == old(self).spec_app_id(),
            final(self).spec_client_secret() == old(self).spec_client_secret(),
    {
        self.default_model = model.to_owned();
    }
}

/// With unique names, the entry found under a name is the entry that has it.
pub proof fn law_find_gives_the_named_entry<V>(entries: Seq<(String, V)>, i: int)
    requires
        names_unique(entries),
        0 <= i < entries.len(),
    ensures
        find(entries, entries[i].0@) == Some(entries[i].1),
{
    assert forall|j: int| 0 <= j < i implies (#[trigger] entries[j]).0@ != entries[i].0@ by {
        assert(entries[j].0@ != entries[i].0@);
    }
    lemma_find_step(entries, entries[i].0@, i);
    assert(entries.skip(i)[0] == entries[i]);
}

} // verus!
