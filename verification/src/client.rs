//! Chat client defaults, configured provider entries and the provider registry.
//!
//! The registry stores configured provider entries by instance id and connects a
//! shared backend for an entry the first time a client is requested for it; later
//! requests for the same entry reuse that backend.
use vstd::prelude::*;
use vstd::string::*;

use crate::chat::{ChatMessage, opt_view};
use crate::error::LlmError;
use crate::request::{ChatCompletionRequest, system_block_len, with_system_inserted};
use crate::text::{append_str, owned, str_eq, views};

verus! {

/// Per-call defaults for constructing a [`ChatClient`].
#[derive(Clone, Debug, PartialEq, Eq)]
pub struct ChatClientOptions {
    model: String,
    system_prompt: Option<String>,
}

impl ChatClientOptions {
    /// The default model.
    pub closed spec fn spec_model(self) -> Seq<char> {
        self.model@
    }

    /// The default system prompt.
    pub closed spec fn spec_system_prompt(self) -> Option<Seq<char>> {
        opt_view(self.system_prompt)
    }

    /// Create options with a required default model.
    pub fn new(model: &str) -> (r: Self)
        ensures
            r.spec_model() == model@,
            r.spec_system_prompt() is None,
    {
        ChatClientOptions { model: owned(model), system_prompt: None }
    }

    /// Add a default system prompt that will be injected into requests built by the client.
    pub fn with_system_prompt(self, system_prompt: &str) -> (r: Self)
        ensures
            r.spec_model() == self.spec_model(),
            r.spec_system_prompt() == Some(system_prompt@),
    {
        ChatClientOptions { system_prompt: Some(owned(system_prompt)), ..self }
    }

    /// Returns the configured default model.
    pub fn model(&self) -> (r: &str)
        ensures
            r@ == self.spec_model(),
    {
        self.model.as_str()
    }

    /// Returns the configured default system prompt.
    pub fn system_prompt(&self) -> (r: Option<&str>)
        ensures
            crate::chat::opt_str_view(r) == self.spec_system_prompt(),
    {
        match &self.system_prompt {
            Some(s) => Some(s.as_str()),
            None => None,
        }
    }
}

/// Configured DeepSeek provider entry: instance id, API key and optional base URL.
#[derive(Clone, Debug, PartialEq, Eq)]
pub struct DeepSeekProvider {
    id: String,
    api_key: String,
    base_url: Option<String>,
}

impl DeepSeekProvider {
    /// The instance id.
    pub closed spec fn spec_id(self) -> Seq<char> {
        self.id@
    }

    /// The API key.
    pub closed spec fn spec_api_key(self) -> Seq<char> {
        self.api_key@
    }

    /// The base URL override.
    pub closed spec fn spec_base_url(self) -> Option<Seq<char>> {
        opt_view(self.base_url)
    }

    /// Create a configured provider entry from an explicit id and API key.
    pub fn new(id: &str, api_key: &str) -> (r: Self)
        ensures
            r.spec_id() == id@,
            r.spec_api_key() == api_key@,
            r.spec_base_url() is None,
    {
        DeepSeekProvider { id: owned(id), api_key: owned(api_key), base_url: None }
    }

    /// Alias for [`Self::new`] that keeps the old constructor naming.
    pub fn from_api_key(id: &str, api_key: &str) -> (r: Self)
        ensures
            r.spec_id() == id@,
            r.spec_api_key() == api_key@,
            r.spec_base_url() is None,
    {
        Self::new(id, api_key)
    }

    /// Override the base URL.
    pub fn with_base_url(self, url: &str) -> (r: Self)
        ensures
            r.spec_id() == self.spec_id(),
            r.spec_api_key() == self.spec_api_key(),
            r.spec_base_url() == Some(url@),
    {
        DeepSeekProvider { base_url: Some(owned(url)), ..self }
    }

    /// Returns the instance id.
    pub fn instance_id(&self) -> (r: &str)
        ensures
            r@ == self.spec_id(),
    {
        self.id.as_str()
    }

    /// Returns the provider family of this entry.
    pub fn family(&self) -> (r: &'static str)
        ensures
            r@ == "deepseek"@,
    {
        "deepseek"
    }

    /// Returns the API key.
    pub fn api_key(&self) -> (r: &str)
        ensures
            r@ == self.spec_api_key(),
    {
        self.api_key.as_str()
    }

    /// Returns the base URL override, if any.
    pub fn base_url(&self) -> (r: Option<&str>)
        ensures
            crate::chat::opt_str_view(r) == self.spec_base_url(),
    {
        match &self.base_url {
            Some(s) => Some(s.as_str()),
            None => None,
        }
    }
}

/// Configured OpenAI-compatible provider entry: instance id, API key and base URL.
#[derive(Clone, Debug, PartialEq, Eq)]
pub struct OpenAiCompatProvider {
    id: String,
    api_key: String,
    base_url: String,
}

impl OpenAiCompatProvider {
    /// The instance id.
    pub closed spec fn spec_id(self) -> Seq<char> {
        self.id@
    }

    /// The API key.
    pub closed spec fn spec_api_key(self) -> Seq<char> {
        self.api_key@
    }

    /// The base URL.
    pub closed spec fn spec_base_url(self) -> Seq<char> {
        self.base_url@
    }

    /// Create a configured provider entry with an explicit base URL.
    pub fn new(id: &str, api_key: &str, base_url: &str) -> (r: Self)
        ensures
            r.spec_id() == id@,
            r.spec_api_key() == api_key@,
            r.spec_base_url() == base_url@,
    {
        OpenAiCompatProvider { id: owned(id), api_key: owned(api_key), base_url: owned(base_url) }
    }

    /// Alias for [`Self::new`] that keeps the old constructor naming.
    pub fn from_api_key(id: &str, api_key: &str, base_url: &str) -> (r: Self)
        ensures
            r.spec_id() == id@,
            r.spec_api_key() == api_key@,
            r.spec_base_url() == base_url@,
    {
        Self::new(id, api_key, base_url)
    }

    /// Returns the instance id.
    pub fn instance_id(&self) -> (r: &str)
        ensures
            r@ == self.spec_id(),
    {
        self.id.as_str()
    }

    /// Returns the provider family of this entry.
    pub fn family(&self) -> (r: &'static str)
        ensures
            r@ == "openai-compatible"@,
    {
        "openai-compatible"
    }

    /// Returns the API key.
    pub fn api_key(&self) -> (r: &str)
        ensures
            r@ == self.spec_api_key(),
    {
        self.api_key.as_str()
    }

    /// Returns the base URL.
    pub fn base_url(&self) -> (r: &str)
        ensures
            r@ == self.spec_base_url(),
    {
        self.base_url.as_str()
    }
}

/// A client pairing a provider entry id and request defaults with a shared backend.
#[derive(Debug)]
pub struct ChatClient<B> {
    provider_id: String,
    model: String,
    system_prompt: Option<String>,
    backend: B,
}

impl<B> ChatClient<B> {
    /// The provider entry id.
    pub closed spec fn spec_provider_id(self) -> Seq<char> {
        self.provider_id@
    }

    /// The default model.
    pub closed spec fn spec_model(self) -> Seq<char> {
        self.model@
    }

    /// The default system prompt.
    pub closed spec fn spec_system_prompt(self) -> Option<Seq<char>> {
        opt_view(self.system_prompt)
    }

    /// The shared backend.
    pub closed spec fn spec_backend(self) -> B {
        self.backend
    }

    /// Creates a client from an entry id, defaults and a backend.
    pub fn new(provider_id: &str, options: ChatClientOptions, backend: B) -> (r: Self)
        ensures
            r.spec_provider_id() == provider_id@,
            r.spec_model() == options.spec_model(),
            r.spec_system_prompt() == options.spec_system_prompt(),
            r.spec_backend() == backend,
    {
        ChatClient {
            provider_id: owned(provider_id),
            model: options.model,
            system_prompt: options.system_prompt,
            backend,
        }
    }

    /// Returns the provider entry id used to create this client.
    pub fn provider_id(&self) -> (r: &str)
        ensures
            r@ == self.spec_provider_id(),
    {
        self.provider_id.as_str()
    }

    /// Returns the provider entry id used to create this client.
    pub fn instance_id(&self) -> (r: &str)
        ensures
            r@ == self.spec_provider_id(),
    {
        self.provider_id.as_str()
    }

    /// Returns the default model.
    pub fn model(&self) -> (r: &str)
        ensures
            r@ == self.spec_model(),
    {
        self.model.as_str()
    }

    /// Returns the configured default system prompt, if any.
    pub fn system_prompt(&self) -> (r: Option<&str>)
        ensures
            crate::chat::opt_str_view(r) == self.spec_system_prompt(),
    {
        match &self.system_prompt {
            Some(s) => Some(s.as_str()),
            None => None,
        }
    }

    /// Returns the shared backend.
    pub fn backend(&self) -> (r: &B)
        ensures
            *r == self.spec_backend(),
    {
        &self.backend
    }

    /// Returns the client with a new default model.
    pub fn with_model(self, model: &str) -> (r: Self)
        ensures
            r.spec_model() == model@,
            r.spec_provider_id() == self.spec_provider_id(),
            r.spec_system_prompt() == self.spec_system_prompt(),
            r.spec_backend() == self.spec_backend(),
    {
        ChatClient { model: owned(model), ..self }
    }

    /// Returns the client with a new default system prompt.
    pub fn with_system_prompt(self, system_prompt: &str) -> (r: Self)
        ensures
            r.spec_system_prompt() == Some(system_prompt@),
            r.spec_provider_id() == self.spec_provider_id(),
            r.spec_model() == self.spec_model(),
            r.spec_backend() == self.spec_backend(),
    {
        ChatClient { system_prompt: Some(owned(system_prompt)), ..self }
    }

    /// Returns the client without a default system prompt.
    pub fn clear_system_prompt(self) -> (r: Self)
        ensures
            r.spec_system_prompt() is None,
            r.spec_provider_id() == self.spec_provider_id(),
            r.spec_model() == self.spec_model(),
            r.spec_backend() == self.spec_backend(),
    {
        ChatClient { system_prompt: None, ..self }
    }

    /// Create a request pre-filled with this client's default model and system prompt:
    /// the messages as given, with the default system prompt (if any) inserted at the
    /// end of their leading system block.
    pub fn create_request(&self, messages: Vec<ChatMessage>) -> (r: ChatCompletionRequest)
        ensures
            r.model@ == self.spec_model(),
            r.tools is None && r.tool_choice is None && r.stream is None && r.max_tokens is None,
            match self.spec_system_prompt() {
                None => r.messages == messages,
                Some(p) => {
                    &&& r.messages@ == with_system_inserted(messages@, r.messages@[system_block_len(messages@)])
                    &&& r.messages@[system_block_len(messages@)] matches ChatMessage::Message(m)
                    &&& m.role@ == "system"@
                    &&& m.content@ == p
                    &&& m.name is None
                    &&& m.reasoning_content is None
                },
            },
    {
        let request = ChatCompletionRequest::new(self.model.as_str(), messages);
        match &self.system_prompt {
            Some(p) => request.with_system_prompt(p.as_str()),
            None => request,
        }
    }
}

/// A configured provider entry that can connect a backend of type `B`.
///
/// Applications implement this for their own provider configurations; the registry
/// looks entries up by [`ProviderEntry::instance_id`].
pub trait ProviderEntry<B> {
    /// Whether `id` is an instance identifier this entry may report. An entry
    /// that states nothing of its identifier admits every text.
    open spec fn allows_instance_id(&self, id: Seq<char>) -> bool {
        true
    }

    /// Stable instance identifier for this configured provider entry.
    fn instance_id(&self) -> (r: &str)
        ensures
            self.allows_instance_id(r@),
    ;

    /// Whether `backend` is a backend this entry may connect. An entry that states
    /// nothing of its backends admits every backend.
    open spec fn allows_backend(&self, backend: B) -> bool {
        true
    }

    /// Connect a backend using the entry's configuration.
    fn connect(&self) -> (r: Result<B, LlmError>)
        ensures
            r matches Ok(b) ==> self.allows_backend(b),
    ;
}

/// Registry of configured provider entries of type `P`, keyed by the instance id
/// each entry reported when it was registered, each with the backend of type `B`
/// it connected (once it has).
pub struct ProviderRegistry<P, B> {
    providers: Vec<P>,
    ids: Vec<String>,
    backends: Vec<Option<B>>,
}

impl<P: ProviderEntry<B>, B: Clone> ProviderRegistry<P, B> {
    /// The instance ids of the registered entries, in registration order.
    pub closed spec fn ids(self) -> Seq<Seq<char>> {
        views(self.ids@)
    }

    /// The registered entries, in registration order.
    pub closed spec fn entries(self) -> Seq<P> {
        self.providers@
    }

    /// The connected backend cached for each entry, in registration order.
    pub closed spec fn cached(self) -> Seq<Option<B>> {
        self.backends@
    }

    /// One id and one cache slot per entry, and instance ids are unique.
    pub open spec fn wf(self) -> bool {
        &&& self.ids().len() == self.cached().len()
        &&& self.entries().len() == self.ids().len()
        &&& self.ids().no_duplicates()
    }

    /// Create an empty registry.
    pub fn new() -> (r: Self)
        ensures
            r.wf(),
            r.ids().len() == 0,
    {
        let r = ProviderRegistry { providers: Vec::new(), ids: Vec::new(), backends: Vec::new() };
        proof {
            assert(r.ids() =~= Seq::<Seq<char>>::empty());
        }
        r
    }

    fn position(&self, id: &str) -> (r: Option<usize>)
        requires
            self.wf(),
        ensures
            match r {
                Some(i) => i < self.ids().len() && self.ids()[i as int] == id@,
                None => !self.ids().contains(id@),
            },
    {
        let mut i: usize = 0;
        while i < self.ids.len()
            invariant
                0 <= i <= self.ids@.len(),
                self.ids().len() == self.ids@.len(),
                forall|j: int| 0 <= j < i ==> self.ids()[j] != id@,
            decreases self.ids@.len() - i,
        {
            proof {
                assert(self.ids@[i as int]@ == self.ids()[i as int]);
            }
            if str_eq(self.ids[i].as_str(), id) {
                return Some(i);
            }
            i = i + 1;
        }
        proof {
            if self.ids().contains(id@) {
                let k = choose|k: int| 0 <= k < self.ids().len() && self.ids()[k] == id@;
                assert(self.ids()[k] == id@);
            }
        }
        None
    }

    /// Register (or replace) a configured provider entry under the instance id it
    /// reports.
    ///
    /// If an entry with the same instance id already exists it is replaced in place and
    /// any backend cached for it is discarded; otherwise the entry is appended.
    pub fn register(&mut self, provider: P) -> (r: &mut Self)
        requires
            old(self).wf(),
        ensures
            *final(self) == *final(r),
            r.wf(),
            exists|id: Seq<char>|
                {
                    &&& provider.allows_instance_id(id)
                    &&& r.ids().contains(id)
                    &&& #[trigger] old(self).ids().contains(id) ==> {
                        let i = old(self).ids().index_of(id);
                        &&& r.ids() == old(self).ids()
                        &&& r.entries() == old(self).entries().update(i, provider)
                        &&& r.cached() == old(self).cached().update(i, None)
                    }
                    &&& !old(self).ids().contains(id) ==> {
                        &&& r.ids() == old(self).ids().push(id)
                        &&& r.entries() == old(self).entries().push(provider)
                        &&& r.cached() == old(self).cached().push(None)
                    }
                },
    {
        let id = owned(provider.instance_id());
        let pos = self.position(id.as_str());
        match pos {
            Some(i) => {
                proof {
                    assert(old(self).ids().contains(id@));
                    assert(old(self).ids().index_of(id@) == i) by {
                        let k = old(self).ids().index_of(id@);
                        assert(old(self).ids()[k] == id@);
                    }
                }
                self.providers.set(i, provider);
                self.backends.set(i, None);
                proof {
                    assert(self.ids() =~= old(self).ids());
                    assert(self.ids().contains(id@));
                }
            },
            None => {
                let ghost sid = id@;
                self.providers.push(provider);
                self.backends.push(None);
                self.ids.push(id);
                proof {
                    assert(!old(self).ids().contains(sid));
                    assert(self.ids() =~= old(self).ids().push(sid));
                    assert(self.ids()[self.ids().len() - 1] == sid);
                    assert(self.ids().contains(sid));
                    assert forall|a: int, b: int|
                        0 <= a < self.ids().len() && 0 <= b < self.ids().len() && a != b implies
                            self.ids()[a] != self.ids()[b] by {
                        if a == old(self).ids().len() as int {
                            assert(old(self).ids()[b] == self.ids()[b]);
                        } else if b == old(self).ids().len() as int {
                            assert(old(self).ids()[a] == self.ids()[a]);
                        }
                    }
                }
            },
        }
        self
    }

    /// Create a [`ChatClient`] for a registered provider entry.
    ///
    /// An unknown id is an invalid request. The first request for an entry connects
    /// its backend and caches it; later requests reuse the cached backend.
    pub fn chat(&mut self, id: &str, options: ChatClientOptions) -> (r: Result<ChatClient<B>, LlmError>)
        requires
            old(self).wf(),
        ensures
            final(self).wf(),
            final(self).entries() == old(self).entries(),
            !old(self).ids().contains(id@) ==> {
                &&& r matches Err(LlmError::InvalidRequest(m)) && m@ == "unknown instance id: "@ + id@
                &&& final(self).cached() == old(self).cached()
            },
            old(self).ids().contains(id@) ==> ({
                let i = old(self).ids().index_of(id@);
                match r {
                    Ok(c) => {
                        &&& c.spec_provider_id() == id@
                        &&& c.spec_model() == options.spec_model()
                        &&& c.spec_system_prompt() == options.spec_system_prompt()
                        &&& final(self).cached()[i] matches Some(b) && cloned::<B>(b, c.spec_backend())
                        &&& old(self).cached()[i] is Some ==> final(self).cached() == old(self).cached()
                        &&& old(self).cached()[i] is None ==> (final(self).cached()[i] matches Some(b)
                            && old(self).entries()[i].allows_backend(b))
                        &&& final(self).cached() == old(self).cached().update(i, final(self).cached()[i])
                    },
                    Err(_) => {
                        &&& old(self).cached()[i] is None
                        &&& final(self).cached() == old(self).cached()
                    },
                }
            }),
    {
        let pos = self.position(id);
        match pos {
            None => {
                let mut msg = owned("unknown instance id: ");
                append_str(&mut msg, id);
                proof {
                    assert(!old(self).ids().contains(id@));
                }
                Err(LlmError::InvalidRequest(msg))
            },
            Some(i) => {
                proof {
                    assert(old(self).ids().index_of(id@) == i) by {
                        let k = old(self).ids().index_of(id@);
                        assert(old(self).ids()[k] == id@);
                    }
                }
                let backend = match &self.backends[i] {
                    Some(b) => b.clone(),
                    None => {
                        let b = self.providers[i].connect()?;
                        let kept = b.clone();
                        self.backends.set(i, Some(b));
                        proof {
                            assert(self.cached() =~= old(self).cached().update(i as int, self.cached()[i as int]));
                        }
                        kept
                    },
                };
                Ok(ChatClient::new(id, options, backend))
            },
        }
    }

    /// Returns the instance ids of all registered provider entries.
    pub fn instance_ids(&self) -> (r: Vec<String>)
        ensures
            views(r@) == self.ids(),
    {
        let mut r: Vec<String> = Vec::new();
        let mut i: usize = 0;
        while i < self.ids.len()
            invariant
                0 <= i <= self.ids@.len(),
                views(r@) == self.ids().take(i as int),
            decreases self.ids@.len() - i,
        {
            let ghost before = views(r@);
            r.push(self.ids[i].clone());
            proof {
                assert(views(r@) =~= before.push(self.ids@[i as int]@));
                assert(self.ids().take(i + 1) =~= self.ids().take(i as int).push(self.ids()[i as int]));
            }
            i = i + 1;
        }
        proof {
            assert(self.ids().take(i as int) =~= self.ids());
        }
        r
    }
}

/// Law: registering an entry under an instance id that is already present
/// replaces that entry and drops its cached backend, leaving the ids, every other
/// entry and every other cached backend as they were.
pub proof fn law_register_replaces_same_id<P: ProviderEntry<B>, B: Clone>(
    before: ProviderRegistry<P, B>,
    after: ProviderRegistry<P, B>,
    id: Seq<char>,
    provider: P,
)
    requires
        before.wf(),
        before.ids().contains(id),
        after.ids() == before.ids(),
        after.entries() == before.entries().update(before.ids().index_of(id), provider),
        after.cached() == before.cached().update(before.ids().index_of(id), None),
    ensures
        after.ids().len() == before.ids().len(),
        after.entries()[before.ids().index_of(id)] == provider,
        after.cached()[before.ids().index_of(id)] is None,
        forall|j: int|
            0 <= j < before.ids().len() && j != before.ids().index_of(id) ==> after.entries()[j]
                == before.entries()[j] && after.cached()[j] == before.cached()[j],
{
    let i = before.ids().index_of(id);
    assert(before.ids()[i] == id);
}

/// Law: after an entry is registered under an instance id already present, the
/// next request for that id finds nothing cached, so the backend it connects is
/// one the new entry connected, never the replaced entry's.
pub proof fn law_chat_after_register_connects_new_entry<P: ProviderEntry<B>, B: Clone>(
    before: ProviderRegistry<P, B>,
    registered: ProviderRegistry<P, B>,
    after: ProviderRegistry<P, B>,
    id: Seq<char>,
    provider: P,
)
    requires
        before.wf(),
        before.ids().contains(id),
        registered.ids() == before.ids(),
        registered.entries() == before.entries().update(before.ids().index_of(id), provider),
        registered.cached() == before.cached().update(before.ids().index_of(id), None),
        registered.cached()[registered.ids().index_of(id)] is None ==> (
        after.cached()[registered.ids().index_of(id)] matches Some(b)
            && registered.entries()[registered.ids().index_of(id)].allows_backend(b)),
    ensures
        after.cached()[registered.ids().index_of(id)] matches Some(b) && provider.allows_backend(b),
{
    let i = before.ids().index_of(id);
    assert(before.ids()[i] == id);
}

} // verus!
