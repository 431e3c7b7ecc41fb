//! The providers of models, and what the user is told of those that are missing.
use crate::text::{
    cat2, cat3, cat5, chars_of, find_char, lemma_find_char, lemma_views_push, same_text, string_of,
    views,
};
use vstd::prelude::*;
use vstd::string::*;

verus! {

/// A model that a provider offers. `key` names it within the provider, `id` is
/// what the provider's interface calls it.
#[derive(Debug, PartialEq, Eq)]
pub struct ModelConfig {
    pub key: String,
    pub id: String,
    pub name: String,
    pub context_window: u32,
}

/// A provider. One that is not connected has no client to talk to it.
#[derive(Debug, PartialEq, Eq)]
pub struct ProviderEntry {
    pub id: String,
    pub models: Vec<ModelConfig>,
    pub connected: bool,
}

/// The providers that can be used.
#[derive(Debug, PartialEq, Eq)]
pub struct ProviderRegistry {
    pub providers: Vec<ProviderEntry>,
}

/// A provider that was disabled because the variable with its key was unset.
#[derive(Debug, PartialEq, Eq)]
pub struct ProviderInitWarning {
    pub provider_id: String,
    pub env_var: String,
}

/// A model as it was found in the registry.
#[derive(Debug, PartialEq, Eq)]
pub struct ResolvedModel {
    pub provider_id: String,
    pub model_id: String,
    pub api_model_id: String,
    pub context_window: u32,
}

/// Why a model or its provider cannot be used.
#[derive(Clone, Copy, Debug, PartialEq, Eq, Structural)]
pub enum ProviderError {
    /// The reference is not of the form "provider/model".
    MalformedReference,
    UnknownProvider,
    UnknownModel,
    NoClient,
}

impl ProviderError {
    /// What the error says.
    pub open spec fn message(self) -> Seq<char> {
        match self {
            ProviderError::MalformedReference => "model reference is not of the form provider/model"@,
            ProviderError::UnknownProvider => "provider not found"@,
            ProviderError::UnknownModel => "model not found"@,
            ProviderError::NoClient => "no client for provider"@,
        }
    }

    /// What the error says.
    pub fn text(&self) -> (r: &'static str)
        ensures
            r@ == self.message(),
    {
        match self {
            ProviderError::MalformedReference => "model reference is not of the form provider/model",
            ProviderError::UnknownProvider => "provider not found",
            ProviderError::UnknownModel => "model not found",
            ProviderError::NoClient => "no client for provider",
        }
    }
}

/// The first of `models` with the key `key`.
pub open spec fn find_model(models: Seq<ModelConfig>, key: Seq<char>) -> Option<ModelConfig>
    decreases models.len(),
{
    if models.len() == 0 {
        None
    } else if models[0].key@ == key {
        Some(models[0])
    } else {
        find_model(models.skip(1), key)
    }
}

/// The first of `providers` with the id `id`.
pub open spec fn find_provider(providers: Seq<ProviderEntry>, id: Seq<char>) -> Option<
    ProviderEntry,
>
    decreases providers.len(),
{
    if providers.len() == 0 {
        None
    } else if providers[0].id@ == id {
        Some(providers[0])
    } else {
        find_provider(providers.skip(1), id)
    }
}

/// What stands before the first slash of `s`; all of `s` where it has none.
pub open spec fn before_slash(s: Seq<char>) -> Seq<char> {
    s.take(find_char(s, '/'))
}

/// What stands behind the first slash of `s`.
pub open spec fn after_slash(s: Seq<char>) -> Seq<char> {
    s.skip(find_char(s, '/') + 1)
}

impl ProviderRegistry {
    /// The model that `model_ref` names, or why there is none.
    pub open spec fn lookup(self, model_ref: Seq<char>) -> Result<ModelConfig, ProviderError> {
        if find_char(model_ref, '/') >= model_ref.len() {
            Err(ProviderError::MalformedReference)
        } else {
            match find_provider(self.providers@, before_slash(model_ref)) {
                None => Err(ProviderError::UnknownProvider),
                Some(p) => match find_model(p.models@, after_slash(model_ref)) {
                    None => Err(ProviderError::UnknownModel),
                    Some(m) => Ok(m),
                },
            }
        }
    }

    /// Whether there is a client for the provider `id`.
    pub open spec fn has_client(self, id: Seq<char>) -> bool {
        find_provider(self.providers@, id) matches Some(p) && p.connected
    }

    /// Whether no provider can be used.
    pub fn is_empty(&self) -> (r: bool)
        ensures
            r == (self.providers@.len() == 0),
    {
        self.providers.len() == 0
    }

    fn provider(&self, id: &str) -> (r: Option<&ProviderEntry>)
        ensures
            match r {
                Some(p) => find_provider(self.providers@, id@) == Some(*p),
                None => find_provider(self.providers@, id@) is None,
            },
    {
        let mut i: usize = 0;
        proof {
            assert(self.providers@.skip(0) =~= self.providers@);
        }
        while i < self.providers.len()
            invariant
                i <= self.providers@.len(),
                find_provider(self.providers@, id@) == find_provider(
                    self.providers@.skip(i as int),
                    id@,
                ),
            decreases self.providers@.len() - i,
        {
            if same_text(self.providers[i].id.as_str(), id) {
                return Some(&self.providers[i]);
            }
            proof {
                assert(self.providers@.skip(i as int).skip(1) =~= self.providers@.skip(i + 1));
            }
            i = i + 1;
        }
        None
    }

    /// The model that `model_ref` ("provider/model") names.
    pub fn resolve_model(&self, model_ref: &str) -> (r: Result<ResolvedModel, ProviderError>)
        ensures
            match r {
                Ok(m) => {
                    &&& self.lookup(model_ref@) matches Ok(c)
                    &&& m.provider_id@ == before_slash(model_ref@)
                    &&& m.model_id@ == after_slash(model_ref@)
                    &&& m.api_model_id@ == c.id@
                    &&& m.context_window == c.context_window
                },
                Err(e) => self.lookup(model_ref@) == Err::<ModelConfig, ProviderError>(e),
            },
    {
        let cs = chars_of(model_ref);
        let n: usize = cs.len();
        proof {
            lemma_find_char(model_ref@, '/');
        }
        let mut k: usize = 0;
        while k < n && cs[k] != '/'
            invariant
                k <= n,
                n == cs@.len(),
                cs@ == model_ref@,
                forall|j: int| 0 <= j < k ==> cs@[j] != '/',
            decreases n - k,
        {
            k = k + 1;
        }
        proof {
            assert(find_char(model_ref@, '/') == k);
        }
        if k == n {
            return Err(ProviderError::MalformedReference);
        }
        let provider_id = string_of(&cs, 0, k);
        let key = string_of(&cs, k + 1, n);
        proof {
            assert(provider_id@ =~= before_slash(model_ref@));
            assert(key@ =~= after_slash(model_ref@));
        }
        match self.provider(provider_id.as_str()) {
            None => Err(ProviderError::UnknownProvider),
            Some(p) => {
                let mut i: usize = 0;
                proof {
                    assert(p.models@.skip(0) =~= p.models@);
                }
                while i < p.models.len()
                    invariant
                        i <= p.models@.len(),
                        self.lookup(model_ref@) == (match find_model(
                            p.models@.skip(i as int),
                            key@,
                        ) {
                            None => Err::<ModelConfig, ProviderError>(ProviderError::UnknownModel),
                            Some(m) => Ok(m),
                        }),
                        provider_id@ == before_slash(model_ref@),
                        key@ == after_slash(model_ref@),
                    decreases p.models@.len() - i,
                {
                    let m = &p.models[i];
                    if same_text(m.key.as_str(), key.as_str()) {
                        return Ok(
                            ResolvedModel {
                                provider_id,
                                model_id: key,
                                api_model_id: m.id.clone(),
                                context_window: m.context_window,
                            },
                        );
                    }
                    proof {
                        assert(p.models@.skip(i as int).skip(1) =~= p.models@.skip(i + 1));
                    }
                    i = i + 1;
                }
                Err(ProviderError::UnknownModel)
            },
        }
    }

    /// Whether there is a client for the provider `id`.
    pub fn client(&self, id: &str) -> (r: Result<(), ProviderError>)
        ensures
            match r {
                Ok(_) => self.has_client(id@),
                Err(e) => e == ProviderError::NoClient && !self.has_client(id@),
            },
    {
        match self.provider(id) {
            Some(p) => {
                if p.connected {
                    Ok(())
                } else {
                    Err(ProviderError::NoClient)
                }
            },
            None => Err(ProviderError::NoClient),
        }
    }

    /// Every model as it is offered to the user: its reference and its name.
    pub open spec fn listed(self) -> Seq<(Seq<char>, Seq<char>)> {
        list_providers(self.providers@)
    }

    /// Every model as it is offered to the user: its reference and its name.
    pub fn list_models(&self) -> (r: Vec<(String, String)>)
        ensures
            pair_views(r@) == self.listed(),
    {
        let mut out: Vec<(String, String)> = Vec::new();
        let mut i: usize = 0;
        proof {
            assert(pair_views(out@) =~= Seq::<(Seq<char>, Seq<char>)>::empty());
        }
        while i < self.providers.len()
            invariant
                i <= self.providers@.len(),
                pair_views(out@) == list_providers(self.providers@.take(i as int)),
            decreases self.providers@.len() - i,
        {
            let p = &self.providers[i];
            let ghost before = pair_views(out@);
            let mut j: usize = 0;
            proof {
                assert(self.providers@.take(i + 1).drop_last() =~= self.providers@.take(i as int));
                assert(self.providers@.take(i + 1).last() == *p);
                assert(before + list_models_of(p.id@, p.models@.take(0)) =~= before);
            }
            while j < p.models.len()
                invariant
                    j <= p.models@.len(),
                    pair_views(out@) == before + list_models_of(p.id@, p.models@.take(j as int)),
                decreases p.models@.len() - j,
            {
                let m = &p.models[j];
                let entry = (cat3(p.id.as_str(), "/", m.key.as_str()), m.name.clone());
                proof {
                    let shown = (p.id@ + "/"@ + m.key@, m.name@);
                    assert(pair_views(out@.push(entry)) =~= pair_views(out@).push(shown));
                    assert(p.models@.take(j + 1).drop_last() =~= p.models@.take(j as int));
                    assert(p.models@.take(j + 1).last() == *m);
                    assert(before + list_models_of(p.id@, p.models@.take(j + 1)) =~= (before
                        + list_models_of(p.id@, p.models@.take(j as int))).push(shown));
                }
                out.push(entry);
                j = j + 1;
            }
            proof {
                assert(p.models@.take(p.models@.len() as int) =~= p.models@);
            }
            i = i + 1;
        }
        proof {
            assert(self.providers@.take(self.providers@.len() as int) =~= self.providers@);
        }
        out
    }
}

/// The texts of a sequence of pairs.
pub open spec fn pair_views(v: Seq<(String, String)>) -> Seq<(Seq<char>, Seq<char>)> {
    Seq::new(v.len(), |i: int| (v[i].0@, v[i].1@))
}

/// The reference and the name of each of `models`, offered by the provider `id`.
pub open spec fn list_models_of(id: Seq<char>, models: Seq<ModelConfig>) -> Seq<
    (Seq<char>, Seq<char>),
>
    decreases models.len(),
{
    if models.len() == 0 {
        Seq::empty()
    } else {
        list_models_of(id, models.drop_last()).push(
            (id + "/"@ + models.last().key@, models.last().name@),
        )
    }
}

/// The reference and the name of every model of `providers`.
pub open spec fn list_providers(providers: Seq<ProviderEntry>) -> Seq<(Seq<char>, Seq<char>)>
    decreases providers.len(),
{
    if providers.len() == 0 {
        Seq::empty()
    } else {
        list_providers(providers.drop_last()) + list_models_of(
            providers.last().id@,
            providers.last().models@,
        )
    }
}

/// A resolved reference names a provider that the registry holds.
pub proof fn resolved_provider_exists(registry: ProviderRegistry, model_ref: Seq<char>)
    requires
        registry.lookup(model_ref) is Ok,
    ensures
        find_provider(registry.providers@, before_slash(model_ref)) is Some,
{
}

/// Whether the provider of the default model is among those that are missing.
pub open spec fn default_disabled(
    default_model: Option<Seq<char>>,
    missing: Seq<ProviderInitWarning>,
) -> bool {
    default_model matches Some(m) && exists|i: int|
        0 <= i < missing.len() && (#[trigger] missing[i]).provider_id@ == before_slash(m)
}

/// The short line on a missing provider.
pub open spec fn terse_line(w: ProviderInitWarning) -> Seq<char> {
    "Provider '"@ + w.provider_id@ + "' disabled: $"@ + w.env_var@
        + " is not set (see diagnostics for details)"@
}

/// The list of missing providers in the loud message.
pub open spec fn missing_list(missing: Seq<ProviderInitWarning>) -> Seq<char>
    decreases missing.len(),
{
    if missing.len() == 0 {
        Seq::empty()
    } else {
        let w = missing.last();
        missing_list(missing.drop_last()) + ("  • $"@ + w.env_var@ + "  (provider '"@
            + w.provider_id@ + "')\n"@)
    }
}

/// The one message that says that nothing can be sent.
pub open spec fn loud_message(
    registry_empty: bool,
    default_model: Option<Seq<char>>,
    missing: Seq<ProviderInitWarning>,
) -> Seq<char> {
    let headline = if registry_empty {
        "STEVE CANNOT SEND MESSAGES — no working providers"@
    } else {
        "STEVE CANNOT SEND MESSAGES — default model's provider is disabled"@
    };
    let model_line = match default_model {
        Some(m) if default_disabled(default_model, missing) => "Default model: "@ + m + "\n"@,
        _ => Seq::empty(),
    };
    headline + "\n\n"@ + model_line + "Disabled providers:\n"@ + missing_list(missing)
        + "\nSet the env var(s) and restart steve, or adjust your config."@
}

/// What the user is told at start of providers that are missing: one loud
/// message where the first message to the default model would fail, else one
/// short line for each.
pub open spec fn missing_messages(
    registry_empty: bool,
    default_model: Option<Seq<char>>,
    missing: Seq<ProviderInitWarning>,
) -> Seq<Seq<char>> {
    if missing.len() == 0 {
        Seq::empty()
    } else if registry_empty || default_disabled(default_model, missing) {
        seq![loud_message(registry_empty, default_model, missing)]
    } else {
        Seq::new(missing.len(), |i: int| terse_line(missing[i]))
    }
}

/// The text of an optional string.
pub open spec fn opt_view(s: Option<&str>) -> Option<Seq<char>> {
    match s {
        Some(t) => Some(t@),
        None => None,
    }
}

fn provider_of(model_ref: &str) -> (r: String)
    ensures
        r@ == before_slash(model_ref@),
{
    let cs = chars_of(model_ref);
    proof {
        lemma_find_char(model_ref@, '/');
    }
    let mut k: usize = 0;
    while k < cs.len() && cs[k] != '/'
        invariant
            k <= cs@.len(),
            cs@ == model_ref@,
            forall|j: int| 0 <= j < k ==> cs@[j] != '/',
        decreases cs@.len() - k,
    {
        k = k + 1;
    }
    proof {
        assert(find_char(model_ref@, '/') == k);
        assert(model_ref@.take(k as int) =~= cs@.subrange(0, k as int));
    }
    string_of(&cs, 0, k)
}

fn is_default_disabled(default_model: Option<&str>, missing: &Vec<ProviderInitWarning>) -> (r: bool)
    ensures
        r == default_disabled(opt_view(default_model), missing@),
{
    match default_model {
        None => false,
        Some(m) => {
            let id = provider_of(m);
            let mut i: usize = 0;
            while i < missing.len()
                invariant
                    i <= missing@.len(),
                    id@ == before_slash(m@),
                    opt_view(default_model) == Some(m@),
                    forall|k: int| 0 <= k < i ==> (#[trigger] missing@[k]).provider_id@ != id@,
                decreases missing@.len() - i,
            {
                if same_text(missing[i].provider_id.as_str(), id.as_str()) {
                    return true;
                }
                i = i + 1;
            }
            false
        },
    }
}

/// What the user is told at start of providers that are missing: one loud
/// message where the first message to the default model would fail, else one
/// short line for each.
pub fn build_missing_provider_messages(
    registry_empty: bool,
    default_model: Option<&str>,
    missing: &Vec<ProviderInitWarning>,
) -> (r: Vec<String>)
    ensures
        views(r@) == missing_messages(registry_empty, opt_view(default_model), missing@),
{
    let mut out: Vec<String> = Vec::new();
    proof {
        assert(views(out@) =~= Seq::<Seq<char>>::empty());
    }
    if missing.len() == 0 {
        return out;
    }
    let disabled = is_default_disabled(default_model, missing);
    let mut i: usize = 0;
    if !(registry_empty || disabled) {
        let ghost all = missing_messages(registry_empty, opt_view(default_model), missing@);
        proof {
            assert(all.take(0) =~= Seq::<Seq<char>>::empty());
        }
        while i < missing.len()
            invariant
                i <= missing@.len(),
                all == Seq::new(missing@.len(), |i: int| terse_line(missing@[i])),
                views(out@) == all.take(i as int),
            decreases missing@.len() - i,
        {
            let w = &missing[i];
            let line = cat5(
                "Provider '",
                w.provider_id.as_str(),
                "' disabled: $",
                w.env_var.as_str(),
                " is not set (see diagnostics for details)",
            );
            proof {
                lemma_views_push(out@, line);
                assert(all.take(i + 1) =~= all.take(i as int).push(line@));
            }
            out.push(line);
            i = i + 1;
        }
        proof {
            assert(all.take(all.len() as int) =~= all);
        }
        return out;
    }
    let headline = if registry_empty {
        "STEVE CANNOT SEND MESSAGES — no working providers"
    } else {
        "STEVE CANNOT SEND MESSAGES — default model's provider is disabled"
    };
    let mut model_line = String::new();
    match default_model {
        Some(m) => {
            if disabled {
                model_line = cat3("Default model: ", m, "\n");
            }
        },
        None => {},
    }
    let mut text = cat2(headline, "\n\n");
    text.append(model_line.as_str());
    text.append("Disabled providers:\n");
    let ghost start = text@;
    proof {
        assert(start + missing_list(missing@.take(0)) =~= start);
    }
    while i < missing.len()
        invariant
            i <= missing@.len(),
            text@ == start + missing_list(missing@.take(i as int)),
        decreases missing@.len() - i,
    {
        let w = &missing[i];
        let ghost before = text@;
        let line = cat5(
            "  • $",
            w.env_var.as_str(),
            "  (provider '",
            w.provider_id.as_str(),
            "')\n",
        );
        text.append(line.as_str());
        proof {
            assert(missing@.take(i + 1).drop_last() =~= missing@.take(i as int));
            assert(missing@.take(i + 1).last() == *w);
            assert(text@ =~= start + missing_list(missing@.take(i + 1)));
        }
        i = i + 1;
    }
    text.append("\nSet the env var(s) and restart steve, or adjust your config.");
    proof {
        assert(missing@.take(missing@.len() as int) =~= missing@);
        lemma_views_push(out@, text);
        assert(views(out@).push(text@) =~= seq![text@]);
    }
    out.push(text);
    out
}

} // verus!
