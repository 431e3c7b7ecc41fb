//! What holds of how models are found and offered.
use crate::providers::{
    after_slash, before_slash, default_disabled, find_model, find_provider, list_models_of,
    list_providers, loud_message, missing_list, missing_messages, ModelConfig, ProviderEntry,
    ProviderError, ProviderInitWarning, ProviderRegistry,
};
use crate::text::{find_char, lemma_find_char};
use crate::text_laws::{middle_occurs, occurs, part_of_a_part_occurs};
use vstd::prelude::*;

verus! {

/// A model is found by its key, the first one where there are several.
pub proof fn models_are_found_by_key(models: Seq<ModelConfig>, key: Seq<char>)
    ensures
        match find_model(models, key) {
            Some(m) => exists|i: int|
                {
                    &&& 0 <= i < models.len()
                    &&& #[trigger] models[i] == m
                    &&& m.key@ == key
                    &&& forall|j: int| 0 <= j < i ==> (#[trigger] models[j]).key@ != key
                },
            None => forall|i: int| 0 <= i < models.len() ==> (#[trigger] models[i]).key@ != key,
        },
    decreases models.len(),
{
    if models.len() > 0 && models[0].key@ != key {
        let rest = models.skip(1);
        models_are_found_by_key(rest, key);
        assert forall|i: int| 1 <= i < models.len() implies #[trigger] models[i] == rest[i - 1] by {}
        if find_model(rest, key) is Some {
            let m = find_model(rest, key)->Some_0;
            let i = choose|i: int|
                {
                    &&& 0 <= i < rest.len()
                    &&& #[trigger] rest[i] == m
                    &&& m.key@ == key
                    &&& forall|j: int| 0 <= j < i ==> (#[trigger] rest[j]).key@ != key
                };
            assert(models[i + 1] == m);
            assert forall|j: int| 0 <= j < i + 1 implies (#[trigger] models[j]).key@ != key by {
                if j > 0 {
                    assert(rest[j - 1] == models[j]);
                }
            }
        }
    }
}

/// A provider is found by its id, the first one where there are several.
pub proof fn providers_are_found_by_id(providers: Seq<ProviderEntry>, id: Seq<char>)
    ensures
        match find_provider(providers, id) {
            Some(p) => exists|i: int|
                {
                    &&& 0 <= i < providers.len()
                    &&& #[trigger] providers[i] == p
                    &&& p.id@ == id
                    &&& forall|j: int| 0 <= j < i ==> (#[trigger] providers[j]).id@ != id
                },
            None => forall|i: int| 0 <= i < providers.len() ==> (#[trigger] providers[i]).id@ != id,
        },
    decreases providers.len(),
{
    if providers.len() > 0 && providers[0].id@ != id {
        let rest = providers.skip(1);
        providers_are_found_by_id(rest, id);
        assert forall|i: int| 1 <= i < providers.len() implies #[trigger] providers[i] == rest[i
            - 1] by {}
        if find_provider(rest, id) is Some {
            let p = find_provider(rest, id)->Some_0;
            let i = choose|i: int|
                {
                    &&& 0 <= i < rest.len()
                    &&& #[trigger] rest[i] == p
                    &&& p.id@ == id
                    &&& forall|j: int| 0 <= j < i ==> (#[trigger] rest[j]).id@ != id
                };
            assert(providers[i + 1] == p);
            assert forall|j: int| 0 <= j < i + 1 implies (#[trigger] providers[j]).id@ != id by {
                if j > 0 {
                    assert(rest[j - 1] == providers[j]);
                }
            }
        }
    }
}

/// A reference is a provider and a model with the first slash between them.
pub proof fn references_are_split_at_the_first_slash(id: Seq<char>, key: Seq<char>)
    requires
        forall|i: int| 0 <= i < id.len() ==> #[trigger] id[i] != '/',
    ensures
        before_slash(id + seq!['/'] + key) == id,
        after_slash(id + seq!['/'] + key) == key,
        before_slash(id) == id,
{
    let s = id + seq!['/'] + key;
    lemma_find_char(s, '/');
    lemma_find_char(id, '/');
    let k = find_char(s, '/');
    assert(s[id.len() as int] == '/');
    if k < id.len() {
        assert(s[k] == id[k]);
    }
    assert(s.take(k) =~= id);
    assert(s.skip(k + 1) =~= key);
    assert(id.take(find_char(id, '/')) =~= id);
}

/// A reference to a model that a provider has is found, and one to a provider or
/// a model that there is not is refused for that reason.
pub proof fn references_are_looked_up(registry: ProviderRegistry, id: Seq<char>, key: Seq<char>)
    requires
        forall|i: int| 0 <= i < id.len() ==> #[trigger] id[i] != '/',
    ensures
        registry.lookup(id) == Err::<ModelConfig, ProviderError>(ProviderError::MalformedReference),
        match find_provider(registry.providers@, id) {
            None => registry.lookup(id + seq!['/'] + key) == Err::<ModelConfig, ProviderError>(
                ProviderError::UnknownProvider,
            ),
            Some(p) => match find_model(p.models@, key) {
                None => registry.lookup(id + seq!['/'] + key) == Err::<ModelConfig, ProviderError>(
                    ProviderError::UnknownModel,
                ),
                Some(m) => registry.lookup(id + seq!['/'] + key) == Ok::<ModelConfig, ProviderError>(
                    m,
                ),
            },
        },
        registry.has_client(id) <==> find_provider(registry.providers@, id) is Some
            && find_provider(registry.providers@, id)->Some_0.connected,
{
    references_are_split_at_the_first_slash(id, key);
    lemma_find_char(id, '/');
    let s = id + seq!['/'] + key;
    lemma_find_char(s, '/');
    assert(s[id.len() as int] == '/');
}

/// The models of a provider are all offered, in order, each under its reference
/// and by its name.
pub proof fn models_are_all_offered(id: Seq<char>, models: Seq<ModelConfig>)
    ensures
        list_models_of(id, models) == Seq::new(
            models.len(),
            |i: int| (id + "/"@ + models[i].key@, models[i].name@),
        ),
    decreases models.len(),
{
    if models.len() > 0 {
        models_are_all_offered(id, models.drop_last());
    }
    assert(list_models_of(id, models) =~= Seq::new(
        models.len(),
        |i: int| (id + "/"@ + models[i].key@, models[i].name@),
    ));
}

/// What is offered of several providers is what each offers, in turn.
pub proof fn offers_join(a: Seq<ProviderEntry>, b: Seq<ProviderEntry>)
    ensures
        list_providers(a + b) == list_providers(a) + list_providers(b),
    decreases b.len(),
{
    if b.len() == 0 {
        assert(a + b =~= a);
        assert(list_providers(a) + list_providers(b) =~= list_providers(a));
    } else {
        offers_join(a, b.drop_last());
        assert((a + b).drop_last() =~= a + b.drop_last());
        assert((a + b).last() == b.last());
        assert(list_providers(a + b) =~= list_providers(a) + list_providers(b));
    }
}

/// What one provider offers is its models; the registry offers what its
/// providers do.
pub proof fn offer_of_one(registry: ProviderRegistry, p: ProviderEntry)
    ensures
        list_providers(seq![p]) == Seq::new(
            p.models@.len(),
            |i: int| (p.id@ + "/"@ + p.models@[i].key@, p.models@[i].name@),
        ),
        registry.listed() == list_providers(registry.providers@),
{
    let one = seq![p];
    assert(one.drop_last() =~= Seq::<ProviderEntry>::empty());
    models_are_all_offered(p.id@, p.models@);
    assert(list_providers(one.drop_last()) =~= Seq::<(Seq<char>, Seq<char>)>::empty());
    assert(list_providers(one) =~= list_models_of(p.id@, p.models@));
}

/// The lines on missing providers stand one below the other, each with what to
/// set and for whom.
pub proof fn missing_lists_join(a: Seq<ProviderInitWarning>, b: Seq<ProviderInitWarning>)
    ensures
        missing_list(a + b) == missing_list(a) + missing_list(b),
    decreases b.len(),
{
    if b.len() == 0 {
        assert(a + b =~= a);
        assert(missing_list(a) + missing_list(b) =~= missing_list(a));
    } else {
        missing_lists_join(a, b.drop_last());
        assert((a + b).drop_last() =~= a + b.drop_last());
        assert((a + b).last() == b.last());
        assert(missing_list(a + b) =~= missing_list(a) + missing_list(b));
    }
}

/// The line on one missing provider.
pub proof fn missing_list_of_one(w: ProviderInitWarning)
    ensures
        missing_list(seq![w]) == "  • $"@ + w.env_var@ + "  (provider '"@ + w.provider_id@
            + "')\n"@,
{
    let one = seq![w];
    assert(one.drop_last() =~= Seq::<ProviderInitWarning>::empty());
    assert(missing_list(one.drop_last()) =~= Seq::<char>::empty());
    assert(missing_list(one) =~= "  • $"@ + w.env_var@ + "  (provider '"@ + w.provider_id@
        + "')\n"@);
}

/// The user is told of every missing provider: of each by a line of its own
/// where the default model can still be used, else of all in one message that
/// says that nothing can be sent.
pub proof fn no_missing_provider_is_passed_over(
    registry_empty: bool,
    default_model: Option<Seq<char>>,
    missing: Seq<ProviderInitWarning>,
    i: int,
)
    requires
        0 <= i < missing.len(),
    ensures
        ({
            let told = missing_messages(registry_empty, default_model, missing);
            let w = missing[i];
            let needed = default_model is Some && exists|k: int|
                0 <= k < missing.len() && (#[trigger] missing[k]).provider_id@ == before_slash(
                    default_model->Some_0,
                );
            &&& registry_empty || needed ==> told.len() == 1 && occurs(
                "  • $"@ + w.env_var@ + "  (provider '"@ + w.provider_id@ + "')\n"@,
                told[0],
            )
            &&& !registry_empty && !needed ==> told.len() == missing.len() && told[i]
                == "Provider '"@ + w.provider_id@ + "' disabled: $"@ + w.env_var@
                + " is not set (see diagnostics for details)"@
            &&& registry_empty ==> occurs(
                "STEVE CANNOT SEND MESSAGES — no working providers"@,
                told[0],
            )
            &&& !registry_empty && needed ==> occurs(
                "STEVE CANNOT SEND MESSAGES — default model's provider is disabled"@,
                told[0],
            )
        }),
        missing_messages(registry_empty, default_model, Seq::empty()).len() == 0,
{
    let w = missing[i];
    let needed = default_disabled(default_model, missing);
    if registry_empty || needed {
        let headline = if registry_empty {
            "STEVE CANNOT SEND MESSAGES — no working providers"@
        } else {
            "STEVE CANNOT SEND MESSAGES — default model's provider is disabled"@
        };
        let model_line = match default_model {
            Some(m) if needed => "Default model: "@ + m + "\n"@,
            _ => Seq::empty(),
        };
        let all = loud_message(registry_empty, default_model, missing);
        let front = headline + "\n\n"@ + model_line + "Disabled providers:\n"@;
        let list = missing_list(missing);
        let close = "\nSet the env var(s) and restart steve, or adjust your config."@;
        middle_occurs(front, list, close);
        assert(all == front + list + close);
        let rest = "\n\n"@ + model_line + "Disabled providers:\n"@ + list + close;
        middle_occurs(Seq::empty(), headline, rest);
        assert(Seq::empty() + headline + rest =~= all);
        let a = missing.take(i);
        let m = seq![w];
        let b = missing.skip(i + 1);
        assert(a + m + b =~= missing);
        missing_lists_join(a + m, b);
        missing_lists_join(a, m);
        missing_list_of_one(w);
        middle_occurs(missing_list(a), missing_list(m), missing_list(b));
        part_of_a_part_occurs(missing_list(m), list, all);
    }
}

} // verus!
