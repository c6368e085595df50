//! The transform commands: mode ids, provider/model/reasoning-effort
//! selection, the composer quick-action slots, and the checks made before
//! the model list of a provider is fetched. Each command works on the
//! transform settings; reading and writing the settings file is the caller's.

use vstd::prelude::*;
use crate::transform::{TransformMode, mode_id, opt_string_view};
use crate::settings::{TransformSettings, PostProcessProvider, provider_with_id};
use crate::text::{is_blank, is_blank_str, trim, trim_str, str_eq, concat2, concat3};
use crate::secret::{SecretError, secret_error_text};

verus! {

/// The mode whose id is `id`.
pub open spec fn mode_from_id(id: Seq<char>) -> Option<TransformMode> {
    if id == "polish"@ {
        Some(TransformMode::Polish)
    } else if id == "translate_english"@ {
        Some(TransformMode::TranslateEnglish)
    } else if id == "prompt_english"@ {
        Some(TransformMode::PromptEnglish)
    } else if id == "custom"@ {
        Some(TransformMode::Custom)
    } else {
        None
    }
}

/// Resolve a transform mode from its snake_case id (the ids
/// `TransformMode::as_str` and `list_transform_modes` expose).
pub fn parse_transform_mode(id: &str) -> (r: Result<TransformMode, String>)
    ensures
        match r {
            Ok(mode) => mode_from_id(id@) == Some(mode),
            Err(msg) => mode_from_id(id@) is None && msg@ == "Unknown transform mode: "@ + id@,
        },
{
    if str_eq(id, "polish") {
        Ok(TransformMode::Polish)
    } else if str_eq(id, "translate_english") {
        Ok(TransformMode::TranslateEnglish)
    } else if str_eq(id, "prompt_english") {
        Ok(TransformMode::PromptEnglish)
    } else if str_eq(id, "custom") {
        Ok(TransformMode::Custom)
    } else {
        Err(concat2("Unknown transform mode: ", id))
    }
}

/// Mode ids round-trip: every mode parses back from its id, and an id that
/// parses is the id of the mode it names.
pub proof fn law_mode_ids_round_trip(mode: TransformMode, id: Seq<char>)
    ensures
        mode_from_id(mode_id(mode)) == Some(mode),
        mode_from_id(id) matches Some(m) ==> mode_id(m) == id,
{
    reveal_strlit("polish");
    reveal_strlit("translate_english");
    reveal_strlit("prompt_english");
    reveal_strlit("custom");
    assert("translate_english"@.len() != "polish"@.len());
    assert("prompt_english"@.len() != "polish"@.len());
    assert("prompt_english"@.len() != "translate_english"@.len());
    assert("custom"@.len() != "translate_english"@.len());
    assert("custom"@.len() != "prompt_english"@.len());
    assert("custom"@[0] != "polish"@[0]);
}

/// The currently active transform provider (the same selection as
/// post-processing).
pub fn get_transform_provider(settings: &TransformSettings) -> (r: Option<PostProcessProvider>)
    ensures
        r == provider_with_id(settings.post_process_providers@, settings.post_process_provider_id@),
{
    match settings.active_post_process_provider() {
        Some(p) => Some(p.clone()),
        None => None,
    }
}

/// Select the active transform provider by id; an unknown id is refused and
/// changes nothing.
pub fn set_transform_provider(settings: &mut TransformSettings, provider_id: String) -> (r: Result<
    (),
    String,
>)
    ensures
        r is Ok <==> provider_with_id(old(settings).post_process_providers@, provider_id@) is Some,
        r is Ok ==> *final(settings) == (TransformSettings {
            post_process_provider_id: provider_id,
            ..*old(settings)
        }),
        r matches Err(msg) ==> *final(settings) == *old(settings) && msg@ == "Provider '"@
            + provider_id@ + "' not found"@,
{
    let exists = settings.find_provider(provider_id.as_str()).is_some();
    if !exists {
        return Err(concat3("Provider '", provider_id.as_str(), "' not found"));
    }
    settings.post_process_provider_id = provider_id;
    Ok(())
}

/// The value a string table holds for `key`, or the empty text.
pub open spec fn value_or_empty(m: Map<Seq<char>, Seq<char>>, key: Seq<char>) -> Seq<char> {
    if m.contains_key(key) {
        m[key]
    } else {
        Seq::empty()
    }
}

/// The configured model for a provider, empty when none is.
pub fn get_transform_model(settings: &TransformSettings, provider_id: &str) -> (r: String)
    ensures
        r@ == value_or_empty(settings.post_process_models@, provider_id@),
{
    match settings.post_process_models.get(provider_id) {
        Some(model) => model.clone(),
        None => String::new(),
    }
}

/// Persist the configured model for a provider.
pub fn set_transform_model(settings: &mut TransformSettings, provider_id: String, model: String)
    ensures
        final(settings).post_process_models@ == old(settings).post_process_models@.insert(
            provider_id@,
            model@,
        ),
        *final(settings) == (TransformSettings {
            post_process_models: final(settings).post_process_models,
            ..*old(settings)
        }),
{
    settings.post_process_models.insert(provider_id, model);
}

/// The raw stored reasoning/thinking level for a provider, `None` when unset
/// (the provider default applies), so an explicit "off" is told apart from
/// the inherited default.
pub fn get_transform_reasoning_effort(settings: &TransformSettings, provider_id: &str) -> (r:
    Option<String>)
    ensures
        opt_string_view(r) == settings.post_process_reasoning_effort@.get(provider_id@),
{
    match settings.post_process_reasoning_effort.get(provider_id) {
        Some(v) => Some(v.clone()),
        None => None,
    }
}

/// The lowercase form of a text, as `str::to_lowercase` gives it (Unicode
/// lowercase mapping, independent of locale).
pub uninterp spec fn lowercase(s: Seq<char>) -> Seq<char>;

/// `str::to_lowercase`: the text with every character mapped to its Unicode
/// lowercase form. The result is claimed to be the named function of the
/// text; what that function is on given texts is not stated.
#[verifier::external_body]
fn to_lowercase(s: &str) -> (r: String)
    ensures
        r@ == lowercase(s@),
{
    s.to_lowercase()
}

/// The reasoning levels a provider accepts: `none` disables thinking.
pub open spec fn is_reasoning_level(level: Seq<char>) -> bool {
    ||| level == "none"@
    ||| level == "low"@
    ||| level == "medium"@
    ||| level == "high"@
    ||| level == "xhigh"@
    ||| level == "max"@
}

/// The accepted levels as listed in the refusal message.
pub const REASONING_LEVELS_LIST: &'static str = "none, low, medium, high, xhigh, max";

/// Whether `level` is one of the accepted reasoning levels.
pub fn is_known_reasoning_level(level: &str) -> (r: bool)
    ensures
        r == is_reasoning_level(level@),
        r <==> (level@ == "none"@ || level@ == "low"@ || level@ == "medium"@ || level@ == "high"@
            || level@ == "xhigh"@ || level@ == "max"@),
{
    str_eq(level, "none") || str_eq(level, "low") || str_eq(level, "medium") || str_eq(level, "high")
        || str_eq(level, "xhigh") || str_eq(level, "max")
}

/// The accepted reasoning levels are exactly `none`, `low`, `medium`,
/// `high`, `xhigh` and `max`: each of them is accepted, and any other text
/// is not.
pub proof fn law_reasoning_levels(level: Seq<char>)
    ensures
        is_reasoning_level("none"@),
        is_reasoning_level("low"@),
        is_reasoning_level("medium"@),
        is_reasoning_level("high"@),
        is_reasoning_level("xhigh"@),
        is_reasoning_level("max"@),
        level != "none"@ && level != "low"@ && level != "medium"@ && level != "high"@ && level
            != "xhigh"@ && level != "max"@ ==> !is_reasoning_level(level),
{
}

/// An effort value is refused when, trimmed and lowercased, it is no known
/// level.
pub open spec fn effort_refused(effort: Option<String>) -> bool {
    match effort {
        Some(v) => !is_reasoning_level(lowercase(trim(v@))),
        None => false,
    }
}

/// Persist the reasoning/thinking level for a provider. `None` clears the
/// override (the provider default then applies); an unknown value is
/// refused and changes nothing. An accepted value is stored as the level it
/// names: trimmed and lowercased, one of `none|low|medium|high|xhigh|max`.
pub fn set_transform_reasoning_effort(
    settings: &mut TransformSettings,
    provider_id: String,
    effort: Option<String>,
) -> (r: Result<(), String>)
    ensures
        r is Err <==> effort_refused(effort),
        r matches Err(msg) ==> *final(settings) == *old(settings) && msg@ == "Unknown reasoning effort '"@
            + effort->0@ + "'. Expected one of: "@ + REASONING_LEVELS_LIST@,
        r is Ok ==> *final(settings) == (TransformSettings {
            post_process_reasoning_effort: final(settings).post_process_reasoning_effort,
            ..*old(settings)
        }) && final(settings).post_process_reasoning_effort@ == match effort {
            Some(v) => if is_blank(v@) {
                old(settings).post_process_reasoning_effort@.remove(provider_id@)
            } else {
                old(settings).post_process_reasoning_effort@.insert(
                    provider_id@,
                    lowercase(trim(v@)),
                )
            },
            None => old(settings).post_process_reasoning_effort@.remove(provider_id@),
        },
        r is Ok && final(settings).post_process_reasoning_effort@.contains_key(provider_id@)
            ==> is_reasoning_level(final(settings).post_process_reasoning_effort@[provider_id@]),
        effort matches Some(v) ==> ((lowercase(trim(v@)) == "none"@ || lowercase(trim(v@))
            == "low"@ || lowercase(trim(v@)) == "medium"@ || lowercase(trim(v@)) == "high"@
            || lowercase(trim(v@)) == "xhigh"@ || lowercase(trim(v@)) == "max"@) <==> (r is Ok)),
        effort matches Some(v) ==> (r is Ok && !is_blank(v@)
            ==> final(settings).post_process_reasoning_effort@
            == old(settings).post_process_reasoning_effort@.insert(provider_id@, lowercase(trim(v@)))),
{
    match effort {
        Some(value) => {
            let level = to_lowercase(trim_str(value.as_str()));
            if !is_known_reasoning_level(level.as_str()) {
                let mut msg = concat3("Unknown reasoning effort '", value.as_str(), "'. Expected one of: ");
                msg.append(REASONING_LEVELS_LIST);
                return Err(msg);
            }
            if !is_blank_str(value.as_str()) {
                settings.post_process_reasoning_effort.insert(provider_id, level);
            } else {
                settings.post_process_reasoning_effort.remove(provider_id.as_str());
            }
        },
        None => {
            settings.post_process_reasoning_effort.remove(provider_id.as_str());
        },
    }
    Ok(())
}

/// The composer quick-action slots: (slot, mode id) for every assigned
/// slot, in increasing slot order.
pub fn get_quick_action_slots(settings: &TransformSettings) -> (r: Vec<(u8, String)>)
    ensures
        forall|i: int, j: int| 0 <= i < j < r@.len() ==> r@[i].0 < r@[j].0,
        forall|i: int|
            0 <= i < r@.len() ==> settings.quick_action_slots@.contains_key(#[trigger] r@[i].0)
                && settings.quick_action_slots@[r@[i].0] == r@[i].1@,
        forall|k: u8| #[trigger]
            settings.quick_action_slots@.contains_key(k) ==> exists|i: int|
                0 <= i < r@.len() && r@[i].0 == k,
{
    settings.quick_action_slots.sorted_entries()
}

/// Assign a transform mode to one of the 10 quick-action slots (1-based,
/// 1..=10); `None` clears the slot. A slot out of range or an unknown mode
/// id is refused and changes nothing.
pub fn set_quick_action_slot(settings: &mut TransformSettings, slot: u8, mode: Option<String>) -> (r:
    Result<(), String>)
    ensures
        !(1 <= slot <= 10) ==> (r matches Err(msg) && msg@
            == "Quick-action slot must be between 1 and 10"@),
        (1 <= slot <= 10 && mode is Some && mode_from_id(mode->0@) is None) ==> (r matches Err(msg)
            && msg@ == "Unknown transform mode: "@ + mode->0@),
        r is Err ==> *final(settings) == *old(settings),
        r is Ok <==> (1 <= slot <= 10 && (mode is Some ==> mode_from_id(mode->0@) is Some)),
        r is Ok ==> *final(settings) == (TransformSettings {
            quick_action_slots: final(settings).quick_action_slots,
            ..*old(settings)
        }) && final(settings).quick_action_slots@ == match mode {
            Some(v) => old(settings).quick_action_slots@.insert(slot, v@),
            None => old(settings).quick_action_slots@.remove(slot),
        },
{
    if !(1 <= slot && slot <= 10) {
        return Err("Quick-action slot must be between 1 and 10".to_owned());
    }
    match &mode {
        Some(value) => {
            match parse_transform_mode(value.as_str()) {
                Ok(_) => {},
                Err(msg) => {
                    return Err(msg);
                },
            }
        },
        None => {},
    }
    match mode {
        Some(value) => {
            settings.quick_action_slots.insert(slot, value);
        },
        None => {
            settings.quick_action_slots.remove(slot);
        },
    }
    Ok(())
}

/// The id of the on-device Apple Intelligence provider.
pub const APPLE_INTELLIGENCE_PROVIDER_ID: &'static str = "apple_intelligence";

/// The one model the Apple Intelligence provider offers.
pub const APPLE_INTELLIGENCE_DEFAULT_MODEL_ID: &'static str = "Apple Intelligence";

/// The refusal given for Apple Intelligence away from Apple silicon.
pub const APPLE_INTELLIGENCE_UNAVAILABLE: &'static str = "Apple Intelligence is only available on Apple silicon Macs running macOS 15 or later.";

/// How the model list of a provider is obtained.
#[derive(Debug)]
pub enum ModelListing {
    /// A fixed list, known without asking the provider.
    Fixed(Vec<String>),
    /// Fetched from this provider's OpenAI-compatible model listing.
    Fetch(PostProcessProvider),
}

/// The first step of fetching a provider's models: find the provider
/// (refusing an unknown id), answer Apple Intelligence locally (its one
/// model on Apple silicon, a refusal elsewhere), and otherwise name the
/// provider to fetch from.
pub fn transform_models_plan(settings: &TransformSettings, provider_id: &str, apple_silicon: bool) -> (r:
    Result<ModelListing, String>)
    ensures
        match provider_with_id(settings.post_process_providers@, provider_id@) {
            None => r matches Err(msg) && msg@ == "Provider '"@ + provider_id@ + "' not found"@,
            Some(p) => if p.id@ == APPLE_INTELLIGENCE_PROVIDER_ID@ {
                if apple_silicon {
                    r matches Ok(ModelListing::Fixed(v)) && v@.len() == 1 && v@[0]@
                        == APPLE_INTELLIGENCE_DEFAULT_MODEL_ID@
                } else {
                    r matches Err(msg) && msg@ == APPLE_INTELLIGENCE_UNAVAILABLE@
                }
            } else {
                r matches Ok(ModelListing::Fetch(q)) && q == p
            },
        },
{
    let provider = match settings.find_provider(provider_id) {
        Some(p) => p,
        None => {
            return Err(concat3("Provider '", provider_id, "' not found"));
        },
    };
    if str_eq(provider.id.as_str(), APPLE_INTELLIGENCE_PROVIDER_ID) {
        if apple_silicon {
            return Ok(ModelListing::Fixed(vec![APPLE_INTELLIGENCE_DEFAULT_MODEL_ID.to_owned()]));
        } else {
            return Err(APPLE_INTELLIGENCE_UNAVAILABLE.to_owned());
        }
    }
    Ok(ModelListing::Fetch(provider.clone()))
}

/// The text of an optional key, empty when there is none.
pub open spec fn key_or_empty(key: Option<String>) -> Seq<char> {
    match key {
        Some(k) => k@,
        None => Seq::empty(),
    }
}

/// The second step of fetching a provider's models: given how reading its
/// API key went, the key to fetch with, or the refusal. A blank key is
/// refused except for the `custom` provider, which may need none.
pub fn transform_models_api_key(
    provider: &PostProcessProvider,
    key_read: Result<Option<String>, SecretError>,
) -> (r: Result<String, String>)
    ensures
        match key_read {
            Err(e) => r matches Err(msg) && msg@ == secret_error_text(e),
            Ok(key) => if is_blank(key_or_empty(key)) && provider.id@ != "custom"@ {
                r matches Err(msg) && msg@ == "API key is required for "@ + provider.label@
                    + ". Please add an API key to list available models."@
            } else {
                r matches Ok(k) && k@ == key_or_empty(key)
            },
        },
{
    let api_key = match key_read {
        Ok(Some(key)) => key,
        Ok(None) => String::new(),
        Err(e) => {
            return Err(e.to_string());
        },
    };
    if is_blank_str(api_key.as_str()) && !str_eq(provider.id.as_str(), "custom") {
        return Err(concat3(
            "API key is required for ",
            provider.label.as_str(),
            ". Please add an API key to list available models.",
        ));
    }
    Ok(api_key)
}

} // verus!
