use vstd::prelude::*;

verus! {

/// The model tiers offered at setup, fastest first.
pub open spec fn model_tier(i: int) -> Seq<char> {
    if i == 0 {
        "tiny"@
    } else if i == 1 {
        "base"@
    } else if i == 2 {
        "small"@
    } else if i == 3 {
        "medium"@
    } else {
        "large"@
    }
}

/// Number of model tiers offered at setup.
pub const MODEL_TIER_COUNT: usize = 5;

/// The tier selected when setup is accepted as offered.
pub const DEFAULT_MODEL_TIER: usize = 2;

/// The model name for a setup selection; `None` past the last tier.
pub fn model_for_selection(index: usize) -> (r: Option<String>)
    ensures
        index < MODEL_TIER_COUNT ==> (r matches Some(s) && s@ == model_tier(index as int)),
        index >= MODEL_TIER_COUNT ==> r is None,
{
    if index == 0 {
        Some(String::from_str("tiny"))
    } else if index == 1 {
        Some(String::from_str("base"))
    } else if index == 2 {
        Some(String::from_str("small"))
    } else if index == 3 {
        Some(String::from_str("medium"))
    } else if index == 4 {
        Some(String::from_str("large"))
    } else {
        None
    }
}

/// The artifact file of a model: `ggml-<name>.bin`.
pub open spec fn model_file_of(name: Seq<char>) -> Seq<char> {
    "ggml-"@ + name + ".bin"@
}

/// Where the artifact of a model is published.
pub open spec fn model_url_of(name: Seq<char>) -> Seq<char> {
    "https://huggingface.co/ggerganov/whisper.cpp/resolve/main/"@ + model_file_of(name)
}

pub fn model_file_name(model_name: &str) -> (r: String)
    ensures
        r@ == model_file_of(model_name@),
{
    let mut s = String::from_str("ggml-");
    s.append(model_name);
    s.append(".bin");
    s
}

pub fn model_url(model_name: &str) -> (r: String)
    ensures
        r@ == model_url_of(model_name@),
{
    let mut s = String::from_str("https://huggingface.co/ggerganov/whisper.cpp/resolve/main/");
    let file = model_file_name(model_name);
    s.append(file.as_str());
    assert(s@ =~= model_url_of(model_name@));
    s
}

} // verus!
