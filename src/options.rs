use vstd::prelude::*;
use vstd::string::*;

use crate::providers::AIProvider;

verus! {

/// The backend named when a request names none.
pub fn default_provider() -> (r: String)
    ensures
        r@ == "ollama"@,
{
    String::from_str("ollama")
}

/// The model named when a request names none.
pub fn default_model() -> (r: String)
    ensures
        r@ == "moondream"@,
{
    String::from_str("moondream")
}

/// What str::to_lowercase gives for a text.
pub uninterp spec fn lowercase_of(s: Seq<char>) -> Seq<char>;

/// Relies on str::to_lowercase: the result depends on the characters alone.
#[verifier::external_body]
fn to_lowercase(s: &str) -> (r: String)
    ensures
        r@ == lowercase_of(s@),
{
    s.to_lowercase()
}

/// The backend for a lower-case name: "ollama" is the local one, any other
/// name the hosted one.
pub fn provider_for_lowercase(name: &str) -> (r: AIProvider)
    ensures
        r == if name@ == "ollama"@ {
            AIProvider::Ollama
        } else {
            AIProvider::OpenAI
        },
{
    let given = String::from_str(name);
    let local = String::from_str("ollama");
    if given == local {
        AIProvider::Ollama
    } else {
        AIProvider::OpenAI
    }
}

/// The backend for a name in any case.
pub fn provider_from_name(name: &str) -> (r: AIProvider)
    ensures
        r == if lowercase_of(name@) == "ollama"@ {
            AIProvider::Ollama
        } else {
            AIProvider::OpenAI
        },
{
    let lower = to_lowercase(name);
    provider_for_lowercase(lower.as_str())
}

} // verus!
