//! Which provider a dispatch goes to, and the credentials it may need.
use vstd::prelude::*;

verus! {

/// The backend that one dispatch goes to.
#[derive(Clone, Copy, Debug, PartialEq, Eq, Structural)]
pub enum ProviderId {
    /// A generative-text service reached over HTTP.
    GenerativeText,
    /// A completion service reached over HTTP.
    CompletionText,
    /// A coding assistant run as an external command.
    InteractiveAssistant,
}

/// The keys of the two HTTP providers; the assistant needs none.
#[derive(Debug, PartialEq, Eq)]
pub struct Credentials {
    pub generative: String,
    pub completion: String,
}

/// The provider named by a menu selection: "1", "2" or "3"; anything else
/// falls back to the completion provider.
pub open spec fn provider_for(selection: Seq<char>) -> ProviderId {
    if selection == "1"@ {
        ProviderId::GenerativeText
    } else if selection == "3"@ {
        ProviderId::InteractiveAssistant
    } else {
        ProviderId::CompletionText
    }
}

/// Resolves a trimmed menu selection to a provider.
pub fn select_provider(selection: &str) -> (r: ProviderId)
    ensures
        r == provider_for(selection@),
{
    proof {
        reveal_strlit("1");
        reveal_strlit("3");
    }
    if selection.unicode_len() == 1 {
        let c = selection.get_char(0);
        if c == '1' {
            assert(selection@ =~= "1"@);
            return ProviderId::GenerativeText;
        } else if c == '3' {
            assert(selection@ =~= "3"@);
            return ProviderId::InteractiveAssistant;
        }
    }
    ProviderId::CompletionText
}

/// Takes the first key as the generative-text provider's and the second as
/// the completion provider's; fewer than two keys give `None`.
pub fn credentials_from_keys(keys: &Vec<String>) -> (r: Option<Credentials>)
    ensures
        keys@.len() < 2 <==> r is None,
        r matches Some(c) ==> c.generative@ == keys@[0]@ && c.completion@ == keys@[1]@,
{
    if keys.len() < 2 {
        None
    } else {
        Some(Credentials { generative: keys[0].clone(), completion: keys[1].clone() })
    }
}

} // verus!
