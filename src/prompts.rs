use vstd::prelude::*;
use crate::error::CliError;
use crate::text::same_text;

verus! {

/// One model family's profile as the index needs it: the serialized
/// role/instruction content, and the temperature as its IEEE-754 bit pattern.
#[derive(Debug)]
pub struct PromptProfile {
    pub role: String,
    pub temperature_bits: u32,
}

/// The three model families that carry a profile.
#[derive(Debug, Clone, Copy, PartialEq, Eq, Structural)]
pub enum ModelFamily {
    Coder,
    Chat,
    Creative,
}

/// The alias table: which family's profile an external model identifier
/// is registered under. The coder profile has two aliases.
pub open spec fn alias_family(id: Seq<char>) -> Option<ModelFamily> {
    if id == "deepseek-coder"@ || id == "deepseek-v3"@ {
        Some(ModelFamily::Coder)
    } else if id == "deepseek-chat"@ {
        Some(ModelFamily::Chat)
    } else if id == "deepseek-creative"@ {
        Some(ModelFamily::Creative)
    } else {
        None
    }
}

/// Looks up an external model identifier in the alias table.
pub fn family_of_alias(id: &str) -> (r: Option<ModelFamily>)
    ensures
        r == alias_family(id@),
{
    proof {
        reveal_strlit("deepseek-coder");
        reveal_strlit("deepseek-v3");
        reveal_strlit("deepseek-chat");
        reveal_strlit("deepseek-creative");
    }
    if same_text(id, "deepseek-coder") || same_text(id, "deepseek-v3") {
        Some(ModelFamily::Coder)
    } else if same_text(id, "deepseek-chat") {
        Some(ModelFamily::Chat)
    } else if same_text(id, "deepseek-creative") {
        Some(ModelFamily::Creative)
    } else {
        None
    }
}

/// The model profile index: the three family profiles, each reachable
/// under every alias of its family.
pub struct PromptManager {
    coder: PromptProfile,
    chat: PromptProfile,
    creative: PromptProfile,
}

impl PromptManager {
    /// The profile held for a family.
    pub closed spec fn spec_profile(&self, f: ModelFamily) -> PromptProfile {
        match f {
            ModelFamily::Coder => self.coder,
            ModelFamily::Chat => self.chat,
            ModelFamily::Creative => self.creative,
        }
    }

    /// The serialized role registered under an identifier, if any.
    pub open spec fn spec_role(&self, id: Seq<char>) -> Option<Seq<char>> {
        match alias_family(id) {
            Some(f) => Some(self.spec_profile(f).role@),
            None => None,
        }
    }

    /// The temperature bits registered under an identifier, if any.
    pub open spec fn spec_temperature(&self, id: Seq<char>) -> Option<u32> {
        match alias_family(id) {
            Some(f) => Some(self.spec_profile(f).temperature_bits),
            None => None,
        }
    }

    /// Builds the index from the document's three entries. An absent entry
    /// fails the whole load with `ConfigMissing`: nothing is loaded in part.
    pub fn new(
        coder: Option<PromptProfile>,
        chat: Option<PromptProfile>,
        creative: Option<PromptProfile>,
    ) -> (r: Result<PromptManager, CliError>)
        ensures
            r is Ok <==> (coder is Some && chat is Some && creative is Some),
            r is Err ==> r == Err::<PromptManager, CliError>(CliError::ConfigMissing),
            r matches Ok(m) ==> m.spec_profile(ModelFamily::Coder) == coder->0
                && m.spec_profile(ModelFamily::Chat) == chat->0
                && m.spec_profile(ModelFamily::Creative) == creative->0,
    {
        match (coder, chat, creative) {
            (Some(coder), Some(chat), Some(creative)) => Ok(PromptManager { coder, chat, creative }),
            _ => Err(CliError::ConfigMissing),
        }
    }

    /// The profile held for a family.
    pub fn profile(&self, f: ModelFamily) -> (r: &PromptProfile)
        ensures
            *r == self.spec_profile(f),
    {
        match f {
            ModelFamily::Coder => &self.coder,
            ModelFamily::Chat => &self.chat,
            ModelFamily::Creative => &self.creative,
        }
    }

    /// The serialized role registered under `model`; absent for an
    /// identifier that is not registered.
    pub fn get_sys_role(&self, model: &str) -> (r: Option<&str>)
        ensures
            r is Some <==> self.spec_role(model@) is Some,
            r matches Some(s) ==> s@ == self.spec_role(model@)->0,
    {
        match family_of_alias(model) {
            Some(f) => Some(self.profile(f).role.as_str()),
            None => None,
        }
    }

    /// The temperature bits registered under `model`; absent for an
    /// identifier that is not registered.
    pub fn get_temperature(&self, model: &str) -> (r: Option<u32>)
        ensures
            r == self.spec_temperature(model@),
    {
        match family_of_alias(model) {
            Some(f) => Some(self.profile(f).temperature_bits),
            None => None,
        }
    }
}

/// A loaded index answers for exactly the four registered identifiers:
/// both coder aliases give the coder entry's role and temperature, the
/// chat and creative aliases give theirs, and any other identifier is absent.
pub proof fn lemma_index_lookups(
    m: PromptManager,
    coder: PromptProfile,
    chat: PromptProfile,
    creative: PromptProfile,
    id: Seq<char>,
)
    requires
        m.spec_profile(ModelFamily::Coder) == coder,
        m.spec_profile(ModelFamily::Chat) == chat,
        m.spec_profile(ModelFamily::Creative) == creative,
    ensures
        m.spec_role("deepseek-coder"@) == Some(coder.role@),
        m.spec_role("deepseek-v3"@) == Some(coder.role@),
        m.spec_role("deepseek-chat"@) == Some(chat.role@),
        m.spec_role("deepseek-creative"@) == Some(creative.role@),
        m.spec_temperature("deepseek-coder"@) == Some(coder.temperature_bits),
        m.spec_temperature("deepseek-v3"@) == Some(coder.temperature_bits),
        m.spec_temperature("deepseek-chat"@) == Some(chat.temperature_bits),
        m.spec_temperature("deepseek-creative"@) == Some(creative.temperature_bits),
        alias_family(id) is None ==> m.spec_role(id) is None && m.spec_temperature(id) is None,
{
    reveal_strlit("deepseek-coder");
    reveal_strlit("deepseek-v3");
    reveal_strlit("deepseek-chat");
    reveal_strlit("deepseek-creative");
    assert("deepseek-chat"@.len() != "deepseek-coder"@.len());
    assert("deepseek-chat"@.len() != "deepseek-v3"@.len());
    assert("deepseek-creative"@.len() != "deepseek-coder"@.len());
    assert("deepseek-creative"@.len() != "deepseek-v3"@.len());
    assert("deepseek-creative"@.len() != "deepseek-chat"@.len());
}

} // verus!
