//! The two translator hooks, each with the name under which messages are
//! written inline and the name that takes its place.

use vstd::prelude::*;

verus! {

/// Which of the two hooks a binding stands for.
#[derive(Debug, Clone, Copy, PartialEq, Eq, Hash, Structural)]
pub enum HookKind {
    /// The hook of client and shared components.
    UseTranslation,
    /// The awaitable hook of server code.
    GetTranslation,
}

/// What a call through a translator contributes to the catalog.
#[derive(Debug, Clone, Copy, PartialEq, Eq, Hash, Structural)]
pub enum MessageKind {
    /// The call holds its message inline; the message is extracted and the
    /// call rewritten.
    Extracted,
    /// The call names a key of an existing catalog; it is recorded and left
    /// as it is.
    Translations,
}

impl HookKind {
    /// The name under which the hook is imported to mark inline messages.
    pub open spec fn spec_extracted_name(self) -> Seq<char> {
        match self {
            HookKind::UseTranslation => "useExtracted"@,
            HookKind::GetTranslation => "getExtracted"@,
        }
    }

    /// The name of the hook that the rewritten module imports.
    pub open spec fn spec_target_name(self) -> Seq<char> {
        match self {
            HookKind::UseTranslation => "useTranslations"@,
            HookKind::GetTranslation => "getTranslations"@,
        }
    }

    /// The local name of the rewritten import. No author can write it: a
    /// digit follows the sigil.
    pub open spec fn spec_local_name(self) -> Seq<char> {
        match self {
            HookKind::UseTranslation => "useTranslations$1"@,
            HookKind::GetTranslation => "getTranslations$1"@,
        }
    }

    /// The module that exports the hook.
    pub open spec fn spec_source(self) -> Seq<char> {
        match self {
            HookKind::UseTranslation => "next-intl"@,
            HookKind::GetTranslation => "next-intl/server"@,
        }
    }

    /// The name under which the hook is imported to mark inline messages.
    pub fn extracted_name(self) -> (name: &'static str)
        ensures
            name@ == self.spec_extracted_name(),
    {
        match self {
            HookKind::UseTranslation => "useExtracted",
            HookKind::GetTranslation => "getExtracted",
        }
    }

    /// The name of the hook that the rewritten module imports.
    pub fn target_name(self) -> (name: &'static str)
        ensures
            name@ == self.spec_target_name(),
    {
        match self {
            HookKind::UseTranslation => "useTranslations",
            HookKind::GetTranslation => "getTranslations",
        }
    }

    /// The reserved local name of the rewritten import.
    pub fn local_name(self) -> (name: &'static str)
        ensures
            name@ == self.spec_local_name(),
    {
        match self {
            HookKind::UseTranslation => "useTranslations$1",
            HookKind::GetTranslation => "getTranslations$1",
        }
    }

    /// The module that exports the hook.
    pub fn source(self) -> (name: &'static str)
        ensures
            name@ == self.spec_source(),
    {
        match self {
            HookKind::UseTranslation => "next-intl",
            HookKind::GetTranslation => "next-intl/server",
        }
    }
}

/// The hook whose module is `src`, if it is one of the two recognised
/// modules.
pub open spec fn hook_of_source(src: Seq<char>) -> Option<HookKind> {
    if src == "next-intl"@ {
        Some(HookKind::UseTranslation)
    } else if src == "next-intl/server"@ {
        Some(HookKind::GetTranslation)
    } else {
        None
    }
}

/// The names of the hooks are pairwise different, so no name is at once a
/// name to extract from, a name to import and a reserved local name.
pub proof fn hook_names_differ(a: HookKind, b: HookKind)
    ensures
        a.spec_extracted_name() != b.spec_target_name(),
        a.spec_extracted_name() != b.spec_local_name(),
        a.spec_target_name() != b.spec_local_name(),
        a != b ==> a.spec_extracted_name() != b.spec_extracted_name(),
        a != b ==> a.spec_target_name() != b.spec_target_name(),
        a != b ==> a.spec_local_name() != b.spec_local_name(),
        a != b ==> a.spec_source() != b.spec_source(),
{
    reveal_strlit("useExtracted");
    reveal_strlit("getExtracted");
    reveal_strlit("useTranslations");
    reveal_strlit("getTranslations");
    reveal_strlit("useTranslations$1");
    reveal_strlit("getTranslations$1");
    reveal_strlit("next-intl");
    reveal_strlit("next-intl/server");
    assert("useExtracted"@[0] == 'u' && "getExtracted"@[0] == 'g');
    assert("useTranslations"@[0] == 'u' && "getTranslations"@[0] == 'g');
    assert("useTranslations$1"@[0] == 'u' && "getTranslations$1"@[0] == 'g');
    assert("useExtracted"@[3] == 'E' && "getExtracted"@[3] == 'E');
    assert("useTranslations"@[3] == 'T' && "getTranslations"@[3] == 'T');
    assert("useTranslations$1"@[3] == 'T' && "getTranslations$1"@[3] == 'T');
    assert("useTranslations"@.len() == 15 && "getTranslations"@.len() == 15);
    assert("useTranslations$1"@.len() == 17 && "getTranslations$1"@.len() == 17);
    assert("next-intl"@.len() == 9 && "next-intl/server"@.len() == 16);
}

} // verus!
