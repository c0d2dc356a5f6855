use vstd::prelude::*;

verus! {

/// A unique code that consumers of the API may rely on to identify errors.
#[derive(Debug, Copy, Clone, PartialEq, Eq, Structural, PartialOrd)]
pub enum Code {
    Unknown,
    Validation,
    Projects,
    Branches,
    ProjectGitAuth,
    ProjectGitRemote,
    ProjectConflict,
    ProjectHead,
    Menu,
    PreCommitHook,
    CommitMsgHook,
}

/// The stable identifier that consumers key off, one per code.
pub open spec fn code_str(c: Code) -> Seq<char> {
    match c {
        Code::Unknown => "errors.unknown"@,
        Code::Validation => "errors.validation"@,
        Code::Projects => "errors.projects"@,
        Code::Branches => "errors.branches"@,
        Code::ProjectGitAuth => "errors.projects.git.auth"@,
        Code::ProjectGitRemote => "errors.projects.git.remote"@,
        Code::ProjectHead => "errors.projects.head"@,
        Code::ProjectConflict => "errors.projects.conflict"@,
        Code::Menu => "errors.menu"@,
        Code::PreCommitHook => "errors.hook"@,
        Code::CommitMsgHook => "errors.hooks.commit.msg"@,
    }
}

impl Default for Code {
    /// Errors that were not classified are `Unknown`.
    fn default() -> (r: Self)
        ensures
            r == Code::Unknown,
    {
        Code::Unknown
    }
}

impl Code {
    /// The stable identifier of this code.
    pub fn to_string(&self) -> (r: String)
        ensures
            r@ == code_str(*self),
    {
        let s: &str = match self {
            Code::Menu => "errors.menu",
            Code::Unknown => "errors.unknown",
            Code::Validation => "errors.validation",
            Code::Projects => "errors.projects",
            Code::Branches => "errors.branches",
            Code::ProjectGitAuth => "errors.projects.git.auth",
            Code::ProjectGitRemote => "errors.projects.git.remote",
            Code::ProjectHead => "errors.projects.head",
            Code::ProjectConflict => "errors.projects.conflict",
            Code::PreCommitHook => "errors.hook",
            Code::CommitMsgHook => "errors.hooks.commit.msg",
        };
        String::from_str(s)
    }
}

/// Every code has a non-empty identifier, and no two codes share one.
pub proof fn lemma_code_str_injective(a: Code, b: Code)
    ensures
        code_str(a).len() > 0,
        code_str(a) == code_str(b) ==> a == b,
{
    reveal_strlit("errors.unknown");
    reveal_strlit("errors.validation");
    reveal_strlit("errors.projects");
    reveal_strlit("errors.branches");
    reveal_strlit("errors.projects.git.auth");
    reveal_strlit("errors.projects.git.remote");
    reveal_strlit("errors.projects.head");
    reveal_strlit("errors.projects.conflict");
    reveal_strlit("errors.menu");
    reveal_strlit("errors.hook");
    reveal_strlit("errors.hooks.commit.msg");
    if code_str(a) == code_str(b) {
        // Identifiers of equal length differ at the eighth or at the seventeenth character.
        assert(code_str(a).len() == code_str(b).len());
        assert(code_str(a)[7] == code_str(b)[7]);
        if code_str(a).len() > 16 {
            assert(code_str(a)[16] == code_str(b)[16]);
        }
    }
}

} // verus!
