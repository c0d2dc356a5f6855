use gitbutler_error::{into_anyhow, AnyhowContextExt, Code, Context, Error, ErrorWithContext};

#[derive(Debug)]
struct PlainError;

impl std::fmt::Display for PlainError {
    fn fmt(&self, f: &mut std::fmt::Formatter<'_>) -> std::fmt::Result {
        f.write_str("internal information")
    }
}

impl std::error::Error for PlainError {}

#[derive(Debug)]
struct OtherError;

impl std::fmt::Display for OtherError {
    fn fmt(&self, f: &mut std::fmt::Formatter<'_>) -> std::fmt::Result {
        f.write_str("other")
    }
}

impl std::error::Error for OtherError {}

#[derive(Debug)]
struct Unclassified;

impl std::fmt::Display for Unclassified {
    fn fmt(&self, f: &mut std::fmt::Formatter<'_>) -> std::fmt::Result {
        f.write_str("user message")
    }
}

impl std::error::Error for Unclassified {}

impl ErrorWithContext for Unclassified {
    fn reported_context(&self) -> Option<Context> {
        self.context()
    }

    fn context(&self) -> Option<Context> {
        None
    }
}

#[derive(Debug)]
struct GitAuthError;

impl std::fmt::Display for GitAuthError {
    fn fmt(&self, f: &mut std::fmt::Formatter<'_>) -> std::fmt::Result {
        f.write_str("git authentication")
    }
}

impl std::error::Error for GitAuthError {}

impl ErrorWithContext for GitAuthError {
    fn reported_context(&self) -> Option<Context> {
        self.context()
    }

    fn context(&self) -> Option<Context> {
        Some(Context::new_static(Code::ProjectGitAuth, "authentication failed"))
    }
}

#[derive(Debug)]
enum Layered {
    Auth(GitAuthError),
    Other(Error),
}

impl std::fmt::Display for Layered {
    fn fmt(&self, f: &mut std::fmt::Formatter<'_>) -> std::fmt::Result {
        match self {
            Layered::Auth(e) => std::fmt::Display::fmt(e, f),
            Layered::Other(_) => f.write_str("layered"),
        }
    }
}

impl std::error::Error for Layered {}

impl ErrorWithContext for Layered {
    fn reported_context(&self) -> Option<Context> {
        self.context()
    }

    fn context(&self) -> Option<Context> {
        match self {
            Layered::Auth(e) => e.context(),
            Layered::Other(e) => e.custom_context(),
        }
    }
}

#[derive(Debug)]
struct Outer(Layered);

impl std::fmt::Display for Outer {
    fn fmt(&self, f: &mut std::fmt::Formatter<'_>) -> std::fmt::Result {
        f.write_str("outer")
    }
}

impl std::error::Error for Outer {}

impl ErrorWithContext for Outer {
    fn reported_context(&self) -> Option<Context> {
        self.context()
    }

    fn context(&self) -> Option<Context> {
        self.0.context()
    }
}

const ALL_CODES: [(Code, &str); 11] = [
    (Code::Unknown, "errors.unknown"),
    (Code::Validation, "errors.validation"),
    (Code::Projects, "errors.projects"),
    (Code::Branches, "errors.branches"),
    (Code::ProjectGitAuth, "errors.projects.git.auth"),
    (Code::ProjectGitRemote, "errors.projects.git.remote"),
    (Code::ProjectHead, "errors.projects.head"),
    (Code::ProjectConflict, "errors.projects.conflict"),
    (Code::Menu, "errors.menu"),
    (Code::PreCommitHook, "errors.hook"),
    (Code::CommitMsgHook, "errors.hooks.commit.msg"),
];

#[test]
fn code_strings_are_the_published_identifiers() {
    for (code, text) in ALL_CODES {
        assert_eq!(code.to_string(), text);
        assert_eq!(code.to_string(), code.to_string());
    }
}

#[test]
fn code_strings_are_non_empty_and_distinct() {
    for (i, (a, _)) in ALL_CODES.iter().enumerate() {
        assert!(!a.to_string().is_empty());
        for (j, (b, _)) in ALL_CODES.iter().enumerate() {
            if i != j {
                assert_ne!(a.to_string(), b.to_string());
            }
        }
    }
}

#[test]
fn code_default_is_unknown() {
    assert_eq!(Code::default(), Code::Unknown);
}

#[test]
fn context_from_code_has_no_message_and_displays_fallback() {
    for (code, _) in ALL_CODES {
        let ctx = Context::from(code);
        assert_eq!(ctx.code, code);
        assert!(ctx.message.is_none());
        assert_eq!(ctx.to_string(), "Something went wrong");
    }
}

#[test]
fn context_default_is_unknown_without_message() {
    let ctx = Context::default();
    assert_eq!(ctx.code, Code::Unknown);
    assert!(ctx.message.is_none());
    assert_eq!(ctx.to_string(), "Something went wrong");
}

#[test]
fn context_new_displays_its_message() {
    let ctx = Context::new(Code::Menu, "msg".to_string());
    assert_eq!(ctx.code, Code::Menu);
    assert_eq!(ctx.message.as_deref(), Some("msg"));
    assert_eq!(ctx.to_string(), "msg");
}

#[test]
fn context_new_static_displays_its_message() {
    let ctx = Context::new_static(Code::Branches, "user information");
    assert_eq!(ctx.code, Code::Branches);
    assert_eq!(ctx.to_string(), "user information");
}

#[test]
fn declared_error_without_override_has_no_context() {
    assert!(Unclassified.context().is_none());
    let err = into_anyhow(Unclassified);
    assert!(err.custom_context().is_none());
    assert!(err.is::<Unclassified>());
}

#[test]
fn nested_declared_error_reports_innermost_context() {
    let err = Outer(Layered::Auth(GitAuthError));
    let ctx = err.context().expect("classified");
    assert_eq!(ctx.code, Code::ProjectGitAuth);
    assert_eq!(ctx.to_string(), "authentication failed");

    let wrapped = Outer(Layered::Other(
        Error::from_err(PlainError).with_context(Context::new_static(Code::ProjectHead, "detached")),
    ));
    let ctx = wrapped.context().expect("classified");
    assert_eq!(ctx.code, Code::ProjectHead);
    assert_eq!(ctx.to_string(), "detached");
}

#[test]
fn declared_context_survives_conversion() {
    let declared = Outer(Layered::Auth(GitAuthError));
    let direct = declared.context().expect("classified");
    let extracted = into_anyhow(declared).custom_context().expect("classified");
    assert_eq!(direct.code, extracted.code);
    assert_eq!(direct.message, extracted.message);
}

#[test]
fn full_context_wins_over_bare_code_in_either_order() {
    let ctx = Context::new_static(Code::ProjectConflict, "conflict");
    let before = Error::from_err(PlainError)
        .with_context(ctx.clone())
        .with_code(Code::Validation)
        .custom_context()
        .expect("classified");
    assert_eq!(before.code, Code::ProjectConflict);
    assert_eq!(before.to_string(), "conflict");

    let after = Error::from_err(PlainError)
        .with_code(Code::Validation)
        .with_context(ctx)
        .custom_context()
        .expect("classified");
    assert_eq!(after.code, Code::ProjectConflict);
    assert_eq!(after.to_string(), "conflict");
}

#[test]
fn most_recent_annotation_of_a_kind_wins() {
    let codes = Error::from_err(PlainError)
        .with_code(Code::Menu)
        .with_code(Code::Projects)
        .custom_context()
        .expect("classified");
    assert_eq!(codes.code, Code::Projects);
    assert!(codes.message.is_none());

    let contexts = Error::from_err(PlainError)
        .with_context(Context::new_static(Code::Menu, "first"))
        .with_code(Code::Validation)
        .with_context(Context::new_static(Code::Branches, "second"))
        .custom_context()
        .expect("classified");
    assert_eq!(contexts.code, Code::Branches);
    assert_eq!(contexts.to_string(), "second");
}

#[test]
fn downcast_finds_cause_and_layers_only() {
    let err = Error::from_err(PlainError).context("while loading");
    assert!(err.downcast_ref::<PlainError>().is_some());
    assert!(err.is::<PlainError>());
    assert_eq!(err.downcast_ref::<&str>().copied(), Some("while loading"));
    assert!(err.downcast_ref::<OtherError>().is_none());
    assert!(!err.is::<OtherError>());
    assert!(!err.is::<String>());
}

#[test]
fn display_layer_does_not_classify() {
    let err = Error::from_err(PlainError).with_code(Code::Menu).context("layer");
    let ctx = err.custom_context().expect("classified");
    assert_eq!(ctx.code, Code::Menu);
    assert!(ctx.message.is_none());
}

#[test]
fn plain_error_without_context_is_unclassified() {
    let err = Error::from_err(PlainError);
    assert!(err.custom_context().is_none());
}

#[test]
fn plain_error_with_code_displays_fallback() {
    let ctx = Error::from_err(PlainError)
        .with_code(Code::Validation)
        .custom_context()
        .expect("classified");
    assert_eq!(ctx.code, Code::Validation);
    assert!(ctx.message.is_none());
    assert_eq!(ctx.to_string(), "Something went wrong");
}

#[test]
fn git_auth_error_surfaces_code_and_message() {
    let ctx = into_anyhow(GitAuthError).custom_context().expect("classified");
    assert_eq!(ctx.code.to_string(), "errors.projects.git.auth");
    assert_eq!(ctx.to_string(), "authentication failed");
}

#[test]
fn optional_context_attaches_only_when_present() {
    let none = Error::from_err(PlainError).with_code(Code::Menu).with_optional_context(None);
    assert_eq!(none.custom_context().expect("classified").code, Code::Menu);
    let some = Error::from_err(PlainError)
        .with_code(Code::Menu)
        .with_optional_context(Some(Context::new(Code::Projects, "owned".to_string())));
    let ctx = some.custom_context().expect("classified");
    assert_eq!(ctx.code, Code::Projects);
    assert_eq!(ctx.to_string(), "owned");
}

#[test]
fn chain_round_trips_through_wrapper() {
    let err = Error::from_chain(anyhow::Error::msg("dynamic"));
    assert!(err.custom_context().is_none());
    let chain = err.with_code(Code::Menu).into_chain();
    assert_eq!(chain.to_string(), "dynamic");
    assert_eq!(chain.downcast_ref::<&str>().copied(), Some("dynamic"));
}

#[test]
fn context_with_empty_message_displays_fallback() {
    let ctx = Context::new(Code::Validation, String::new());
    assert_eq!(ctx.to_string(), "Something went wrong");
    let ctx = Context::new_static(Code::Validation, "");
    assert_eq!(ctx.to_string(), "Something went wrong");
}

#[test]
fn automatic_conversions_keep_the_chain() {
    let err: Error = anyhow::Error::msg("dynamic").into();
    assert!(err.custom_context().is_none());
    let back: anyhow::Error = err.with_code(Code::Menu).context("outer").into();
    assert_eq!(back.to_string(), "outer");
    assert_eq!(back.root_cause().to_string(), "dynamic");
    assert_eq!(back.chain().count(), 2);
}
