use vstd::prelude::*;

use crate::code::Code;
use crate::context::Context;
use crate::private::Sealed;
use anyhow::Error as Chain;

verus! {

#[verifier::external_type_specification]
#[verifier::external_body]
pub struct ExAnyhowError(Chain);

/// Relies on `anyhow::Error::from`: wraps a standard error as the root cause of a new chain.
#[verifier::external_body]
fn chain_from_std<E>(err: E) -> (r: Chain)
    where
        E: std::error::Error + Send + Sync + 'static,
{
    anyhow::Error::from(err)
}

/// Relies on `anyhow::Error::context`: wraps the chain in one more displayable layer.
#[verifier::external_body]
fn chain_context<C>(err: Chain, context: C) -> (r: Chain)
    where
        C: std::fmt::Display + Send + Sync + 'static,
{
    err.context(context)
}

/// Relies on `anyhow::Error::downcast_ref`: a value of type `E` held anywhere in the chain,
/// as a cause or as a displayable layer.
#[verifier::external_body]
fn chain_downcast_ref<E>(err: &Chain) -> (r: Option<&E>)
    where
        E: std::fmt::Display + std::fmt::Debug + Send + Sync + 'static,
{
    err.downcast_ref::<E>()
}

/// A classification attached to an error on its way up. It is metadata beside the
/// cause chain: it never shows up among the causes.
#[derive(Debug, Clone)]
pub enum Annotation {
    /// A code together with an optional message.
    Context(Context),
    /// A bare code.
    Code(Code),
}

/// The full context attached most recently, if any.
pub open spec fn latest_full_context(s: Seq<Annotation>) -> Option<Context>
    decreases s.len(),
{
    if s.len() == 0 {
        None
    } else {
        match s.last() {
            Annotation::Context(c) => Some(c),
            Annotation::Code(_) => latest_full_context(s.drop_last()),
        }
    }
}

/// The bare code attached most recently, if any.
pub open spec fn latest_code(s: Seq<Annotation>) -> Option<Code>
    decreases s.len(),
{
    if s.len() == 0 {
        None
    } else {
        match s.last() {
            Annotation::Code(k) => Some(k),
            Annotation::Context(_) => latest_code(s.drop_last()),
        }
    }
}

/// The context that classifies an error with annotations `s`: a full context wins over
/// a bare code, and among annotations of one kind the most recent wins.
pub open spec fn found_context(s: Seq<Annotation>) -> Option<Context> {
    match latest_full_context(s) {
        Some(c) => Some(c),
        None => match latest_code(s) {
            Some(k) => Some(Context { code: k, message: None }),
            None => None,
        },
    }
}

/// The annotations after a declared error's optional context has been attached.
pub open spec fn attach_optional(s: Seq<Annotation>, context: Option<Context>) -> Seq<Annotation> {
    match context {
        Some(c) => s.push(Annotation::Context(c)),
        None => s,
    }
}

/// The annotations of an error, newest first: each link holds one annotation and the
/// ones attached before it.
#[derive(Debug)]
enum Trail {
    End,
    Link(Annotation, Box<Trail>),
}

/// The annotations of a trail, oldest first.
spec fn trail_seq(t: &Trail) -> Seq<Annotation>
    decreases t,
{
    match t {
        Trail::End => Seq::empty(),
        Trail::Link(a, rest) => trail_seq(rest).push(*a),
    }
}

/// A wrapper around an `anyhow` error chain which also carries the classification
/// attached to it on its way up.
#[derive(Debug)]
pub struct Error {
    inner: Chain,
    annotations: Trail,
}

impl View for Error {
    type V = Seq<Annotation>;

    /// The annotations attached to this error, oldest first.
    closed spec fn view(&self) -> Seq<Annotation> {
        trail_seq(&self.annotations)
    }
}

impl Error {
    /// The dynamic error chain held beside the annotations.
    pub closed spec fn chain(&self) -> Chain {
        self.inner
    }
}

/// Implemented by declared error types to expose the context they carry.
///
/// A type whose variants wrap other errors delegates to the active variant, so that the
/// most specific classification is the one that surfaces.
pub trait ErrorWithContext {
    /// The context that [`ErrorWithContext::context`] reports for this value. Where it is
    /// an ordinary method, it returns `self.context()`.
    spec fn reported_context(&self) -> Option<Context>;

    /// Obtain the [`Context`], if present.
    fn context(&self) -> (r: Option<Context>)
        ensures
            r == self.reported_context(),
    ;
}

/// A way to obtain the attached code or context of a dynamic error, so that the more
/// complete information is preferred.
pub trait AnyhowContextExt: Sealed {
    /// The context that [`AnyhowContextExt::custom_context`] returns.
    spec fn attached_context(&self) -> Option<Context>;

    /// Return the context attached to this instance: the most recent full context, else
    /// the most recent bare code, else nothing.
    fn custom_context(&self) -> (r: Option<Context>)
        ensures
            r == self.attached_context(),
    ;
}

impl Sealed for Error {}

impl AnyhowContextExt for Error {
    open spec fn attached_context(&self) -> Option<Context> {
        found_context(self@)
    }

    fn custom_context(&self) -> (r: Option<Context>) {
        match find_full_context(&self.annotations) {
            Some(c) => Some(c),
            None => match find_code(&self.annotations) {
                Some(k) => Some(Context::from(k)),
                None => None,
            },
        }
    }
}

/// The full context attached most recently, searched from the newest annotation.
fn find_full_context(t: &Trail) -> (r: Option<Context>)
    ensures
        r == latest_full_context(trail_seq(t)),
    decreases t,
{
    match t {
        Trail::End => None,
        Trail::Link(Annotation::Context(c), _) => Some(c.duplicate()),
        Trail::Link(Annotation::Code(_), rest) => {
            assert(trail_seq(t).drop_last() =~= trail_seq(rest));
            find_full_context(rest)
        },
    }
}

/// The bare code attached most recently, searched from the newest annotation.
fn find_code(t: &Trail) -> (r: Option<Code>)
    ensures
        r == latest_code(trail_seq(t)),
    decreases t,
{
    match t {
        Trail::End => None,
        Trail::Link(Annotation::Code(k), _) => Some(*k),
        Trail::Link(Annotation::Context(_), rest) => {
            assert(trail_seq(t).drop_last() =~= trail_seq(rest));
            find_code(rest)
        },
    }
}

impl Error {
    /// Wrap a plain error that carries no context. This is the explicit path for errors
    /// that do not implement [`ErrorWithContext`], so that losing a classification is
    /// always a visible choice.
    pub fn from_err<E>(err: E) -> (r: Self)
        where
            E: std::error::Error + Send + Sync + 'static,
        ensures
            r@ == Seq::<Annotation>::empty(),
    {
        Error { inner: chain_from_std(err), annotations: Trail::End }
    }

    /// Wrap an existing dynamic error chain that carries no classification yet.
    pub fn from_chain(chain: Chain) -> (r: Self)
        ensures
            r.chain() == chain,
            r@ == Seq::<Annotation>::empty(),
    {
        Error { inner: chain, annotations: Trail::End }
    }

    /// The dynamic error chain. The classification attached beside it is dropped.
    pub fn into_chain(self) -> (r: Chain)
        ensures
            r == self.chain(),
    {
        self.inner
    }

    /// Associate more displayable context with the contained error chain. The
    /// classification is left as it is.
    pub fn context<C>(self, context: C) -> (r: Self)
        where
            C: std::fmt::Display + Send + Sync + 'static,
        ensures
            r@ == self@,
    {
        Error { inner: chain_context(self.inner, context), annotations: self.annotations }
    }

    /// Attach a full context.
    pub fn with_context(self, context: Context) -> (r: Self)
        ensures
            r.chain() == self.chain(),
            r@ == self@.push(Annotation::Context(context)),
    {
        Error {
            inner: self.inner,
            annotations: Trail::Link(Annotation::Context(context), Box::new(self.annotations)),
        }
    }

    /// Attach a bare code.
    pub fn with_code(self, code: Code) -> (r: Self)
        ensures
            r.chain() == self.chain(),
            r@ == self@.push(Annotation::Code(code)),
    {
        Error {
            inner: self.inner,
            annotations: Trail::Link(Annotation::Code(code), Box::new(self.annotations)),
        }
    }

    /// Attach the context that a declared error reported, if it reported one.
    pub fn with_optional_context(self, context: Option<Context>) -> (r: Self)
        ensures
            r.chain() == self.chain(),
            r@ == attach_optional(self@, context),
    {
        match context {
            Some(c) => self.with_context(c),
            None => self,
        }
    }

    /// Returns `true` if a value of type `E` is contained in the error chain.
    pub fn is<E>(&self) -> (r: bool)
        where
            E: std::fmt::Display + std::fmt::Debug + Send + Sync + 'static,
    {
        chain_downcast_ref::<E>(&self.inner).is_some()
    }

    /// A reference to the value of type `E` in the error chain, or `None` if the chain
    /// holds none.
    pub fn downcast_ref<E>(&self) -> (r: Option<&E>)
        where
            E: std::fmt::Display + std::fmt::Debug + Send + Sync + 'static,
    {
        chain_downcast_ref::<E>(&self.inner)
    }
}

impl From<Chain> for Error {
    /// Wrap a dynamic error chain, as [`Error::from_chain`] does.
    fn from(chain: Chain) -> (r: Self) {
        Error { inner: chain, annotations: Trail::End }
    }
}

impl vstd::std_specs::convert::FromSpecImpl<Chain> for Error {
    open spec fn obeys_from_spec() -> bool {
        true
    }

    closed spec fn from_spec(chain: Chain) -> Error {
        Error { inner: chain, annotations: Trail::End }
    }
}

/// Converting a dynamic error chain into an [`Error`] keeps that chain and attaches no
/// classification, so converting back gives the same chain.
pub proof fn lemma_from_chain_keeps_chain(chain: Chain)
    ensures
        <Error as vstd::std_specs::convert::FromSpec<Chain>>::from_spec(chain).chain() == chain,
        <Error as vstd::std_specs::convert::FromSpec<Chain>>::from_spec(chain)@
            == Seq::<Annotation>::empty(),
        <Chain as vstd::std_specs::convert::FromSpec<Error>>::from_spec(
            <Error as vstd::std_specs::convert::FromSpec<Chain>>::from_spec(chain),
        ) == chain,
{
}

impl From<Error> for Chain {
    /// Unwrap the dynamic error chain, as [`Error::into_chain`] does. The classification
    /// attached beside the chain is dropped.
    fn from(err: Error) -> (r: Self) {
        err.into_chain()
    }
}

impl vstd::std_specs::convert::FromSpecImpl<Error> for Chain {
    open spec fn obeys_from_spec() -> bool {
        true
    }

    open spec fn from_spec(err: Error) -> Chain {
        err.chain()
    }
}

/// Convert a declared error into an [`Error`], attaching the context it reports, if any,
/// beside its cause chain.
///
/// There is no automatic `From` conversion from declared errors into [`Error`]; this
/// function is the way in.
pub fn into_anyhow<E>(err: E) -> (r: Error)
    where
        E: ErrorWithContext + std::error::Error + Send + Sync + 'static,
    ensures
        r@ == attach_optional(Seq::<Annotation>::empty(), err.reported_context()),
{
    let context = err.context();
    Error::from_err(err).with_optional_context(context)
}

/// Attaching the context that a declared error reports to an error that carried no
/// classification, then extracting, gives back exactly that context, or nothing when the
/// declared error reported none.
pub proof fn lemma_declared_context_round_trip(context: Option<Context>)
    ensures
        found_context(attach_optional(Seq::<Annotation>::empty(), context)) == context,
{
    let s = attach_optional(Seq::<Annotation>::empty(), context);
    if s.len() > 0 {
        assert(s.drop_last() =~= Seq::<Annotation>::empty());
    }
}

/// A full context attached to an error is what extraction yields, whether a bare code was
/// attached before it or after it.
pub proof fn lemma_full_context_wins_over_code(s: Seq<Annotation>, context: Context, code: Code)
    ensures
        found_context(s.push(Annotation::Context(context)).push(Annotation::Code(code)))
            == Some(context),
        found_context(s.push(Annotation::Code(code)).push(Annotation::Context(context)))
            == Some(context),
{
    let a = s.push(Annotation::Context(context)).push(Annotation::Code(code));
    let b = s.push(Annotation::Context(context));
    assert(a.drop_last() =~= b);
    assert(b.last() == Annotation::Context(context));
    assert(latest_full_context(b) == Some(context));
    assert(latest_full_context(a) == latest_full_context(b));
}

/// Bare codes attached after a full context, however many, never override it.
pub proof fn lemma_codes_do_not_override_context(
    s: Seq<Annotation>,
    context: Context,
    codes: Seq<Annotation>,
)
    requires
        forall|i: int| 0 <= i < codes.len() ==> #[trigger] codes[i] is Code,
    ensures
        latest_full_context(s.push(Annotation::Context(context)) + codes) == Some(context),
        found_context(s.push(Annotation::Context(context)) + codes) == Some(context),
    decreases codes.len(),
{
    let b = s.push(Annotation::Context(context));
    if codes.len() == 0 {
        assert(b + codes =~= b);
        assert(b.last() == Annotation::Context(context));
    } else {
        let shorter = codes.drop_last();
        assert forall|i: int| 0 <= i < shorter.len() implies #[trigger] shorter[i] is Code by {
            assert(shorter[i] == codes[i]);
        }
        lemma_codes_do_not_override_context(s, context, shorter);
        assert((b + codes).drop_last() =~= b + shorter);
        assert((b + codes).last() == codes.last());
        assert(codes[codes.len() - 1] is Code);
    }
}

/// An error that carries only bare codes is classified by the most recent one, without a
/// message; one that carries nothing is not classified.
pub proof fn lemma_bare_code_classifies(code: Code)
    ensures
        found_context(Seq::<Annotation>::empty()) is None,
        found_context(Seq::<Annotation>::empty().push(Annotation::Code(code)))
            == Some(Context { code, message: None }),
{
    let a = Seq::<Annotation>::empty().push(Annotation::Code(code));
    assert(a.drop_last() =~= Seq::<Annotation>::empty());
}

} // verus!
