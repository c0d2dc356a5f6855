//! Error classification and context propagation.
//!
//! A [`Code`] classifies an error for programmatic handling, a [`Context`] pairs
//! it with a message for the user, and [`Error`] carries a dynamic cause chain
//! together with the classification attached to it on its way up.
mod code;
mod context;
mod error;
mod private;

pub use code::{code_str, lemma_code_str_injective, Code};
pub use context::{
    context_text, fallback_text, lemma_from_code_displays_fallback, lemma_message_displays_itself,
    Context,
};
pub use error::{
    attach_optional, found_context, into_anyhow, latest_code, latest_full_context,
    lemma_bare_code_classifies, lemma_codes_do_not_override_context, lemma_declared_context_round_trip, lemma_from_chain_keeps_chain, lemma_full_context_wins_over_code,
    Annotation, AnyhowContextExt, Error, ErrorWithContext,
};
