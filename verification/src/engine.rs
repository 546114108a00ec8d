use vstd::prelude::*;

verus! {

/// The encodings the tokenizer engine offers. Which one a model name
/// resolves to is the engine's own fixed table.
#[derive(Clone, Copy, PartialEq, Eq, Structural, Debug)]
pub enum EncodingKind {
    O200kHarmony,
    O200kBase,
    Cl100kBase,
    P50kBase,
    R50kBase,
    P50kEdit,
    Gpt2,
}

/// The engine's core tokenizer type, opaque to this library.
#[verifier::external_type_specification]
#[verifier::external_body]
pub struct ExCoreBPE(tiktoken_rs::CoreBPE);

/// One constructed tokenizer engine, owned by exactly one handle.
///
/// `kind` records which constructor built the opaque engine value. The
/// fields are private and the constructors below are the only way to obtain
/// an `Engine`, so the two always agree.
pub struct Engine {
    kind: EncodingKind,
    bpe: tiktoken_rs::CoreBPE,
}

impl Engine {
    /// The encoding this engine was constructed for.
    pub closed spec fn kind(&self) -> EncodingKind {
        self.kind
    }

    /// Reads the encoding this engine was constructed for.
    pub fn encoding_kind(&self) -> (k: EncodingKind)
        ensures
            k == self.kind(),
    {
        self.kind
    }
}

/// What the engine's fixed model tables resolve a model name to, if
/// anything.
pub uninterp spec fn model_encoding(model: Seq<char>) -> Option<EncodingKind>;

/// What the engine returns when it tokenizes `text` under an encoding,
/// treating exactly the strings in `allowed` as literal special tokens:
/// the token-id sequence, or the engine's error message. The vocabularies
/// and patterns are fixed data compiled into the engine, so the outcome is
/// a function of these arguments alone.
pub uninterp spec fn engine_encode(
    kind: EncodingKind,
    text: Seq<char>,
    allowed: Set<Seq<char>>,
) -> Result<Seq<u32>, Seq<char>>;

/// The view of an allowed-special-token array as the engine receives it:
/// the set of its strings, order and repetition forgotten.
pub open spec fn allowed_set(allowed: Seq<Seq<char>>) -> Set<Seq<char>> {
    allowed.to_set()
}

/// Relies on tiktoken_rs::tokenizer::get_tokenizer: it resolves a model
/// name against the engine's fixed model tables and returns the encoding's
/// tag, or nothing for an unknown model.
#[verifier::external_body]
pub(crate) fn resolve_model(model: &str) -> (r: Option<EncodingKind>)
    ensures
        r == model_encoding(model@),
{
    match tiktoken_rs::tokenizer::get_tokenizer(model) {
        None => None,
        Some(tiktoken_rs::tokenizer::Tokenizer::O200kHarmony) => Some(EncodingKind::O200kHarmony),
        Some(tiktoken_rs::tokenizer::Tokenizer::O200kBase) => Some(EncodingKind::O200kBase),
        Some(tiktoken_rs::tokenizer::Tokenizer::Cl100kBase) => Some(EncodingKind::Cl100kBase),
        Some(tiktoken_rs::tokenizer::Tokenizer::P50kBase) => Some(EncodingKind::P50kBase),
        Some(tiktoken_rs::tokenizer::Tokenizer::R50kBase) => Some(EncodingKind::R50kBase),
        Some(tiktoken_rs::tokenizer::Tokenizer::P50kEdit) => Some(EncodingKind::P50kEdit),
        Some(tiktoken_rs::tokenizer::Tokenizer::Gpt2) => Some(EncodingKind::Gpt2),
    }
}

/// Relies on tiktoken_rs::o200k_harmony: it builds the engine for the
/// o200k_harmony encoding from data compiled into the engine crate; that
/// data is fixed and well-formed, so construction succeeds.
#[verifier::external_body]
fn construct_o200k_harmony() -> (r: Result<Engine, String>)
    ensures
        r is Ok,
        r matches Ok(e) ==> e.kind() == EncodingKind::O200kHarmony,
{
    match tiktoken_rs::o200k_harmony() {
        Ok(bpe) => Ok(Engine { kind: EncodingKind::O200kHarmony, bpe }),
        Err(e) => Err(e.to_string()),
    }
}

/// Relies on tiktoken_rs::o200k_base: it builds the engine for the
/// o200k_base encoding from data compiled into the engine crate; that
/// data is fixed and well-formed, so construction succeeds.
#[verifier::external_body]
fn construct_o200k_base() -> (r: Result<Engine, String>)
    ensures
        r is Ok,
        r matches Ok(e) ==> e.kind() == EncodingKind::O200kBase,
{
    match tiktoken_rs::o200k_base() {
        Ok(bpe) => Ok(Engine { kind: EncodingKind::O200kBase, bpe }),
        Err(e) => Err(e.to_string()),
    }
}

/// Relies on tiktoken_rs::cl100k_base: it builds the engine for the
/// cl100k_base encoding from data compiled into the engine crate; that
/// data is fixed and well-formed, so construction succeeds.
#[verifier::external_body]
fn construct_cl100k_base() -> (r: Result<Engine, String>)
    ensures
        r is Ok,
        r matches Ok(e) ==> e.kind() == EncodingKind::Cl100kBase,
{
    match tiktoken_rs::cl100k_base() {
        Ok(bpe) => Ok(Engine { kind: EncodingKind::Cl100kBase, bpe }),
        Err(e) => Err(e.to_string()),
    }
}

/// Relies on tiktoken_rs::p50k_base: it builds the engine for the
/// p50k_base encoding from data compiled into the engine crate; that
/// data is fixed and well-formed, so construction succeeds.
#[verifier::external_body]
fn construct_p50k_base() -> (r: Result<Engine, String>)
    ensures
        r is Ok,
        r matches Ok(e) ==> e.kind() == EncodingKind::P50kBase,
{
    match tiktoken_rs::p50k_base() {
        Ok(bpe) => Ok(Engine { kind: EncodingKind::P50kBase, bpe }),
        Err(e) => Err(e.to_string()),
    }
}

/// Relies on tiktoken_rs::r50k_base: it builds the engine for the
/// r50k_base encoding from data compiled into the engine crate; that
/// data is fixed and well-formed, so construction succeeds.
#[verifier::external_body]
fn construct_r50k_base() -> (r: Result<Engine, String>)
    ensures
        r is Ok,
        r matches Ok(e) ==> e.kind() == EncodingKind::R50kBase,
{
    match tiktoken_rs::r50k_base() {
        Ok(bpe) => Ok(Engine { kind: EncodingKind::R50kBase, bpe }),
        Err(e) => Err(e.to_string()),
    }
}

/// Relies on tiktoken_rs::p50k_edit: it builds the engine for the
/// p50k_edit encoding from data compiled into the engine crate; that
/// data is fixed and well-formed, so construction succeeds.
#[verifier::external_body]
fn construct_p50k_edit() -> (r: Result<Engine, String>)
    ensures
        r is Ok,
        r matches Ok(e) ==> e.kind() == EncodingKind::P50kEdit,
{
    match tiktoken_rs::p50k_edit() {
        Ok(bpe) => Ok(Engine { kind: EncodingKind::P50kEdit, bpe }),
        Err(e) => Err(e.to_string()),
    }
}

/// Relies on tiktoken_rs::r50k_base: the gpt2 encoding is the engine's
/// r50k_base data, as the engine's own tokenizer dispatch has it; that
/// data is fixed and well-formed, so construction succeeds.
#[verifier::external_body]
fn construct_gpt2() -> (r: Result<Engine, String>)
    ensures
        r is Ok,
        r matches Ok(e) ==> e.kind() == EncodingKind::Gpt2,
{
    match tiktoken_rs::r50k_base() {
        Ok(bpe) => Ok(Engine { kind: EncodingKind::Gpt2, bpe }),
        Err(e) => Err(e.to_string()),
    }
}

/// Constructs the engine for an encoding. The engines are built from
/// fixed data compiled into the engine crate, so construction succeeds.
pub fn construct_engine(kind: EncodingKind) -> (r: Result<Engine, String>)
    ensures
        r matches Ok(e) && e.kind() == kind,
{
    match kind {
        EncodingKind::O200kHarmony => construct_o200k_harmony(),
        EncodingKind::O200kBase => construct_o200k_base(),
        EncodingKind::Cl100kBase => construct_cl100k_base(),
        EncodingKind::P50kBase => construct_p50k_base(),
        EncodingKind::R50kBase => construct_r50k_base(),
        EncodingKind::P50kEdit => construct_p50k_edit(),
        EncodingKind::Gpt2 => construct_gpt2(),
    }
}

/// Relies on tiktoken_rs::CoreBPE::encode: it tokenizes `text`, treating
/// exactly the strings of `allowed` that occur literally in the text as
/// special tokens with their reserved ids; an empty text gives an empty
/// sequence; the outcome is a function of the engine's fixed data and
/// these arguments.
#[verifier::external_body]
pub(crate) fn encode_engine(engine: &Engine, text: &str, allowed: &Vec<String>) -> (r: Result<Vec<u32>, String>)
    ensures
        r matches Ok(v) ==> engine_encode(engine.kind(), text@, allowed_set(allowed.deep_view())) matches Ok(s) && s == v@,
        r matches Err(m) ==> engine_encode(engine.kind(), text@, allowed_set(allowed.deep_view())) matches Err(em) && em == m@,
        text@.len() == 0 ==> r is Ok,
        r matches Ok(v2) ==> text@.len() == 0 ==> v2@.len() == 0,
{
    let wanted: std::collections::HashSet<&str> = allowed.iter().map(|s| s.as_str()).collect();
    match engine.bpe.encode(text, &wanted) {
        Ok((tokens, _)) => Ok(tokens),
        Err(e) => Err(e.message),
    }
}

} // verus!
