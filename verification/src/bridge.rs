use vstd::prelude::*;
use vstd::string::StringExecFns;
use crate::engine::Engine;
use crate::engine::allowed_set;
use crate::engine::construct_engine;
use crate::engine::encode_engine;
use crate::engine::engine_encode;
use crate::engine::model_encoding;
use crate::engine::resolve_model;
use crate::errors::BridgeError;
use crate::registry::Registry;

verus! {

/// Token ids as the host receives them: the engine's ids, widened.
pub open spec fn widened(tokens: Seq<u32>) -> Seq<u64> {
    tokens.map_values(|t: u32| t as u64)
}

/// A token sequence cut to an optional bound: absence means unbounded.
pub open spec fn clipped(tokens: Seq<u64>, max_tokens: Option<usize>) -> Seq<u64> {
    match max_tokens {
        Option::None => tokens,
        Option::Some(k) => if tokens.len() <= k {
            tokens
        } else {
            tokens.take(k as int)
        },
    }
}

/// A token result, engine values and all, seen abstractly.
pub open spec fn token_result_view(r: Result<Vec<u64>, BridgeError>) -> Result<
    Seq<u64>,
    BridgeError,
> {
    match r {
        Ok(v) => Result::<Seq<u64>, BridgeError>::Ok(v@),
        Err(e) => Result::<Seq<u64>, BridgeError>::Err(e),
    }
}

/// Everything `init` promises, over the registry's old and new views.
/// The three cases partition the inputs: an unknown model is exactly a
/// not-found failure; a known model with a handle already installed is
/// exactly a double-initialization failure; a known model on a fresh
/// identity succeeds and is owed success, since the engine is built from
/// fixed compiled-in data. Any failure installs nothing; success installs
/// one engine of the resolved encoding and touches nothing else.
pub open spec fn init_post(
    old_handles: Map<u64, Engine>,
    new_handles: Map<u64, Engine>,
    key: u64,
    model: Seq<char>,
    r: Result<(), BridgeError>,
) -> bool {
    &&& r is Err ==> new_handles == old_handles
    &&& (model_encoding(model) is None <==> (r matches Err(e) && e matches BridgeError::NotFound(
        m,
    ) && m@ == "Unable to find model"@))
    &&& ((model_encoding(model) is Some && old_handles.contains_key(key)) <==> (r matches Err(e)
        && e matches BridgeError::AlreadyInitialized(m) && m@
        == "A handle is already initialized for this object"@))
    &&& ((model_encoding(model) is Some && !old_handles.contains_key(key)) <==> r is Ok)
    &&& r is Ok ==> (exists|e: Engine|
        e.kind() == model_encoding(model)->Some_0 && new_handles == old_handles.insert(key, e))
}

/// Everything `encode` promises, over the registry's view: a missing
/// handle is exactly the lookup failure; otherwise the outcome mirrors the
/// engine's, with the token ids widened and cut to the bound.
pub open spec fn encode_post(
    handles: Map<u64, Engine>,
    key: u64,
    text: Seq<char>,
    allowed: Seq<Seq<char>>,
    max_tokens: Option<usize>,
    r: Result<Seq<u64>, BridgeError>,
) -> bool {
    if !handles.contains_key(key) {
        r matches Err(e) && e matches BridgeError::NotFound(m) && m@ == "Unable to find handle"@
    } else {
        match engine_encode(handles[key].kind(), text, allowed_set(allowed)) {
            Ok(full) => r matches Ok(v) && v == clipped(widened(full), max_tokens),
            Err(em) => r matches Err(e) && e matches BridgeError::RuntimeEncode(m) && m@ == em,
        }
    }
}

/// Everything `destroy` promises, over the registry's old and new views: a
/// live handle is removed, exactly once; a missing one is exactly the
/// lookup failure and nothing changes.
pub open spec fn destroy_post(
    old_handles: Map<u64, Engine>,
    new_handles: Map<u64, Engine>,
    key: u64,
    r: Result<(), BridgeError>,
) -> bool {
    &&& old_handles.contains_key(key) ==> r is Ok && new_handles == old_handles.remove(key)
    &&& !old_handles.contains_key(key) ==> (r matches Err(e) && e matches BridgeError::NotFound(m)
        && m@ == "Unable to find handle"@) && new_handles == old_handles
}

/// Initializes the handle for a host-object identity: resolves the model
/// name, constructs the engine, and installs it. Success is owed whenever
/// the model resolves and the identity is fresh; no failure leaves a
/// partial installation behind.
pub fn init(reg: &mut Registry, key: u64, model: &str) -> (r: Result<(), BridgeError>)
    ensures
        init_post(old(reg)@, final(reg)@, key, model@, r),
{
    match resolve_model(model) {
        None => Err(BridgeError::NotFound(String::from_str("Unable to find model"))),
        Some(kind) => match construct_engine(kind) {
            Err(m) => Err(BridgeError::Construction(m)),
            Ok(engine) => {
                let ghost witness = engine;
                match reg.install(key, engine) {
                    Ok(u) => {
                        proof {
                            assert(witness.kind() == model_encoding(model@)->Some_0
                                && reg@ == old(reg)@.insert(key, witness));
                        }
                        Ok(u)
                    },
                    Err(e) => Err(e),
                }
            },
        },
    }
}

/// Encodes a text into a freshly allocated token-id sequence under the
/// handle installed for the identity, treating exactly the given strings
/// as allowed special tokens and cutting the result to the optional
/// bound. The registry is read, never changed: calls on distinct handles
/// share nothing.
pub fn encode(
    reg: &Registry,
    key: u64,
    text: &str,
    allowed: &Vec<String>,
    max_tokens: Option<usize>,
) -> (r: Result<Vec<u64>, BridgeError>)
    ensures
        encode_post(reg@, key, text@, allowed.deep_view(), max_tokens, token_result_view(r)),
        r matches Ok(v) ==> (max_tokens matches Some(k) ==> v@.len() <= k),
        reg@.contains_key(key) && text@.len() == 0 ==> (r matches Ok(v) && v@.len() == 0),
{
    match reg.acquire(key) {
        Err(e) => Err(e),
        Ok(engine) => match encode_engine(engine, text, allowed) {
            Err(m) => Err(BridgeError::RuntimeEncode(m)),
            Ok(tokens) => {
                let mut out: Vec<u64> = Vec::new();
                let mut i: usize = 0;
                while i < tokens.len()
                    invariant
                        i <= tokens@.len(),
                        out@ == widened(tokens@.take(i as int)),
                    decreases tokens@.len() - i,
                {
                    out.push(tokens[i] as u64);
                    i = i + 1;
                    proof {
                        assert(tokens@.take(i as int) =~= tokens@.take(i - 1).push(
                            tokens@[i - 1],
                        ));
                        assert(widened(tokens@.take(i as int)) =~= widened(
                            tokens@.take(i - 1),
                        ).push(tokens@[i - 1] as u64));
                    }
                }
                proof {
                    assert(tokens@.take(tokens@.len() as int) =~= tokens@);
                }
                if let Some(k) = max_tokens {
                    out.truncate(k);
                    proof {
                        assert(out@ =~= clipped(widened(tokens@), max_tokens));
                    }
                }
                Ok(out)
            },
        },
    }
}

/// Removes the handle for the identity and releases the engine it owned.
/// A second destruction, like any use after it, is an explicit failure.
pub fn destroy(reg: &mut Registry, key: u64) -> (r: Result<(), BridgeError>)
    ensures
        destroy_post(old(reg)@, final(reg)@, key, r),
{
    match reg.remove(key) {
        // dropping the engine here releases its resources
        Ok(_engine) => Ok(()),
        Err(e) => Err(e),
    }
}

/// A sequence of marshalled strings, each wrapped back as a present
/// element.
pub open spec fn some_wrapped(v: Seq<String>) -> Seq<Option<String>> {
    v.map_values(|x: String| Option::<String>::Some(x))
}

/// Builds the call-scoped allowed-special-token list from elements
/// marshalled one by one, an absent element standing for one that could
/// not be converted: any such element aborts the whole call, so no partial
/// set is ever used.
#[verifier::loop_isolation(false)]
pub fn collect_allowed(parts: Vec<Option<String>>) -> (r: Result<Vec<String>, BridgeError>)
    ensures
        (forall|j: int| 0 <= j < parts@.len() ==> parts@[j] is Some) <==> r is Ok,
        r matches Ok(v) ==> some_wrapped(v@) == parts@,
        r matches Err(e) ==> e matches BridgeError::Marshal(m) && m@
            == "Unable to marshal an allowed special token"@,
{
    let ghost orig = parts@;
    let mut rest = parts;
    let mut out: Vec<String> = Vec::new();
    proof {
        assert(rest@ =~= orig.skip(0));
        assert(some_wrapped(out@) =~= orig.take(0));
    }
    while rest.len() > 0
        invariant
            out@.len() + rest@.len() == orig.len(),
            rest@ =~= orig.skip(out@.len() as int),
            some_wrapped(out@) =~= orig.take(out@.len() as int),
        decreases rest@.len(),
    {
        let ghost prev_rest = rest@;
        let ghost prev_out = out@;
        let ghost prev_len = out@.len() as int;
        let part = rest.remove(0);
        proof {
            assert(part == prev_rest[0]);
            assert(prev_rest[0] == orig.skip(prev_len)[0]);
            assert(part == orig[prev_len]);
            assert(rest@ =~= orig.skip(prev_len + 1));
        }
        match part {
            Some(s) => {
                out.push(s);
                proof {
                    assert(out@ == prev_out.push(s));
                    assert(some_wrapped(out@) =~= some_wrapped(prev_out).push(
                        Option::<String>::Some(s),
                    ));
                    assert(orig.take(prev_len + 1) =~= orig.take(prev_len).push(
                        orig[prev_len],
                    ));
                }
            },
            None => {
                proof {
                    assert(0 <= prev_len < orig.len() && !(orig[prev_len] is Some));
                    assert(exists|j: int|
                        0 <= j < orig.len() && !(#[trigger] orig[j] is Some));
                }
                return Err(
                    BridgeError::Marshal(
                        String::from_str("Unable to marshal an allowed special token"),
                    ),
                );
            },
        }
    }
    proof {
        assert(out@.len() == orig.len());
        assert(orig.take(orig.len() as int) =~= orig);
        assert(some_wrapped(out@) == orig);
        assert forall|j: int| 0 <= j < orig.len() implies orig[j] is Some by {
            assert(orig[j] == some_wrapped(out@)[j]);
        }
    }
    Ok(out)
}

/// A text marshalled from the host, or the marshal failure if it could
/// not be converted: an absent value stands for a failed conversion.
pub fn marshal_text(text: Option<String>) -> (r: Result<String, BridgeError>)
    ensures
        text matches Some(s) ==> r matches Ok(t) && t == s,
        text is None ==> (r matches Err(e) && e matches BridgeError::Marshal(m) && m@
            == "Unable to marshal text"@),
{
    match text {
        Some(s) => Ok(s),
        None => Err(BridgeError::Marshal(String::from_str("Unable to marshal text"))),
    }
}

/// Law: encoding is deterministic. `encode`'s contract pins one outcome
/// for a given handle entry, text, allowed set and bound, so two results
/// it allows for the same inputs agree: success together, byte-identical
/// token sequences, or failure together with the same message.
pub proof fn lemma_encode_deterministic(
    handles: Map<u64, Engine>,
    key: u64,
    text: Seq<char>,
    allowed: Seq<Seq<char>>,
    max_tokens: Option<usize>,
    r1: Result<Seq<u64>, BridgeError>,
    r2: Result<Seq<u64>, BridgeError>,
)
    requires
        encode_post(handles, key, text, allowed, max_tokens, r1),
        encode_post(handles, key, text, allowed, max_tokens, r2),
    ensures
        r1 is Ok <==> r2 is Ok,
        r1 matches Ok(v1) ==> (r2 matches Ok(v2) && v1 == v2),
        r1 matches Err(e1) ==> (r2 matches Err(e2) && e1.message() == e2.message()),
{
}

/// Law: handles do not interfere. What `encode` may return for one handle
/// depends only on that handle's own entry, never on what is installed
/// for other identities, so concurrent callers of distinct handles see
/// what sequential ones would.
pub proof fn lemma_encode_independent(
    m1: Map<u64, Engine>,
    m2: Map<u64, Engine>,
    key: u64,
    text: Seq<char>,
    allowed: Seq<Seq<char>>,
    max_tokens: Option<usize>,
    r: Result<Seq<u64>, BridgeError>,
)
    requires
        m1.contains_key(key),
        m2.contains_key(key),
        m1[key] == m2[key],
    ensures
        encode_post(m1, key, text, allowed, max_tokens, r) <==> encode_post(
            m2,
            key,
            text,
            allowed,
            max_tokens,
            r,
        ),
{
}

/// Law: an identity without a handle can only fail the lookup. After a
/// failed `init`, or after `destroy`, `encode` on that identity reports
/// the handle as not found; it never reaches an engine.
pub proof fn lemma_absent_handle_encode_fails(
    handles: Map<u64, Engine>,
    key: u64,
    text: Seq<char>,
    allowed: Seq<Seq<char>>,
    max_tokens: Option<usize>,
    r: Result<Seq<u64>, BridgeError>,
)
    requires
        !handles.contains_key(key),
        encode_post(handles, key, text, allowed, max_tokens, r),
    ensures
        r matches Err(e) && e matches BridgeError::NotFound(m) && m@ == "Unable to find handle"@,
{
}

/// Law: destruction removes exactly one handle. Afterwards the identity
/// has no handle, whatever it had before, and every other identity keeps
/// the engine it had.
pub proof fn lemma_destroy_removes_only_its_handle(
    old_handles: Map<u64, Engine>,
    new_handles: Map<u64, Engine>,
    key: u64,
    r: Result<(), BridgeError>,
)
    requires
        destroy_post(old_handles, new_handles, key, r),
    ensures
        !new_handles.contains_key(key),
        forall|k2: u64|
            k2 != key ==> new_handles.contains_key(k2) == old_handles.contains_key(k2),
        forall|k2: u64|
            k2 != key && old_handles.contains_key(k2) ==> new_handles[k2] == old_handles[k2],
{
}

} // verus!
