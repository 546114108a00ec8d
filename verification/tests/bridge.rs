use tiktoken_bridge::bridge::collect_allowed;
use tiktoken_bridge::bridge::destroy;
use tiktoken_bridge::bridge::encode;
use tiktoken_bridge::bridge::init;
use tiktoken_bridge::bridge::marshal_text;
use tiktoken_bridge::errors::BridgeError;
use tiktoken_bridge::errors::unwrap_or_throw;
use tiktoken_bridge::registry::Registry;

fn message_of(e: BridgeError) -> String {
    e.into_message()
}

#[test]
fn init_unknown_model_reports_not_found() {
    let mut reg = Registry::new();
    let r = init(&mut reg, 1, "no-such-model-xyz");
    match r {
        Err(BridgeError::NotFound(m)) => assert_eq!(m, "Unable to find model"),
        _ => panic!("expected a not-found failure"),
    }
    // no handle was left behind: encoding on the same identity fails the lookup
    let out = encode(&reg, 1, "hello", &Vec::new(), None);
    match out {
        Err(BridgeError::NotFound(m)) => assert_eq!(m, "Unable to find handle"),
        _ => panic!("expected a lookup failure"),
    }
}

#[test]
fn known_model_empty_text_gives_empty_sequence() {
    let mut reg = Registry::new();
    init(&mut reg, 7, "gpt-4").expect("gpt-4 should resolve");
    let out = encode(&reg, 7, "", &Vec::new(), None).expect("encoding should succeed");
    assert_eq!(out, Vec::<u64>::new());
}

#[test]
fn repeated_encode_is_deterministic() {
    let mut reg = Registry::new();
    init(&mut reg, 1, "gpt-4").expect("gpt-4 should resolve");
    let allowed: Vec<String> = Vec::new();
    let first = encode(&reg, 1, "Hello, world!", &allowed, None).expect("encoding should succeed");
    let second = encode(&reg, 1, "Hello, world!", &allowed, None).expect("encoding should succeed");
    assert!(!first.is_empty());
    assert_eq!(first, second);
}

#[test]
fn max_token_length_bounds_output() {
    let mut reg = Registry::new();
    init(&mut reg, 1, "gpt-4").expect("gpt-4 should resolve");
    let allowed: Vec<String> = Vec::new();
    let text = "The quick brown fox jumps over the lazy dog, again and again and again.";
    let full = encode(&reg, 1, text, &allowed, None).expect("encoding should succeed");
    assert!(full.len() > 3);
    let cut = encode(&reg, 1, text, &allowed, Some(3)).expect("encoding should succeed");
    assert_eq!(cut.len(), 3);
    assert_eq!(cut[..], full[..3]);
    let wide = encode(&reg, 1, text, &allowed, Some(10_000)).expect("encoding should succeed");
    assert_eq!(wide, full);
}

#[test]
fn allowed_special_token_uses_reserved_id() {
    let mut reg = Registry::new();
    init(&mut reg, 1, "gpt-4").expect("gpt-4 should resolve");
    let special = "<|endoftext|>";
    let allowed = vec![special.to_string()];
    let as_special = encode(&reg, 1, special, &allowed, None).expect("encoding should succeed");
    // cl100k_base reserves id 100257 for <|endoftext|>
    assert_eq!(as_special, vec![100257u64]);
    let as_text = encode(&reg, 1, special, &Vec::new(), None).expect("encoding should succeed");
    assert!(as_text.len() > 1);
    assert_ne!(as_text, as_special);
}

#[test]
fn distinct_handles_do_not_interfere() {
    let mut reg = Registry::new();
    init(&mut reg, 1, "gpt-4").expect("gpt-4 should resolve");
    init(&mut reg, 2, "gpt2").expect("gpt2 should resolve");
    let allowed: Vec<String> = Vec::new();
    let text = "tokenizers differ";
    let isolated_one = encode(&reg, 1, text, &allowed, None).expect("encoding should succeed");
    let isolated_two = encode(&reg, 2, text, &allowed, None).expect("encoding should succeed");
    // interleave calls on both handles: each sees only its own engine
    let one = encode(&reg, 1, text, &allowed, None).expect("encoding should succeed");
    let two = encode(&reg, 2, text, &allowed, None).expect("encoding should succeed");
    let one_again = encode(&reg, 1, text, &allowed, None).expect("encoding should succeed");
    assert_eq!(one, isolated_one);
    assert_eq!(two, isolated_two);
    assert_eq!(one_again, isolated_one);
}

#[test]
fn destroy_then_encode_fails_without_corruption() {
    let mut reg = Registry::new();
    init(&mut reg, 1, "gpt-4").expect("gpt-4 should resolve");
    init(&mut reg, 2, "gpt-4").expect("gpt-4 should resolve");
    let before = encode(&reg, 2, "still here", &Vec::new(), None).expect("encoding should succeed");
    destroy(&mut reg, 1).expect("first destruction succeeds");
    let out = encode(&reg, 1, "hello", &Vec::new(), None);
    match out {
        Err(BridgeError::NotFound(m)) => assert_eq!(m, "Unable to find handle"),
        _ => panic!("expected a lookup failure"),
    }
    // the other handle is untouched
    let after = encode(&reg, 2, "still here", &Vec::new(), None).expect("encoding should succeed");
    assert_eq!(after, before);
    // a second destruction is an explicit failure too
    let twice = destroy(&mut reg, 1);
    match twice {
        Err(BridgeError::NotFound(m)) => assert_eq!(m, "Unable to find handle"),
        _ => panic!("expected a lookup failure"),
    }
}

#[test]
fn init_succeeds_for_every_modern_encoding() {
    // success is owed whenever the model resolves and the identity is fresh
    let mut reg = Registry::new();
    init(&mut reg, 1, "gpt-oss-20b").expect("o200k_harmony models resolve");
    init(&mut reg, 2, "gpt-4o").expect("o200k_base models resolve");
    init(&mut reg, 3, "gpt-4").expect("cl100k_base models resolve");
}

#[test]
fn init_succeeds_for_every_legacy_encoding() {
    let mut reg = Registry::new();
    init(&mut reg, 1, "text-davinci-003").expect("p50k_base models resolve");
    init(&mut reg, 2, "davinci").expect("r50k_base models resolve");
    init(&mut reg, 3, "text-davinci-edit-001").expect("p50k_edit models resolve");
    init(&mut reg, 4, "gpt2").expect("gpt2 models resolve");
}

#[test]
fn double_init_is_rejected() {
    let mut reg = Registry::new();
    init(&mut reg, 1, "gpt-4").expect("gpt-4 should resolve");
    let again = init(&mut reg, 1, "gpt-4");
    match again {
        Err(BridgeError::AlreadyInitialized(m)) => {
            assert_eq!(m, "A handle is already initialized for this object")
        },
        _ => panic!("expected a double-initialization failure"),
    }
    // the original handle still works
    encode(&reg, 1, "hello", &Vec::new(), None).expect("encoding should succeed");
}

#[test]
fn unwrap_or_throw_passes_value_through() {
    let (v, thrown) = unwrap_or_throw(false, Ok(41u64), 0);
    assert_eq!(v, 41);
    assert!(thrown.is_none());
}

#[test]
fn unwrap_or_throw_turns_failure_into_message() {
    let failure: Result<u64, BridgeError> =
        Err(BridgeError::RuntimeEncode("engine gave up".to_string()));
    let (v, thrown) = unwrap_or_throw(false, failure, 9);
    assert_eq!(v, 9);
    assert_eq!(thrown, Some("engine gave up".to_string()));
}

#[test]
fn unwrap_or_throw_suppresses_second_exception() {
    let failure: Result<u64, BridgeError> =
        Err(BridgeError::Construction("should stay silent".to_string()));
    let (v, thrown) = unwrap_or_throw(true, failure, 9);
    assert_eq!(v, 9);
    assert!(thrown.is_none());
}

#[test]
fn collect_allowed_keeps_all_elements_in_order() {
    let parts = vec![Some("a".to_string()), Some("b".to_string()), Some("c".to_string())];
    let out = collect_allowed(parts).expect("all elements marshalled");
    assert_eq!(out, vec!["a".to_string(), "b".to_string(), "c".to_string()]);
}

#[test]
fn collect_allowed_aborts_on_any_failed_element() {
    let parts = vec![Some("a".to_string()), None, Some("c".to_string())];
    match collect_allowed(parts) {
        Err(BridgeError::Marshal(m)) => {
            assert_eq!(m, "Unable to marshal an allowed special token")
        },
        _ => panic!("expected a marshal failure"),
    }
}

#[test]
fn marshal_text_mirrors_its_input() {
    assert_eq!(marshal_text(Some("abc".to_string())).unwrap(), "abc".to_string());
    match marshal_text(None) {
        Err(BridgeError::Marshal(m)) => assert_eq!(m, "Unable to marshal text"),
        _ => panic!("expected a marshal failure"),
    }
}

#[test]
fn error_messages_carry_through_verbatim() {
    assert_eq!(message_of(BridgeError::NotFound("a".to_string())), "a");
    assert_eq!(message_of(BridgeError::Construction("b".to_string())), "b");
    assert_eq!(message_of(BridgeError::Marshal("c".to_string())), "c");
    assert_eq!(message_of(BridgeError::RuntimeEncode("d".to_string())), "d");
    assert_eq!(message_of(BridgeError::AlreadyInitialized("e".to_string())), "e");
}
