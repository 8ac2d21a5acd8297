//! Key state, codec, address and assembler behaviour on concrete values.

use ampd::addr::{check_addr, worker_address};
use ampd::assemble::{
    action_msg, assemble, bond_worker_tx, declare_chain_support_tx, register_public_key_tx, Coin,
    WorkerAction,
};
use ampd::config::{
    expand_home_dir, init_config, multisig_contract, Config, HandlerConfig,
};
use ampd::errors::{AssemblyError, SignerError, StateError};
use ampd::keys::{hex_encode, PublicKey};
use ampd::state::{encode_state, get_or_init, needs_keygen, parse_state, store_key, PersistedState};

/// The secp256k1 generator point in compressed form: a key every chain
/// library accepts.
fn sample_key_bytes() -> Vec<u8> {
    let mut v = vec![0x02u8, 0x79, 0xBE, 0x66, 0x7E, 0xF9, 0xDC, 0xBB, 0xAC, 0x55, 0xA0, 0x62];
    v.extend_from_slice(&[
        0x95, 0xCE, 0x87, 0x0B, 0x07, 0x02, 0x9B, 0xFC, 0xDB, 0x2D, 0xCE, 0x28, 0xD9, 0x59, 0xF2,
        0x81, 0x5B, 0x16, 0xF8, 0x17, 0x98,
    ]);
    v
}

const SAMPLE_KEY_HEX: &str = "0279be667ef9dcbbac55a06295ce870b07029bfcdb2dce28d959f2815b16f81798";

fn sample_key() -> PublicKey {
    PublicKey::from_compressed_bytes(sample_key_bytes()).expect("sample key is well-formed")
}

fn other_key() -> PublicKey {
    let mut bytes = sample_key_bytes();
    bytes[0] = 0x03;
    PublicKey::from_compressed_bytes(bytes).expect("other key is well-formed")
}

fn registry_addr() -> String {
    let mut s = String::from("axelar1");
    for _ in 0..38 {
        s.push('q');
    }
    s
}

#[test]
fn key_resolution_is_idempotent() {
    let mut st = PersistedState { pub_key: None };
    assert!(needs_keygen(&st));

    // First resolution: the signer double was asked once and returned K.
    let k = get_or_init(&mut st, Some(sample_key())).expect("first resolution succeeds");
    assert_eq!(k, sample_key());

    // Second resolution: a pure read, no keygen call is needed or made.
    assert!(!needs_keygen(&st));
    let k2 = get_or_init(&mut st, None).expect("second resolution succeeds");
    assert_eq!(k2, sample_key());
}

#[test]
fn failed_keygen_is_reported_and_leaves_state_empty() {
    let mut st = PersistedState { pub_key: None };
    let r = get_or_init(&mut st, None);
    assert_eq!(r.unwrap_err(), SignerError::Keygen);
    assert!(st.pub_key.is_none());
}

#[test]
fn recorded_key_is_never_overwritten() {
    let mut st = PersistedState { pub_key: None };
    store_key(&mut st, sample_key()).expect("first store succeeds");

    // Storing the same key again is a no-op.
    store_key(&mut st, sample_key()).expect("same key is accepted");

    // Storing a different key is refused and changes nothing.
    let r = store_key(&mut st, other_key());
    assert_eq!(r.unwrap_err(), StateError::KeyOverwrite);
    assert_eq!(st.pub_key.as_ref().unwrap(), &sample_key());
}

#[test]
fn state_codec_round_trips() {
    let empty = PersistedState { pub_key: None };
    let text = encode_state(&empty);
    assert_eq!(text, "{\"pub_key\":null}");
    let back = parse_state(&text).expect("empty record parses");
    assert!(back.pub_key.is_none());

    let full = PersistedState { pub_key: Some(sample_key()) };
    let text = encode_state(&full);
    let expected = format!("{{\"pub_key\":\"{}\"}}", SAMPLE_KEY_HEX);
    assert_eq!(text, expected);
    let back = parse_state(&text).expect("full record parses");
    assert_eq!(back.pub_key.unwrap(), sample_key());
}

#[test]
fn malformed_state_is_a_parse_error() {
    for bad in [
        "",
        "{}",
        "{\"pub_key\":}",
        "{\"pub_key\":null }",
        "{\"pub_key\":\"zz\"}",
        "{\"pub_key\":\"0279be667ef9dcbbac55a06295ce870b07029bfcdb2dce28d959f2815b16f817\"}",
    ] {
        assert_eq!(parse_state(bad).unwrap_err(), StateError::Parse);
    }
    // A hex string of the right length that is not a compressed point tag.
    let bad_tag = format!("{{\"pub_key\":\"04{}\"}}", &SAMPLE_KEY_HEX[2..]);
    assert_eq!(parse_state(&bad_tag).unwrap_err(), StateError::Parse);
}

#[test]
fn hex_encoding_is_exact() {
    assert_eq!(hex_encode(&vec![0x00, 0xff, 0x1a]), "00ff1a");
    assert_eq!(hex_encode(&Vec::new()), "");
    assert_eq!(hex_encode(&sample_key_bytes()), SAMPLE_KEY_HEX);
}

#[test]
fn assembly_is_deterministic() {
    let coin = Coin { amount: 100, denom: String::from("uaxl") };
    let coin2 = Coin { amount: 100, denom: String::from("uaxl") };
    let sender = registry_addr();
    let tx1 = bond_worker_tx(registry_addr(), String::from("svc-1"), coin, sender.clone())
        .expect("assembly succeeds");
    let tx2 = bond_worker_tx(registry_addr(), String::from("svc-1"), coin2, sender.clone())
        .expect("assembly succeeds");
    assert_eq!(tx1.msg, tx2.msg);
    assert_eq!(tx1.sender, tx2.sender);
    assert_eq!(tx1.contract, tx2.contract);
    assert_eq!(tx1.msg, "{\"bond_worker\":{\"service_name\":\"svc-1\"}}");
}

#[test]
fn assembly_fails_fast_on_empty_service_name() {
    let coin = Coin { amount: 100, denom: String::from("uaxl") };
    let r = bond_worker_tx(registry_addr(), String::new(), coin, registry_addr());
    assert_eq!(r.unwrap_err(), AssemblyError::InvalidInput);
}

#[test]
fn assembly_fails_fast_on_malformed_address() {
    let coin = Coin { amount: 100, denom: String::from("uaxl") };
    let r = bond_worker_tx(
        String::from("not an address"),
        String::from("svc-1"),
        coin,
        registry_addr(),
    );
    assert_eq!(r.unwrap_err(), AssemblyError::InvalidInput);

    let coin = Coin { amount: 100, denom: String::from("uaxl") };
    let r = bond_worker_tx(registry_addr(), String::from("svc-1"), coin, String::from("Axelar1qqqqqqq"));
    assert_eq!(r.unwrap_err(), AssemblyError::InvalidInput);
}

#[test]
fn assembly_rejects_missing_denom_and_empty_chains() {
    let coin = Coin { amount: 100, denom: String::new() };
    let r = bond_worker_tx(registry_addr(), String::from("svc-1"), coin, registry_addr());
    assert_eq!(r.unwrap_err(), AssemblyError::InvalidInput);

    let r = declare_chain_support_tx(
        registry_addr(),
        String::from("svc-1"),
        Vec::new(),
        registry_addr(),
    );
    assert_eq!(r.unwrap_err(), AssemblyError::InvalidInput);

    let r = declare_chain_support_tx(
        registry_addr(),
        String::from("svc-1"),
        vec![String::from("eth"), String::new()],
        registry_addr(),
    );
    assert_eq!(r.unwrap_err(), AssemblyError::InvalidInput);
}

#[test]
fn declare_chain_support_message_shape() {
    let tx = declare_chain_support_tx(
        registry_addr(),
        String::from("svc-1"),
        vec![String::from("eth"), String::from("avax")],
        registry_addr(),
    )
    .expect("assembly succeeds");
    assert_eq!(
        tx.msg,
        "{\"declare_chain_support\":{\"service_name\":\"svc-1\",\"chains\":[\"eth\",\"avax\"]}}"
    );
    assert!(tx.funds.is_empty());

    // The payload is real JSON: an independent parser reads the same data.
    let v: serde_json::Value = serde_json::from_str(&tx.msg).expect("message parses as JSON");
    assert_eq!(v["declare_chain_support"]["service_name"].as_str(), Some("svc-1"));
    assert_eq!(v["declare_chain_support"]["chains"][0].as_str(), Some("eth"));
    assert_eq!(v["declare_chain_support"]["chains"][1].as_str(), Some("avax"));
}

#[test]
fn register_public_key_message_shape() {
    let tx = register_public_key_tx(registry_addr(), sample_key(), registry_addr())
        .expect("assembly succeeds");
    let expected = format!(
        "{{\"register_public_key\":{{\"public_key\":{{\"ecdsa\":\"{}\"}}}}}}",
        SAMPLE_KEY_HEX
    );
    assert_eq!(tx.msg, expected);
}

#[test]
fn message_escaping_survives_an_independent_parser() {
    let action = WorkerAction::BondWorker { service_name: String::from("a\"b\\c\nd") };
    let msg = action_msg(&action);
    assert_eq!(msg, "{\"bond_worker\":{\"service_name\":\"a\\\"b\\\\c\\u000ad\"}}");
    let v: serde_json::Value = serde_json::from_str(&msg).expect("message parses as JSON");
    assert_eq!(v["bond_worker"]["service_name"].as_str(), Some("a\"b\\c\nd"));
}

#[test]
fn assemble_rejects_ill_formed_key() {
    let key = PublicKey { kind: ampd::keys::KeyKind::Ecdsa, bytes: vec![0x04; 33] };
    let r = register_public_key_tx(registry_addr(), key, registry_addr());
    assert_eq!(r.unwrap_err(), AssemblyError::InvalidInput);
}

#[test]
fn address_shape_checks() {
    assert!(check_addr(&registry_addr()));
    assert!(check_addr("axelar1qqqqqq"));
    assert!(!check_addr("axelar1qqqqq")); // data part too short
    assert!(!check_addr("1qqqqqqq")); // empty prefix
    assert!(!check_addr("axelarqqqqqqq")); // no separator
    assert!(!check_addr("Axelar1qqqqqq")); // uppercase prefix
    assert!(!check_addr("axelar1qqqqqb")); // 'b' is not a bech32 data character
    let mut long = String::from("axelar1");
    for _ in 0..90 {
        long.push('q');
    }
    assert!(!check_addr(&long)); // longer than 90 characters
}

#[test]
fn worker_address_derivation() {
    let addr = worker_address(&sample_key(), "axelar").expect("derivation succeeds");
    assert!(addr.starts_with("axelar1"));
    assert_eq!(addr.chars().count(), 45);
    // The chain library's output passes the library's own shape check.
    assert!(check_addr(&addr));
    // Deterministic: the same key and prefix give the same address.
    let again = worker_address(&sample_key(), "axelar").expect("derivation succeeds");
    assert_eq!(addr, again);
    // A different prefix gives a different address.
    let cosmos = worker_address(&sample_key(), "cosmos").expect("derivation succeeds");
    assert_ne!(addr, cosmos);
    assert!(cosmos.starts_with("cosmos1"));
}

#[test]
fn worker_address_rejects_bytes_off_the_curve() {
    let key = PublicKey { kind: ampd::keys::KeyKind::Ecdsa, bytes: vec![0x02; 10] };
    assert!(worker_address(&key, "axelar").is_none());
}

#[test]
fn config_fallback_and_handler_lookup() {
    let d = init_config(None);
    assert_eq!(d.tm_grpc, "");
    assert_eq!(d.broadcast.gas_limit, 0);
    assert!(d.handlers.is_empty());

    let mut c = Config::default();
    c.tm_grpc = String::from("tcp://localhost:9090");
    let c = init_config(Some(c));
    assert_eq!(c.tm_grpc, "tcp://localhost:9090");

    let handlers = vec![
        HandlerConfig::Other,
        HandlerConfig::MultisigSigner { cosmwasm_contract: registry_addr() },
        HandlerConfig::MultisigSigner { cosmwasm_contract: String::from("second") },
    ];
    assert_eq!(multisig_contract(&handlers), Some(registry_addr()));
    assert_eq!(multisig_contract(&vec![HandlerConfig::Other]), None);
    assert_eq!(multisig_contract(&Vec::new()), None);
}

#[test]
fn home_dir_expansion() {
    assert_eq!(expand_home_dir("~/state.json", Some("/home/op")), "/home/op/state.json");
    assert_eq!(expand_home_dir("~", Some("/home/op")), "/home/op");
    assert_eq!(expand_home_dir("config.toml", Some("/home/op")), "config.toml");
    assert_eq!(expand_home_dir("~nope", Some("/home/op")), "~nope");
    assert_eq!(expand_home_dir("~/state.json", None), "~/state.json");
}

#[test]
fn full_assemble_surface() {
    let action = WorkerAction::BondWorker { service_name: String::from("svc-1") };
    let coin = Coin { amount: 7, denom: String::from("uaxl") };
    let tx = assemble(registry_addr(), &action, registry_addr(), vec![coin])
        .expect("assembly succeeds");
    assert_eq!(tx.funds.len(), 1);
    assert_eq!(tx.funds[0].amount, 7);
    assert_eq!(tx.funds[0].denom, "uaxl");
}
