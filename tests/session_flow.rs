use squad_connect::client::squard_connect::SquardConnect;
use squad_connect::service::dtos::{
    EnokiEndpoints, Network, NoncePayload, NonceResponse, SponsorTransactionPayload,
    SubmitSponsorTransactionPayload, ZKPPayload,
};
use squad_connect::service::services::{check_response, Services, ADDITIONAL_EPOCHS};
use squad_connect::service::types::ServiceError;

fn nonce_response() -> NonceResponse {
    NonceResponse {
        nonce: "n1".to_string(),
        randomness: "r1".to_string(),
        epoch: 10,
        max_epoch: 12,
        estimated_expiration: 999,
    }
}

fn session_with_nonce() -> Services {
    let mut s = Services::new(Network::Testnet, "key".to_string(), "cid".to_string());
    s.apply_nonce_response("pk1".to_string(), nonce_response());
    s
}

#[test]
fn network_names_round_trip() {
    for n in [Network::Devnet, Network::Testnet, Network::Mainnet] {
        assert_eq!(Network::from(n.to_string()), n);
    }
    assert_eq!(Network::Devnet.to_string(), "devnet");
    assert_eq!(Network::Testnet.to_string(), "testnet");
    assert_eq!(Network::Mainnet.to_string(), "mainnet");
}

#[test]
fn unknown_network_name_means_testnet() {
    assert_eq!(Network::from("localnet".to_string()), Network::Testnet);
    assert_eq!(Network::from(String::new()), Network::Testnet);
}

#[test]
fn endpoint_urls() {
    let base = "https://api.enoki.mystenlabs.com/v1";
    assert_eq!(EnokiEndpoints::Nonce.to_string(), format!("{}/zklogin/nonce", base));
    assert_eq!(EnokiEndpoints::Address.to_string(), format!("{}/zklogin", base));
    assert_eq!(EnokiEndpoints::ZkProof.to_string(), format!("{}/zklogin/zkp", base));
    assert_eq!(
        EnokiEndpoints::CreateSponsorTransaction.to_string(),
        format!("{}/transaction-blocks/sponsor", base)
    );
    assert_eq!(
        EnokiEndpoints::SubmitSponsorTransaction("d1".to_string()).to_string(),
        format!("{}/transaction-blocks/sponsor/d1", base)
    );
}

#[test]
fn payloads_from_tuples() {
    let p = NoncePayload::from(("devnet".to_string(), "pk".to_string(), 2));
    assert_eq!(p.network, "devnet");
    assert_eq!(p.ephemeral_public_key, "pk");
    assert_eq!(p.additional_epochs, 2);
    let z = ZKPPayload::from(("testnet".to_string(), "pk".to_string(), 7, "r".to_string()));
    assert_eq!(z.network, "testnet");
    assert_eq!(z.ephemeral_public_key, "pk");
    assert_eq!(z.max_epoch, 7);
    assert_eq!(z.randomness, "r");
    let s = SponsorTransactionPayload::from((
        "mainnet".to_string(),
        "bytes".to_string(),
        "0x1".to_string(),
        vec!["0x2".to_string()],
        vec!["0x3::m::f".to_string()],
    ));
    assert_eq!(s.network, "mainnet");
    assert_eq!(s.transaction_block_kind_bytes, "bytes");
    assert_eq!(s.sender, "0x1");
    assert_eq!(s.allowed_addresses, vec!["0x2".to_string()]);
    assert_eq!(s.allowed_move_call_targets, vec!["0x3::m::f".to_string()]);
    let sub = SubmitSponsorTransactionPayload::from("sig".to_string());
    assert_eq!(sub.signature, "sig");
}

#[test]
fn error_messages() {
    let cases = [
        (ServiceError::Service("a".to_string()), "Service error: a"),
        (ServiceError::Network("b".to_string()), "Network error: b"),
        (ServiceError::InvalidResponse("c".to_string()), "Invalid response: c"),
        (ServiceError::InvalidProof("d".to_string()), "Invalid proof: d"),
        (ServiceError::JwtFormat("e".to_string()), "Invalid JSON format: e"),
        (ServiceError::JwtExtraction("f".to_string()), "Invalid JWT extraction: f"),
    ];
    for (e, m) in cases {
        assert_eq!(e.to_string(), m);
    }
}

#[test]
fn fresh_session_has_no_parameters() {
    let s = Services::new(Network::Devnet, "key".to_string(), "cid".to_string());
    assert_eq!(s.get_zk_proof_params(), (String::new(), String::new(), 0));
    assert_eq!(s.get_nonce(), "");
    assert_eq!(s.get_network(), Network::Devnet);
    assert_eq!(s.authorization_header(), "Bearer key");
}

#[test]
fn nonce_request_uses_fixed_window() {
    let s = Services::new(Network::Mainnet, "key".to_string(), "cid".to_string());
    let p = s.nonce_payload("pk".to_string());
    assert_eq!(p.network, "mainnet");
    assert_eq!(p.ephemeral_public_key, "pk");
    assert_eq!(p.additional_epochs, 2);
    assert_eq!(ADDITIONAL_EPOCHS, 2);
    assert_eq!(s.nonce_endpoint(), "https://api.enoki.mystenlabs.com/v1/zklogin/nonce");
}

#[test]
fn nonce_response_is_stored_whole() {
    let s = session_with_nonce();
    assert_eq!(s.get_zk_proof_params(), ("r1".to_string(), "pk1".to_string(), 12));
    assert_eq!(s.get_nonce(), "n1");
    assert_eq!(s.get_max_epoch(), 12);
    assert_eq!(s.get_public_key(), "pk1");
}

#[test]
fn proof_request_carries_stored_parameters() {
    let s = session_with_nonce();
    let p = s.zkp_payload().unwrap();
    assert_eq!(p.network, "testnet");
    assert_eq!(p.ephemeral_public_key, "pk1");
    assert_eq!(p.max_epoch, 12);
    assert_eq!(p.randomness, "r1");
}

#[test]
fn proof_request_with_altered_randomness_is_refused() {
    let mut s = session_with_nonce();
    s.set_zk_proof_params("r2".to_string(), "pk1".to_string(), 12);
    assert!(matches!(s.zkp_payload(), Err(ServiceError::InvalidProof(_))));
}

#[test]
fn proof_request_with_altered_max_epoch_is_refused() {
    let mut s = session_with_nonce();
    s.set_zk_proof_params("r1".to_string(), "pk1".to_string(), 13);
    assert!(matches!(s.zkp_payload(), Err(ServiceError::InvalidProof(_))));
    s.set_zk_proof_params("r1".to_string(), "pk1".to_string(), 12);
    assert!(s.zkp_payload().is_ok());
}

#[test]
fn resumed_session_sends_restored_parameters() {
    let mut s = Services::new(Network::Devnet, "key".to_string(), "cid".to_string());
    s.set_zk_proof_params("r9".to_string(), "pk9".to_string(), 40);
    assert_eq!(s.get_zk_proof_params(), ("r9".to_string(), "pk9".to_string(), 40));
    let p = s.zkp_payload().unwrap();
    assert_eq!(p.network, "devnet");
    assert_eq!(p.ephemeral_public_key, "pk9");
    assert_eq!(p.max_epoch, 40);
    assert_eq!(p.randomness, "r9");
}

#[test]
fn oauth_url_without_nonce_fails() {
    let s = Services::new(Network::Testnet, "key".to_string(), "cid".to_string());
    let r = s.get_oauth_url("http://localhost/cb".to_string(), None);
    assert!(matches!(r, Err(ServiceError::InvalidResponse(_))));
}

#[test]
fn oauth_query_pairs_in_order() {
    let s = session_with_nonce();
    let pairs = s.oauth_query_pairs("http://localhost/cb".to_string(), Some("abc".to_string()));
    let expected: Vec<(String, String)> = vec![
        ("client_id".to_string(), "cid".to_string()),
        ("response_type".to_string(), "id_token".to_string()),
        ("redirect_uri".to_string(), "http://localhost/cb".to_string()),
        ("scope".to_string(), "openid".to_string()),
        ("nonce".to_string(), "n1".to_string()),
        ("state".to_string(), "abc".to_string()),
    ];
    assert_eq!(pairs, expected);
    let without = s.oauth_query_pairs("http://localhost/cb".to_string(), None);
    assert_eq!(without.len(), 5);
    assert_eq!(without[..], expected[..5]);
}

#[test]
fn oauth_url_exact() {
    let s = session_with_nonce();
    let url = s
        .get_oauth_url("http://localhost/cb".to_string(), Some("abc".to_string()))
        .unwrap();
    assert_eq!(
        url,
        "https://accounts.google.com/o/oauth2/v2/auth?client_id=cid&response_type=id_token\
         &redirect_uri=http%3A%2F%2Flocalhost%2Fcb&scope=openid&nonce=n1&state=abc"
    );
}

#[test]
fn oauth_url_is_deterministic_with_one_nonce() {
    let s = session_with_nonce();
    let a = s.get_oauth_url("http://localhost/cb".to_string(), Some("x y".to_string())).unwrap();
    let b = s.get_oauth_url("http://localhost/cb".to_string(), Some("x y".to_string())).unwrap();
    assert_eq!(a, b);
    assert_eq!(a.matches("nonce=").count(), 1);
    assert!(a.contains("&nonce=n1&"));
    assert!(a.ends_with("&state=x+y"));
}

#[test]
fn end_to_end_url_and_callback() {
    let mut c = SquardConnect::new("cid".to_string(), Network::Testnet, "key".to_string());
    c.apply_nonce_response("pk1".to_string(), nonce_response());
    let url = c.get_url("http://localhost/cb".to_string(), Some("abc".to_string())).unwrap();
    assert!(url.contains("nonce=n1"));
    assert!(url.contains("state=abc"));
    let callback = "http://localhost/cb#id_token=tok1&state=abc";
    let token = c.extract_jwt_from_callback(callback).unwrap();
    assert_eq!(token, "tok1");
    assert_eq!(c.extract_state_from_callback(callback).unwrap(), Some("abc".to_string()));
    c.set_jwt(token);
    assert_eq!(c.get_jwt(), "tok1");
    assert_eq!(c.get_max_epoch(), 12);
    assert_eq!(c.get_public_key(), "pk1");
    assert_eq!(c.services().get_nonce(), "n1");
}

#[test]
fn token_read_from_query_is_decoded() {
    let s = session_with_nonce();
    let t = s.extract_jwt_from_callback("http://localhost/cb?id_token=a%2Bb+c&state=s").unwrap();
    assert_eq!(t, "a+b c");
}

#[test]
fn query_token_comes_before_fragment_token() {
    let s = session_with_nonce();
    let t = s.extract_jwt_from_callback("http://localhost/cb?id_token=q#id_token=f").unwrap();
    assert_eq!(t, "q");
}

#[test]
fn missing_token_is_an_extraction_error() {
    let s = session_with_nonce();
    let r = s.extract_jwt_from_callback("http://localhost/cb#state=abc");
    assert!(matches!(r, Err(ServiceError::JwtExtraction(_))));
}

#[test]
fn malformed_callback_is_an_extraction_error() {
    let s = session_with_nonce();
    assert!(matches!(
        s.extract_jwt_from_callback("not a url"),
        Err(ServiceError::JwtExtraction(_))
    ));
    assert!(matches!(
        s.extract_state_from_callback("not a url"),
        Err(ServiceError::JwtExtraction(_))
    ));
}

#[test]
fn callback_without_state_gives_none() {
    let s = session_with_nonce();
    assert_eq!(s.extract_state_from_callback("http://localhost/cb#id_token=tok1").unwrap(), None);
    assert_eq!(s.extract_state_from_callback("http://localhost/cb").unwrap(), None);
}

#[test]
fn serialized_state_round_trips() {
    let s = session_with_nonce();
    let state = serde_json::to_string(&vec![1u32, 2]).unwrap();
    let url = s.get_oauth_url("http://localhost/cb".to_string(), Some(state.clone())).unwrap();
    let encoded = url.rsplit("&state=").next().unwrap();
    let callback = format!("http://localhost/cb#id_token=tok1&state={}", encoded);
    let back = s.extract_state_from_callback(&callback).unwrap().unwrap();
    assert_eq!(back, state);
    let v: Vec<u32> = serde_json::from_str(&back).unwrap();
    assert_eq!(v, vec![1, 2]);
}

#[test]
fn response_status_check() {
    assert_eq!(check_response("ZK proof", 200, "200 OK", ""), Ok(()));
    assert_eq!(check_response("ZK proof", 299, "299", ""), Ok(()));
    assert_eq!(
        check_response("ZK proof", 404, "404 Not Found", "missing"),
        Err(ServiceError::Network(
            "ZK proof request failed with status 404 Not Found: missing".to_string()
        ))
    );
    assert!(check_response("Account", 199, "199", "").is_err());
    assert!(check_response("Account", 300, "300", "").is_err());
}

#[test]
fn credential_max_epoch_must_match_session() {
    let s = session_with_nonce();
    assert_eq!(s.check_max_epoch(12), Ok(12));
    assert!(matches!(s.check_max_epoch(11), Err(ServiceError::InvalidProof(_))));
}
