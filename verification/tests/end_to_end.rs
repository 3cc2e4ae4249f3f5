//! The whole pipeline as the HTTP layer drives it: signature checks first,
//! dispatch only on an accepted request.

use discord_interactions::crypto::VerifyKey;
use discord_interactions::dispatch::handle_interaction;
use discord_interactions::gate::verify_signature;
use discord_interactions::interactions::{response_type_code, Interaction, InteractionData,
    InteractionResponseType, InteractionType};
use discord_interactions::repository::GuildRepository;
use discord_interactions::DEFAULT_CLOCK_SKEW_TOLERANCE_SECS;
use ed25519_dalek::Signer;
use ed25519_dalek::SigningKey;

const NOW: i64 = 1_700_000_000;

fn signed_headers(sk: &SigningKey, body: &[u8]) -> (Vec<u8>, Vec<u8>) {
    let ts = NOW.to_string().into_bytes();
    let mut msg = ts.clone();
    msg.extend_from_slice(body);
    let sig = hex::encode(sk.sign(&msg).to_bytes()).into_bytes();
    (sig, ts)
}

#[test]
fn ping_round_trip_returns_pong() {
    let sk = SigningKey::from_bytes(&[3u8; 32]);
    let key = VerifyKey::new(sk.verifying_key().to_bytes().to_vec()).unwrap();
    let body = b"{\"type\":1}".to_vec();
    let (sig, ts) = signed_headers(&sk, &body);

    let gate = verify_signature(&key, Some(&sig), Some(&ts), &body, NOW,
        DEFAULT_CLOCK_SKEW_TOLERANCE_SECS);
    assert!(gate.is_ok());

    // The HTTP layer would now parse the body it buffered; the payload is a
    // liveness ping.
    let interaction = Interaction {
        id: "i1".to_string(),
        interaction_type: InteractionType::Ping,
        guild_id: None,
        channel_id: None,
        member: None,
        user: None,
        token: "tok".to_string(),
        version: 1,
        data: None,
    };
    let mut repo = GuildRepository::new();
    let (resp, publish) = handle_interaction(&interaction, &mut repo, NOW);
    // On the wire: status 200, body {"type": 1} with no data field.
    assert_eq!(response_type_code(resp.response_type), 1);
    assert!(matches!(resp.response_type, InteractionResponseType::Pong));
    assert!(resp.data.is_none());
    assert!(publish.is_none());
    assert!(repo.find_all_active().unwrap().is_empty());
}

#[test]
fn application_command_round_trip_registers_guild() {
    let sk = SigningKey::from_bytes(&[4u8; 32]);
    let key = VerifyKey::new(sk.verifying_key().to_bytes().to_vec()).unwrap();
    let body = b"{\"type\":2,\"guild_id\":\"g1\",\"data\":{\"name\":\"ping\"}}".to_vec();
    let (sig, ts) = signed_headers(&sk, &body);

    let gate = verify_signature(&key, Some(&sig), Some(&ts), &body, NOW,
        DEFAULT_CLOCK_SKEW_TOLERANCE_SECS);
    assert!(gate.is_ok());

    let interaction = Interaction {
        id: "i2".to_string(),
        interaction_type: InteractionType::ApplicationCommand,
        guild_id: Some("g1".to_string()),
        channel_id: None,
        member: None,
        user: None,
        token: "tok".to_string(),
        version: 1,
        data: Some(InteractionData {
            id: None,
            name: Some("ping".to_string()),
            options: None,
        }),
    };
    let mut repo = GuildRepository::new();
    let (resp, publish) = handle_interaction(&interaction, &mut repo, NOW);
    assert_eq!(response_type_code(resp.response_type), 4);
    assert_eq!(resp.data.unwrap().content.as_deref(), Some("Pong!"));
    assert_eq!(publish.as_deref(), Some("g1"));

    let g = repo.find_by_guild_id(&"g1".to_string()).unwrap().unwrap();
    assert!(g.is_active);
}

#[test]
fn tampered_signature_rejected_before_any_side_effect() {
    let sk = SigningKey::from_bytes(&[5u8; 32]);
    let key = VerifyKey::new(sk.verifying_key().to_bytes().to_vec()).unwrap();
    let body = b"{\"type\":2,\"guild_id\":\"g1\",\"data\":{\"name\":\"ping\"}}".to_vec();
    let (mut sig, ts) = signed_headers(&sk, &body);
    sig[3] = if sig[3] == b'f' { b'e' } else { b'f' };

    let repo = GuildRepository::new();
    let gate = verify_signature(&key, Some(&sig), Some(&ts), &body, NOW,
        DEFAULT_CLOCK_SKEW_TOLERANCE_SECS);
    // 401 on the wire; the dispatcher is never invoked, so storage stays
    // empty and nothing is published.
    assert!(gate.is_err());
    assert!(repo.find_all_active().unwrap().is_empty());
}
