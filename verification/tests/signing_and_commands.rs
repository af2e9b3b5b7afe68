use kraken_rs::command::{challenge_wire, Command};
use kraken_rs::errors::KrakenError;
use kraken_rs::signing::sign_challenge;
use kraken_rs::symbol::Symbol;

const SECRET: &str = "a3Jha2VuLXRlc3Qtc2VjcmV0LTAxMjM0NTY3ODk=";
const SIG_ABC123: &str =
    "uUobUff6AaidZ9qqyvmkICkSFh7AIgcVZDLvQvH/TYTIDwR1xBkogAEmn3UmrpbBOXjhizDy4w+KfH7GcZ6ZWw==";
const SIG_ABC124: &str =
    "gHG0UEOaLM75+xSQdIm/QEi3ablr2DA1pN5T+AIWEYFmoHiHuuJpAXL2d1QtZQdCpBAH4TDM3HyTp8JU3BkdHg==";

#[test]
fn challenge_signature_matches_fixture() {
    assert_eq!(sign_challenge(SECRET, "abc123").unwrap(), SIG_ABC123);
}

#[test]
fn signature_is_deterministic_and_input_sensitive() {
    // Same inputs, same output, across calls.
    let a = sign_challenge(SECRET, "abc123").unwrap();
    let b = sign_challenge(SECRET, "abc123").unwrap();
    assert_eq!(a, b);
    // Changing one byte of the message changes the output.
    let c = sign_challenge(SECRET, "abc124").unwrap();
    assert_ne!(a, c);
    assert_eq!(c, SIG_ABC124);
}

#[test]
fn bad_secret_fails_decode() {
    assert_eq!(
        sign_challenge("!!! not base64 !!!", "abc123"),
        Err(KrakenError::Base64DecodeFailed)
    );
}

fn wire_text(cmd: &Command) -> String {
    String::from_utf8(cmd.to_wire().unwrap()).unwrap()
}

#[test]
fn subscription_wire_forms() {
    assert_eq!(
        wire_text(&Command::account_balance()),
        "{\"event\":\"subscribe\",\"feed\":\"account_balances_and_margins\"}"
    );
    assert_eq!(
        wire_text(&Command::fills()),
        "{\"event\":\"subscribe\",\"feed\":\"fills\"}"
    );
    assert_eq!(
        wire_text(&Command::heartbeat()),
        "{\"event\":\"subscribe\",\"feed\":\"heartbeat\"}"
    );
    let sym = Symbol::parse("PI_XBTUSD").unwrap();
    assert_eq!(
        wire_text(&Command::book(&[sym])),
        "{\"event\":\"subscribe\",\"feed\":\"book\",\"product_ids\":[\"PI_XBTUSD\"]}"
    );
    let trade = Command::trade(&["PI_XBTUSD", "FI_ETHUSD_42"]).unwrap();
    assert_eq!(
        wire_text(&trade),
        "{\"event\":\"subscribe\",\"feed\":\"trade\",\"product_ids\":[\"PI_XBTUSD\",\"FI_ETHUSD_42\"]}"
    );
}

#[test]
fn trade_rejects_bad_symbols() {
    assert!(matches!(
        Command::trade(&["PI_XBTUSD", "nonsense"]),
        Err(KrakenError::ParseSymbolFailed(_))
    ));
}

#[test]
fn control_only_commands_have_no_bare_wire_form() {
    assert_eq!(Command::challenge().to_wire(), Err(KrakenError::CannotSerialize));
    assert_eq!(Command::Ping.to_wire(), Err(KrakenError::CannotSerialize));
    assert_eq!(Command::Pong.to_wire(), Err(KrakenError::CannotSerialize));
}

#[test]
fn challenge_request_wire_form() {
    assert_eq!(
        String::from_utf8(challenge_wire("my-key")).unwrap(),
        "{\"api_key\":\"my-key\",\"event\":\"challenge\"}"
    );
}

#[test]
fn authenticated_wire_form_round_trip() {
    // The compound form with a known challenge reproduces the reference
    // signature beside the command's own fields.
    let sig = sign_challenge(SECRET, "abc123").unwrap();
    let wire = Command::fills()
        .to_authenticated_wire("my-key", "abc123", &sig)
        .unwrap();
    let expected = format!(
        "{{\"event\":\"subscribe\",\"feed\":\"fills\",\"api_key\":\"my-key\",\"original_challenge\":\"abc123\",\"signed_challenge\":\"{}\"}}",
        SIG_ABC123
    );
    assert_eq!(String::from_utf8(wire).unwrap(), expected);
}

#[test]
fn authenticated_wire_escapes_strings() {
    let wire = Command::fills()
        .to_authenticated_wire("key\"with\\quote", "ch", "sig")
        .unwrap();
    let text = String::from_utf8(wire).unwrap();
    assert!(text.contains("\"api_key\":\"key\\\"with\\\\quote\""));
}
