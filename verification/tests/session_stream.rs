use kraken_rs::command::Command;
use kraken_rs::common::Side;
use kraken_rs::errors::KrakenError;
use kraken_rs::json::JsonNum;
use kraken_rs::message::{Heartbeat, Message, SubscriptionMessage};
use kraken_rs::session::{decode_frame, decode_frames, Frame, OutFrame, Session, SessionState};
use kraken_rs::symbol::{Currency, Pair, Symbol};

const SECRET: &str = "a3Jha2VuLXRlc3Qtc2VjcmV0LTAxMjM0NTY3ODk=";
const SIG_XYZ: &str =
    "LvFpw2MMNEZAWXTmOcPSrpmp1lJjfNGup57K6FoIG3L1rsTIZUerGQjUq0HfWbTYgiRzCxwa+oTXk33Xg15o3A==";

fn text(s: &str) -> Frame {
    Frame::Text(s.to_string())
}

#[test]
fn decode_info_and_challenge() {
    assert_eq!(
        decode_frame(text("{\"event\":\"info\",\"version\":1}")),
        Ok(Message::Info { version: 1 })
    );
    assert_eq!(
        decode_frame(text("{\"event\":\"challenge\",\"message\":\"xyz\"}")),
        Ok(Message::Challenge { message: "xyz".to_string() })
    );
}

#[test]
fn decode_subscribed_keeps_extra_fields() {
    let m = decode_frame(text(
        "{\"event\":\"subscribed\",\"feed\":\"book\",\"product_ids\":[\"PI_XBTUSD\"]}",
    ))
    .unwrap();
    match m {
        Message::Subscribed { feed, extra } => {
            assert_eq!(feed, "book");
            assert_eq!(extra.len(), 1);
            assert_eq!(extra[0].0, b"product_ids".to_vec());
        }
        other => panic!("unexpected {:?}", other),
    }
}

#[test]
fn decode_book_delta() {
    let m = decode_frame(text(
        "{\"feed\":\"book\",\"product_id\":\"PI_XBTUSD\",\"timestamp\":100,\"side\":\"sell\",\"seq\":3,\"price\":34970.5,\"qty\":0.25}",
    ))
    .unwrap();
    assert_eq!(
        m,
        Message::Subscription(SubscriptionMessage::Book {
            product_id: Symbol::PerpetualInverse(Pair(Currency::XBT, Currency::USD)),
            timestamp: 100,
            side: Side::Sell,
            seq_num: 3,
            price: JsonNum { neg: false, mant: 349705, scale: 1 },
            qty: JsonNum { neg: false, mant: 25, scale: 2 },
        })
    );
}

#[test]
fn decode_book_snapshot_defaults_empty_sides() {
    let m = decode_frame(text(
        "{\"feed\":\"book_snapshot\",\"product_id\":\"PI_XBTUSD\",\"timestamp\":5,\"seq\":1,\"bids\":[{\"price\":100,\"qty\":2}]}",
    ))
    .unwrap();
    match m {
        Message::Subscription(SubscriptionMessage::BookSnapshot { bids, asks, seq_num, .. }) => {
            assert_eq!(seq_num, 1);
            assert_eq!(bids.len(), 1);
            assert_eq!(bids[0].price, JsonNum { neg: false, mant: 100, scale: 0 });
            assert!(asks.is_empty());
        }
        other => panic!("unexpected {:?}", other),
    }
}

#[test]
fn decode_heartbeat_and_fills() {
    assert_eq!(
        decode_frame(text("{\"feed\":\"heartbeat\",\"time\":1616234620000}")),
        Ok(Message::Subscription(SubscriptionMessage::Heartbeat(Heartbeat {
            time: 1616234620000,
        })))
    );
    let m = decode_frame(text(
        "{\"feed\":\"fills\",\"username\":\"u\",\"fills\":[{\"instrument\":\"PI_XBTUSD\",\"time\":1600000000,\"price\":10500.5,\"seq\":5,\"buy\":true,\"qty\":1,\"order_id\":\"6245e9f1-c6a0-4aa9-9f33-92bb0d543e55\",\"cli_ord_id\":null,\"fill_id\":\"a2235b31-0c24-4b50-873d-a15f4cb7bbe8\",\"fill_type\":\"maker\"}]}",
    ))
    .unwrap();
    match m {
        Message::Subscription(SubscriptionMessage::Fills { username, fills }) => {
            assert_eq!(username, "u");
            assert_eq!(fills.len(), 1);
            assert_eq!(fills[0].order_id, "6245e9f1-c6a0-4aa9-9f33-92bb0d543e55");
            assert_eq!(fills[0].cli_ord_id, None);
            assert!(fills[0].buy);
        }
        other => panic!("unexpected {:?}", other),
    }
}

#[test]
fn decode_rejects_bad_identifier() {
    assert!(matches!(
        decode_frame(text(
            "{\"feed\":\"fills\",\"username\":\"u\",\"fills\":[{\"instrument\":\"PI_XBTUSD\",\"time\":1,\"price\":1,\"seq\":1,\"buy\":true,\"qty\":1,\"order_id\":\"not-an-id\",\"fill_id\":\"a2235b31-0c24-4b50-873d-a15f4cb7bbe8\",\"fill_type\":\"maker\"}]}"
        )),
        Err(KrakenError::CannotDeserializeResponse(_))
    ));
}

#[test]
fn decode_unknown_feed_and_event_fail() {
    assert!(matches!(
        decode_frame(text("{\"feed\":\"weather\",\"time\":1}")),
        Err(KrakenError::CannotDeserializeResponse(_))
    ));
    assert!(matches!(
        decode_frame(text("{\"event\":\"alert\"}")),
        Err(KrakenError::CannotDeserializeResponse(_))
    ));
}

#[test]
fn control_and_close_frames() {
    assert_eq!(decode_frame(Frame::Ping), Ok(Message::Ping));
    assert_eq!(decode_frame(Frame::Pong), Ok(Message::Pong));
    assert_eq!(
        decode_frame(Frame::Close),
        Err(KrakenError::WebsocketClosed)
    );
    assert_eq!(
        decode_frame(Frame::Binary(vec![1, 2, 3])),
        Err(KrakenError::UnexpectedWebsocketBinaryContent(vec![1, 2, 3]))
    );
}

#[test]
fn three_frames_with_a_malformed_middle() {
    // One malformed frame yields its own error and the stream goes on.
    let rs = decode_frames(vec![
        text("{\"event\":\"info\",\"version\":1}"),
        text("{not json"),
        text("{\"feed\":\"heartbeat\",\"time\":7}"),
    ]);
    assert_eq!(rs.len(), 3);
    assert_eq!(rs[0], Ok(Message::Info { version: 1 }));
    assert!(matches!(rs[1], Err(KrakenError::CannotDeserializeResponse(_))));
    assert_eq!(
        rs[2],
        Ok(Message::Subscription(SubscriptionMessage::Heartbeat(Heartbeat { time: 7 })))
    );
}

#[test]
fn unauthenticated_commands_need_no_credential() {
    let mut s = Session::new(None);
    let sym = Symbol::parse("PI_XBTUSD").unwrap();
    assert!(matches!(
        s.send(&Command::book(&[sym])),
        Ok(OutFrame::Text(_))
    ));
    assert_eq!(s.send(&Command::Ping), Ok(OutFrame::Ping));
    // Only the credential-bearing paths fail without a key.
    assert_eq!(s.send(&Command::challenge()), Err(KrakenError::NoApiKeySet));
    assert_eq!(
        s.send_authenticated(&Command::fills(), "xyz"),
        Err(KrakenError::NoApiKeySet)
    );
}

#[test]
fn challenge_handshake_end_to_end() {
    // Send Command::Challenge, receive the challenge, then the compound
    // authenticated fills subscription carries the golden signature.
    let mut s = Session::new(Some(("my-key".to_string(), SECRET.to_string())));
    assert_eq!(s.state, SessionState::Connected);

    let f = s.send(&Command::challenge()).unwrap();
    assert_eq!(s.state, SessionState::ChallengeRequested);
    match f {
        OutFrame::Text(v) => assert_eq!(
            String::from_utf8(v).unwrap(),
            "{\"api_key\":\"my-key\",\"event\":\"challenge\"}"
        ),
        other => panic!("unexpected {:?}", other),
    }

    let m = s
        .next(text("{\"event\":\"challenge\",\"message\":\"xyz\"}"))
        .unwrap();
    assert_eq!(m, Message::Challenge { message: "xyz".to_string() });
    assert_eq!(s.state, SessionState::Authenticated);

    let f = s.send_authenticated(&Command::fills(), "xyz").unwrap();
    let expected = format!(
        "{{\"event\":\"subscribe\",\"feed\":\"fills\",\"api_key\":\"my-key\",\"original_challenge\":\"xyz\",\"signed_challenge\":\"{}\"}}",
        SIG_XYZ
    );
    match f {
        OutFrame::Text(v) => assert_eq!(String::from_utf8(v).unwrap(), expected),
        other => panic!("unexpected {:?}", other),
    }
}

#[test]
fn bad_frame_does_not_corrupt_session_state() {
    let mut s = Session::new(None);
    assert!(s.next(text("{broken")).is_err());
    assert_eq!(s.state, SessionState::Connected);
    assert_eq!(
        s.next(text("{\"event\":\"info\",\"version\":1}")),
        Ok(Message::Info { version: 1 })
    );
    assert_eq!(s.next(Frame::Close), Err(KrakenError::WebsocketClosed));
    assert_eq!(s.state, SessionState::Closed);
}

#[test]
fn authenticated_send_with_control_command_fails() {
    let s = Session::new(Some(("k".to_string(), SECRET.to_string())));
    assert_eq!(
        s.send_authenticated(&Command::challenge(), "xyz"),
        Err(KrakenError::CannotSerialize)
    );
}
