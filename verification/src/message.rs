use vstd::prelude::*;
use vstd::slice::slice_to_vec;

use crate::common::{fill_type_of_bytes, side_of_bytes, spec_fill_type_of, spec_side_of, FillType,
    Side};
use crate::json::{jms, jv, jvs, num_v, obj_get, spec_obj_get, JsonNum, JsonV, JsonValue};
use crate::symbol::{parse_symbol_bytes, spec_parse_symbol, Symbol};
use crate::text::{bytes_eq, lemma_ascii_valid_utf8, spec_string_bytes, string_from_utf8};
use crate::wire::{k_account, k_account_balances_and_margins, k_account_balances_and_margins_v,
    k_account_v, k_am, k_am_v, k_asks, k_asks_v, k_balance, k_balance_v, k_bids, k_bids_v, k_book,
    k_book_snapshot, k_book_snapshot_v, k_book_v, k_buy, k_buy_v, k_challenge, k_challenge_v,
    k_cli_ord_id, k_cli_ord_id_v, k_event, k_event_v, k_feed, k_feed_v, k_fill_id, k_fill_id_v,
    k_fill_type, k_fill_type_v, k_fills, k_fills_snapshot, k_fills_snapshot_v, k_fills_v,
    k_funding, k_funding_v, k_heartbeat, k_heartbeat_v, k_im, k_im_v, k_info, k_info_v,
    k_instrument, k_instrument_v, k_margin_accounts, k_margin_accounts_v, k_message, k_message_v,
    k_mm, k_mm_v, k_name, k_name_v, k_order_id, k_order_id_v, k_pnl, k_pnl_v, k_price, k_price_v,
    k_product_id, k_product_id_v, k_pv, k_pv_v, k_qty, k_qty_v, k_seq, k_seq_v, k_side, k_side_v,
    k_subscribed, k_subscribed_v, k_time, k_time_v, k_timestamp, k_timestamp_v, k_username,
    k_username_v, k_version, k_version_v};

verus! {

// ---------------------------------------------------------------------------
// Inbound message types
// ---------------------------------------------------------------------------

/// One margin account inside a balance update; the monetary figures stay in
/// the exchange's decimal form.
#[derive(Debug, Clone, PartialEq, Eq)]
pub struct MarginAccount {
    pub name: String,
    pub pv: JsonNum,
    pub balance: JsonNum,
    pub funding: JsonNum,
    pub mm: JsonNum,
    pub pnl: JsonNum,
    pub im: JsonNum,
    pub am: JsonNum,
}

/// One price level of a book snapshot.
#[derive(Debug, Clone, Copy, PartialEq, Eq)]
pub struct PriceTuple {
    pub price: JsonNum,
    pub qty: JsonNum,
}

/// One fill from the fills feed. Order identifiers are kept in their
/// canonical hyphenated text form, validated at decode time.
#[derive(Debug, Clone, PartialEq, Eq)]
pub struct SingleFill {
    pub instrument: Symbol,
    pub time: u64,
    pub price: JsonNum,
    pub seq_num: u64,
    pub buy: bool,
    pub qty: JsonNum,
    pub order_id: String,
    pub cli_ord_id: Option<String>,
    pub fill_id: String,
    pub fill_type: FillType,
}

/// A heartbeat tick.
#[derive(Debug, Clone, Copy, PartialEq, Eq, Structural)]
pub struct Heartbeat {
    pub time: u64,
}

/// A feed payload, dispatched on the feed tag the wire carries.
#[derive(Debug, Clone, PartialEq, Eq)]
pub enum SubscriptionMessage {
    AccountBalance { seq_num: u64, margin_accounts: Vec<MarginAccount>, account: String },
    Book {
        product_id: Symbol,
        timestamp: i64,
        side: Side,
        seq_num: u64,
        price: JsonNum,
        qty: JsonNum,
    },
    BookSnapshot {
        product_id: Symbol,
        timestamp: i64,
        seq_num: u64,
        bids: Vec<PriceTuple>,
        asks: Vec<PriceTuple>,
    },
    Fills { username: String, fills: Vec<SingleFill> },
    FillsSnapshot { account: String, fills: Vec<SingleFill> },
    Heartbeat(Heartbeat),
}

/// One inbound message: the event-tagged envelopes, the feed-tagged
/// subscription payloads, and the transport's control frames.
#[derive(Debug, PartialEq, Eq)]
pub enum Message {
    Subscribed { feed: String, extra: Vec<(Vec<u8>, JsonValue)> },
    Info { version: i64 },
    Challenge { message: String },
    Subscription(SubscriptionMessage),
    Ping,
    Pong,
}

// ---------------------------------------------------------------------------
// Mathematical mirrors
// ---------------------------------------------------------------------------

pub struct MarginAccountV {
    pub name: Seq<u8>,
    pub pv: JsonV,
    pub balance: JsonV,
    pub funding: JsonV,
    pub mm: JsonV,
    pub pnl: JsonV,
    pub im: JsonV,
    pub am: JsonV,
}

pub struct PriceTupleV {
    pub price: JsonV,
    pub qty: JsonV,
}

pub struct SingleFillV {
    pub instrument: Symbol,
    pub time: u64,
    pub price: JsonV,
    pub seq_num: u64,
    pub buy: bool,
    pub qty: JsonV,
    pub order_id: Seq<u8>,
    pub cli_ord_id: Option<Seq<u8>>,
    pub fill_id: Seq<u8>,
    pub fill_type: FillType,
}

pub enum SubMsgV {
    AccountBalance { seq_num: u64, margin_accounts: Seq<MarginAccountV>, account: Seq<u8> },
    Book { product_id: Symbol, timestamp: i64, side: Side, seq_num: u64, price: JsonV, qty: JsonV },
    BookSnapshot {
        product_id: Symbol,
        timestamp: i64,
        seq_num: u64,
        bids: Seq<PriceTupleV>,
        asks: Seq<PriceTupleV>,
    },
    Fills { username: Seq<u8>, fills: Seq<SingleFillV> },
    FillsSnapshot { account: Seq<u8>, fills: Seq<SingleFillV> },
    Heartbeat { time: u64 },
}

pub enum MessageV {
    Subscribed { feed: Seq<u8>, extra: Seq<(Seq<u8>, JsonV)> },
    Info { version: i64 },
    Challenge { message: Seq<u8> },
    Subscription(SubMsgV),
    Ping,
    Pong,
}

pub open spec fn mav(m: MarginAccount) -> MarginAccountV {
    MarginAccountV {
        name: spec_string_bytes(m.name),
        pv: num_v(m.pv),
        balance: num_v(m.balance),
        funding: num_v(m.funding),
        mm: num_v(m.mm),
        pnl: num_v(m.pnl),
        im: num_v(m.im),
        am: num_v(m.am),
    }
}

pub open spec fn ptv(t: PriceTuple) -> PriceTupleV {
    PriceTupleV { price: num_v(t.price), qty: num_v(t.qty) }
}

pub open spec fn sfv(f: SingleFill) -> SingleFillV {
    SingleFillV {
        instrument: f.instrument,
        time: f.time,
        price: num_v(f.price),
        seq_num: f.seq_num,
        buy: f.buy,
        qty: num_v(f.qty),
        order_id: spec_string_bytes(f.order_id),
        cli_ord_id: match f.cli_ord_id {
            Some(s) => Some(spec_string_bytes(s)),
            None => None,
        },
        fill_id: spec_string_bytes(f.fill_id),
        fill_type: f.fill_type,
    }
}

pub open spec fn mavs(ms: Seq<MarginAccount>) -> Seq<MarginAccountV> {
    Seq::new(ms.len(), |i: int| mav(ms[i]))
}

pub open spec fn ptvs(ts: Seq<PriceTuple>) -> Seq<PriceTupleV> {
    Seq::new(ts.len(), |i: int| ptv(ts[i]))
}

pub open spec fn sfvs(fs: Seq<SingleFill>) -> Seq<SingleFillV> {
    Seq::new(fs.len(), |i: int| sfv(fs[i]))
}

pub open spec fn sub_v(m: SubscriptionMessage) -> SubMsgV {
    match m {
        SubscriptionMessage::AccountBalance { seq_num, margin_accounts, account } => {
            SubMsgV::AccountBalance {
                seq_num,
                margin_accounts: mavs(margin_accounts@),
                account: spec_string_bytes(account),
            }
        },
        SubscriptionMessage::Book { product_id, timestamp, side, seq_num, price, qty } => {
            SubMsgV::Book {
                product_id,
                timestamp,
                side,
                seq_num,
                price: num_v(price),
                qty: num_v(qty),
            }
        },
        SubscriptionMessage::BookSnapshot { product_id, timestamp, seq_num, bids, asks } => {
            SubMsgV::BookSnapshot {
                product_id,
                timestamp,
                seq_num,
                bids: ptvs(bids@),
                asks: ptvs(asks@),
            }
        },
        SubscriptionMessage::Fills { username, fills } => {
            SubMsgV::Fills { username: spec_string_bytes(username), fills: sfvs(fills@) }
        },
        SubscriptionMessage::FillsSnapshot { account, fills } => {
            SubMsgV::FillsSnapshot { account: spec_string_bytes(account), fills: sfvs(fills@) }
        },
        SubscriptionMessage::Heartbeat(h) => SubMsgV::Heartbeat { time: h.time },
    }
}

pub open spec fn msg_v(m: Message) -> MessageV {
    match m {
        Message::Subscribed { feed, extra } => MessageV::Subscribed {
            feed: spec_string_bytes(feed),
            extra: jms(extra@),
        },
        Message::Info { version } => MessageV::Info { version },
        Message::Challenge { message } => MessageV::Challenge {
            message: spec_string_bytes(message),
        },
        Message::Subscription(s) => MessageV::Subscription(sub_v(s)),
        Message::Ping => MessageV::Ping,
        Message::Pong => MessageV::Pong,
    }
}

// ---------------------------------------------------------------------------
// Field readers
// ---------------------------------------------------------------------------

/// The string content under a key, when the field is there and is a string.
pub open spec fn field_str(ms: Seq<(Seq<u8>, JsonV)>, k: Seq<u8>) -> Option<Seq<u8>> {
    match spec_obj_get(ms, k) {
        Some(JsonV::Str(b)) => Some(b),
        _ => None,
    }
}

/// A string field that is also valid UTF-8, so it can be held as text.
pub open spec fn field_string(ms: Seq<(Seq<u8>, JsonV)>, k: Seq<u8>) -> Option<Seq<u8>> {
    match field_str(ms, k) {
        Some(b) => if vstd::utf8::valid_utf8(b) {
            Some(b)
        } else {
            None
        },
        None => None,
    }
}

/// An unsigned integer field: a number written without fraction, in range.
pub open spec fn field_u64(ms: Seq<(Seq<u8>, JsonV)>, k: Seq<u8>) -> Option<u64> {
    match spec_obj_get(ms, k) {
        Some(JsonV::Num(m, sc)) => if sc == 0 && 0 <= m <= u64::MAX {
            Some(m as u64)
        } else {
            None
        },
        _ => None,
    }
}

/// A signed integer field: a number written without fraction, in range.
pub open spec fn field_i64(ms: Seq<(Seq<u8>, JsonV)>, k: Seq<u8>) -> Option<i64> {
    match spec_obj_get(ms, k) {
        Some(JsonV::Num(m, sc)) => if sc == 0 && i64::MIN <= m <= i64::MAX {
            Some(m as i64)
        } else {
            None
        },
        _ => None,
    }
}

/// A decimal field, kept as written.
pub open spec fn field_num(ms: Seq<(Seq<u8>, JsonV)>, k: Seq<u8>) -> Option<JsonV> {
    match spec_obj_get(ms, k) {
        Some(JsonV::Num(m, sc)) => if -(u64::MAX as int) <= m <= u64::MAX as int && sc
            <= u32::MAX {
            Some(JsonV::Num(m, sc))
        } else {
            None
        },
        _ => None,
    }
}

pub open spec fn field_bool(ms: Seq<(Seq<u8>, JsonV)>, k: Seq<u8>) -> Option<bool> {
    match spec_obj_get(ms, k) {
        Some(JsonV::Bool(b)) => Some(b),
        _ => None,
    }
}

/// A string field read as an instrument identifier.
pub open spec fn field_symbol(ms: Seq<(Seq<u8>, JsonV)>, k: Seq<u8>) -> Option<Symbol> {
    match field_str(ms, k) {
        Some(b) => spec_parse_symbol(b),
        None => None,
    }
}

/// A string field read as a side.
pub open spec fn field_side(ms: Seq<(Seq<u8>, JsonV)>, k: Seq<u8>) -> Option<Side> {
    match field_str(ms, k) {
        Some(b) => spec_side_of(b),
        None => None,
    }
}

/// An array field's elements.
pub open spec fn field_arr(ms: Seq<(Seq<u8>, JsonV)>, k: Seq<u8>) -> Option<Seq<JsonV>> {
    match spec_obj_get(ms, k) {
        Some(JsonV::Arr(xs)) => Some(xs),
        _ => None,
    }
}

pub open spec fn is_hex_byte(b: u8) -> bool {
    48 <= b <= 57 || 97 <= b <= 102 || 65 <= b <= 70
}

/// The canonical hyphenated text form of an order identifier: 36 bytes,
/// hyphens after the 8th, 13th, 18th and 23rd, hex digits elsewhere.
pub open spec fn is_uuid(b: Seq<u8>) -> bool {
    b.len() == 36 && forall|i: int|
        0 <= i < 36 ==> (if i == 8 || i == 13 || i == 18 || i == 23 {
            #[trigger] b[i] == 45
        } else {
            is_hex_byte(b[i])
        })
}

/// A string field that is a well-formed identifier in hyphenated form.
pub open spec fn field_uuid(ms: Seq<(Seq<u8>, JsonV)>, k: Seq<u8>) -> Option<Seq<u8>> {
    match field_str(ms, k) {
        Some(b) => if is_uuid(b) {
            Some(b)
        } else {
            None
        },
        None => None,
    }
}

/// Checks the hyphenated identifier form.
pub fn is_uuid_text(b: &[u8]) -> (r: bool)
    ensures
        r == is_uuid(b@),
{
    if b.len() != 36 {
        return false;
    }
    let mut i: usize = 0;
    while i < 36
        invariant
            i <= 36,
            b@.len() == 36,
            forall|j: int|
                0 <= j < i ==> (if j == 8 || j == 13 || j == 18 || j == 23 {
                    #[trigger] b@[j] == 45
                } else {
                    is_hex_byte(b@[j])
                }),
        decreases 36 - i,
    {
        let c = b[i];
        let ok = if i == 8 || i == 13 || i == 18 || i == 23 {
            c == 45
        } else {
            (48 <= c && c <= 57) || (97 <= c && c <= 102) || (65 <= c && c <= 70)
        };
        if !ok {
            return false;
        }
        i = i + 1;
    }
    true
}

/// Reads a string field's content bytes.
pub fn efield_str<'a>(ms: &'a Vec<(Vec<u8>, JsonValue)>, k: &[u8]) -> (r: Option<&'a Vec<u8>>)
    ensures
        match r {
            Some(b) => field_str(jms(ms@), k@) == Some(b@),
            None => field_str(jms(ms@), k@) is None,
        },
{
    match obj_get(ms, k) {
        Some(v) => match v {
            JsonValue::Str(b) => Some(b),
            _ => None,
        },
        None => None,
    }
}

/// Reads a string field as text, when its bytes are valid UTF-8.
pub fn efield_string(ms: &Vec<(Vec<u8>, JsonValue)>, k: &[u8]) -> (r: Option<String>)
    ensures
        match r {
            Some(s) => field_string(jms(ms@), k@) == Some(spec_string_bytes(s)),
            None => field_string(jms(ms@), k@) is None,
        },
{
    match efield_str(ms, k) {
        Some(b) => string_from_utf8(slice_to_vec(b.as_slice())),
        None => None,
    }
}

fn efield_u64(ms: &Vec<(Vec<u8>, JsonValue)>, k: &[u8]) -> (r: Option<u64>)
    ensures
        r == field_u64(jms(ms@), k@),
{
    match obj_get(ms, k) {
        Some(v) => match v {
            JsonValue::Num(n) => if n.scale == 0 && (!n.neg || n.mant == 0) {
                Some(n.mant)
            } else {
                None
            },
            _ => None,
        },
        None => None,
    }
}

fn efield_i64(ms: &Vec<(Vec<u8>, JsonValue)>, k: &[u8]) -> (r: Option<i64>)
    ensures
        r == field_i64(jms(ms@), k@),
{
    match obj_get(ms, k) {
        Some(v) => match v {
            JsonValue::Num(n) => {
                if n.scale != 0 {
                    None
                } else if !n.neg {
                    if n.mant <= 0x7fff_ffff_ffff_ffff {
                        Some(n.mant as i64)
                    } else {
                        None
                    }
                } else {
                    if n.mant <= 0x7fff_ffff_ffff_ffff {
                        Some(-(n.mant as i64))
                    } else if n.mant == 0x8000_0000_0000_0000 {
                        Some(i64::MIN)
                    } else {
                        None
                    }
                }
            },
            _ => None,
        },
        None => None,
    }
}

fn efield_num(ms: &Vec<(Vec<u8>, JsonValue)>, k: &[u8]) -> (r: Option<JsonNum>)
    ensures
        match r {
            Some(n) => field_num(jms(ms@), k@) == Some(num_v(n)),
            None => field_num(jms(ms@), k@) is None,
        },
{
    match obj_get(ms, k) {
        Some(v) => match v {
            JsonValue::Num(n) => Some(*n),
            _ => None,
        },
        None => None,
    }
}

fn efield_bool(ms: &Vec<(Vec<u8>, JsonValue)>, k: &[u8]) -> (r: Option<bool>)
    ensures
        r == field_bool(jms(ms@), k@),
{
    match obj_get(ms, k) {
        Some(v) => match v {
            JsonValue::Bool(b) => Some(*b),
            _ => None,
        },
        None => None,
    }
}

fn efield_symbol(ms: &Vec<(Vec<u8>, JsonValue)>, k: &[u8]) -> (r: Option<Symbol>)
    ensures
        r == field_symbol(jms(ms@), k@),
{
    match efield_str(ms, k) {
        Some(b) => match parse_symbol_bytes(b.as_slice()) {
            Ok(sym) => Some(sym),
            Err(_) => None,
        },
        None => None,
    }
}

fn efield_side(ms: &Vec<(Vec<u8>, JsonValue)>, k: &[u8]) -> (r: Option<Side>)
    ensures
        r == field_side(jms(ms@), k@),
{
    match efield_str(ms, k) {
        Some(b) => side_of_bytes(b.as_slice()),
        None => None,
    }
}

fn efield_uuid(ms: &Vec<(Vec<u8>, JsonValue)>, k: &[u8]) -> (r: Option<String>)
    ensures
        match r {
            Some(s) => field_uuid(jms(ms@), k@) == Some(spec_string_bytes(s)),
            None => field_uuid(jms(ms@), k@) is None,
        },
{
    match efield_str(ms, k) {
        Some(b) => {
            if !is_uuid_text(b.as_slice()) {
                return None;
            }
            proof {
                lemma_ascii_valid_utf8(b@);
            }
            match string_from_utf8(slice_to_vec(b.as_slice())) {
                Some(s) => Some(s),
                None => {
                    proof {
                        assert(false);
                    }
                    None
                },
            }
        },
        None => None,
    }
}

// ---------------------------------------------------------------------------
// Element decoders
// ---------------------------------------------------------------------------

/// Reads one margin account object.
pub open spec fn spec_margin(v: JsonV) -> Option<MarginAccountV> {
    match v {
        JsonV::Obj(ms) => match (field_string(ms, k_name()), field_num(ms, k_pv()), field_num(
            ms,
            k_balance(),
        ), field_num(ms, k_funding()), field_num(ms, k_mm()), field_num(ms, k_pnl()), field_num(
            ms,
            k_im(),
        ), field_num(ms, k_am())) {
            (
                Some(name),
                Some(pv),
                Some(balance),
                Some(funding),
                Some(mm),
                Some(pnl),
                Some(im),
                Some(am),
            ) => Some(MarginAccountV { name, pv, balance, funding, mm, pnl, im, am }),
            _ => None,
        },
        _ => None,
    }
}

/// Reads a margin account list; any bad element fails the whole list.
pub open spec fn spec_margins(xs: Seq<JsonV>) -> Option<Seq<MarginAccountV>>
    decreases xs.len(),
{
    if xs.len() == 0 {
        Some(Seq::empty())
    } else {
        match (spec_margin(xs[0]), spec_margins(xs.drop_first())) {
            (Some(m), Some(rest)) => Some(seq![m] + rest),
            _ => None,
        }
    }
}

/// Reads one book level object.
pub open spec fn spec_level(v: JsonV) -> Option<PriceTupleV> {
    match v {
        JsonV::Obj(ms) => match (field_num(ms, k_price()), field_num(ms, k_qty())) {
            (Some(price), Some(qty)) => Some(PriceTupleV { price, qty }),
            _ => None,
        },
        _ => None,
    }
}

pub open spec fn spec_levels(xs: Seq<JsonV>) -> Option<Seq<PriceTupleV>>
    decreases xs.len(),
{
    if xs.len() == 0 {
        Some(Seq::empty())
    } else {
        match (spec_level(xs[0]), spec_levels(xs.drop_first())) {
            (Some(t), Some(rest)) => Some(seq![t] + rest),
            _ => None,
        }
    }
}

/// Reads one fill object. A missing or null client order id is accepted as
/// absent; anything else must be a well-formed identifier.
pub open spec fn spec_fill(v: JsonV) -> Option<SingleFillV> {
    match v {
        JsonV::Obj(ms) => {
            let cli = match spec_obj_get(ms, k_cli_ord_id()) {
                None => Some(None),
                Some(JsonV::Null) => Some(None),
                Some(JsonV::Str(b)) => if is_uuid(b) {
                    Some(Some(b))
                } else {
                    None
                },
                Some(_) => None,
            };
            let ft = match field_str(ms, k_fill_type()) {
                Some(b) => spec_fill_type_of(b),
                None => None,
            };
            match (field_symbol(ms, k_instrument()), field_u64(ms, k_time()), field_num(
                ms,
                k_price(),
            ), field_u64(ms, k_seq()), field_bool(ms, k_buy()), field_num(ms, k_qty()), field_uuid(
                ms,
                k_order_id(),
            ), cli, field_uuid(ms, k_fill_id()), ft) {
                (
                    Some(instrument),
                    Some(time),
                    Some(price),
                    Some(seq_num),
                    Some(buy),
                    Some(qty),
                    Some(order_id),
                    Some(cli_ord_id),
                    Some(fill_id),
                    Some(fill_type),
                ) => Some(
                    SingleFillV {
                        instrument,
                        time,
                        price,
                        seq_num,
                        buy,
                        qty,
                        order_id,
                        cli_ord_id,
                        fill_id,
                        fill_type,
                    },
                ),
                _ => None,
            }
        },
        _ => None,
    }
}

pub open spec fn spec_fills(xs: Seq<JsonV>) -> Option<Seq<SingleFillV>>
    decreases xs.len(),
{
    if xs.len() == 0 {
        Some(Seq::empty())
    } else {
        match (spec_fill(xs[0]), spec_fills(xs.drop_first())) {
            (Some(f), Some(rest)) => Some(seq![f] + rest),
            _ => None,
        }
    }
}

fn decode_margin(v: &JsonValue) -> (r: Option<MarginAccount>)
    ensures
        match r {
            Some(m) => spec_margin(jv(*v)) == Some(mav(m)),
            None => spec_margin(jv(*v)) is None,
        },
{
    let ms = match v {
        JsonValue::Obj(ms) => ms,
        _ => {
            return None;
        },
    };
    let name = match efield_string(ms, k_name_v().as_slice()) {
        Some(x) => x,
        None => {
            return None;
        },
    };
    let pv = match efield_num(ms, k_pv_v().as_slice()) {
        Some(x) => x,
        None => {
            return None;
        },
    };
    let balance = match efield_num(ms, k_balance_v().as_slice()) {
        Some(x) => x,
        None => {
            return None;
        },
    };
    let funding = match efield_num(ms, k_funding_v().as_slice()) {
        Some(x) => x,
        None => {
            return None;
        },
    };
    let mm = match efield_num(ms, k_mm_v().as_slice()) {
        Some(x) => x,
        None => {
            return None;
        },
    };
    let pnl = match efield_num(ms, k_pnl_v().as_slice()) {
        Some(x) => x,
        None => {
            return None;
        },
    };
    let im = match efield_num(ms, k_im_v().as_slice()) {
        Some(x) => x,
        None => {
            return None;
        },
    };
    let am = match efield_num(ms, k_am_v().as_slice()) {
        Some(x) => x,
        None => {
            return None;
        },
    };
    Some(MarginAccount { name, pv, balance, funding, mm, pnl, im, am })
}

fn decode_margins(xs: &Vec<JsonValue>, i: usize) -> (r: Option<Vec<MarginAccount>>)
    requires
        i <= xs@.len(),
    ensures
        match r {
            Some(out) => spec_margins(jvs(xs@).skip(i as int)) == Some(mavs(out@)),
            None => spec_margins(jvs(xs@).skip(i as int)) is None,
        },
    decreases xs@.len() - i,
{
    if i == xs.len() {
        let out: Vec<MarginAccount> = Vec::new();
        assert(jvs(xs@).skip(i as int) =~= Seq::<JsonV>::empty());
        assert(mavs(out@) =~= Seq::<MarginAccountV>::empty());
        return Some(out);
    }
    proof {
        assert(jvs(xs@).skip(i as int)[0] == jv(xs@[i as int]));
        assert(jvs(xs@).skip(i as int).drop_first() =~= jvs(xs@).skip(i as int + 1));
    }
    let m = match decode_margin(&xs[i]) {
        Some(m) => m,
        None => {
            return None;
        },
    };
    match decode_margins(xs, i + 1) {
        Some(mut rest) => {
            let ghost old_rest = rest@;
            rest.insert(0, m);
            assert(mavs(rest@) =~= seq![mav(m)] + mavs(old_rest));
            Some(rest)
        },
        None => None,
    }
}

fn decode_level(v: &JsonValue) -> (r: Option<PriceTuple>)
    ensures
        match r {
            Some(t) => spec_level(jv(*v)) == Some(ptv(t)),
            None => spec_level(jv(*v)) is None,
        },
{
    let ms = match v {
        JsonValue::Obj(ms) => ms,
        _ => {
            return None;
        },
    };
    let price = match efield_num(ms, k_price_v().as_slice()) {
        Some(x) => x,
        None => {
            return None;
        },
    };
    let qty = match efield_num(ms, k_qty_v().as_slice()) {
        Some(x) => x,
        None => {
            return None;
        },
    };
    Some(PriceTuple { price, qty })
}

fn decode_levels(xs: &Vec<JsonValue>, i: usize) -> (r: Option<Vec<PriceTuple>>)
    requires
        i <= xs@.len(),
    ensures
        match r {
            Some(out) => spec_levels(jvs(xs@).skip(i as int)) == Some(ptvs(out@)),
            None => spec_levels(jvs(xs@).skip(i as int)) is None,
        },
    decreases xs@.len() - i,
{
    if i == xs.len() {
        let out: Vec<PriceTuple> = Vec::new();
        assert(jvs(xs@).skip(i as int) =~= Seq::<JsonV>::empty());
        assert(ptvs(out@) =~= Seq::<PriceTupleV>::empty());
        return Some(out);
    }
    proof {
        assert(jvs(xs@).skip(i as int)[0] == jv(xs@[i as int]));
        assert(jvs(xs@).skip(i as int).drop_first() =~= jvs(xs@).skip(i as int + 1));
    }
    let t = match decode_level(&xs[i]) {
        Some(t) => t,
        None => {
            return None;
        },
    };
    match decode_levels(xs, i + 1) {
        Some(mut rest) => {
            let ghost old_rest = rest@;
            rest.insert(0, t);
            assert(ptvs(rest@) =~= seq![ptv(t)] + ptvs(old_rest));
            Some(rest)
        },
        None => None,
    }
}

fn decode_fill(v: &JsonValue) -> (r: Option<SingleFill>)
    ensures
        match r {
            Some(f) => spec_fill(jv(*v)) == Some(sfv(f)),
            None => spec_fill(jv(*v)) is None,
        },
{
    let ms = match v {
        JsonValue::Obj(ms) => ms,
        _ => {
            return None;
        },
    };
    let cli_ord_id: Option<String> = match obj_get(ms, k_cli_ord_id_v().as_slice()) {
        None => None,
        Some(cv) => match cv {
            JsonValue::Null => None,
            JsonValue::Str(b) => {
                if !is_uuid_text(b.as_slice()) {
                    return None;
                }
                proof {
                    lemma_ascii_valid_utf8(b@);
                }
                match string_from_utf8(slice_to_vec(b.as_slice())) {
                    Some(s) => Some(s),
                    None => {
                        proof {
                            assert(false);
                        }
                        None
                    },
                }
            },
            _ => {
                return None;
            },
        },
    };
    let instrument = match efield_symbol(ms, k_instrument_v().as_slice()) {
        Some(x) => x,
        None => {
            return None;
        },
    };
    let time = match efield_u64(ms, k_time_v().as_slice()) {
        Some(x) => x,
        None => {
            return None;
        },
    };
    let price = match efield_num(ms, k_price_v().as_slice()) {
        Some(x) => x,
        None => {
            return None;
        },
    };
    let seq_num = match efield_u64(ms, k_seq_v().as_slice()) {
        Some(x) => x,
        None => {
            return None;
        },
    };
    let buy = match efield_bool(ms, k_buy_v().as_slice()) {
        Some(x) => x,
        None => {
            return None;
        },
    };
    let qty = match efield_num(ms, k_qty_v().as_slice()) {
        Some(x) => x,
        None => {
            return None;
        },
    };
    let order_id = match efield_uuid(ms, k_order_id_v().as_slice()) {
        Some(x) => x,
        None => {
            return None;
        },
    };
    let fill_id = match efield_uuid(ms, k_fill_id_v().as_slice()) {
        Some(x) => x,
        None => {
            return None;
        },
    };
    let fill_type = match efield_str(ms, k_fill_type_v().as_slice()) {
        Some(b) => match fill_type_of_bytes(b.as_slice()) {
            Some(x) => x,
            None => {
                return None;
            },
        },
        None => {
            return None;
        },
    };
    Some(
        SingleFill {
            instrument,
            time,
            price,
            seq_num,
            buy,
            qty,
            order_id,
            cli_ord_id,
            fill_id,
            fill_type,
        },
    )
}

fn decode_fills(xs: &Vec<JsonValue>, i: usize) -> (r: Option<Vec<SingleFill>>)
    requires
        i <= xs@.len(),
    ensures
        match r {
            Some(out) => spec_fills(jvs(xs@).skip(i as int)) == Some(sfvs(out@)),
            None => spec_fills(jvs(xs@).skip(i as int)) is None,
        },
    decreases xs@.len() - i,
{
    if i == xs.len() {
        let out: Vec<SingleFill> = Vec::new();
        assert(jvs(xs@).skip(i as int) =~= Seq::<JsonV>::empty());
        assert(sfvs(out@) =~= Seq::<SingleFillV>::empty());
        return Some(out);
    }
    proof {
        assert(jvs(xs@).skip(i as int)[0] == jv(xs@[i as int]));
        assert(jvs(xs@).skip(i as int).drop_first() =~= jvs(xs@).skip(i as int + 1));
    }
    let f = match decode_fill(&xs[i]) {
        Some(f) => f,
        None => {
            return None;
        },
    };
    match decode_fills(xs, i + 1) {
        Some(mut rest) => {
            let ghost old_rest = rest@;
            rest.insert(0, f);
            assert(sfvs(rest@) =~= seq![sfv(f)] + sfvs(old_rest));
            Some(rest)
        },
        None => None,
    }
}

// ---------------------------------------------------------------------------
// The classifier
// ---------------------------------------------------------------------------

/// The members of a subscription acknowledgment that are neither the event
/// nor the feed tag, kept in wire order.
pub open spec fn spec_extras(ms: Seq<(Seq<u8>, JsonV)>) -> Seq<(Seq<u8>, JsonV)>
    decreases ms.len(),
{
    if ms.len() == 0 {
        Seq::empty()
    } else {
        let rest = spec_extras(ms.drop_first());
        if ms[0].0 == k_event() || ms[0].0 == k_feed() {
            rest
        } else {
            seq![ms[0]] + rest
        }
    }
}

/// Reads a feed-tagged subscription payload; unknown feeds and malformed
/// required fields fail.
pub open spec fn spec_decode_sub(ms: Seq<(Seq<u8>, JsonV)>, f: Seq<u8>) -> Option<SubMsgV> {
    if f == k_account_balances_and_margins() {
        match (field_u64(ms, k_seq()), field_arr(ms, k_margin_accounts()), field_string(
            ms,
            k_account(),
        )) {
            (Some(seq_num), Some(xs), Some(account)) => match spec_margins(xs) {
                Some(margin_accounts) => Some(
                    SubMsgV::AccountBalance { seq_num, margin_accounts, account },
                ),
                None => None,
            },
            _ => None,
        }
    } else if f == k_book() {
        match (field_symbol(ms, k_product_id()), field_i64(ms, k_timestamp()), field_side(
            ms,
            k_side(),
        ), field_u64(ms, k_seq()), field_num(ms, k_price()), field_num(ms, k_qty())) {
            (Some(product_id), Some(timestamp), Some(side), Some(seq_num), Some(price), Some(qty)) =>
                Some(SubMsgV::Book { product_id, timestamp, side, seq_num, price, qty }),
            _ => None,
        }
    } else if f == k_book_snapshot() {
        let bids = match spec_obj_get(ms, k_bids()) {
            None => Some(Seq::<PriceTupleV>::empty()),
            Some(JsonV::Arr(xs)) => spec_levels(xs),
            Some(_) => None,
        };
        let asks = match spec_obj_get(ms, k_asks()) {
            None => Some(Seq::<PriceTupleV>::empty()),
            Some(JsonV::Arr(xs)) => spec_levels(xs),
            Some(_) => None,
        };
        match (field_symbol(ms, k_product_id()), field_i64(ms, k_timestamp()), field_u64(
            ms,
            k_seq(),
        ), bids, asks) {
            (Some(product_id), Some(timestamp), Some(seq_num), Some(bids), Some(asks)) => Some(
                SubMsgV::BookSnapshot { product_id, timestamp, seq_num, bids, asks },
            ),
            _ => None,
        }
    } else if f == k_fills() {
        match (field_string(ms, k_username()), field_arr(ms, k_fills())) {
            (Some(username), Some(xs)) => match spec_fills(xs) {
                Some(fills) => Some(SubMsgV::Fills { username, fills }),
                None => None,
            },
            _ => None,
        }
    } else if f == k_fills_snapshot() {
        match (field_string(ms, k_account()), field_arr(ms, k_fills())) {
            (Some(account), Some(xs)) => match spec_fills(xs) {
                Some(fills) => Some(SubMsgV::FillsSnapshot { account, fills }),
                _ => None,
            },
            _ => None,
        }
    } else if f == k_heartbeat() {
        match field_u64(ms, k_time()) {
            Some(time) => Some(SubMsgV::Heartbeat { time }),
            None => None,
        }
    } else {
        None
    }
}

/// Classifies one decoded JSON document. A string event tag dispatches the
/// event envelopes; a document without an event tag is a subscription
/// payload dispatched on its feed tag. A document that carries an event tag
/// of another type or an unknown value matches nothing: classification is
/// by explicit tags, never by the first shape that happens to fit.
pub open spec fn spec_decode_message(doc: JsonV) -> Option<MessageV> {
    match doc {
        JsonV::Obj(ms) => match spec_obj_get(ms, k_event()) {
            Some(JsonV::Str(e)) => {
                if e == k_info() {
                    match field_i64(ms, k_version()) {
                        Some(version) => Some(MessageV::Info { version }),
                        None => None,
                    }
                } else if e == k_challenge() {
                    match field_string(ms, k_message()) {
                        Some(message) => Some(MessageV::Challenge { message }),
                        None => None,
                    }
                } else if e == k_subscribed() {
                    match field_string(ms, k_feed()) {
                        Some(feed) => Some(
                            MessageV::Subscribed { feed, extra: spec_extras(ms) },
                        ),
                        None => None,
                    }
                } else {
                    None
                }
            },
            Some(_) => None,
            None => match field_str(ms, k_feed()) {
                Some(f) => match spec_decode_sub(ms, f) {
                    Some(s) => Some(MessageV::Subscription(s)),
                    None => None,
                },
                None => None,
            },
        },
        _ => None,
    }
}

/// The members that are neither the event nor the feed tag, in wire order.
fn build_extras(ms: Vec<(Vec<u8>, JsonValue)>) -> (r: Vec<(Vec<u8>, JsonValue)>)
    ensures
        jms(r@) == spec_extras(jms(ms@)),
{
    let mut rest = ms;
    let mut out: Vec<(Vec<u8>, JsonValue)> = Vec::new();
    proof {
        assert(jms(out@) =~= Seq::<(Seq<u8>, JsonV)>::empty());
    }
    while rest.len() > 0
        invariant
            spec_extras(jms(ms@)) == jms(out@) + spec_extras(jms(rest@)),
        decreases rest@.len(),
    {
        let ghost rest0 = rest@;
        let ghost out0 = out@;
        let (k, v) = rest.remove(0);
        proof {
            assert(jms(rest0)[0] == (k@, jv(v)));
            assert(jms(rest0).drop_first() =~= jms(rest@));
        }
        if bytes_eq(k.as_slice(), k_event_v().as_slice()) || bytes_eq(
            k.as_slice(),
            k_feed_v().as_slice(),
        ) {
            proof {
                assert(spec_extras(jms(rest0)) == spec_extras(jms(rest@)));
            }
        } else {
            let ghost kv = (k@, jv(v));
            out.push((k, v));
            proof {
                assert(jms(out@) =~= jms(out0) + seq![kv]);
                assert(spec_extras(jms(rest0)) == seq![kv] + spec_extras(jms(rest@)));
                assert(jms(out0) + (seq![kv] + spec_extras(jms(rest@))) =~= (jms(out0) + seq![kv])
                    + spec_extras(jms(rest@)));
            }
        }
    }
    proof {
        assert(jms(rest@) =~= Seq::<(Seq<u8>, JsonV)>::empty());
        assert(jms(out@) + spec_extras(jms(rest@)) =~= jms(out@));
    }
    out
}

/// Reads a subscription payload from its members and its feed tag.
fn decode_sub(ms: &Vec<(Vec<u8>, JsonValue)>, f: &[u8]) -> (r: Option<SubscriptionMessage>)
    ensures
        match r {
            Some(s) => spec_decode_sub(jms(ms@), f@) == Some(sub_v(s)),
            None => spec_decode_sub(jms(ms@), f@) is None,
        },
{
    if bytes_eq(f, k_account_balances_and_margins_v().as_slice()) {
        let seq_num = match efield_u64(ms, k_seq_v().as_slice()) {
            Some(x) => x,
            None => {
                return None;
            },
        };
        let account = match efield_string(ms, k_account_v().as_slice()) {
            Some(x) => x,
            None => {
                return None;
            },
        };
        let xs = match obj_get(ms, k_margin_accounts_v().as_slice()) {
            Some(v) => match v {
                JsonValue::Arr(xs) => xs,
                _ => {
                    return None;
                },
            },
            None => {
                return None;
            },
        };
        proof {
            assert(jvs(xs@).skip(0) =~= jvs(xs@));
        }
        let margin_accounts = match decode_margins(xs, 0) {
            Some(x) => x,
            None => {
                return None;
            },
        };
        Some(SubscriptionMessage::AccountBalance { seq_num, margin_accounts, account })
    } else if bytes_eq(f, k_book_v().as_slice()) {
        let product_id = match efield_symbol(ms, k_product_id_v().as_slice()) {
            Some(x) => x,
            None => {
                return None;
            },
        };
        let timestamp = match efield_i64(ms, k_timestamp_v().as_slice()) {
            Some(x) => x,
            None => {
                return None;
            },
        };
        let side = match efield_side(ms, k_side_v().as_slice()) {
            Some(x) => x,
            None => {
                return None;
            },
        };
        let seq_num = match efield_u64(ms, k_seq_v().as_slice()) {
            Some(x) => x,
            None => {
                return None;
            },
        };
        let price = match efield_num(ms, k_price_v().as_slice()) {
            Some(x) => x,
            None => {
                return None;
            },
        };
        let qty = match efield_num(ms, k_qty_v().as_slice()) {
            Some(x) => x,
            None => {
                return None;
            },
        };
        Some(SubscriptionMessage::Book { product_id, timestamp, side, seq_num, price, qty })
    } else if bytes_eq(f, k_book_snapshot_v().as_slice()) {
        let product_id = match efield_symbol(ms, k_product_id_v().as_slice()) {
            Some(x) => x,
            None => {
                return None;
            },
        };
        let timestamp = match efield_i64(ms, k_timestamp_v().as_slice()) {
            Some(x) => x,
            None => {
                return None;
            },
        };
        let seq_num = match efield_u64(ms, k_seq_v().as_slice()) {
            Some(x) => x,
            None => {
                return None;
            },
        };
        let bids: Vec<PriceTuple> = match obj_get(ms, k_bids_v().as_slice()) {
            None => Vec::new(),
            Some(v) => match v {
                JsonValue::Arr(xs) => {
                    proof {
                        assert(jvs(xs@).skip(0) =~= jvs(xs@));
                    }
                    match decode_levels(xs, 0) {
                        Some(x) => x,
                        None => {
                            return None;
                        },
                    }
                },
                _ => {
                    return None;
                },
            },
        };
        let asks: Vec<PriceTuple> = match obj_get(ms, k_asks_v().as_slice()) {
            None => Vec::new(),
            Some(v) => match v {
                JsonValue::Arr(xs) => {
                    proof {
                        assert(jvs(xs@).skip(0) =~= jvs(xs@));
                    }
                    match decode_levels(xs, 0) {
                        Some(x) => x,
                        None => {
                            return None;
                        },
                    }
                },
                _ => {
                    return None;
                },
            },
        };
        proof {
            assert(ptvs(Seq::<PriceTuple>::empty()) =~= Seq::<PriceTupleV>::empty());
        }
        Some(SubscriptionMessage::BookSnapshot { product_id, timestamp, seq_num, bids, asks })
    } else if bytes_eq(f, k_fills_v().as_slice()) {
        let username = match efield_string(ms, k_username_v().as_slice()) {
            Some(x) => x,
            None => {
                return None;
            },
        };
        let xs = match obj_get(ms, k_fills_v().as_slice()) {
            Some(v) => match v {
                JsonValue::Arr(xs) => xs,
                _ => {
                    return None;
                },
            },
            None => {
                return None;
            },
        };
        proof {
            assert(jvs(xs@).skip(0) =~= jvs(xs@));
        }
        let fills = match decode_fills(xs, 0) {
            Some(x) => x,
            None => {
                return None;
            },
        };
        Some(SubscriptionMessage::Fills { username, fills })
    } else if bytes_eq(f, k_fills_snapshot_v().as_slice()) {
        let account = match efield_string(ms, k_account_v().as_slice()) {
            Some(x) => x,
            None => {
                return None;
            },
        };
        let xs = match obj_get(ms, k_fills_v().as_slice()) {
            Some(v) => match v {
                JsonValue::Arr(xs) => xs,
                _ => {
                    return None;
                },
            },
            None => {
                return None;
            },
        };
        proof {
            assert(jvs(xs@).skip(0) =~= jvs(xs@));
        }
        let fills = match decode_fills(xs, 0) {
            Some(x) => x,
            None => {
                return None;
            },
        };
        Some(SubscriptionMessage::FillsSnapshot { account, fills })
    } else if bytes_eq(f, k_heartbeat_v().as_slice()) {
        match efield_u64(ms, k_time_v().as_slice()) {
            Some(time) => Some(SubscriptionMessage::Heartbeat(Heartbeat { time })),
            None => None,
        }
    } else {
        None
    }
}

/// Classifies one parsed document into a message, exactly as
/// spec_decode_message reads it.
pub fn decode_message(v: JsonValue) -> (r: Option<Message>)
    ensures
        match r {
            Some(m) => spec_decode_message(jv(v)) == Some(msg_v(m)),
            None => spec_decode_message(jv(v)) is None,
        },
{
    let ms = match v {
        JsonValue::Obj(ms) => ms,
        _ => {
            return None;
        },
    };
    let mut event_kind: u8 = 0;
    match obj_get(&ms, k_event_v().as_slice()) {
        Some(ev) => match ev {
            JsonValue::Str(e) => {
                if bytes_eq(e.as_slice(), k_info_v().as_slice()) {
                    event_kind = 1;
                } else if bytes_eq(e.as_slice(), k_challenge_v().as_slice()) {
                    event_kind = 2;
                } else if bytes_eq(e.as_slice(), k_subscribed_v().as_slice()) {
                    event_kind = 3;
                } else {
                    return None;
                }
            },
            _ => {
                return None;
            },
        },
        None => {
            event_kind = 4;
        },
    }
    if event_kind == 1 {
        match efield_i64(&ms, k_version_v().as_slice()) {
            Some(version) => Some(Message::Info { version }),
            None => None,
        }
    } else if event_kind == 2 {
        match efield_string(&ms, k_message_v().as_slice()) {
            Some(message) => Some(Message::Challenge { message }),
            None => None,
        }
    } else if event_kind == 3 {
        let feed = match efield_string(&ms, k_feed_v().as_slice()) {
            Some(f) => f,
            None => {
                return None;
            },
        };
        let extra = build_extras(ms);
        Some(Message::Subscribed { feed, extra })
    } else {
        let sub = match efield_str(&ms, k_feed_v().as_slice()) {
            Some(f) => {
                let fb = slice_to_vec(f.as_slice());
                decode_sub(&ms, fb.as_slice())
            },
            None => {
                return None;
            },
        };
        match sub {
            Some(s) => Some(Message::Subscription(s)),
            None => None,
        }
    }
}

} // verus!
