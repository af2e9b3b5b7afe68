use vstd::prelude::*;

verus! {

// The wire names this protocol speaks: JSON keys, event and feed names,
// enum values, query keys and endpoint paths, each as its byte sequence
// with a builder beside it.

/// The wire name "event".
pub open spec fn k_event() -> Seq<u8> {
    seq![101u8, 118u8, 101u8, 110u8, 116u8]
}

pub fn k_event_v() -> (r: Vec<u8>)
    ensures
        r@ == k_event(),
{
    let mut v: Vec<u8> = Vec::new();
    v.push(101);
    v.push(118);
    v.push(101);
    v.push(110);
    v.push(116);
    assert(v@ =~= k_event());
    v
}

/// The wire name "subscribe".
pub open spec fn k_subscribe() -> Seq<u8> {
    seq![115u8, 117u8, 98u8, 115u8, 99u8, 114u8, 105u8, 98u8, 101u8]
}

pub fn k_subscribe_v() -> (r: Vec<u8>)
    ensures
        r@ == k_subscribe(),
{
    let mut v: Vec<u8> = Vec::new();
    v.push(115);
    v.push(117);
    v.push(98);
    v.push(115);
    v.push(99);
    v.push(114);
    v.push(105);
    v.push(98);
    v.push(101);
    assert(v@ =~= k_subscribe());
    v
}

/// The wire name "feed".
pub open spec fn k_feed() -> Seq<u8> {
    seq![102u8, 101u8, 101u8, 100u8]
}

pub fn k_feed_v() -> (r: Vec<u8>)
    ensures
        r@ == k_feed(),
{
    let mut v: Vec<u8> = Vec::new();
    v.push(102);
    v.push(101);
    v.push(101);
    v.push(100);
    assert(v@ =~= k_feed());
    v
}

/// The wire name "product_ids".
pub open spec fn k_product_ids() -> Seq<u8> {
    seq![112u8, 114u8, 111u8, 100u8, 117u8, 99u8, 116u8, 95u8, 105u8, 100u8, 115u8]
}

pub fn k_product_ids_v() -> (r: Vec<u8>)
    ensures
        r@ == k_product_ids(),
{
    let mut v: Vec<u8> = Vec::new();
    v.push(112);
    v.push(114);
    v.push(111);
    v.push(100);
    v.push(117);
    v.push(99);
    v.push(116);
    v.push(95);
    v.push(105);
    v.push(100);
    v.push(115);
    assert(v@ =~= k_product_ids());
    v
}

/// The wire name "api_key".
pub open spec fn k_api_key() -> Seq<u8> {
    seq![97u8, 112u8, 105u8, 95u8, 107u8, 101u8, 121u8]
}

pub fn k_api_key_v() -> (r: Vec<u8>)
    ensures
        r@ == k_api_key(),
{
    let mut v: Vec<u8> = Vec::new();
    v.push(97);
    v.push(112);
    v.push(105);
    v.push(95);
    v.push(107);
    v.push(101);
    v.push(121);
    assert(v@ =~= k_api_key());
    v
}

/// The wire name "original_challenge".
pub open spec fn k_original_challenge() -> Seq<u8> {
    seq![111u8, 114u8, 105u8, 103u8, 105u8, 110u8, 97u8, 108u8, 95u8, 99u8, 104u8, 97u8, 108u8, 108u8, 101u8, 110u8, 103u8, 101u8]
}

pub fn k_original_challenge_v() -> (r: Vec<u8>)
    ensures
        r@ == k_original_challenge(),
{
    let mut v: Vec<u8> = Vec::new();
    v.push(111);
    v.push(114);
    v.push(105);
    v.push(103);
    v.push(105);
    v.push(110);
    v.push(97);
    v.push(108);
    v.push(95);
    v.push(99);
    v.push(104);
    v.push(97);
    v.push(108);
    v.push(108);
    v.push(101);
    v.push(110);
    v.push(103);
    v.push(101);
    assert(v@ =~= k_original_challenge());
    v
}

/// The wire name "signed_challenge".
pub open spec fn k_signed_challenge() -> Seq<u8> {
    seq![115u8, 105u8, 103u8, 110u8, 101u8, 100u8, 95u8, 99u8, 104u8, 97u8, 108u8, 108u8, 101u8, 110u8, 103u8, 101u8]
}

pub fn k_signed_challenge_v() -> (r: Vec<u8>)
    ensures
        r@ == k_signed_challenge(),
{
    let mut v: Vec<u8> = Vec::new();
    v.push(115);
    v.push(105);
    v.push(103);
    v.push(110);
    v.push(101);
    v.push(100);
    v.push(95);
    v.push(99);
    v.push(104);
    v.push(97);
    v.push(108);
    v.push(108);
    v.push(101);
    v.push(110);
    v.push(103);
    v.push(101);
    assert(v@ =~= k_signed_challenge());
    v
}

/// The wire name "challenge".
pub open spec fn k_challenge() -> Seq<u8> {
    seq![99u8, 104u8, 97u8, 108u8, 108u8, 101u8, 110u8, 103u8, 101u8]
}

pub fn k_challenge_v() -> (r: Vec<u8>)
    ensures
        r@ == k_challenge(),
{
    let mut v: Vec<u8> = Vec::new();
    v.push(99);
    v.push(104);
    v.push(97);
    v.push(108);
    v.push(108);
    v.push(101);
    v.push(110);
    v.push(103);
    v.push(101);
    assert(v@ =~= k_challenge());
    v
}

/// The wire name "account_balances_and_margins".
pub open spec fn k_account_balances_and_margins() -> Seq<u8> {
    seq![97u8, 99u8, 99u8, 111u8, 117u8, 110u8, 116u8, 95u8, 98u8, 97u8, 108u8, 97u8, 110u8, 99u8, 101u8, 115u8, 95u8, 97u8, 110u8, 100u8, 95u8, 109u8, 97u8, 114u8, 103u8, 105u8, 110u8, 115u8]
}

pub fn k_account_balances_and_margins_v() -> (r: Vec<u8>)
    ensures
        r@ == k_account_balances_and_margins(),
{
    let mut v: Vec<u8> = Vec::new();
    v.push(97);
    v.push(99);
    v.push(99);
    v.push(111);
    v.push(117);
    v.push(110);
    v.push(116);
    v.push(95);
    v.push(98);
    v.push(97);
    v.push(108);
    v.push(97);
    v.push(110);
    v.push(99);
    v.push(101);
    v.push(115);
    v.push(95);
    v.push(97);
    v.push(110);
    v.push(100);
    v.push(95);
    v.push(109);
    v.push(97);
    v.push(114);
    v.push(103);
    v.push(105);
    v.push(110);
    v.push(115);
    assert(v@ =~= k_account_balances_and_margins());
    v
}

/// The wire name "book".
pub open spec fn k_book() -> Seq<u8> {
    seq![98u8, 111u8, 111u8, 107u8]
}

pub fn k_book_v() -> (r: Vec<u8>)
    ensures
        r@ == k_book(),
{
    let mut v: Vec<u8> = Vec::new();
    v.push(98);
    v.push(111);
    v.push(111);
    v.push(107);
    assert(v@ =~= k_book());
    v
}

/// The wire name "fills".
pub open spec fn k_fills() -> Seq<u8> {
    seq![102u8, 105u8, 108u8, 108u8, 115u8]
}

pub fn k_fills_v() -> (r: Vec<u8>)
    ensures
        r@ == k_fills(),
{
    let mut v: Vec<u8> = Vec::new();
    v.push(102);
    v.push(105);
    v.push(108);
    v.push(108);
    v.push(115);
    assert(v@ =~= k_fills());
    v
}

/// The wire name "heartbeat".
pub open spec fn k_heartbeat() -> Seq<u8> {
    seq![104u8, 101u8, 97u8, 114u8, 116u8, 98u8, 101u8, 97u8, 116u8]
}

pub fn k_heartbeat_v() -> (r: Vec<u8>)
    ensures
        r@ == k_heartbeat(),
{
    let mut v: Vec<u8> = Vec::new();
    v.push(104);
    v.push(101);
    v.push(97);
    v.push(114);
    v.push(116);
    v.push(98);
    v.push(101);
    v.push(97);
    v.push(116);
    assert(v@ =~= k_heartbeat());
    v
}

/// The wire name "trade".
pub open spec fn k_trade() -> Seq<u8> {
    seq![116u8, 114u8, 97u8, 100u8, 101u8]
}

pub fn k_trade_v() -> (r: Vec<u8>)
    ensures
        r@ == k_trade(),
{
    let mut v: Vec<u8> = Vec::new();
    v.push(116);
    v.push(114);
    v.push(97);
    v.push(100);
    v.push(101);
    assert(v@ =~= k_trade());
    v
}

/// The wire name "info".
pub open spec fn k_info() -> Seq<u8> {
    seq![105u8, 110u8, 102u8, 111u8]
}

pub fn k_info_v() -> (r: Vec<u8>)
    ensures
        r@ == k_info(),
{
    let mut v: Vec<u8> = Vec::new();
    v.push(105);
    v.push(110);
    v.push(102);
    v.push(111);
    assert(v@ =~= k_info());
    v
}

/// The wire name "subscribed".
pub open spec fn k_subscribed() -> Seq<u8> {
    seq![115u8, 117u8, 98u8, 115u8, 99u8, 114u8, 105u8, 98u8, 101u8, 100u8]
}

pub fn k_subscribed_v() -> (r: Vec<u8>)
    ensures
        r@ == k_subscribed(),
{
    let mut v: Vec<u8> = Vec::new();
    v.push(115);
    v.push(117);
    v.push(98);
    v.push(115);
    v.push(99);
    v.push(114);
    v.push(105);
    v.push(98);
    v.push(101);
    v.push(100);
    assert(v@ =~= k_subscribed());
    v
}

/// The wire name "version".
pub open spec fn k_version() -> Seq<u8> {
    seq![118u8, 101u8, 114u8, 115u8, 105u8, 111u8, 110u8]
}

pub fn k_version_v() -> (r: Vec<u8>)
    ensures
        r@ == k_version(),
{
    let mut v: Vec<u8> = Vec::new();
    v.push(118);
    v.push(101);
    v.push(114);
    v.push(115);
    v.push(105);
    v.push(111);
    v.push(110);
    assert(v@ =~= k_version());
    v
}

/// The wire name "message".
pub open spec fn k_message() -> Seq<u8> {
    seq![109u8, 101u8, 115u8, 115u8, 97u8, 103u8, 101u8]
}

pub fn k_message_v() -> (r: Vec<u8>)
    ensures
        r@ == k_message(),
{
    let mut v: Vec<u8> = Vec::new();
    v.push(109);
    v.push(101);
    v.push(115);
    v.push(115);
    v.push(97);
    v.push(103);
    v.push(101);
    assert(v@ =~= k_message());
    v
}

/// The wire name "seq".
pub open spec fn k_seq() -> Seq<u8> {
    seq![115u8, 101u8, 113u8]
}

pub fn k_seq_v() -> (r: Vec<u8>)
    ensures
        r@ == k_seq(),
{
    let mut v: Vec<u8> = Vec::new();
    v.push(115);
    v.push(101);
    v.push(113);
    assert(v@ =~= k_seq());
    v
}

/// The wire name "margin_accounts".
pub open spec fn k_margin_accounts() -> Seq<u8> {
    seq![109u8, 97u8, 114u8, 103u8, 105u8, 110u8, 95u8, 97u8, 99u8, 99u8, 111u8, 117u8, 110u8, 116u8, 115u8]
}

pub fn k_margin_accounts_v() -> (r: Vec<u8>)
    ensures
        r@ == k_margin_accounts(),
{
    let mut v: Vec<u8> = Vec::new();
    v.push(109);
    v.push(97);
    v.push(114);
    v.push(103);
    v.push(105);
    v.push(110);
    v.push(95);
    v.push(97);
    v.push(99);
    v.push(99);
    v.push(111);
    v.push(117);
    v.push(110);
    v.push(116);
    v.push(115);
    assert(v@ =~= k_margin_accounts());
    v
}

/// The wire name "account".
pub open spec fn k_account() -> Seq<u8> {
    seq![97u8, 99u8, 99u8, 111u8, 117u8, 110u8, 116u8]
}

pub fn k_account_v() -> (r: Vec<u8>)
    ensures
        r@ == k_account(),
{
    let mut v: Vec<u8> = Vec::new();
    v.push(97);
    v.push(99);
    v.push(99);
    v.push(111);
    v.push(117);
    v.push(110);
    v.push(116);
    assert(v@ =~= k_account());
    v
}

/// The wire name "product_id".
pub open spec fn k_product_id() -> Seq<u8> {
    seq![112u8, 114u8, 111u8, 100u8, 117u8, 99u8, 116u8, 95u8, 105u8, 100u8]
}

pub fn k_product_id_v() -> (r: Vec<u8>)
    ensures
        r@ == k_product_id(),
{
    let mut v: Vec<u8> = Vec::new();
    v.push(112);
    v.push(114);
    v.push(111);
    v.push(100);
    v.push(117);
    v.push(99);
    v.push(116);
    v.push(95);
    v.push(105);
    v.push(100);
    assert(v@ =~= k_product_id());
    v
}

/// The wire name "timestamp".
pub open spec fn k_timestamp() -> Seq<u8> {
    seq![116u8, 105u8, 109u8, 101u8, 115u8, 116u8, 97u8, 109u8, 112u8]
}

pub fn k_timestamp_v() -> (r: Vec<u8>)
    ensures
        r@ == k_timestamp(),
{
    let mut v: Vec<u8> = Vec::new();
    v.push(116);
    v.push(105);
    v.push(109);
    v.push(101);
    v.push(115);
    v.push(116);
    v.push(97);
    v.push(109);
    v.push(112);
    assert(v@ =~= k_timestamp());
    v
}

/// The wire name "side".
pub open spec fn k_side() -> Seq<u8> {
    seq![115u8, 105u8, 100u8, 101u8]
}

pub fn k_side_v() -> (r: Vec<u8>)
    ensures
        r@ == k_side(),
{
    let mut v: Vec<u8> = Vec::new();
    v.push(115);
    v.push(105);
    v.push(100);
    v.push(101);
    assert(v@ =~= k_side());
    v
}

/// The wire name "price".
pub open spec fn k_price() -> Seq<u8> {
    seq![112u8, 114u8, 105u8, 99u8, 101u8]
}

pub fn k_price_v() -> (r: Vec<u8>)
    ensures
        r@ == k_price(),
{
    let mut v: Vec<u8> = Vec::new();
    v.push(112);
    v.push(114);
    v.push(105);
    v.push(99);
    v.push(101);
    assert(v@ =~= k_price());
    v
}

/// The wire name "qty".
pub open spec fn k_qty() -> Seq<u8> {
    seq![113u8, 116u8, 121u8]
}

pub fn k_qty_v() -> (r: Vec<u8>)
    ensures
        r@ == k_qty(),
{
    let mut v: Vec<u8> = Vec::new();
    v.push(113);
    v.push(116);
    v.push(121);
    assert(v@ =~= k_qty());
    v
}

/// The wire name "bids".
pub open spec fn k_bids() -> Seq<u8> {
    seq![98u8, 105u8, 100u8, 115u8]
}

pub fn k_bids_v() -> (r: Vec<u8>)
    ensures
        r@ == k_bids(),
{
    let mut v: Vec<u8> = Vec::new();
    v.push(98);
    v.push(105);
    v.push(100);
    v.push(115);
    assert(v@ =~= k_bids());
    v
}

/// The wire name "asks".
pub open spec fn k_asks() -> Seq<u8> {
    seq![97u8, 115u8, 107u8, 115u8]
}

pub fn k_asks_v() -> (r: Vec<u8>)
    ensures
        r@ == k_asks(),
{
    let mut v: Vec<u8> = Vec::new();
    v.push(97);
    v.push(115);
    v.push(107);
    v.push(115);
    assert(v@ =~= k_asks());
    v
}

/// The wire name "username".
pub open spec fn k_username() -> Seq<u8> {
    seq![117u8, 115u8, 101u8, 114u8, 110u8, 97u8, 109u8, 101u8]
}

pub fn k_username_v() -> (r: Vec<u8>)
    ensures
        r@ == k_username(),
{
    let mut v: Vec<u8> = Vec::new();
    v.push(117);
    v.push(115);
    v.push(101);
    v.push(114);
    v.push(110);
    v.push(97);
    v.push(109);
    v.push(101);
    assert(v@ =~= k_username());
    v
}

/// The wire name "fills_snapshot".
pub open spec fn k_fills_snapshot() -> Seq<u8> {
    seq![102u8, 105u8, 108u8, 108u8, 115u8, 95u8, 115u8, 110u8, 97u8, 112u8, 115u8, 104u8, 111u8, 116u8]
}

pub fn k_fills_snapshot_v() -> (r: Vec<u8>)
    ensures
        r@ == k_fills_snapshot(),
{
    let mut v: Vec<u8> = Vec::new();
    v.push(102);
    v.push(105);
    v.push(108);
    v.push(108);
    v.push(115);
    v.push(95);
    v.push(115);
    v.push(110);
    v.push(97);
    v.push(112);
    v.push(115);
    v.push(104);
    v.push(111);
    v.push(116);
    assert(v@ =~= k_fills_snapshot());
    v
}

/// The wire name "book_snapshot".
pub open spec fn k_book_snapshot() -> Seq<u8> {
    seq![98u8, 111u8, 111u8, 107u8, 95u8, 115u8, 110u8, 97u8, 112u8, 115u8, 104u8, 111u8, 116u8]
}

pub fn k_book_snapshot_v() -> (r: Vec<u8>)
    ensures
        r@ == k_book_snapshot(),
{
    let mut v: Vec<u8> = Vec::new();
    v.push(98);
    v.push(111);
    v.push(111);
    v.push(107);
    v.push(95);
    v.push(115);
    v.push(110);
    v.push(97);
    v.push(112);
    v.push(115);
    v.push(104);
    v.push(111);
    v.push(116);
    assert(v@ =~= k_book_snapshot());
    v
}

/// The wire name "time".
pub open spec fn k_time() -> Seq<u8> {
    seq![116u8, 105u8, 109u8, 101u8]
}

pub fn k_time_v() -> (r: Vec<u8>)
    ensures
        r@ == k_time(),
{
    let mut v: Vec<u8> = Vec::new();
    v.push(116);
    v.push(105);
    v.push(109);
    v.push(101);
    assert(v@ =~= k_time());
    v
}

/// The wire name "buy".
pub open spec fn k_buy() -> Seq<u8> {
    seq![98u8, 117u8, 121u8]
}

pub fn k_buy_v() -> (r: Vec<u8>)
    ensures
        r@ == k_buy(),
{
    let mut v: Vec<u8> = Vec::new();
    v.push(98);
    v.push(117);
    v.push(121);
    assert(v@ =~= k_buy());
    v
}

/// The wire name "sell".
pub open spec fn k_sell() -> Seq<u8> {
    seq![115u8, 101u8, 108u8, 108u8]
}

pub fn k_sell_v() -> (r: Vec<u8>)
    ensures
        r@ == k_sell(),
{
    let mut v: Vec<u8> = Vec::new();
    v.push(115);
    v.push(101);
    v.push(108);
    v.push(108);
    assert(v@ =~= k_sell());
    v
}

/// The wire name "name".
pub open spec fn k_name() -> Seq<u8> {
    seq![110u8, 97u8, 109u8, 101u8]
}

pub fn k_name_v() -> (r: Vec<u8>)
    ensures
        r@ == k_name(),
{
    let mut v: Vec<u8> = Vec::new();
    v.push(110);
    v.push(97);
    v.push(109);
    v.push(101);
    assert(v@ =~= k_name());
    v
}

/// The wire name "pv".
pub open spec fn k_pv() -> Seq<u8> {
    seq![112u8, 118u8]
}

pub fn k_pv_v() -> (r: Vec<u8>)
    ensures
        r@ == k_pv(),
{
    let mut v: Vec<u8> = Vec::new();
    v.push(112);
    v.push(118);
    assert(v@ =~= k_pv());
    v
}

/// The wire name "balance".
pub open spec fn k_balance() -> Seq<u8> {
    seq![98u8, 97u8, 108u8, 97u8, 110u8, 99u8, 101u8]
}

pub fn k_balance_v() -> (r: Vec<u8>)
    ensures
        r@ == k_balance(),
{
    let mut v: Vec<u8> = Vec::new();
    v.push(98);
    v.push(97);
    v.push(108);
    v.push(97);
    v.push(110);
    v.push(99);
    v.push(101);
    assert(v@ =~= k_balance());
    v
}

/// The wire name "funding".
pub open spec fn k_funding() -> Seq<u8> {
    seq![102u8, 117u8, 110u8, 100u8, 105u8, 110u8, 103u8]
}

pub fn k_funding_v() -> (r: Vec<u8>)
    ensures
        r@ == k_funding(),
{
    let mut v: Vec<u8> = Vec::new();
    v.push(102);
    v.push(117);
    v.push(110);
    v.push(100);
    v.push(105);
    v.push(110);
    v.push(103);
    assert(v@ =~= k_funding());
    v
}

/// The wire name "mm".
pub open spec fn k_mm() -> Seq<u8> {
    seq![109u8, 109u8]
}

pub fn k_mm_v() -> (r: Vec<u8>)
    ensures
        r@ == k_mm(),
{
    let mut v: Vec<u8> = Vec::new();
    v.push(109);
    v.push(109);
    assert(v@ =~= k_mm());
    v
}

/// The wire name "pnl".
pub open spec fn k_pnl() -> Seq<u8> {
    seq![112u8, 110u8, 108u8]
}

pub fn k_pnl_v() -> (r: Vec<u8>)
    ensures
        r@ == k_pnl(),
{
    let mut v: Vec<u8> = Vec::new();
    v.push(112);
    v.push(110);
    v.push(108);
    assert(v@ =~= k_pnl());
    v
}

/// The wire name "im".
pub open spec fn k_im() -> Seq<u8> {
    seq![105u8, 109u8]
}

pub fn k_im_v() -> (r: Vec<u8>)
    ensures
        r@ == k_im(),
{
    let mut v: Vec<u8> = Vec::new();
    v.push(105);
    v.push(109);
    assert(v@ =~= k_im());
    v
}

/// The wire name "am".
pub open spec fn k_am() -> Seq<u8> {
    seq![97u8, 109u8]
}

pub fn k_am_v() -> (r: Vec<u8>)
    ensures
        r@ == k_am(),
{
    let mut v: Vec<u8> = Vec::new();
    v.push(97);
    v.push(109);
    assert(v@ =~= k_am());
    v
}

/// The wire name "instrument".
pub open spec fn k_instrument() -> Seq<u8> {
    seq![105u8, 110u8, 115u8, 116u8, 114u8, 117u8, 109u8, 101u8, 110u8, 116u8]
}

pub fn k_instrument_v() -> (r: Vec<u8>)
    ensures
        r@ == k_instrument(),
{
    let mut v: Vec<u8> = Vec::new();
    v.push(105);
    v.push(110);
    v.push(115);
    v.push(116);
    v.push(114);
    v.push(117);
    v.push(109);
    v.push(101);
    v.push(110);
    v.push(116);
    assert(v@ =~= k_instrument());
    v
}

/// The wire name "order_id".
pub open spec fn k_order_id() -> Seq<u8> {
    seq![111u8, 114u8, 100u8, 101u8, 114u8, 95u8, 105u8, 100u8]
}

pub fn k_order_id_v() -> (r: Vec<u8>)
    ensures
        r@ == k_order_id(),
{
    let mut v: Vec<u8> = Vec::new();
    v.push(111);
    v.push(114);
    v.push(100);
    v.push(101);
    v.push(114);
    v.push(95);
    v.push(105);
    v.push(100);
    assert(v@ =~= k_order_id());
    v
}

/// The wire name "cli_ord_id".
pub open spec fn k_cli_ord_id() -> Seq<u8> {
    seq![99u8, 108u8, 105u8, 95u8, 111u8, 114u8, 100u8, 95u8, 105u8, 100u8]
}

pub fn k_cli_ord_id_v() -> (r: Vec<u8>)
    ensures
        r@ == k_cli_ord_id(),
{
    let mut v: Vec<u8> = Vec::new();
    v.push(99);
    v.push(108);
    v.push(105);
    v.push(95);
    v.push(111);
    v.push(114);
    v.push(100);
    v.push(95);
    v.push(105);
    v.push(100);
    assert(v@ =~= k_cli_ord_id());
    v
}

/// The wire name "fill_id".
pub open spec fn k_fill_id() -> Seq<u8> {
    seq![102u8, 105u8, 108u8, 108u8, 95u8, 105u8, 100u8]
}

pub fn k_fill_id_v() -> (r: Vec<u8>)
    ensures
        r@ == k_fill_id(),
{
    let mut v: Vec<u8> = Vec::new();
    v.push(102);
    v.push(105);
    v.push(108);
    v.push(108);
    v.push(95);
    v.push(105);
    v.push(100);
    assert(v@ =~= k_fill_id());
    v
}

/// The wire name "fill_type".
pub open spec fn k_fill_type() -> Seq<u8> {
    seq![102u8, 105u8, 108u8, 108u8, 95u8, 116u8, 121u8, 112u8, 101u8]
}

pub fn k_fill_type_v() -> (r: Vec<u8>)
    ensures
        r@ == k_fill_type(),
{
    let mut v: Vec<u8> = Vec::new();
    v.push(102);
    v.push(105);
    v.push(108);
    v.push(108);
    v.push(95);
    v.push(116);
    v.push(121);
    v.push(112);
    v.push(101);
    assert(v@ =~= k_fill_type());
    v
}

/// The wire name "maker".
pub open spec fn k_maker() -> Seq<u8> {
    seq![109u8, 97u8, 107u8, 101u8, 114u8]
}

pub fn k_maker_v() -> (r: Vec<u8>)
    ensures
        r@ == k_maker(),
{
    let mut v: Vec<u8> = Vec::new();
    v.push(109);
    v.push(97);
    v.push(107);
    v.push(101);
    v.push(114);
    assert(v@ =~= k_maker());
    v
}

/// The wire name "taker".
pub open spec fn k_taker() -> Seq<u8> {
    seq![116u8, 97u8, 107u8, 101u8, 114u8]
}

pub fn k_taker_v() -> (r: Vec<u8>)
    ensures
        r@ == k_taker(),
{
    let mut v: Vec<u8> = Vec::new();
    v.push(116);
    v.push(97);
    v.push(107);
    v.push(101);
    v.push(114);
    assert(v@ =~= k_taker());
    v
}

/// The wire name "liquidation".
pub open spec fn k_liquidation() -> Seq<u8> {
    seq![108u8, 105u8, 113u8, 117u8, 105u8, 100u8, 97u8, 116u8, 105u8, 111u8, 110u8]
}

pub fn k_liquidation_v() -> (r: Vec<u8>)
    ensures
        r@ == k_liquidation(),
{
    let mut v: Vec<u8> = Vec::new();
    v.push(108);
    v.push(105);
    v.push(113);
    v.push(117);
    v.push(105);
    v.push(100);
    v.push(97);
    v.push(116);
    v.push(105);
    v.push(111);
    v.push(110);
    assert(v@ =~= k_liquidation());
    v
}

/// The wire name "assignee".
pub open spec fn k_assignee() -> Seq<u8> {
    seq![97u8, 115u8, 115u8, 105u8, 103u8, 110u8, 101u8, 101u8]
}

pub fn k_assignee_v() -> (r: Vec<u8>)
    ensures
        r@ == k_assignee(),
{
    let mut v: Vec<u8> = Vec::new();
    v.push(97);
    v.push(115);
    v.push(115);
    v.push(105);
    v.push(103);
    v.push(110);
    v.push(101);
    v.push(101);
    assert(v@ =~= k_assignee());
    v
}

/// The wire name "assignor".
pub open spec fn k_assignor() -> Seq<u8> {
    seq![97u8, 115u8, 115u8, 105u8, 103u8, 110u8, 111u8, 114u8]
}

pub fn k_assignor_v() -> (r: Vec<u8>)
    ensures
        r@ == k_assignor(),
{
    let mut v: Vec<u8> = Vec::new();
    v.push(97);
    v.push(115);
    v.push(115);
    v.push(105);
    v.push(103);
    v.push(110);
    v.push(111);
    v.push(114);
    assert(v@ =~= k_assignor());
    v
}

/// The wire name "takerAfterEdit".
pub open spec fn k_taker_after_edit() -> Seq<u8> {
    seq![116u8, 97u8, 107u8, 101u8, 114u8, 65u8, 102u8, 116u8, 101u8, 114u8, 69u8, 100u8, 105u8, 116u8]
}

pub fn k_taker_after_edit_v() -> (r: Vec<u8>)
    ensures
        r@ == k_taker_after_edit(),
{
    let mut v: Vec<u8> = Vec::new();
    v.push(116);
    v.push(97);
    v.push(107);
    v.push(101);
    v.push(114);
    v.push(65);
    v.push(102);
    v.push(116);
    v.push(101);
    v.push(114);
    v.push(69);
    v.push(100);
    v.push(105);
    v.push(116);
    assert(v@ =~= k_taker_after_edit());
    v
}

/// The wire name "result".
pub open spec fn k_result() -> Seq<u8> {
    seq![114u8, 101u8, 115u8, 117u8, 108u8, 116u8]
}

pub fn k_result_v() -> (r: Vec<u8>)
    ensures
        r@ == k_result(),
{
    let mut v: Vec<u8> = Vec::new();
    v.push(114);
    v.push(101);
    v.push(115);
    v.push(117);
    v.push(108);
    v.push(116);
    assert(v@ =~= k_result());
    v
}

/// The wire name "error".
pub open spec fn k_error() -> Seq<u8> {
    seq![101u8, 114u8, 114u8, 111u8, 114u8]
}

pub fn k_error_v() -> (r: Vec<u8>)
    ensures
        r@ == k_error(),
{
    let mut v: Vec<u8> = Vec::new();
    v.push(101);
    v.push(114);
    v.push(114);
    v.push(111);
    v.push(114);
    assert(v@ =~= k_error());
    v
}

/// The wire name "success".
pub open spec fn k_success() -> Seq<u8> {
    seq![115u8, 117u8, 99u8, 99u8, 101u8, 115u8, 115u8]
}

pub fn k_success_v() -> (r: Vec<u8>)
    ensures
        r@ == k_success(),
{
    let mut v: Vec<u8> = Vec::new();
    v.push(115);
    v.push(117);
    v.push(99);
    v.push(99);
    v.push(101);
    v.push(115);
    v.push(115);
    assert(v@ =~= k_success());
    v
}

/// The wire name "nonce".
pub open spec fn k_nonce() -> Seq<u8> {
    seq![110u8, 111u8, 110u8, 99u8, 101u8]
}

pub fn k_nonce_v() -> (r: Vec<u8>)
    ensures
        r@ == k_nonce(),
{
    let mut v: Vec<u8> = Vec::new();
    v.push(110);
    v.push(111);
    v.push(110);
    v.push(99);
    v.push(101);
    assert(v@ =~= k_nonce());
    v
}

/// The wire name "orderType".
pub open spec fn k_order_type() -> Seq<u8> {
    seq![111u8, 114u8, 100u8, 101u8, 114u8, 84u8, 121u8, 112u8, 101u8]
}

pub fn k_order_type_v() -> (r: Vec<u8>)
    ensures
        r@ == k_order_type(),
{
    let mut v: Vec<u8> = Vec::new();
    v.push(111);
    v.push(114);
    v.push(100);
    v.push(101);
    v.push(114);
    v.push(84);
    v.push(121);
    v.push(112);
    v.push(101);
    assert(v@ =~= k_order_type());
    v
}

/// The wire name "size".
pub open spec fn k_size() -> Seq<u8> {
    seq![115u8, 105u8, 122u8, 101u8]
}

pub fn k_size_v() -> (r: Vec<u8>)
    ensures
        r@ == k_size(),
{
    let mut v: Vec<u8> = Vec::new();
    v.push(115);
    v.push(105);
    v.push(122);
    v.push(101);
    assert(v@ =~= k_size());
    v
}

/// The wire name "limitPrice".
pub open spec fn k_limit_price() -> Seq<u8> {
    seq![108u8, 105u8, 109u8, 105u8, 116u8, 80u8, 114u8, 105u8, 99u8, 101u8]
}

pub fn k_limit_price_v() -> (r: Vec<u8>)
    ensures
        r@ == k_limit_price(),
{
    let mut v: Vec<u8> = Vec::new();
    v.push(108);
    v.push(105);
    v.push(109);
    v.push(105);
    v.push(116);
    v.push(80);
    v.push(114);
    v.push(105);
    v.push(99);
    v.push(101);
    assert(v@ =~= k_limit_price());
    v
}

/// The wire name "stopPrice".
pub open spec fn k_stop_price() -> Seq<u8> {
    seq![115u8, 116u8, 111u8, 112u8, 80u8, 114u8, 105u8, 99u8, 101u8]
}

pub fn k_stop_price_v() -> (r: Vec<u8>)
    ensures
        r@ == k_stop_price(),
{
    let mut v: Vec<u8> = Vec::new();
    v.push(115);
    v.push(116);
    v.push(111);
    v.push(112);
    v.push(80);
    v.push(114);
    v.push(105);
    v.push(99);
    v.push(101);
    assert(v@ =~= k_stop_price());
    v
}

/// The wire name "triggerSignal".
pub open spec fn k_trigger_signal() -> Seq<u8> {
    seq![116u8, 114u8, 105u8, 103u8, 103u8, 101u8, 114u8, 83u8, 105u8, 103u8, 110u8, 97u8, 108u8]
}

pub fn k_trigger_signal_v() -> (r: Vec<u8>)
    ensures
        r@ == k_trigger_signal(),
{
    let mut v: Vec<u8> = Vec::new();
    v.push(116);
    v.push(114);
    v.push(105);
    v.push(103);
    v.push(103);
    v.push(101);
    v.push(114);
    v.push(83);
    v.push(105);
    v.push(103);
    v.push(110);
    v.push(97);
    v.push(108);
    assert(v@ =~= k_trigger_signal());
    v
}

/// The wire name "cliOrdId".
pub open spec fn k_cli_ord_id_camel() -> Seq<u8> {
    seq![99u8, 108u8, 105u8, 79u8, 114u8, 100u8, 73u8, 100u8]
}

pub fn k_cli_ord_id_camel_v() -> (r: Vec<u8>)
    ensures
        r@ == k_cli_ord_id_camel(),
{
    let mut v: Vec<u8> = Vec::new();
    v.push(99);
    v.push(108);
    v.push(105);
    v.push(79);
    v.push(114);
    v.push(100);
    v.push(73);
    v.push(100);
    assert(v@ =~= k_cli_ord_id_camel());
    v
}

/// The wire name "reduceOnly".
pub open spec fn k_reduce_only() -> Seq<u8> {
    seq![114u8, 101u8, 100u8, 117u8, 99u8, 101u8, 79u8, 110u8, 108u8, 121u8]
}

pub fn k_reduce_only_v() -> (r: Vec<u8>)
    ensures
        r@ == k_reduce_only(),
{
    let mut v: Vec<u8> = Vec::new();
    v.push(114);
    v.push(101);
    v.push(100);
    v.push(117);
    v.push(99);
    v.push(101);
    v.push(79);
    v.push(110);
    v.push(108);
    v.push(121);
    assert(v@ =~= k_reduce_only());
    v
}

/// The wire name "lmt".
pub open spec fn k_lmt() -> Seq<u8> {
    seq![108u8, 109u8, 116u8]
}

pub fn k_lmt_v() -> (r: Vec<u8>)
    ensures
        r@ == k_lmt(),
{
    let mut v: Vec<u8> = Vec::new();
    v.push(108);
    v.push(109);
    v.push(116);
    assert(v@ =~= k_lmt());
    v
}

/// The wire name "post".
pub open spec fn k_post() -> Seq<u8> {
    seq![112u8, 111u8, 115u8, 116u8]
}

pub fn k_post_v() -> (r: Vec<u8>)
    ensures
        r@ == k_post(),
{
    let mut v: Vec<u8> = Vec::new();
    v.push(112);
    v.push(111);
    v.push(115);
    v.push(116);
    assert(v@ =~= k_post());
    v
}

/// The wire name "stp".
pub open spec fn k_stp() -> Seq<u8> {
    seq![115u8, 116u8, 112u8]
}

pub fn k_stp_v() -> (r: Vec<u8>)
    ensures
        r@ == k_stp(),
{
    let mut v: Vec<u8> = Vec::new();
    v.push(115);
    v.push(116);
    v.push(112);
    assert(v@ =~= k_stp());
    v
}

/// The wire name "take_profit".
pub open spec fn k_take_profit() -> Seq<u8> {
    seq![116u8, 97u8, 107u8, 101u8, 95u8, 112u8, 114u8, 111u8, 102u8, 105u8, 116u8]
}

pub fn k_take_profit_v() -> (r: Vec<u8>)
    ensures
        r@ == k_take_profit(),
{
    let mut v: Vec<u8> = Vec::new();
    v.push(116);
    v.push(97);
    v.push(107);
    v.push(101);
    v.push(95);
    v.push(112);
    v.push(114);
    v.push(111);
    v.push(102);
    v.push(105);
    v.push(116);
    assert(v@ =~= k_take_profit());
    v
}

/// The wire name "ioc".
pub open spec fn k_ioc() -> Seq<u8> {
    seq![105u8, 111u8, 99u8]
}

pub fn k_ioc_v() -> (r: Vec<u8>)
    ensures
        r@ == k_ioc(),
{
    let mut v: Vec<u8> = Vec::new();
    v.push(105);
    v.push(111);
    v.push(99);
    assert(v@ =~= k_ioc());
    v
}

/// The wire name "aclass".
pub open spec fn k_aclass() -> Seq<u8> {
    seq![97u8, 99u8, 108u8, 97u8, 115u8, 115u8]
}

pub fn k_aclass_v() -> (r: Vec<u8>)
    ensures
        r@ == k_aclass(),
{
    let mut v: Vec<u8> = Vec::new();
    v.push(97);
    v.push(99);
    v.push(108);
    v.push(97);
    v.push(115);
    v.push(115);
    assert(v@ =~= k_aclass());
    v
}

/// The wire name "asset".
pub open spec fn k_asset() -> Seq<u8> {
    seq![97u8, 115u8, 115u8, 101u8, 116u8]
}

pub fn k_asset_v() -> (r: Vec<u8>)
    ensures
        r@ == k_asset(),
{
    let mut v: Vec<u8> = Vec::new();
    v.push(97);
    v.push(115);
    v.push(115);
    v.push(101);
    v.push(116);
    assert(v@ =~= k_asset());
    v
}

/// The wire name "nonceDuplicate:".
pub open spec fn k_nonce_duplicate() -> Seq<u8> {
    seq![110u8, 111u8, 110u8, 99u8, 101u8, 68u8, 117u8, 112u8, 108u8, 105u8, 99u8, 97u8, 116u8, 101u8, 58u8]
}

pub fn k_nonce_duplicate_v() -> (r: Vec<u8>)
    ensures
        r@ == k_nonce_duplicate(),
{
    let mut v: Vec<u8> = Vec::new();
    v.push(110);
    v.push(111);
    v.push(110);
    v.push(99);
    v.push(101);
    v.push(68);
    v.push(117);
    v.push(112);
    v.push(108);
    v.push(105);
    v.push(99);
    v.push(97);
    v.push(116);
    v.push(101);
    v.push(58);
    assert(v@ =~= k_nonce_duplicate());
    v
}

/// The wire name "/derivatives".
pub open spec fn k_derivatives_prefix() -> Seq<u8> {
    seq![47u8, 100u8, 101u8, 114u8, 105u8, 118u8, 97u8, 116u8, 105u8, 118u8, 101u8, 115u8]
}

pub fn k_derivatives_prefix_v() -> (r: Vec<u8>)
    ensures
        r@ == k_derivatives_prefix(),
{
    let mut v: Vec<u8> = Vec::new();
    v.push(47);
    v.push(100);
    v.push(101);
    v.push(114);
    v.push(105);
    v.push(118);
    v.push(97);
    v.push(116);
    v.push(105);
    v.push(118);
    v.push(101);
    v.push(115);
    assert(v@ =~= k_derivatives_prefix());
    v
}

/// The wire name "/accounts".
pub open spec fn k_ep_accounts() -> Seq<u8> {
    seq![47u8, 97u8, 99u8, 99u8, 111u8, 117u8, 110u8, 116u8, 115u8]
}

pub fn k_ep_accounts_v() -> (r: Vec<u8>)
    ensures
        r@ == k_ep_accounts(),
{
    let mut v: Vec<u8> = Vec::new();
    v.push(47);
    v.push(97);
    v.push(99);
    v.push(99);
    v.push(111);
    v.push(117);
    v.push(110);
    v.push(116);
    v.push(115);
    assert(v@ =~= k_ep_accounts());
    v
}

/// The wire name "/cancelallorders".
pub open spec fn k_ep_cancelallorders() -> Seq<u8> {
    seq![47u8, 99u8, 97u8, 110u8, 99u8, 101u8, 108u8, 97u8, 108u8, 108u8, 111u8, 114u8, 100u8, 101u8, 114u8, 115u8]
}

pub fn k_ep_cancelallorders_v() -> (r: Vec<u8>)
    ensures
        r@ == k_ep_cancelallorders(),
{
    let mut v: Vec<u8> = Vec::new();
    v.push(47);
    v.push(99);
    v.push(97);
    v.push(110);
    v.push(99);
    v.push(101);
    v.push(108);
    v.push(97);
    v.push(108);
    v.push(108);
    v.push(111);
    v.push(114);
    v.push(100);
    v.push(101);
    v.push(114);
    v.push(115);
    assert(v@ =~= k_ep_cancelallorders());
    v
}

/// The wire name "/cancelorder".
pub open spec fn k_ep_cancelorder() -> Seq<u8> {
    seq![47u8, 99u8, 97u8, 110u8, 99u8, 101u8, 108u8, 111u8, 114u8, 100u8, 101u8, 114u8]
}

pub fn k_ep_cancelorder_v() -> (r: Vec<u8>)
    ensures
        r@ == k_ep_cancelorder(),
{
    let mut v: Vec<u8> = Vec::new();
    v.push(47);
    v.push(99);
    v.push(97);
    v.push(110);
    v.push(99);
    v.push(101);
    v.push(108);
    v.push(111);
    v.push(114);
    v.push(100);
    v.push(101);
    v.push(114);
    assert(v@ =~= k_ep_cancelorder());
    v
}

/// The wire name "/openpositions".
pub open spec fn k_ep_openpositions() -> Seq<u8> {
    seq![47u8, 111u8, 112u8, 101u8, 110u8, 112u8, 111u8, 115u8, 105u8, 116u8, 105u8, 111u8, 110u8, 115u8]
}

pub fn k_ep_openpositions_v() -> (r: Vec<u8>)
    ensures
        r@ == k_ep_openpositions(),
{
    let mut v: Vec<u8> = Vec::new();
    v.push(47);
    v.push(111);
    v.push(112);
    v.push(101);
    v.push(110);
    v.push(112);
    v.push(111);
    v.push(115);
    v.push(105);
    v.push(116);
    v.push(105);
    v.push(111);
    v.push(110);
    v.push(115);
    assert(v@ =~= k_ep_openpositions());
    v
}

/// The wire name "/orderbook".
pub open spec fn k_ep_orderbook() -> Seq<u8> {
    seq![47u8, 111u8, 114u8, 100u8, 101u8, 114u8, 98u8, 111u8, 111u8, 107u8]
}

pub fn k_ep_orderbook_v() -> (r: Vec<u8>)
    ensures
        r@ == k_ep_orderbook(),
{
    let mut v: Vec<u8> = Vec::new();
    v.push(47);
    v.push(111);
    v.push(114);
    v.push(100);
    v.push(101);
    v.push(114);
    v.push(98);
    v.push(111);
    v.push(111);
    v.push(107);
    assert(v@ =~= k_ep_orderbook());
    v
}

/// The wire name "/sendorder".
pub open spec fn k_ep_sendorder() -> Seq<u8> {
    seq![47u8, 115u8, 101u8, 110u8, 100u8, 111u8, 114u8, 100u8, 101u8, 114u8]
}

pub fn k_ep_sendorder_v() -> (r: Vec<u8>)
    ensures
        r@ == k_ep_sendorder(),
{
    let mut v: Vec<u8> = Vec::new();
    v.push(47);
    v.push(115);
    v.push(101);
    v.push(110);
    v.push(100);
    v.push(111);
    v.push(114);
    v.push(100);
    v.push(101);
    v.push(114);
    assert(v@ =~= k_ep_sendorder());
    v
}

/// The wire name "/tickers".
pub open spec fn k_ep_tickers() -> Seq<u8> {
    seq![47u8, 116u8, 105u8, 99u8, 107u8, 101u8, 114u8, 115u8]
}

pub fn k_ep_tickers_v() -> (r: Vec<u8>)
    ensures
        r@ == k_ep_tickers(),
{
    let mut v: Vec<u8> = Vec::new();
    v.push(47);
    v.push(116);
    v.push(105);
    v.push(99);
    v.push(107);
    v.push(101);
    v.push(114);
    v.push(115);
    assert(v@ =~= k_ep_tickers());
    v
}

/// The wire name "/0/private/TradeBalance".
pub open spec fn k_ep_trade_balance() -> Seq<u8> {
    seq![47u8, 48u8, 47u8, 112u8, 114u8, 105u8, 118u8, 97u8, 116u8, 101u8, 47u8, 84u8, 114u8, 97u8, 100u8, 101u8, 66u8, 97u8, 108u8, 97u8, 110u8, 99u8, 101u8]
}

pub fn k_ep_trade_balance_v() -> (r: Vec<u8>)
    ensures
        r@ == k_ep_trade_balance(),
{
    let mut v: Vec<u8> = Vec::new();
    v.push(47);
    v.push(48);
    v.push(47);
    v.push(112);
    v.push(114);
    v.push(105);
    v.push(118);
    v.push(97);
    v.push(116);
    v.push(101);
    v.push(47);
    v.push(84);
    v.push(114);
    v.push(97);
    v.push(100);
    v.push(101);
    v.push(66);
    v.push(97);
    v.push(108);
    v.push(97);
    v.push(110);
    v.push(99);
    v.push(101);
    assert(v@ =~= k_ep_trade_balance());
    v
}

/// The wire name "/0/public/Time".
pub open spec fn k_ep_server_time() -> Seq<u8> {
    seq![47u8, 48u8, 47u8, 112u8, 117u8, 98u8, 108u8, 105u8, 99u8, 47u8, 84u8, 105u8, 109u8, 101u8]
}

pub fn k_ep_server_time_v() -> (r: Vec<u8>)
    ensures
        r@ == k_ep_server_time(),
{
    let mut v: Vec<u8> = Vec::new();
    v.push(47);
    v.push(48);
    v.push(47);
    v.push(112);
    v.push(117);
    v.push(98);
    v.push(108);
    v.push(105);
    v.push(99);
    v.push(47);
    v.push(84);
    v.push(105);
    v.push(109);
    v.push(101);
    assert(v@ =~= k_ep_server_time());
    v
}

/// The wire name "mark".
pub open spec fn k_mark() -> Seq<u8> {
    seq![109u8, 97u8, 114u8, 107u8]
}

pub fn k_mark_v() -> (r: Vec<u8>)
    ensures
        r@ == k_mark(),
{
    let mut v: Vec<u8> = Vec::new();
    v.push(109);
    v.push(97);
    v.push(114);
    v.push(107);
    assert(v@ =~= k_mark());
    v
}

/// The wire name "index".
pub open spec fn k_index() -> Seq<u8> {
    seq![105u8, 110u8, 100u8, 101u8, 120u8]
}

pub fn k_index_v() -> (r: Vec<u8>)
    ensures
        r@ == k_index(),
{
    let mut v: Vec<u8> = Vec::new();
    v.push(105);
    v.push(110);
    v.push(100);
    v.push(101);
    v.push(120);
    assert(v@ =~= k_index());
    v
}

/// The wire name "last".
pub open spec fn k_last() -> Seq<u8> {
    seq![108u8, 97u8, 115u8, 116u8]
}

pub fn k_last_v() -> (r: Vec<u8>)
    ensures
        r@ == k_last(),
{
    let mut v: Vec<u8> = Vec::new();
    v.push(108);
    v.push(97);
    v.push(115);
    v.push(116);
    assert(v@ =~= k_last());
    v
}

/// The wire name "true".
pub open spec fn k_true() -> Seq<u8> {
    seq![116u8, 114u8, 117u8, 101u8]
}

pub fn k_true_v() -> (r: Vec<u8>)
    ensures
        r@ == k_true(),
{
    let mut v: Vec<u8> = Vec::new();
    v.push(116);
    v.push(114);
    v.push(117);
    v.push(101);
    assert(v@ =~= k_true());
    v
}

/// The wire name "false".
pub open spec fn k_false() -> Seq<u8> {
    seq![102u8, 97u8, 108u8, 115u8, 101u8]
}

pub fn k_false_v() -> (r: Vec<u8>)
    ensures
        r@ == k_false(),
{
    let mut v: Vec<u8> = Vec::new();
    v.push(102);
    v.push(97);
    v.push(108);
    v.push(115);
    v.push(101);
    assert(v@ =~= k_false());
    v
}

/// The wire name "symbol".
pub open spec fn k_symbol() -> Seq<u8> {
    seq![115u8, 121u8, 109u8, 98u8, 111u8, 108u8]
}

pub fn k_symbol_v() -> (r: Vec<u8>)
    ensures
        r@ == k_symbol(),
{
    let mut v: Vec<u8> = Vec::new();
    v.push(115);
    v.push(121);
    v.push(109);
    v.push(98);
    v.push(111);
    v.push(108);
    assert(v@ =~= k_symbol());
    v
}

} // verus!
