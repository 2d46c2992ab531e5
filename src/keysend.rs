use crate::client::{HttpMethod, HttpRequest, HttpResponse, UtcTime, ZebedeeClient};
use crate::envelope::{
    exchange, exchange_post, parses_any, sends_any, StatusPolicy, StdResp, ZebedeeError,
};
use vstd::prelude::*;

verus! {

/// The path of the keysend endpoint.
pub const KEYSEND_PATH: &'static str = "/v0/keysend-payment";

/// The keysend endpoint accepts every status in the success range.
pub const KEYSEND_POLICY: StatusPolicy = StatusPolicy::AnySuccess;

/// The transaction that a keysend payment produced. Amounts are decimal
/// strings, as the provider sends them.
#[derive(Clone, Debug)]
pub struct KeysendTx {
    pub id: String,
    pub wallet_id: String,
    pub tx_type: Option<String>,
    pub total_amount: String,
    pub fee: String,
    pub amount: String,
    pub description: Option<String>,
    pub status: String,
    pub confirmed_at: Option<UtcTime>,
}

#[derive(Clone, Debug)]
pub struct KeysendData {
    pub keysend_id: String,
    pub payment_id: String,
    pub transaction: KeysendTx,
}

/// The body of a keysend payment.
#[derive(Clone, Debug)]
pub struct Keysend {
    pub amount: String,
    pub pubkey: String,
    pub tlv_records: Vec<Option<String>>,
    pub metadata: String,
    pub callback_url: String,
}

impl Default for Keysend {
    /// A payload with every field empty.
    fn default() -> (r: Keysend)
        ensures
            r.amount@ == Seq::<char>::empty(),
            r.pubkey@ == Seq::<char>::empty(),
            r.tlv_records@ == Seq::<Option<String>>::empty(),
            r.metadata@ == Seq::<char>::empty(),
            r.callback_url@ == Seq::<char>::empty(),
    {
        Keysend {
            amount: String::new(),
            pubkey: String::new(),
            tlv_records: Vec::new(),
            metadata: String::new(),
            callback_url: String::new(),
        }
    }
}

/// Sends a keysend payment: a POST of `keysend_payload` to the keysend
/// endpoint through `send`, whose outcome is classified with `parse` as the
/// decoder of the envelope.
pub fn keysend<S, P>(client: ZebedeeClient, keysend_payload: Keysend, send: S, parse: P) -> (r:
    Result<StdResp<Option<KeysendData>>, ZebedeeError>) where
    S: FnOnce(HttpRequest<Keysend>) -> Result<HttpResponse, String>,
    P: FnOnce(&String) -> Result<StdResp<Option<KeysendData>>, String>,

    requires
        sends_any(client, HttpMethod::Post, KEYSEND_PATH@, Some(keysend_payload), send),
        parses_any(parse),
    ensures
        exchange_post(
            client,
            HttpMethod::Post,
            KEYSEND_PATH@,
            Some(keysend_payload),
            None,
            KEYSEND_POLICY,
            send,
            parse,
            r,
        ),
{
    exchange(
        &client,
        HttpMethod::Post,
        KEYSEND_PATH,
        Some(keysend_payload),
        None,
        KEYSEND_POLICY,
        send,
        parse,
    )
}

} // verus!
