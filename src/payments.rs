use crate::client::{HttpMethod, HttpRequest, HttpResponse, UtcTime, ZebedeeClient};
use crate::envelope::{
    exchange, exchange_post, parses_any, sends_any, StatusPolicy, StdResp, ZebedeeError,
};
use vstd::prelude::*;
use vstd::string::StringExecFns;

verus! {

/// The path of the payments collection.
pub const PAYMENTS_PATH: &'static str = "/v0/payments";

/// The prefix of the path of one payment; its id follows.
pub const PAYMENT_PATH_PREFIX: &'static str = "/v0/payments/";

/// The payments endpoints accept `200 OK` alone.
pub const PAYMENTS_POLICY: StatusPolicy = StatusPolicy::ExactOk;

/// The description that a payment carries unless another is set.
pub const DEFAULT_DESCRIPTION: &'static str = "using zebedee rust sdk";

/// A payment as the provider records it. Amounts are decimal strings, as
/// the provider sends them.
#[derive(Clone, Debug)]
pub struct PaymentsData {
    pub id: String,
    pub fee: Option<String>,
    pub unit: String,
    pub amount: String,
    pub invoice: Option<String>,
    pub preimage: Option<String>,
    pub internal_id: Option<String>,
    pub processed_at: Option<UtcTime>,
    pub confirmed_at: Option<UtcTime>,
    pub description: String,
    pub status: String,
}

/// The body of a bolt11 invoice payment.
#[derive(Clone, Debug)]
pub struct Payment {
    pub description: String,
    pub internal_id: String,
    pub invoice: String,
}

impl Default for Payment {
    /// A payment with the default description and no id or invoice.
    fn default() -> (r: Payment)
        ensures
            r.description@ == DEFAULT_DESCRIPTION@,
            r.internal_id@ == Seq::<char>::empty(),
            r.invoice@ == Seq::<char>::empty(),
    {
        Payment {
            description: String::from_str(DEFAULT_DESCRIPTION),
            internal_id: String::new(),
            invoice: String::new(),
        }
    }
}

/// Pays a bolt11 invoice: a POST of `payment` to the payments endpoint
/// through `send`, whose outcome is classified with `parse`.
pub fn pay_invoice<S, P>(client: ZebedeeClient, payment: Payment, send: S, parse: P) -> (r: Result<
    StdResp<Option<PaymentsData>>,
    ZebedeeError,
>) where
    S: FnOnce(HttpRequest<Payment>) -> Result<HttpResponse, String>,
    P: FnOnce(&String) -> Result<StdResp<Option<PaymentsData>>, String>,

    requires
        sends_any(client, HttpMethod::Post, PAYMENTS_PATH@, Some(payment), send),
        parses_any(parse),
    ensures
        exchange_post(
            client,
            HttpMethod::Post,
            PAYMENTS_PATH@,
            Some(payment),
            None,
            PAYMENTS_POLICY,
            send,
            parse,
            r,
        ),
{
    exchange(
        &client,
        HttpMethod::Post,
        PAYMENTS_PATH,
        Some(payment),
        None,
        PAYMENTS_POLICY,
        send,
        parse,
    )
}

/// Lists the payments of the wallet: a GET of the payments endpoint, with
/// no body.
pub fn get_payments<S, P>(client: ZebedeeClient, send: S, parse: P) -> (r: Result<
    StdResp<Option<Vec<PaymentsData>>>,
    ZebedeeError,
>) where
    S: FnOnce(HttpRequest<()>) -> Result<HttpResponse, String>,
    P: FnOnce(&String) -> Result<StdResp<Option<Vec<PaymentsData>>>, String>,

    requires
        sends_any(client, HttpMethod::Get, PAYMENTS_PATH@, None::<()>, send),
        parses_any(parse),
    ensures
        exchange_post(
            client,
            HttpMethod::Get,
            PAYMENTS_PATH@,
            None::<()>,
            None,
            PAYMENTS_POLICY,
            send,
            parse,
            r,
        ),
{
    exchange(&client, HttpMethod::Get, PAYMENTS_PATH, None, None, PAYMENTS_POLICY, send, parse)
}

/// The path of the payment with id `payment_id`: the id is taken as it is.
pub fn payment_path(payment_id: &String) -> (r: String)
    ensures
        r@ == PAYMENT_PATH_PREFIX@ + payment_id@,
{
    String::from_str(PAYMENT_PATH_PREFIX).concat(payment_id.as_str())
}

/// Fetches one payment: a GET of the payment's own path, with no body.
/// Errors carry `payment_id`.
pub fn get_payment<S, P>(client: ZebedeeClient, payment_id: String, send: S, parse: P) -> (r:
    Result<StdResp<Option<PaymentsData>>, ZebedeeError>) where
    S: FnOnce(HttpRequest<()>) -> Result<HttpResponse, String>,
    P: FnOnce(&String) -> Result<StdResp<Option<PaymentsData>>, String>,

    requires
        sends_any(client, HttpMethod::Get, PAYMENT_PATH_PREFIX@ + payment_id@, None::<()>, send),
        parses_any(parse),
    ensures
        exchange_post(
            client,
            HttpMethod::Get,
            PAYMENT_PATH_PREFIX@ + payment_id@,
            None::<()>,
            Some(payment_id),
            PAYMENTS_POLICY,
            send,
            parse,
            r,
        ),
{
    let path = payment_path(&payment_id);
    exchange(
        &client,
        HttpMethod::Get,
        path.as_str(),
        None,
        Some(payment_id),
        PAYMENTS_POLICY,
        send,
        parse,
    )
}

} // verus!
