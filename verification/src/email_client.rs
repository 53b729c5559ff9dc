//! The client of the e-mail delivery service: what it sends, and where.
use vstd::prelude::*;

use crate::domain::SubscriberEmail;
use crate::hkt::{RefHKT, SharedPointerHKT, K1};

verus! {

/// The header that carries the service's authorization token.
pub const X_POSTMARK_SERVER_TOKEN_HEADER: &'static str = "X-Postmark-Server-Token";

/// A client of the e-mail delivery service at `base_url`, sending as `sender`.
pub struct EmailClient<P: RefHKT<str> + RefHKT<reqwest::Client>> {
    http_client: K1<P, reqwest::Client>,
    base_url: K1<P, str>,
    sender: SubscriberEmail<P>,
    authorization_token: K1<P, str>,
}

/// The total timeout that a `reqwest::Client` applies to each of its requests, as its
/// builder's `timeout` set it.
pub uninterp spec fn client_timeout(client: reqwest::Client) -> std::time::Duration;

/// Calls `reqwest::Client::builder().timeout(timeout).build()`. Whether the build
/// succeeds depends on the machine (its TLS and resolver set-up), so that is not stated;
/// a client that is built keeps `timeout` as the timeout of its requests.
#[verifier::external_body]
fn http_client_with_timeout(timeout: std::time::Duration) -> (r: Result<reqwest::Client, reqwest::Error>)
    ensures
        r matches Ok(c) ==> client_timeout(c) == timeout,
{
    reqwest::Client::builder().timeout(timeout).build()
}

/// The JSON body of a request to send one e-mail; its fields are named in Pascal case
/// (`From`, `To`, `Subject`, `HtmlBody`, `TextBody`) when it is serialized.
pub struct SendEmailRequest<P: RefHKT<str>> {
    pub from: K1<P, str>,
    pub to: K1<P, str>,
    pub subject: K1<P, str>,
    pub html_body: K1<P, str>,
    pub text_body: K1<P, str>,
}

/// A request to send one e-mail: POST `body`, as JSON, to `url`, with
/// `authorization_token` in the `X-Postmark-Server-Token` header.
pub struct EmailRequest<P: RefHKT<str>> {
    pub url: String,
    pub authorization_token: K1<P, str>,
    pub body: SendEmailRequest<P>,
}

impl<P: RefHKT<str> + RefHKT<reqwest::Client>> EmailClient<P> {
    /// A client whose requests time out after `timeout`; an error when no HTTP client
    /// could be built.
    pub fn new(
        base_url: K1<P, str>,
        sender: SubscriberEmail<P>,
        authorization_token: K1<P, str>,
        timeout: std::time::Duration,
    ) -> (r: Result<EmailClient<P>, reqwest::Error>)
        ensures
            r matches Ok(c) ==> c.base_url() == base_url@ && c.sender() == sender@ && c.authorization_token() == authorization_token@
                && c.timeout() == timeout,
    {
        match http_client_with_timeout(timeout) {
            Ok(client) => Ok(EmailClient {
                http_client: <P as RefHKT<reqwest::Client>>::new(client),
                base_url,
                sender,
                authorization_token,
            }),
            Err(e) => Err(e),
        }
    }

    /// How long each request may take.
    pub closed spec fn timeout(&self) -> std::time::Duration {
        client_timeout(*self.http_client.pointee())
    }

    /// The address of the delivery service.
    pub closed spec fn base_url(&self) -> Seq<char> {
        self.base_url@
    }

    /// The address the e-mails are sent from.
    pub closed spec fn sender(&self) -> Seq<char> {
        self.sender@
    }

    /// The token that authorizes the requests.
    pub closed spec fn authorization_token(&self) -> Seq<char> {
        self.authorization_token@
    }

    /// The pointer to the HTTP client that sends the requests.
    pub closed spec fn client(&self) -> K1<P, reqwest::Client> {
        self.http_client
    }

    /// The HTTP client that sends the requests.
    pub fn http_client(&self) -> (r: &K1<P, reqwest::Client>)
        ensures
            *r == self.client(),
    {
        &self.http_client
    }
}

impl<P: SharedPointerHKT<str> + RefHKT<reqwest::Client>> EmailClient<P> {
    /// The request that sends `subject`, with its HTML and text renderings, to
    /// `recipient`: posted to the service's `/email` endpoint, its `From` field set to the
    /// service's address.
    pub fn email_request(
        &self,
        recipient: SubscriberEmail<P>,
        subject: K1<P, str>,
        html_content: K1<P, str>,
        text_content: K1<P, str>,
    ) -> (r: EmailRequest<P>)
        ensures
            r.url@ == self.base_url() + "/email"@,
            r.authorization_token@ == self.authorization_token(),
            r.body.from@ == self.base_url(),
            r.body.to@ == recipient@,
            r.body.subject == subject,
            r.body.html_body == html_content,
            r.body.text_body == text_content,
    {
        let base: &str = &*self.base_url;
        let mut url = base.to_owned();
        url.append("/email");
        EmailRequest {
            url,
            authorization_token: self.authorization_token.clone(),
            body: SendEmailRequest {
                from: self.base_url.clone(),
                to: recipient.into_inner(),
                subject,
                html_body: html_content,
                text_body: text_content,
            },
        }
    }
}

impl<P: SharedPointerHKT<str> + SharedPointerHKT<reqwest::Client>> Clone for EmailClient<P> {
    /// Shares the HTTP client and every string with the copy.
    fn clone(&self) -> (r: Self)
        ensures
            r.base_url() == self.base_url(),
            r.sender() == self.sender(),
            r.authorization_token() == self.authorization_token(),
            r.client().pointee() == self.client().pointee(),
    {
        EmailClient {
            http_client: self.http_client.clone(),
            base_url: self.base_url.clone(),
            sender: self.sender.clone(),
            authorization_token: self.authorization_token.clone(),
        }
    }
}

} // verus!
