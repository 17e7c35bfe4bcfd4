//! The human-verification route: a challenge-response token from the caller's
//! browser is checked by a third-party provider. The route always answers 200
//! with an envelope `{success, message}`; `success` holds only when the
//! provider explicitly confirmed the token.

use vstd::prelude::*;
use vstd::string::StrSliceExecFns;
use vstd::string::StringExecFns;

verus! {

/// The parameters of one request to the provider, as name and value.
pub open spec fn provider_form(
    secret: Seq<char>,
    response: Seq<char>,
    client_origin: Option<Seq<char>>,
) -> Seq<(Seq<char>, Seq<char>)> {
    let base = seq![("secret"@, secret), ("response"@, response)];
    match client_origin {
        Some(origin) => base.push(("remoteip"@, origin)),
        None => base,
    }
}

/// The parameters held in `form`, as views.
pub open spec fn form_view(form: Seq<(String, String)>) -> Seq<(Seq<char>, Seq<char>)> {
    form.map_values(|p: (String, String)| (p.0@, p.1@))
}

/// The message of the envelope that confirms a token.
pub open spec fn verified_message() -> Seq<char> {
    "Captcha verified"@
}

/// The message of every envelope that does not confirm a token.
pub open spec fn failed_message() -> Seq<char> {
    "Captcha verification failed"@
}

/// The envelope that the route answers with, always under status 200.
pub struct CaptchaReply {
    pub success: bool,
    pub message: String,
}

impl CaptchaReply {
    /// The envelope for a token that was not confirmed.
    pub fn failed() -> (r: Self)
        ensures
            !r.success,
            r.message@ == failed_message(),
    {
        CaptchaReply { success: false, message: String::from_str("Captcha verification failed") }
    }

    /// The envelope for a token that the provider confirmed.
    pub fn verified() -> (r: Self)
        ensures
            r.success,
            r.message@ == verified_message(),
    {
        CaptchaReply { success: true, message: String::from_str("Captcha verified") }
    }

    /// The HTTP status of the reply: the route never answers otherwise than 200.
    pub fn status(&self) -> (r: u16)
        ensures
            r == 200,
    {
        200
    }
}

/// What came of asking the provider.
#[derive(Debug, Clone, Copy, PartialEq, Eq, Structural)]
pub enum ProviderOutcome {
    /// The provider answered; its `success` flag.
    Answered(bool),
    /// The request failed or the answer could not be decoded.
    Failed,
}

/// The first step of the human-verification route.
pub enum CaptchaStep {
    /// Answer at once; the provider is not asked.
    Reply(CaptchaReply),
    /// Send `form` to the provider and hand what came of it to
    /// `conclude_captcha`.
    Send { form: Vec<(String, String)> },
}

/// The provider secret is configured.
pub open spec fn secret_present(secret: Option<Seq<char>>) -> bool {
    secret is Some && secret->Some_0.len() > 0
}

/// Whether the route confirms a request: the secret is configured, the body
/// could be read, and the provider reported success.
pub open spec fn captcha_success(
    secret_configured: bool,
    body_readable: bool,
    outcome: ProviderOutcome,
) -> bool {
    secret_configured && body_readable && outcome == ProviderOutcome::Answered(true)
}

/// Builds the parameters of one request to the provider.
pub fn provider_request_form(secret: &str, response: &str, client_origin: Option<&str>) -> (r: Vec<
    (String, String),
>)
    ensures
        form_view(r@) == provider_form(
            secret@,
            response@,
            match client_origin {
                Some(o) => Some(o@),
                None => None,
            },
        ),
{
    let mut form: Vec<(String, String)> = Vec::new();
    form.push((String::from_str("secret"), String::from_str(secret)));
    form.push((String::from_str("response"), String::from_str(response)));
    match client_origin {
        Some(origin) => {
            form.push((String::from_str("remoteip"), String::from_str(origin)));
        },
        None => {},
    }
    let ghost origin_view = match client_origin {
        Some(o) => Some(o@),
        None => None,
    };
    assert(form_view(form@) =~= provider_form(secret@, response@, origin_view));
    form
}

/// Decides the first step for a request whose body held the token
/// `captcha_response` (`None` where the body could not be read), sent from
/// `client_origin`, with provider secret `secret` configured.
pub fn begin_captcha(
    secret: Option<&str>,
    captcha_response: Option<&str>,
    client_origin: Option<&str>,
) -> (r: CaptchaStep)
    ensures
        r is Send <==> (secret_present(
            match secret {
                Some(s) => Some(s@),
                None => None,
            },
        ) && captcha_response is Some),
        r matches CaptchaStep::Reply(rep) ==> !rep.success && rep.message@ == failed_message(),
        r matches CaptchaStep::Send { form } ==> form_view(form@) == provider_form(
            secret->Some_0@,
            captcha_response->Some_0@,
            match client_origin {
                Some(o) => Some(o@),
                None => None,
            },
        ),
{
    let key = match secret {
        Some(s) => s,
        None => {
            return CaptchaStep::Reply(CaptchaReply::failed());
        },
    };
    if key.unicode_len() == 0 {
        return CaptchaStep::Reply(CaptchaReply::failed());
    }
    match captcha_response {
        Some(token) => CaptchaStep::Send { form: provider_request_form(key, token, client_origin) },
        None => CaptchaStep::Reply(CaptchaReply::failed()),
    }
}

/// Decides the envelope once the provider has been asked.
pub fn conclude_captcha(outcome: ProviderOutcome) -> (r: CaptchaReply)
    ensures
        r.success <==> outcome == ProviderOutcome::Answered(true),
        r.message@ == (if r.success {
            verified_message()
        } else {
            failed_message()
        }),
{
    match outcome {
        ProviderOutcome::Answered(true) => CaptchaReply::verified(),
        _ => CaptchaReply::failed(),
    }
}

/// A request to the route is confirmed exactly when the secret is configured,
/// the body could be read and the provider explicitly reported success: a
/// denial, a failed request or an undecodable answer never confirms.
pub proof fn captcha_success_only_on_confirmation(
    secret_configured: bool,
    body_readable: bool,
    outcome: ProviderOutcome,
)
    ensures
        captcha_success(secret_configured, body_readable, outcome) ==> outcome
            == ProviderOutcome::Answered(true),
        outcome == ProviderOutcome::Failed ==> !captcha_success(
            secret_configured,
            body_readable,
            outcome,
        ),
        outcome == ProviderOutcome::Answered(false) ==> !captcha_success(
            secret_configured,
            body_readable,
            outcome,
        ),
{
}

} // verus!
