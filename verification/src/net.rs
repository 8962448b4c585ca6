//! The network layer's verified half: building the request of each game
//! operation, classifying a response by its status code, and the one-shot
//! retry bookkeeping for transport failures.
//!
//! The unverified shell performs the HTTP exchange itself and decodes JSON
//! bodies; it feeds the status code and the decode outcome back into the
//! functions here, which decide everything else.

use vstd::prelude::*;

use crate::model::{Direction, Error, ErrorDetail, ErrorDetailView, ErrorView, movement_json};

verus! {

/// Seconds each single HTTP attempt may take before the transport gives up.
pub const REQUEST_TIMEOUT_SECS: u64 = 5;

/// An HTTP request the shell must perform: a GET of a URL, or a POST of a
/// URL with a body.
#[derive(Clone, Debug)]
pub enum MunRequest {
    Get(String),
    Post(String, String),
}

/// The mathematical value of a [`MunRequest`].
#[verifier::ext_equal]
pub ghost enum MunRequestView {
    Get(Seq<char>),
    Post(Seq<char>, Seq<char>),
}

impl View for MunRequest {
    type V = MunRequestView;

    open spec fn view(&self) -> MunRequestView {
        match self {
            MunRequest::Get(url) => MunRequestView::Get(url@),
            MunRequest::Post(url, body) => MunRequestView::Post(url@, body@),
        }
    }
}

/// The URL of the connect operation.
pub open spec fn connect_url(base: Seq<char>) -> Seq<char> {
    base + "/connect"@
}

/// The URL of the look-room operation.
pub open spec fn look_room_url(base: Seq<char>, guid: Seq<char>) -> Seq<char> {
    base + "/"@ + guid + "/regarder"@
}

/// The URL of the move operation.
pub open spec fn move_url(base: Seq<char>, guid: Seq<char>) -> Seq<char> {
    base + "/"@ + guid + "/deplacement"@
}

/// The URL of the look-entity operation.
pub open spec fn look_entity_url(base: Seq<char>, guid: Seq<char>, target: Seq<char>) -> Seq<char> {
    base + "/"@ + guid + "/examiner/"@ + target
}

/// The URL of the attack operation.
pub open spec fn attack_url(base: Seq<char>, guid: Seq<char>, target: Seq<char>) -> Seq<char> {
    base + "/"@ + guid + "/taper/"@ + target
}

/// The error surfaced when both attempts of an operation fail at the
/// transport level.
pub open spec fn transport_error_view() -> ErrorView {
    crate::model::message_error("A network error has occured"@)
}

/// The error surfaced for a 400 response.
pub open spec fn bad_request_error_view() -> ErrorView {
    ErrorView {
        code: Some(400u16),
        detail: ErrorDetailView { kind: None, message: "Bad request"@ },
    }
}

/// The error surfaced for a 404 response.
pub open spec fn not_found_error_view() -> ErrorView {
    ErrorView {
        code: Some(404u16),
        detail: ErrorDetailView { kind: None, message: "URL not found"@ },
    }
}

/// The error surfaced when a response body cannot be read as text.
pub open spec fn body_read_error_view() -> ErrorView {
    crate::model::message_error("Error while parsing JSON response"@)
}

/// Build the transport-failure error.
pub fn transport_error() -> (e: Error)
    ensures
        e@ == transport_error_view(),
{
    Error::from_error_string(String::from_str("A network error has occured"))
}

/// Build the 400 error.
pub fn bad_request_error() -> (e: Error)
    ensures
        e@ == bad_request_error_view(),
{
    Error {
        code: Some(400),
        detail: ErrorDetail { kind: None, message: String::from_str("Bad request") },
    }
}

/// Build the 404 error.
pub fn not_found_error() -> (e: Error)
    ensures
        e@ == not_found_error_view(),
{
    Error {
        code: Some(404),
        detail: ErrorDetail { kind: None, message: String::from_str("URL not found") },
    }
}

/// Build the unreadable-body error.
pub fn body_read_error() -> (e: Error)
    ensures
        e@ == body_read_error_view(),
{
    Error::from_error_string(String::from_str("Error while parsing JSON response"))
}

/// Whether a call retries after a transport failure: only if this is the
/// call's first failed attempt.
pub open spec fn retries_after_transport_failure(tried_once: bool) -> bool {
    !tried_once
}

/// The retry bookkeeping after a transport failure: armed after the first
/// failure, reset when the call gives up.
pub open spec fn tried_once_after_transport_failure(tried_once: bool) -> bool {
    !tried_once
}

/// Law: a call whose attempts all fail at the transport level runs exactly
/// two attempts.  A fresh call retries after its first transport failure,
/// and after the second it does not retry again but surfaces the transport
/// error, with the retry state reset for the next call.
pub proof fn lemma_transport_failure_two_attempts()
    ensures
        retries_after_transport_failure(false),
        !retries_after_transport_failure(tried_once_after_transport_failure(false)),
        !tried_once_after_transport_failure(tried_once_after_transport_failure(false)),
{
}

/// What the shell must do next with a response, once the status code and
/// the readability of the body are known.
pub enum ResponseStep {
    /// The operation failed; no body decoding is needed.
    Fail(Error),
    /// Decode the body as an [`ErrorDetail`] and hand it to
    /// [`conflict_error`].
    ParseConflict,
    /// Decode the body as the operation's result type and hand it to
    /// [`value_result`].
    ParseValue,
}

/// The client state carried across the attempts of one operation: the base
/// URL fixed at construction, and whether the running call has already had
/// a transport failure.
#[derive(Clone, Debug)]
pub struct MunHttpClient {
    pub base_url: String,
    pub tried_once: bool,
}

/// The mathematical value of a [`MunHttpClient`].
#[verifier::ext_equal]
pub ghost struct ClientView {
    pub base_url: Seq<char>,
    pub tried_once: bool,
}

impl View for MunHttpClient {
    type V = ClientView;

    open spec fn view(&self) -> ClientView {
        ClientView { base_url: self.base_url@, tried_once: self.tried_once }
    }
}

impl MunHttpClient {
    /// A fresh client for the given base URL, with no failed attempt
    /// recorded.
    pub fn new(base_url: String) -> (c: MunHttpClient)
        ensures
            c@ == (ClientView { base_url: base_url@, tried_once: false }),
    {
        MunHttpClient { base_url, tried_once: false }
    }

    /// The request of the connect operation.
    pub fn connect_request(&self) -> (r: MunRequest)
        ensures
            r@ == MunRequestView::Post(connect_url(self@.base_url), Seq::<char>::empty()),
    {
        let mut url = self.base_url.clone();
        url.append("/connect");
        MunRequest::Post(url, String::new())
    }

    /// The request of the look-room operation for player `guid`.
    pub fn look_room_request(&self, guid: &String) -> (r: MunRequest)
        ensures
            r@ == MunRequestView::Get(look_room_url(self@.base_url, guid@)),
    {
        let mut url = self.base_url.clone();
        url.append("/");
        url.append(guid.as_str());
        url.append("/regarder");
        proof {
            assert(url@ =~= look_room_url(self@.base_url, guid@));
        }
        MunRequest::Get(url)
    }

    /// The request of the move operation for player `guid` in `direction`.
    pub fn move_request(&self, guid: &String, direction: Direction) -> (r: MunRequest)
        ensures
            r@ == MunRequestView::Post(
                move_url(self@.base_url, guid@),
                movement_json(direction),
            ),
    {
        let mut url = self.base_url.clone();
        url.append("/");
        url.append(guid.as_str());
        url.append("/deplacement");
        proof {
            assert(url@ =~= move_url(self@.base_url, guid@));
        }
        MunRequest::Post(url, direction.to_movement_json())
    }

    /// The request of the look-entity operation for player `guid` examining
    /// `target`.
    pub fn look_entity_request(&self, guid: &String, target: &String) -> (r: MunRequest)
        ensures
            r@ == MunRequestView::Get(look_entity_url(self@.base_url, guid@, target@)),
    {
        let mut url = self.base_url.clone();
        url.append("/");
        url.append(guid.as_str());
        url.append("/examiner/");
        url.append(target.as_str());
        proof {
            assert(url@ =~= look_entity_url(self@.base_url, guid@, target@));
        }
        MunRequest::Get(url)
    }

    /// The request of the attack operation for player `guid` striking
    /// `target`.
    pub fn attack_request(&self, guid: &String, target: &String) -> (r: MunRequest)
        ensures
            r@ == MunRequestView::Post(
                attack_url(self@.base_url, guid@, target@),
                Seq::<char>::empty(),
            ),
    {
        let mut url = self.base_url.clone();
        url.append("/");
        url.append(guid.as_str());
        url.append("/taper/");
        url.append(target.as_str());
        proof {
            assert(url@ =~= attack_url(self@.base_url, guid@, target@));
        }
        MunRequest::Post(url, String::new())
    }

    /// Record a transport failure of the running call.  The result says
    /// whether the identical request is to be sent once more; when it is
    /// `false` the call ends with [`transport_error`], and the retry state
    /// is reset for the next call.
    pub fn on_transport_failure(&mut self) -> (retry: bool)
        ensures
            retry == retries_after_transport_failure(old(self)@.tried_once),
            final(self)@.tried_once == tried_once_after_transport_failure(old(self)@.tried_once),
            final(self)@.base_url == old(self)@.base_url,
    {
        if self.tried_once {
            self.tried_once = false;
            false
        } else {
            self.tried_once = true;
            true
        }
    }

    /// Record that a response arrived: an HTTP status, whatever it is, is
    /// never retried, so the retry state is reset.
    pub fn on_response(&mut self)
        ensures
            final(self)@ == (ClientView { tried_once: false, ..old(self)@ }),
    {
        self.tried_once = false;
    }
}

/// Classify a response by its status code.  `body_ok` says whether the
/// response body could be read as text.
pub fn classify_response(status: u16, body_ok: bool) -> (step: ResponseStep)
    ensures
        status == 400 ==> (step matches ResponseStep::Fail(e) && e@ == bad_request_error_view()),
        status == 404 ==> (step matches ResponseStep::Fail(e) && e@ == not_found_error_view()),
        status == 409 && body_ok ==> step == ResponseStep::ParseConflict,
        status == 409 && !body_ok ==> (step matches ResponseStep::Fail(e) && e@
            == body_read_error_view()),
        status != 400 && status != 404 && status != 409 && body_ok ==> step
            == ResponseStep::ParseValue,
        status != 400 && status != 404 && status != 409 && !body_ok ==> (step
            matches ResponseStep::Fail(e) && e@ == body_read_error_view()),
{
    if status == 400 {
        ResponseStep::Fail(bad_request_error())
    } else if status == 404 {
        ResponseStep::Fail(not_found_error())
    } else if !body_ok {
        ResponseStep::Fail(body_read_error())
    } else if status == 409 {
        ResponseStep::ParseConflict
    } else {
        ResponseStep::ParseValue
    }
}

/// The error of a 409 response, from the decode outcome of its body: the
/// parsed detail when the body was valid, and the decode error otherwise —
/// a conflict detail is never fabricated.
pub fn conflict_error(detail: Option<ErrorDetail>) -> (e: Error)
    ensures
        detail matches Some(d) ==> e@ == (ErrorView { code: Some(409u16), detail: d@ }),
        detail is None ==> e@ == crate::model::deserialization_error_view(),
{
    match detail {
        Some(d) => Error { code: Some(409), detail: d },
        None => crate::model::deserialization_error(),
    }
}

/// The outcome of a success-status response, from the decode outcome of its
/// body: the parsed value when the body was valid, and the decode error
/// otherwise.
pub fn value_result<T>(parsed: Option<T>) -> (r: Result<T, Error>)
    ensures
        parsed matches Some(v) ==> (r matches Ok(rv) && rv == v),
        parsed is None ==> (r matches Err(e) && e@ == crate::model::deserialization_error_view()),
{
    match parsed {
        Some(v) => Ok(v),
        None => Err(crate::model::deserialization_error()),
    }
}

} // verus!
