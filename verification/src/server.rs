//! The replies of a metadata server: which request is answered by what.

use crate::open_sea::{ContractMetadata, ContractMetadataView};
use crate::token_id::{read_decimal, TokenId};
use crate::{MetadataGenerator, NftMetadata, NftMetadataView};
use vstd::prelude::*;
use vstd::string::StrSliceExecFns;

verus! {

/// The status of a reply that carries what was asked for.
pub const OK: u16 = 200;

/// The status of a reply to a request for what is not there.
pub const NOT_FOUND: u16 = 404;

/// The status of a reply to a request that met a fault.
pub const INTERNAL_SERVER_ERROR: u16 = 500;

/// One header line of a reply.
#[derive(Clone, Copy, Debug)]
pub struct Header {
    /// The name of the header.
    pub name: &'static str,
    /// Its value.
    pub value: &'static str,
}

impl View for Header {
    type V = (Seq<char>, Seq<char>);

    open spec fn view(&self) -> (Seq<char>, Seq<char>) {
        (self.name@, self.value@)
    }
}

/// What a reply carries.
#[derive(Debug)]
pub enum Body {
    /// Nothing.
    Empty,
    /// A plain text.
    Text(&'static str),
    /// The metadata of a token, to be sent as a JSON document.
    Token(NftMetadata),
    /// The metadata of the collection, to be sent as a JSON document.
    Contract(ContractMetadata),
}

/// What a [`Body`] holds.
pub enum BodyView {
    /// Nothing.
    Empty,
    /// A plain text.
    Text(Seq<char>),
    /// The metadata of a token.
    Token(NftMetadataView),
    /// The metadata of the collection.
    Contract(ContractMetadataView),
}

impl View for Body {
    type V = BodyView;

    open spec fn view(&self) -> BodyView {
        match *self {
            Body::Empty => BodyView::Empty,
            Body::Text(text) => BodyView::Text(text@),
            Body::Token(metadata) => BodyView::Token(metadata@),
            Body::Contract(metadata) => BodyView::Contract(metadata@),
        }
    }
}

/// A reply to one request.
#[derive(Debug)]
pub struct Response {
    /// The status.
    pub status: u16,
    /// The header lines that the reply adds, in order.
    pub headers: Vec<Header>,
    /// The body.
    pub body: Body,
}

/// What a [`Response`] holds.
pub struct ResponseView {
    /// The status.
    pub status: u16,
    /// The header lines that the reply adds, in order.
    pub headers: Seq<(Seq<char>, Seq<char>)>,
    /// The body.
    pub body: BodyView,
}

impl View for Response {
    type V = ResponseView;

    open spec fn view(&self) -> ResponseView {
        ResponseView {
            status: self.status,
            headers: self.headers@.map_values(|h: Header| h@),
            body: self.body@,
        }
    }
}

/// The header that lets a reply be kept for five minutes and asks for it to
/// be checked again after that.
pub open spec fn cache_control() -> (Seq<char>, Seq<char>) {
    ("Cache-Control"@, "max-age=300, must-revalidate"@)
}

/// A reply of the given status and text, without headers.
pub open spec fn plain_reply(status: u16, text: Seq<char>) -> ResponseView {
    ResponseView { status, headers: Seq::empty(), body: BodyView::Text(text) }
}

/// The reply to a request that met a fault: it tells the caller nothing of
/// what went wrong.
pub open spec fn unavailable_reply() -> ResponseView {
    plain_reply(INTERNAL_SERVER_ERROR, "service temporarily unavailable"@)
}

/// The reply to a request for a route that the server does not have.
pub open spec fn unknown_route_reply() -> ResponseView {
    plain_reply(NOT_FOUND, "unknown route"@)
}

/// The reply to a health check.
pub open spec fn healthy_reply() -> ResponseView {
    ResponseView { status: OK, headers: Seq::empty(), body: BodyView::Empty }
}

/// The reply to a request for the site's icon: there is none.
pub open spec fn no_icon_reply() -> ResponseView {
    ResponseView { status: NOT_FOUND, headers: Seq::empty(), body: BodyView::Empty }
}

/// The reply to a request for a token's metadata, given what the lookup came
/// to. A failure of the lookup is not told apart from any other fault.
pub open spec fn token_reply<E>(outcome: Result<Option<NftMetadata>, E>) -> ResponseView {
    match outcome {
        Ok(Some(metadata)) => ResponseView {
            status: OK,
            headers: seq![cache_control()],
            body: BodyView::Token(metadata@),
        },
        Ok(None) => ResponseView {
            status: NOT_FOUND,
            headers: seq![cache_control()],
            body: BodyView::Text("unknown token id"@),
        },
        Err(_) => unavailable_reply(),
    }
}

/// The reply to a request for the collection's metadata, given what the
/// lookup found.
pub open spec fn contract_reply(found: Option<ContractMetadata>) -> ResponseView {
    match found {
        Some(metadata) => ResponseView {
            status: OK,
            headers: seq![cache_control()],
            body: BodyView::Contract(metadata@),
        },
        None => ResponseView {
            status: NOT_FOUND,
            headers: seq![cache_control()],
            body: BodyView::Text("no contract metadata"@),
        },
    }
}

/// The reply to a failed lookup is the same for every failure: nothing of the
/// failure reaches the one who asked.
pub proof fn lemma_failures_tell_nothing<E>(failure: E, other: E)
    ensures
        token_reply(Err::<Option<NftMetadata>, E>(failure)) == unavailable_reply(),
        token_reply(Err::<Option<NftMetadata>, E>(failure)) == token_reply(
            Err::<Option<NftMetadata>, E>(other),
        ),
{
}

/// A token that is not found and a lookup that failed get different replies.
pub proof fn lemma_not_found_is_no_failure<E>(failure: E)
    ensures
        token_reply(Ok::<Option<NftMetadata>, E>(None)).status == NOT_FOUND,
        token_reply(Err::<Option<NftMetadata>, E>(failure)).status == INTERNAL_SERVER_ERROR,
{
}

/// A reply of the given status and text, without headers.
fn plain(status: u16, text: &'static str) -> (r: Response)
    ensures
        r@ == plain_reply(status, text@),
{
    let r = Response { status, headers: Vec::new(), body: Body::Text(text) };
    assert(r@.headers =~= Seq::empty());
    r
}

/// A reply of the given status and body that carries the caching header.
fn cached(status: u16, body: Body) -> (r: Response)
    ensures
        r@ == (ResponseView { status, headers: seq![cache_control()], body: body@ }),
{
    let header = Header { name: "Cache-Control", value: "max-age=300, must-revalidate" };
    let r = Response { status, headers: vec![header], body };
    assert(r@.headers =~= seq![cache_control()]);
    r
}

/// The reply to a request that met a fault.
pub fn unavailable() -> (r: Response)
    ensures
        r@ == unavailable_reply(),
{
    plain(INTERNAL_SERVER_ERROR, "service temporarily unavailable")
}

/// The reply to a request for a token's metadata, given what the lookup came
/// to: the metadata, "unknown token id", or the reply to a fault.
pub fn token_response<E>(outcome: Result<Option<NftMetadata>, E>) -> (r: Response)
    ensures
        r@ == token_reply(outcome),
{
    match outcome {
        Ok(Some(metadata)) => cached(OK, Body::Token(metadata)),
        Ok(None) => cached(NOT_FOUND, Body::Text("unknown token id")),
        Err(_) => unavailable(),
    }
}

/// The reply to a request for the collection's metadata, given what the
/// lookup found: the metadata, or "no contract metadata".
pub fn contract_response(found: Option<ContractMetadata>) -> (r: Response)
    ensures
        r@ == contract_reply(found),
{
    match found {
        Some(metadata) => cached(OK, Body::Contract(metadata)),
        None => cached(NOT_FOUND, Body::Text("no contract metadata")),
    }
}

/// Answers a request for the metadata of the token that `token_id` names in
/// decimal. A text that names no token id is answered like a fault of the
/// lookup. Otherwise the generator is asked for that token, and the reply is
/// the one that belongs to what it came to.
pub fn nft_handler<T: MetadataGenerator>(token_id: &str, generator: &T) -> (r: Response)
    ensures
        completes(generator, token_step(token_id@), r@),
{
    complete(generator, plan_token(token_id))
}

/// Answers a request for the metadata of the collection: the generator is
/// asked for it, and the reply is the one that belongs to what it found.
pub fn contract_handler<T: MetadataGenerator>(generator: &T) -> (r: Response)
    ensures
        completes(generator, StepView::FindContract, r@),
{
    complete(generator, Step::FindContract)
}

/// The reply to a request for a route that the server does not have: 404
/// with the body "unknown route".
pub fn return_404() -> (r: Response)
    ensures
        r@ == unknown_route_reply(),
{
    plain(NOT_FOUND, "unknown route")
}

/// The reply to a health check: 200, with nothing in it.
pub fn return_200() -> (r: Response)
    ensures
        r@ == healthy_reply(),
{
    let r = Response { status: OK, headers: Vec::new(), body: Body::Empty };
    assert(r@.headers =~= Seq::empty());
    r
}

/// Where a `GET` request goes.
#[derive(Clone, Copy, Debug)]
pub enum Route<'a> {
    /// To the health check.
    Healthcheck,
    /// To the site's icon.
    Favicon,
    /// To the metadata of the collection.
    Contract,
    /// To the metadata of the token that the text names.
    Token(&'a str),
    /// Nowhere.
    Unknown,
}

/// What a [`Route`] holds.
pub enum RouteView {
    /// To the health check.
    Healthcheck,
    /// To the site's icon.
    Favicon,
    /// To the metadata of the collection.
    Contract,
    /// To the metadata of the token that the text names.
    Token(Seq<char>),
    /// Nowhere.
    Unknown,
}

impl<'a> View for Route<'a> {
    type V = RouteView;

    open spec fn view(&self) -> RouteView {
        match *self {
            Route::Healthcheck => RouteView::Healthcheck,
            Route::Favicon => RouteView::Favicon,
            Route::Contract => RouteView::Contract,
            Route::Token(token_id) => RouteView::Token(token_id@),
            Route::Unknown => RouteView::Unknown,
        }
    }
}

/// Whether `path` is a slash and one segment after it: at least one
/// character, none of them a slash.
pub open spec fn is_single_segment(path: Seq<char>) -> bool {
    &&& path.len() >= 2
    &&& path[0] == '/'
    &&& forall|i: int| 1 <= i < path.len() ==> path[i] != '/'
}

/// Where a request for `path` goes. The fixed paths come first: a segment
/// that spells one of them names no token.
pub open spec fn route_of(path: Seq<char>) -> RouteView {
    if path == "/healthcheck"@ {
        RouteView::Healthcheck
    } else if path == "/favicon.ico"@ {
        RouteView::Favicon
    } else if path == "/"@ {
        RouteView::Contract
    } else if is_single_segment(path) {
        RouteView::Token(path.skip(1))
    } else {
        RouteView::Unknown
    }
}

/// What is to be done for a request.
#[derive(Debug)]
pub enum Step {
    /// Nothing is to be asked: this is the reply.
    Reply(Response),
    /// The generator is to be asked for the metadata of this token; the
    /// reply is the [`token_response`] to what it comes to.
    FindToken(TokenId),
    /// The generator is to be asked for the metadata of the collection; the
    /// reply is the [`contract_response`] to what it finds.
    FindContract,
}

/// What a [`Step`] holds.
pub enum StepView {
    /// Nothing is to be asked: this is the reply.
    Reply(ResponseView),
    /// The generator is to be asked for the metadata of the token of this
    /// number.
    FindToken(nat),
    /// The generator is to be asked for the metadata of the collection.
    FindContract,
}

impl View for Step {
    type V = StepView;

    open spec fn view(&self) -> StepView {
        match *self {
            Step::Reply(reply) => StepView::Reply(reply@),
            Step::FindToken(token_id) => StepView::FindToken(token_id@),
            Step::FindContract => StepView::FindContract,
        }
    }
}

/// What is to be done for a request for the metadata of the token that
/// `token_id` names in decimal. A text that names no token id, the empty
/// text among them, is answered like a fault of the lookup.
pub open spec fn token_step(token_id: Seq<char>) -> StepView {
    match read_decimal(token_id) {
        Ok(n) => StepView::FindToken(n),
        Err(_) => StepView::Reply(unavailable_reply()),
    }
}

/// What is to be done for a `GET` request for `path`. What a request of
/// another method gets is not said here.
pub open spec fn step_of(path: Seq<char>) -> StepView {
    match route_of(path) {
        RouteView::Healthcheck => StepView::Reply(healthy_reply()),
        RouteView::Favicon => StepView::Reply(no_icon_reply()),
        RouteView::Contract => StepView::FindContract,
        RouteView::Token(token_id) => token_step(token_id),
        RouteView::Unknown => StepView::Reply(unknown_route_reply()),
    }
}

/// Whether `reply` is what a request gets for which `step` is to be done: the
/// reply that the step holds, or the one that belongs to what the generator
/// may come to when it is asked.
pub open spec fn completes<T: MetadataGenerator>(
    generator: &T,
    step: StepView,
    reply: ResponseView,
) -> bool {
    match step {
        StepView::Reply(fixed) => reply == fixed,
        StepView::FindToken(n) => exists|id: TokenId, outcome: Result<Option<NftMetadata>, T::Error>|
            id@ == n && #[trigger] generator.may_find(id, outcome) && reply == token_reply(
                outcome,
            ),
        StepView::FindContract => exists|found: Option<ContractMetadata>| #[trigger]
            generator.may_find_contract(found) && reply == contract_reply(found),
    }
}

/// Whether two texts are the same.
fn same_text(a: &str, b: &str) -> (r: bool)
    ensures
        r == (a@ == b@),
{
    a.to_owned() == b.to_owned()
}

/// Where a request for `path` goes.
pub fn route(path: &str) -> (r: Route<'_>)
    ensures
        r@ == route_of(path@),
{
    if same_text(path, "/healthcheck") {
        return Route::Healthcheck;
    }
    if same_text(path, "/favicon.ico") {
        return Route::Favicon;
    }
    if same_text(path, "/") {
        return Route::Contract;
    }
    let chars = chars_of(path);
    if chars.len() < 2 || chars[0] != '/' {
        return Route::Unknown;
    }
    let mut i: usize = 1;
    while i < chars.len()
        invariant
            1 <= i <= chars.len(),
            chars@ == path@,
            path@ != "/healthcheck"@,
            path@ != "/favicon.ico"@,
            path@ != "/"@,
            forall|k: int| 1 <= k < i ==> path@[k] != '/',
        decreases chars.len() - i,
    {
        if chars[i] == '/' {
            return Route::Unknown;
        }
        i = i + 1;
    }
    let token_id = path.substring_char(1, chars.len());
    assert(token_id@ == path@.skip(1));
    Route::Token(token_id)
}

/// The reply to a request for the site's icon: 404, with nothing in it.
pub fn no_icon() -> (r: Response)
    ensures
        r@ == no_icon_reply(),
{
    let r = Response { status: NOT_FOUND, headers: Vec::new(), body: Body::Empty };
    assert(r@.headers =~= Seq::empty());
    r
}

/// What is to be done for a request for the metadata of the token that
/// `token_id` names in decimal.
pub fn plan_token(token_id: &str) -> (r: Step)
    ensures
        r@ == token_step(token_id@),
{
    match TokenId::from_dec_str(token_id) {
        Ok(id) => Step::FindToken(id),
        Err(_) => Step::Reply(unavailable()),
    }
}

/// What is to be done for a `GET` request for `path`: it goes where the path
/// leads.
pub fn plan(path: &str) -> (r: Step)
    ensures
        r@ == step_of(path@),
{
    match route(path) {
        Route::Healthcheck => Step::Reply(return_200()),
        Route::Favicon => Step::Reply(no_icon()),
        Route::Contract => Step::FindContract,
        Route::Token(token_id) => plan_token(token_id),
        Route::Unknown => Step::Reply(return_404()),
    }
}

/// Does what `step` asks for: hands out the reply that it holds, or asks the
/// generator and replies to what it came to.
pub fn complete<T: MetadataGenerator>(generator: &T, step: Step) -> (r: Response)
    ensures
        completes(generator, step@, r@),
{
    match step {
        Step::Reply(reply) => reply,
        Step::FindToken(token_id) => token_response(generator.metadata_for(token_id)),
        Step::FindContract => contract_response(generator.contract_metadata()),
    }
}

/// Answers one `GET` request for `path` out of a generator.
pub fn dispatch<T: MetadataGenerator>(generator: &T, path: &str) -> (r: Response)
    ensures
        completes(generator, step_of(path@), r@),
{
    complete(generator, plan(path))
}

/// The characters of a text.
fn chars_of(text: &str) -> (r: Vec<char>)
    ensures
        r@ == text@,
{
    let mut chars: Vec<char> = Vec::new();
    for c in it: text.chars()
        invariant
            it.seq() == text@,
            chars@ == text@.take(it.index()),
    {
        chars.push(c);
    }
    chars
}

} // verus!
