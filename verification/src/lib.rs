//! Core of a webhook gateway: a hot-reloadable configuration of hooks and
//! credentials, an `Authorization` header parser, an authorization matcher,
//! and the request dispatcher that ties them together.
//!
//! Surrounding concerns (HTTP transport, file reading, command execution)
//! live outside this crate and talk to it through plain values.

use vstd::prelude::*;
use vstd::string::{StrSliceExecFns, StringExecFns};

pub mod auth;
pub mod config;
pub mod model;
pub mod strings;

use crate::auth::{
    check_auth_spec, check_auth_store, parse_authorization, parse_authorization_spec, message_of,
    AuthDecision,
};
use crate::config::dynamic::{store_of, DynamicConfig, DynamicConfigView};
use crate::config::{assoc_find, assoc_lookup, entries_view, Auth, Hook, HookView};
use crate::strings::str_eq;

verus! {

/// Everything that can end a request without running its hook, one variant
/// per response status.
#[derive(Debug)]
pub enum ResponseError {
    NotFound,
    BadRequest(String),
    Unauthorized,
    InternalServerError(String),
    MethodNotAllowed,
}

/// Mathematical image of a `ResponseError`.
pub enum ResponseErrorView {
    NotFound,
    BadRequest(Seq<char>),
    Unauthorized,
    InternalServerError(Seq<char>),
    MethodNotAllowed,
}

impl View for ResponseError {
    type V = ResponseErrorView;

    open spec fn view(&self) -> ResponseErrorView {
        match self {
            ResponseError::NotFound => ResponseErrorView::NotFound,
            ResponseError::BadRequest(m) => ResponseErrorView::BadRequest(m@),
            ResponseError::Unauthorized => ResponseErrorView::Unauthorized,
            ResponseError::InternalServerError(m) => ResponseErrorView::InternalServerError(m@),
            ResponseError::MethodNotAllowed => ResponseErrorView::MethodNotAllowed,
        }
    }
}

/// The HTTP status each failure maps to.
pub open spec fn status_of(e: ResponseErrorView) -> int {
    match e {
        ResponseErrorView::NotFound => 404,
        ResponseErrorView::BadRequest(_) => 400,
        ResponseErrorView::Unauthorized => 401,
        ResponseErrorView::InternalServerError(_) => 500,
        ResponseErrorView::MethodNotAllowed => 405,
    }
}

impl ResponseError {
    /// The status code of the response this failure becomes.
    pub fn status_code(&self) -> (r: u16)
        ensures
            r == status_of(self@),
    {
        match self {
            ResponseError::NotFound => 404,
            ResponseError::BadRequest(_) => 400,
            ResponseError::Unauthorized => 401,
            ResponseError::InternalServerError(_) => 500,
            ResponseError::MethodNotAllowed => 405,
        }
    }

    /// The text carried by the response body, empty for the bare variants.
    pub fn body_text(&self) -> (r: &str)
        ensures
            r@ == body_text_of(self@),
    {
        match self {
            ResponseError::NotFound => "",
            ResponseError::BadRequest(m) => m.as_str(),
            ResponseError::Unauthorized => "",
            ResponseError::InternalServerError(m) => m.as_str(),
            ResponseError::MethodNotAllowed => "",
        }
    }
}

/// The body each failure response carries.
pub open spec fn body_text_of(e: ResponseErrorView) -> Seq<char> {
    match e {
        ResponseErrorView::BadRequest(m) => m,
        ResponseErrorView::InternalServerError(m) => m,
        _ => ""@,
    }
}

/// The diagnostic a hook that names an unknown credential produces.
pub open spec fn missing_credential_message(name: Seq<char>) -> Seq<char> {
    "misconfigured hook auth: '"@ + name + "' does not exist"@
}

/// Exec counterpart of `missing_credential_message`.
pub fn missing_credential_message_exec(name: &String) -> (r: String)
    ensures
        r@ == missing_credential_message(name@),
{
    let mut s = String::from_str("misconfigured hook auth: '");
    s.append(name.as_str());
    s.append("' does not exist");
    s
}

/// A route path with every trailing slash stripped; lookups are exact
/// matches on this form.
pub open spec fn normalize_path(p: Seq<char>) -> Seq<char>
    decreases p.len(),
{
    if p.len() > 0 && p[p.len() - 1] == '/' {
        normalize_path(p.drop_last())
    } else {
        p
    }
}

/// Exec counterpart of `normalize_path`.
pub fn normalize_path_exec(p: &str) -> (r: &str)
    ensures
        r@ == normalize_path(p@),
{
    let n = p.unicode_len();
    let mut e: usize = n;
    proof {
        assert(p@.subrange(0, n as int) =~= p@);
    }
    while e > 0 && p.get_char(e - 1) == '/'
        invariant
            e <= n,
            n == p@.len(),
            normalize_path(p@) == normalize_path(p@.subrange(0, e as int)),
        decreases e,
    {
        proof {
            let cur = p@.subrange(0, e as int);
            assert(cur[e as int - 1] == p@[e as int - 1]);
            assert(cur.drop_last() =~= p@.subrange(0, e as int - 1));
        }
        e -= 1;
    }
    p.substring_char(0, e)
}

/// The image of an optional borrowed string.
pub open spec fn view_opt_str(o: Option<&str>) -> Option<Seq<char>> {
    match o {
        Option::Some(s) => Option::Some(s@),
        Option::None => Option::None,
    }
}

/// The whole request pipeline's decision, for every snapshot and request:
/// path lookup after normalization, then the method constraint, then
/// authorization, with this fixed precedence of failures.
pub open spec fn dispatch_spec(
    cfg: DynamicConfigView,
    path: Seq<char>,
    method: Seq<char>,
    authorization: Option<Seq<char>>,
) -> Result<HookView, ResponseErrorView> {
    match assoc_lookup(cfg.hooks, normalize_path(path)) {
        Option::None => Result::Err(ResponseErrorView::NotFound),
        Option::Some(hook) => if hook.method matches Option::Some(m) && m != method {
            Result::Err(ResponseErrorView::MethodNotAllowed)
        } else {
            match hook.auth {
                Option::None => Result::Ok(hook),
                Option::Some(keys) => match authorization {
                    Option::None => if keys.len() == 0 {
                        Result::Ok(hook)
                    } else {
                        Result::Err(ResponseErrorView::Unauthorized)
                    },
                    Option::Some(header) => match parse_authorization_spec(header) {
                        Result::Err(e) => Result::Err(
                            ResponseErrorView::BadRequest(message_of(e)),
                        ),
                        Result::Ok(token) => match check_auth_spec(keys, store_of(cfg), token) {
                            AuthDecision::Granted => Result::Ok(hook),
                            AuthDecision::MissingCredential(k) => Result::Err(
                                ResponseErrorView::InternalServerError(
                                    missing_credential_message(k),
                                ),
                            ),
                            AuthDecision::Denied => Result::Err(ResponseErrorView::Unauthorized),
                        },
                    },
                },
            }
        },
    }
}

/// Resolve a request against a snapshot: find the hook for the normalized
/// path, enforce its method and credential constraints, and hand back the
/// hook to execute or the failure to answer with.
pub fn dispatch<'a>(
    cfg: &'a DynamicConfig,
    path: &str,
    method: &str,
    authorization: Option<&str>,
) -> (r: Result<&'a Hook, ResponseError>)
    ensures
        match dispatch_spec(cfg@, path@, method@, view_opt_str(authorization)) {
            Result::Ok(h) => r matches Result::Ok(rh) && rh@ == h,
            Result::Err(e) => r matches Result::Err(re) && re@ == e,
        },
{
    let normalized = normalize_path_exec(path).to_owned();
    let hook = match assoc_find(&cfg.hooks, &normalized) {
        None => {
            return Err(ResponseError::NotFound);
        },
        Some(h) => h,
    };
    if let Some(m) = &hook.method {
        if !str_eq(m.as_str(), method) {
            return Err(ResponseError::MethodNotAllowed);
        }
    }
    let keys = match &hook.auth {
        None => {
            return Ok(hook);
        },
        Some(keys) => keys,
    };
    let header = match authorization {
        None => {
            if keys.len() == 0 {
                return Ok(hook);
            }
            return Err(ResponseError::Unauthorized);
        },
        Some(h) => h,
    };
    let token = match parse_authorization(header) {
        Err(e) => {
            return Err(ResponseError::BadRequest(e.message().to_owned()));
        },
        Ok(t) => t,
    };
    let outcome = match &cfg.auth {
        Some(store) => check_auth_store(keys.as_slice(), store, &token),
        None => {
            let empty_store: Vec<(String, Auth)> = Vec::new();
            proof {
                assert(entries_view(empty_store@) =~= store_of(cfg@));
            }
            check_auth_store(keys.as_slice(), &empty_store, &token)
        },
    };
    match outcome {
        Ok(()) => Ok(hook),
        Err(e) => Err(e),
    }
}

/// A path with no hook under its normalized form is answered NotFound,
/// whatever the method and whatever authorization the request carries.
pub proof fn lemma_unknown_path_not_found(
    cfg: DynamicConfigView,
    path: Seq<char>,
    method: Seq<char>,
    authorization: Option<Seq<char>>,
)
    requires
        assoc_lookup(cfg.hooks, normalize_path(path)) is None,
    ensures
        dispatch_spec(cfg, path, method, authorization) == Result::<HookView,
            ResponseErrorView,
        >::Err(ResponseErrorView::NotFound),
{
}

/// A hook that declares a method refuses every request with a different
/// method, before authorization is even considered.
pub proof fn lemma_method_mismatch(
    cfg: DynamicConfigView,
    path: Seq<char>,
    method: Seq<char>,
    authorization: Option<Seq<char>>,
    hook: HookView,
)
    requires
        assoc_lookup(cfg.hooks, normalize_path(path)) == Option::Some(hook),
        hook.method matches Option::Some(m) && m != method,
    ensures
        dispatch_spec(cfg, path, method, authorization) == Result::<HookView,
            ResponseErrorView,
        >::Err(ResponseErrorView::MethodNotAllowed),
{
}

/// A request whose method is exactly the declared one passes the method
/// check: whatever authorization then decides, the answer is never
/// MethodNotAllowed.
pub proof fn lemma_method_match_passes(
    cfg: DynamicConfigView,
    path: Seq<char>,
    method: Seq<char>,
    authorization: Option<Seq<char>>,
    hook: HookView,
)
    requires
        assoc_lookup(cfg.hooks, normalize_path(path)) == Option::Some(hook),
        hook.method == Option::Some(method),
    ensures
        dispatch_spec(cfg, path, method, authorization) != Result::<HookView,
            ResponseErrorView,
        >::Err(ResponseErrorView::MethodNotAllowed),
{
}

/// A hook with no credential list at all performs no authentication: once
/// the path is found and the method check passes, every request is
/// authorized, with or without an `Authorization` header.
pub proof fn lemma_absent_credential_list_is_open(
    cfg: DynamicConfigView,
    path: Seq<char>,
    method: Seq<char>,
    authorization: Option<Seq<char>>,
    hook: HookView,
)
    requires
        assoc_lookup(cfg.hooks, normalize_path(path)) == Option::Some(hook),
        !(hook.method matches Option::Some(m) && m != method),
        hook.auth is None,
    ensures
        dispatch_spec(cfg, path, method, authorization) == Result::<HookView,
            ResponseErrorView,
        >::Ok(hook),
{
}

/// The other half of the empty-vs-absent asymmetry: a well-formed
/// `Authorization` header presented to a hook with an explicitly empty
/// credential list is checked against that empty list and refused.
pub proof fn lemma_empty_credential_list_with_header(
    cfg: DynamicConfigView,
    path: Seq<char>,
    method: Seq<char>,
    header: Seq<char>,
    hook: HookView,
)
    requires
        assoc_lookup(cfg.hooks, normalize_path(path)) == Option::Some(hook),
        !(hook.method matches Option::Some(m) && m != method),
        hook.auth == Option::Some(Seq::<Seq<char>>::empty()),
        parse_authorization_spec(header) is Ok,
    ensures
        dispatch_spec(cfg, path, method, Option::Some(header)) == Result::<HookView,
            ResponseErrorView,
        >::Err(ResponseErrorView::Unauthorized),
{
}

/// A hook with an explicitly empty credential list authorizes a request
/// that carries no `Authorization` header. (One that does carry a header is
/// checked against the empty list and refused — the asymmetry between an
/// empty and an absent list is deliberate.)
pub proof fn lemma_empty_credential_list_without_header(
    cfg: DynamicConfigView,
    path: Seq<char>,
    method: Seq<char>,
    hook: HookView,
)
    requires
        assoc_lookup(cfg.hooks, normalize_path(path)) == Option::Some(hook),
        !(hook.method matches Option::Some(m) && m != method),
        hook.auth == Option::Some(Seq::<Seq<char>>::empty()),
    ensures
        dispatch_spec(cfg, path, method, Option::None) == Result::<HookView,
            ResponseErrorView,
        >::Ok(hook),
{
}

} // verus!
