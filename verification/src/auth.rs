//! The token extractor and the authorization matcher.
//!
//! An `Authorization` header value is parsed into a typed token: the first
//! whitespace-separated field names the scheme (`basic` or `bearer`,
//! case-insensitively), the second carries the value. A Basic value is
//! standard base64 of UTF-8 text `username:password`, split at the first
//! colon. The matcher walks a hook's accepted credential names in order and
//! grants access on the first stored credential equal to the presented token.

use vstd::prelude::*;
use vstd::string::StrSliceExecFns;
use vstd::utf8::{decode_utf8, encode_scalar, encode_utf8, valid_utf8};

use crate::ResponseError;
use crate::ResponseErrorView;
use crate::config::{assoc_find, assoc_lookup, entries_view, view_string_seq};
use crate::config::{Auth, AuthView, Config};
use crate::missing_credential_message;
use crate::missing_credential_message_exec;
use crate::strings::{is_space, lower, lower_char, scan_char, scan_non_space, scan_space};
use crate::strings::{
    bytes_to_string, scan_char_exec, scan_non_space_exec, scan_space_exec, str_eq_lower,
};

verus! {

/// A parsed `Authorization` header value.
pub enum AuthenticationToken {
    Basic { username: String, password: String },
    Bearer(String),
}

/// Mathematical image of a token.
pub enum TokenView {
    Basic { username: Seq<char>, password: Seq<char> },
    Bearer(Seq<char>),
}

impl View for AuthenticationToken {
    type V = TokenView;

    open spec fn view(&self) -> TokenView {
        match self {
            AuthenticationToken::Basic { username, password } => (TokenView::Basic {
                username: username@,
                password: password@,
            }),
            AuthenticationToken::Bearer(t) => TokenView::Bearer(t@),
        }
    }
}

/// Every way an `Authorization` header value can be malformed.
#[derive(PartialEq, Eq, Structural, Clone, Copy, Debug)]
pub enum AuthParseError {
    EmptyHeader,
    UnknownScheme,
    MissingBearerValue,
    MissingBasicValue,
    InvalidBase64,
    InvalidUtf8,
    MissingColon,
}

impl AuthParseError {
    /// A short diagnostic for the 400 response body.
    pub fn message(&self) -> (r: &'static str)
        ensures
            r@ == message_of(*self),
    {
        match self {
            AuthParseError::EmptyHeader => "empty header value",
            AuthParseError::UnknownScheme => "invalid auth header value",
            AuthParseError::MissingBearerValue => "empty bearer value",
            AuthParseError::MissingBasicValue => "empty basic value",
            AuthParseError::InvalidBase64 => "invalid base64 in basic value",
            AuthParseError::InvalidUtf8 => "invalid utf-8 in basic value",
            AuthParseError::MissingColon => "invalid basic token format",
        }
    }
}

/// The diagnostic text of each parse failure.
pub open spec fn message_of(e: AuthParseError) -> Seq<char> {
    match e {
        AuthParseError::EmptyHeader => "empty header value"@,
        AuthParseError::UnknownScheme => "invalid auth header value"@,
        AuthParseError::MissingBearerValue => "empty bearer value"@,
        AuthParseError::MissingBasicValue => "empty basic value"@,
        AuthParseError::InvalidBase64 => "invalid base64 in basic value"@,
        AuthParseError::InvalidUtf8 => "invalid utf-8 in basic value"@,
        AuthParseError::MissingColon => "invalid basic token format"@,
    }
}

/// What the standard base64 engine makes of a character sequence: the decoded
/// bytes, or nothing when the input is not valid standard base64.
pub uninterp spec fn base64_decode_spec(s: Seq<char>) -> Option<Seq<u8>>;

/// Relies on `base64`'s `BASE64_STANDARD.decode`: success and the decoded
/// bytes are a function of the input characters alone.
#[verifier::external_body]
fn base64_decode(s: &str) -> (r: Option<Vec<u8>>)
    ensures
        match r {
            Option::Some(v) => base64_decode_spec(s@) == Option::Some(v@),
            Option::None => base64_decode_spec(s@) is None,
        },
{
    base64::Engine::decode(&base64::prelude::BASE64_STANDARD, s).ok()
}

/// Where the scheme field starts.
pub open spec fn scheme_start(s: Seq<char>) -> int {
    scan_non_space(s, 0)
}

/// Where the scheme field ends.
pub open spec fn scheme_end(s: Seq<char>) -> int {
    scan_space(s, scheme_start(s))
}

/// Where the value field starts.
pub open spec fn value_start(s: Seq<char>) -> int {
    scan_non_space(s, scheme_end(s))
}

/// Where the value field ends; later fields are ignored.
pub open spec fn value_end(s: Seq<char>) -> int {
    scan_space(s, value_start(s))
}

/// The first whitespace-separated field of a header value.
pub open spec fn scheme_of(s: Seq<char>) -> Seq<char> {
    s.subrange(scheme_start(s), scheme_end(s))
}

/// The second whitespace-separated field of a header value.
pub open spec fn value_of(s: Seq<char>) -> Seq<char> {
    s.subrange(value_start(s), value_end(s))
}

/// Split `username:password` text at its first colon, or nothing when it has
/// no colon.
pub open spec fn split_basic(text: Seq<char>) -> Option<(Seq<char>, Seq<char>)> {
    let k = scan_char(text, 0, ':');
    if k == text.len() {
        Option::None
    } else {
        Option::Some((text.subrange(0, k), text.subrange(k + 1, text.len() as int)))
    }
}

/// What parsing an `Authorization` header value yields, for every input.
pub open spec fn parse_authorization_spec(s: Seq<char>) -> Result<TokenView, AuthParseError> {
    if s.len() == 0 {
        Result::Err(AuthParseError::EmptyHeader)
    } else {
        let scheme = lower(scheme_of(s));
        let value = value_of(s);
        if scheme == lower("bearer"@) {
            if value.len() == 0 {
                Result::Err(AuthParseError::MissingBearerValue)
            } else {
                Result::Ok(TokenView::Bearer(value))
            }
        } else if scheme == lower("basic"@) {
            if value.len() == 0 {
                Result::Err(AuthParseError::MissingBasicValue)
            } else {
                match base64_decode_spec(value) {
                    Option::None => Result::Err(AuthParseError::InvalidBase64),
                    Option::Some(bytes) => if !valid_utf8(bytes) {
                        Result::Err(AuthParseError::InvalidUtf8)
                    } else {
                        match split_basic(decode_utf8(bytes)) {
                            Option::None => Result::Err(AuthParseError::MissingColon),
                            Option::Some(pair) => Result::Ok(TokenView::Basic {
                                username: pair.0,
                                password: pair.1,
                            }),
                        }
                    },
                }
            }
        } else {
            Result::Err(AuthParseError::UnknownScheme)
        }
    }
}

/// Parse an `Authorization` header value into a typed token.
pub fn parse_authorization(value: &str) -> (r: Result<AuthenticationToken, AuthParseError>)
    ensures
        match r {
            Result::Ok(t) => parse_authorization_spec(value@) matches Result::Ok(tv) && t@ == tv,
            Result::Err(e) => parse_authorization_spec(value@) == Result::<TokenView,
                AuthParseError,
            >::Err(e),
        },
{
    let n = value.unicode_len();
    if n == 0 {
        return Err(AuthParseError::EmptyHeader);
    }
    let a = scan_non_space_exec(value, 0, n);
    let b = scan_space_exec(value, a, n);
    let c = scan_non_space_exec(value, b, n);
    let d = scan_space_exec(value, c, n);
    let scheme = value.substring_char(a, b);
    if str_eq_lower(scheme, "bearer") {
        if c == d {
            return Err(AuthParseError::MissingBearerValue);
        }
        let token = value.substring_char(c, d);
        Ok(AuthenticationToken::Bearer(token.to_owned()))
    } else if str_eq_lower(scheme, "basic") {
        if c == d {
            return Err(AuthParseError::MissingBasicValue);
        }
        let encoded = value.substring_char(c, d);
        match base64_decode(encoded) {
            None => Err(AuthParseError::InvalidBase64),
            Some(bytes) => {
                let ghost decoded_bytes = bytes@;
                match bytes_to_string(bytes) {
                    None => Err(AuthParseError::InvalidUtf8),
                    Some(text) => {
                        let t = text.as_str();
                        let tn = t.unicode_len();
                        let k = scan_char_exec(t, 0, tn, ':');
                        if k == tn {
                            Err(AuthParseError::MissingColon)
                        } else {
                            let username = t.substring_char(0, k).to_owned();
                            let password = t.substring_char(k + 1, tn).to_owned();
                            Ok(AuthenticationToken::Basic { username, password })
                        }
                    },
                }
            },
        }
    } else {
        Err(AuthParseError::UnknownScheme)
    }
}

/// A scan that meets no whitespace runs to the end.
proof fn lemma_scan_space_none(s: Seq<char>, i: int)
    requires
        0 <= i <= s.len(),
        forall|j: int| i <= j < s.len() ==> !is_space(s[j]),
    ensures
        scan_space(s, i) == s.len(),
    decreases s.len() - i,
{
    if i < s.len() {
        lemma_scan_space_none(s, i + 1);
    }
}

/// A scan for `c` stops at the first position holding it.
proof fn lemma_scan_char_finds(s: Seq<char>, i: int, k: int, c: char)
    requires
        0 <= i <= k < s.len(),
        forall|j: int| i <= j < k ==> s[j] != c,
        s[k] == c,
    ensures
        scan_char(s, i, c) == k,
    decreases k - i,
{
    if i < k {
        lemma_scan_char_finds(s, i + 1, k, c);
    }
}

/// Splitting at the first colon undoes joining with a colon: for every
/// colon-free username and every password — which may itself contain
/// colons — the text `username:password` splits back into exactly that
/// username and that password.
pub proof fn lemma_split_basic_round_trip(username: Seq<char>, password: Seq<char>)
    requires
        !username.contains(':'),
    ensures
        split_basic(username + seq![':'] + password) == Option::Some((username, password)),
{
    let text = username + seq![':'] + password;
    let k = username.len() as int;
    assert(text[k] == ':');
    assert(forall|j: int| 0 <= j < k ==> text[j] == username[j]);
    assert(forall|j: int| 0 <= j < k ==> text[j] != ':') by {
        assert(forall|j: int| 0 <= j < k ==> username[j] != ':');
    }
    lemma_scan_char_finds(text, 0, k, ':');
    assert(text.subrange(0, k) =~= username);
    assert(text.subrange(k + 1, text.len() as int) =~= password);
}

/// UTF-8 encoding distributes over concatenation.
proof fn lemma_encode_utf8_concat(a: Seq<char>, b: Seq<char>)
    ensures
        encode_utf8(a + b) == encode_utf8(a) + encode_utf8(b),
    decreases a.len(),
{
    if a.len() == 0 {
        assert(a + b =~= b);
        assert(encode_utf8(a) + encode_utf8(b) =~= encode_utf8(b));
    } else {
        assert((a + b).drop_first() =~= a.drop_first() + b);
        lemma_encode_utf8_concat(a.drop_first(), b);
        assert((a + b)[0] == a[0]);
        assert(encode_scalar(a[0] as u32) + (encode_utf8(a.drop_first()) + encode_utf8(b))
            =~= (encode_scalar(a[0] as u32) + encode_utf8(a.drop_first())) + encode_utf8(b));
    }
}

/// The characters the standard base64 alphabet (with padding) can emit.
pub open spec fn is_base64_char(c: char) -> bool {
    ('A' <= c && c <= 'Z') || ('a' <= c && c <= 'z') || ('0' <= c && c <= '9') || c == '+' || c
        == '/' || c == '='
}

/// Relies on `base64`'s `BASE64_STANDARD.encode`: the standard engine
/// decodes its own (padded) output back to the encoded bytes, emits only
/// alphabet and padding characters, and emits at least one character for a
/// non-empty input.
#[verifier::external_body]
fn base64_encode(v: &Vec<u8>) -> (r: String)
    ensures
        base64_decode_spec(r@) == Option::Some(v@),
        v@.len() > 0 ==> r@.len() > 0,
        forall|i: int| 0 <= i < r@.len() ==> is_base64_char(#[trigger] r@[i]),
{
    base64::Engine::encode(&base64::prelude::BASE64_STANDARD, v.as_slice())
}

/// Build the `Authorization` header value that names this username and
/// password: `Basic` followed by base64 of `username:password`. Parsing the
/// result recovers exactly the pair that went in — the round trip law. A
/// username holding a colon cannot survive the trip (the split takes the
/// first colon), so it is ruled out.
pub fn encode_basic_authorization(username: &str, password: &str) -> (r: String)
    requires
        !username@.contains(':'),
    ensures
        parse_authorization_spec(r@) == Result::<TokenView, AuthParseError>::Ok(
            TokenView::Basic { username: username@, password: password@ },
        ),
{
    let ghost text = username@ + seq![':'] + password@;
    let mut payload = username.as_bytes_vec();
    payload.push(58);
    let mut tail = password.as_bytes_vec();
    payload.append(&mut tail);
    proof {
        lemma_encode_utf8_concat(username@ + seq![':'], password@);
        lemma_encode_utf8_concat(username@, seq![':']);
        assert(':' as u32 == 58);
        assert(seq![':'].drop_first() =~= Seq::<char>::empty());
        assert(encode_utf8(Seq::<char>::empty()) == Seq::<u8>::empty());
        assert(seq![':'][0] == ':');
        assert(58u32 & 0x7F == 58) by (bit_vector);
        assert(encode_scalar(58) =~= seq![58u8]);
        assert(encode_utf8(seq![':']) =~= seq![58u8]);
        assert(payload@ =~= encode_utf8(text));
    }
    let encoded = base64_encode(&payload);
    let mut r = String::from_str("Basic ");
    r.append(encoded.as_str());
    proof {
        broadcast use vstd::utf8::encode_utf8_valid_utf8;
        broadcast use vstd::utf8::encode_utf8_decode_utf8;

        reveal_strlit("Basic ");
        reveal_strlit("Basic");
        reveal_strlit("basic");
        reveal_strlit("bearer");
        let s = r@;
        let pre = "Basic "@;
        assert(pre.len() == 6);
        assert(s.len() == 6 + encoded@.len());
        assert(forall|j: int| 0 <= j < 6 ==> s[j] == pre[j]);
        assert(forall|j: int| 6 <= j < s.len() ==> s[j] == encoded@[j - 6]);
        assert(forall|j: int| 6 <= j < s.len() ==> !is_space(s[j])) by {
            assert(forall|j: int| 6 <= j < s.len() ==> is_base64_char(#[trigger] s[j]) || s[j]
                == encoded@[j - 6]);
        }
        // The scheme field is the first five characters.
        assert(scheme_start(s) == 0) by {
            assert(!is_space(s[0]));
        }
        assert(scan_space(s, 0) == 5) by {
            assert(!is_space(s[0]) && !is_space(s[1]) && !is_space(s[2]) && !is_space(s[3])
                && !is_space(s[4]) && is_space(s[5]));
            reveal_with_fuel(scan_space, 7);
        }
        assert(scheme_of(s) =~= "Basic"@);
        // The value field is the rest, base64 having no whitespace.
        assert(payload@.len() > 0);
        assert(encoded@.len() > 0);
        assert(value_start(s) == 6) by {
            assert(is_space(s[5]) && !is_space(s[6]));
            reveal_with_fuel(scan_non_space, 3);
        }
        lemma_scan_space_none(s, 6);
        assert(value_of(s) =~= encoded@);
        // The scheme says basic, not bearer.
        assert(lower(scheme_of(s)) =~= lower("basic"@)) by {
            assert(lower(scheme_of(s)).len() == 5);
            assert(forall|j: int| 0 <= j < 5 ==> lower(scheme_of(s))[j] == lower_char(
                #[trigger] scheme_of(s)[j],
            ));
            assert(lower_char('B') == 'b' && lower_char('a') == 'a' && lower_char('s') == 's'
                && lower_char('i') == 'i' && lower_char('c') == 'c');
        }
        assert(lower(scheme_of(s)) != lower("bearer"@)) by {
            assert(lower("bearer"@).len() == 6);
        }
        // Decoding undoes the encoding, and the colon split undoes the join.
        assert(base64_decode_spec(value_of(s)) == Option::Some(payload@));
        assert(valid_utf8(payload@));
        assert(decode_utf8(payload@) == text);
        lemma_split_basic_round_trip(username@, password@);
    }
    r
}

/// How a walk of a hook's accepted credential names ends.
pub enum AuthDecision {
    Granted,
    MissingCredential(Seq<char>),
    Denied,
}

/// Whether a stored credential equals a presented token: same kind, same
/// secrets.
pub open spec fn credential_matches(cred: AuthView, token: TokenView) -> bool {
    match cred {
        AuthView::Basic { username: cu, password: cp } => token matches TokenView::Basic {
            username,
            password,
        } && cu == username && cp == password,
        AuthView::Bearer { token: ct } => token matches TokenView::Bearer(t) && ct == t,
    }
}

/// The matcher's walk: the first name missing from the store is a
/// configuration fault; the first name whose credential equals the token
/// grants access; an exhausted list denies it.
pub open spec fn check_auth_spec(
    keys: Seq<Seq<char>>,
    store: Seq<(Seq<char>, AuthView)>,
    token: TokenView,
) -> AuthDecision
    decreases keys.len(),
{
    if keys.len() == 0 {
        AuthDecision::Denied
    } else {
        match assoc_lookup(store, keys[0]) {
            Option::None => AuthDecision::MissingCredential(keys[0]),
            Option::Some(cred) => if credential_matches(cred, token) {
                AuthDecision::Granted
            } else {
                check_auth_spec(keys.drop_first(), store, token)
            },
        }
    }
}

/// Exec counterpart of `credential_matches`.
pub fn credential_matches_exec(cred: &Auth, token: &AuthenticationToken) -> (r: bool)
    ensures
        r == credential_matches(cred@, token@),
{
    match cred {
        Auth::Basic(b) => match token {
            AuthenticationToken::Basic { username, password } => b.username == *username
                && b.password == *password,
            _ => false,
        },
        Auth::Bearer(b) => match token {
            AuthenticationToken::Bearer(t) => b.token == *t,
            _ => false,
        },
    }
}

/// Walk `auth_keys` in order against the store `store`, as
/// `check_auth_spec` describes.
pub fn check_auth_store(
    auth_keys: &[String],
    store: &Vec<(String, Auth)>,
    token: &AuthenticationToken,
) -> (r: Result<(), ResponseError>)
    ensures
        match check_auth_spec(view_string_seq(auth_keys@), entries_view(store@), token@) {
            AuthDecision::Granted => r is Ok,
            AuthDecision::Denied => r matches Err(e) && e@ == ResponseErrorView::Unauthorized,
            AuthDecision::MissingCredential(k) => r matches Err(e) && e@
                == ResponseErrorView::InternalServerError(missing_credential_message(k)),
        },
{
    let ghost kv = view_string_seq(auth_keys@);
    let ghost sv = entries_view(store@);
    proof {
        assert(kv.skip(0) =~= kv);
    }
    let n = auth_keys.len();
    let mut i: usize = 0;
    while i < n
        invariant
            i <= n,
            n == auth_keys@.len(),
            kv == view_string_seq(auth_keys@),
            sv == entries_view(store@),
            check_auth_spec(kv, sv, token@) == check_auth_spec(kv.skip(i as int), sv, token@),
        decreases n - i,
    {
        proof {
            assert(kv[i as int] == auth_keys@[i as int]@);
            assert(kv.skip(i as int)[0] == kv[i as int]);
        }
        let key = &auth_keys[i];
        match assoc_find(store, key) {
            None => {
                return Err(ResponseError::InternalServerError(missing_credential_message_exec(key)));
            },
            Some(cred) => {
                if credential_matches_exec(cred, token) {
                    return Ok(());
                }
            },
        }
        proof {
            assert(kv.skip(i as int).drop_first() =~= kv.skip(i as int + 1));
        }
        i += 1;
    }
    proof {
        assert(kv.skip(n as int) =~= Seq::<Seq<char>>::empty());
    }
    Err(ResponseError::Unauthorized)
}

/// Check a presented token against the credential names a hook accepts,
/// using the credential store of `config`.
pub fn check_auth(auth_keys: &[String], config: &Config, token: AuthenticationToken) -> (r: Result<
    (),
    ResponseError,
>)
    ensures
        match check_auth_spec(view_string_seq(auth_keys@), entries_view(config.auth@), token@) {
            AuthDecision::Granted => r is Ok,
            AuthDecision::Denied => r matches Err(e) && e@ == ResponseErrorView::Unauthorized,
            AuthDecision::MissingCredential(k) => r matches Err(e) && e@
                == ResponseErrorView::InternalServerError(missing_credential_message(k)),
        },
{
    check_auth_store(auth_keys, &config.auth, &token)
}

} // verus!
