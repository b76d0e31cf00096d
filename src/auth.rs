use vstd::prelude::*;

verus! {

/// A caller that passed the bearer-key check.
#[derive(Clone, Debug)]
pub struct ApiUser {
    pub api_key: String,
    pub is_valid: Option<bool>,
}

/// The refusal of a request that carried no valid key.
#[derive(Clone, Debug)]
pub struct UnAuthorizedError {
    route: String,
}

pub open spec fn unauthorized_prefix() -> Seq<char> {
    "Unauthorized access to route: "@
}

impl UnAuthorizedError {
    pub fn new(route: &str) -> (r: UnAuthorizedError)
        ensures
            r.route_spec() == route@,
    {
        UnAuthorizedError { route: route.to_owned() }
    }

    pub closed spec fn route_spec(&self) -> Seq<char> {
        self.route@
    }

    /// The route that was refused.
    pub fn route(&self) -> (r: &String)
        ensures
            r@ == self.route_spec(),
    {
        &self.route
    }

    /// A short description of the error.
    pub fn description(&self) -> (r: &'static str)
        ensures
            r@ == "Unauthorized access attempted"@,
    {
        "Unauthorized access attempted"
    }

    /// The error as shown to a user.
    pub fn message(&self) -> (r: String)
        ensures
            r@ == unauthorized_prefix() + self.route_spec(),
    {
        String::from_str("Unauthorized access to route: ").concat(self.route.as_str())
    }
}

/// The scheme prefix of an `Authorization` header.
pub open spec fn bearer_prefix() -> Seq<char> {
    "Bearer "@
}

/// `s` with every leading copy of the bearer prefix removed.
pub open spec fn strip_bearer(s: Seq<char>) -> Seq<char>
    decreases s.len(),
{
    if s.len() >= 7 && s.subrange(0, 7) == bearer_prefix() {
        strip_bearer(s.subrange(7, s.len() as int))
    } else {
        s
    }
}

/// The key an `Authorization` header carries: what is left after the
/// prefix, if the header had the prefix and something follows it.
pub open spec fn bearer_key_spec(header: Seq<char>) -> Option<Seq<char>> {
    let key = strip_bearer(header);
    if key.len() == 0 || key == header {
        None
    } else {
        Some(key)
    }
}

/// Extracts the key from an `Authorization` header value.
pub fn bearer_key(header: &str) -> (r: Option<String>)
    ensures
        r is Some <==> bearer_key_spec(header@) is Some,
        r matches Some(k) ==> Some(k@) == bearer_key_spec(header@),
{
    proof {
        reveal_strlit("Bearer ");
    }
    let n = header.unicode_len();
    let mut pos: usize = 0;
    assert(header@.subrange(0, n as int) =~= header@);
    while n - pos >= 7 && header.substring_char(pos, pos + 7).to_owned() == String::from_str("Bearer ")
        invariant
            n == header@.len(),
            pos <= n,
            strip_bearer(header@.subrange(pos as int, n as int)) == strip_bearer(header@),
        decreases n - pos,
    {
        let ghost rest = header@.subrange(pos as int, n as int);
        assert(rest.subrange(0, 7) =~= header@.subrange(pos as int, pos + 7));
        assert(rest.subrange(7, rest.len() as int) =~= header@.subrange(pos + 7, n as int));
        pos = pos + 7;
    }
    let ghost rest = header@.subrange(pos as int, n as int);
    assert(n - pos >= 7 ==> rest.subrange(0, 7) =~= header@.subrange(pos as int, pos + 7));
    assert(strip_bearer(rest) == rest);
    if pos == n || pos == 0 {
        assert(pos == 0 ==> rest =~= header@);
        assert(pos == n ==> rest.len() == 0);
        None
    } else {
        assert(rest.len() < header@.len());
        Some(header.substring_char(pos, n).to_owned())
    }
}

/// The characters with the Unicode `White_Space` property, which is what
/// `char::is_whitespace` tests.
pub open spec fn is_white_space(c: char) -> bool {
    ||| ('\t' <= c && c <= '\r')
    ||| c == ' '
    ||| c == '\u{85}'
    ||| c == '\u{a0}'
    ||| c == '\u{1680}'
    ||| ('\u{2000}' <= c && c <= '\u{200a}')
    ||| c == '\u{2028}'
    ||| c == '\u{2029}'
    ||| c == '\u{202f}'
    ||| c == '\u{205f}'
    ||| c == '\u{3000}'
}

/// `s` without its leading white space.
pub open spec fn trim_start(s: Seq<char>) -> Seq<char>
    decreases s.len(),
{
    if s.len() > 0 && is_white_space(s[0]) {
        trim_start(s.drop_first())
    } else {
        s
    }
}

/// `s` without its trailing white space.
pub open spec fn trim_end(s: Seq<char>) -> Seq<char>
    decreases s.len(),
{
    if s.len() > 0 && is_white_space(s.last()) {
        trim_end(s.drop_last())
    } else {
        s
    }
}

/// `s` without its leading and trailing white space.
pub open spec fn trimmed(s: Seq<char>) -> Seq<char> {
    trim_end(trim_start(s))
}

/// Relies on `str::trim`: the slice without the leading and trailing
/// characters that have the Unicode `White_Space` property.
#[verifier::external_body]
fn trim_str(s: &str) -> (r: &str)
    ensures
        r@ == trimmed(s@),
{
    s.trim()
}

/// `s[a..b]` is one of the comma-separated pieces of `s`.
pub open spec fn is_piece(s: Seq<char>, a: int, b: int) -> bool {
    &&& 0 <= a <= b <= s.len()
    &&& (a == 0 || s[a - 1] == ',')
    &&& (b == s.len() || s[b] == ',')
    &&& forall|k: int| a <= k < b ==> s[k] != ','
}

/// `key` is one of the configured keys: the list is not empty and one of
/// its comma-separated pieces, trimmed, is `key`.
pub open spec fn key_listed(keys: Seq<char>, key: Seq<char>) -> bool {
    keys.len() > 0 && exists|a: int, b: int|
        #[trigger] is_piece(keys, a, b) && trimmed(keys.subrange(a, b)) == key
}

/// A piece that ends at or after `start`, where `start` begins a piece
/// and no comma lies between, begins at `start`.
proof fn lemma_piece_begins_at(s: Seq<char>, start: int, a: int, b: int)
    requires
        is_piece(s, a, b),
        0 <= start <= b,
        start == 0 || s[start - 1] == ',',
        forall|k: int| start <= k < b ==> s[k] != ',',
    ensures
        a == start,
{
    if a < start {
        assert(s[start - 1] != ',');
    }
    if a > start {
        assert(s[a - 1] != ',');
    }
}

/// Whether `api_key` is among `valid_keys`, a comma-separated list. An
/// empty list accepts no key.
pub fn is_valid_api_key(api_key: &str, valid_keys: &str) -> (r: bool)
    ensures
        r == key_listed(valid_keys@, api_key@),
{
    let n = valid_keys.unicode_len();
    if n == 0 {
        return false;
    }
    let ghost s = valid_keys@;
    let mut start: usize = 0;
    let mut i: usize = 0;
    while i < n
        invariant
            n == s.len(),
            s == valid_keys@,
            start <= i <= n,
            start == 0 || s[start - 1] == ',',
            forall|k: int| start <= k < i ==> s[k] != ',',
            forall|a: int, b: int|
                #[trigger] is_piece(s, a, b) && b < i ==> trimmed(s.subrange(a, b)) != api_key@,
        decreases n - i,
    {
        if valid_keys.get_char(i) == ',' {
            let t = trim_str(valid_keys.substring_char(start, i));
            assert(is_piece(s, start as int, i as int));
            if t.to_owned() == api_key.to_owned() {
                assert(key_listed(s, api_key@));
                return true;
            }
            assert forall|a: int, b: int| #[trigger] is_piece(s, a, b) && b < i + 1 implies trimmed(
                s.subrange(a, b),
            ) != api_key@ by {
                if b == i {
                    lemma_piece_begins_at(s, start as int, a, b);
                }
            }
            start = i + 1;
        }
        i = i + 1;
    }
    let t = trim_str(valid_keys.substring_char(start, n));
    assert(is_piece(s, start as int, n as int));
    if t.to_owned() == api_key.to_owned() {
        assert(key_listed(s, api_key@));
        return true;
    }
    assert forall|a: int, b: int| #[trigger] is_piece(s, a, b) implies trimmed(s.subrange(a, b))
        != api_key@ by {
        if b == n {
            lemma_piece_begins_at(s, start as int, a, b);
        }
    }
    false
}

/// Decides whether a request may pass: with checking switched off every
/// request passes; otherwise the `Authorization` header must carry a bearer
/// key that is among `valid_keys`. A refusal names `route`.
pub fn authorize(auth_disabled: bool, header: Option<&str>, valid_keys: &str, route: &str) -> (r:
    Result<ApiUser, UnAuthorizedError>)
    ensures
        r is Ok <==> auth_disabled || (header is Some && bearer_key_spec(header->0@) is Some
            && key_listed(valid_keys@, bearer_key_spec(header->0@)->0)),
        r matches Ok(u) ==> u.is_valid == Some(true) && (auth_disabled ==> u.api_key@.len() == 0)
            && (!auth_disabled ==> Some(u.api_key@) == bearer_key_spec(header->0@)),
        r matches Err(e) ==> e.route_spec() == route@,
{
    if auth_disabled {
        return Ok(ApiUser { api_key: String::new(), is_valid: Some(true) });
    }
    if let Some(h) = header {
        if let Some(key) = bearer_key(h) {
            if is_valid_api_key(key.as_str(), valid_keys) {
                return Ok(ApiUser { api_key: key, is_valid: Some(true) });
            }
        }
    }
    Err(UnAuthorizedError::new(route))
}

/// ASCII letters and digits.
pub open spec fn is_ascii_alnum(c: char) -> bool {
    ||| ('A' <= c && c <= 'Z')
    ||| ('a' <= c && c <= 'z')
    ||| ('0' <= c && c <= '9')
}

/// A fresh random key of `length` characters.
///
/// Relies on rand's thread-local generator sampled through the
/// `Alphanumeric` distribution, which yields only `A`-`Z`, `a`-`z` and
/// `0`-`9`; nothing is promised of which characters come out.
#[verifier::external_body]
pub fn generate_bearer_key(length: usize) -> (r: String)
    ensures
        r@.len() == length,
        forall|i: int| 0 <= i < r@.len() ==> is_ascii_alnum(#[trigger] r@[i]),
{
    rand::Rng::sample_iter(rand::rng(), &rand::distr::Alphanumeric).take(length).map(char::from).collect()
}

} // verus!
