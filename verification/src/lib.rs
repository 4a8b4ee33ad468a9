//! A minimal service-to-service authenticator: a fixed registry of
//! shared-secret bearer tokens, each bound to a service identity with
//! permissions and roles, and a validator that parses `Authorization`
//! header values and looks the extracted token up in the registry.
//!
//! Tokens are opaque static secrets: there is no expiry, signing, or
//! revocation. The registry is built once by [`AuthClient::new`] and never
//! mutated afterwards, so validation is a pure function of the header value
//! and the registry contents.

use vstd::prelude::*;
use vstd::string::{StrSliceExecFns, StringExecFns};

pub mod ascii;
pub mod header;
pub mod model;
pub mod retailer_code;

pub use model::{ClientId, Permission, Role};
pub use retailer_code::{RetailerCode, RetailerCodeError};

use ascii::fold_char;
use header::{header_token, is_bearer_scheme, is_ws, lemma_first_space_idx_at,
    lemma_trim_end_take, lemma_trim_start_skip, trim_spec, ws_char};

verus! {

/// Authenticated service identity: the result of a successful validation.
#[derive(Debug, Clone)]
pub struct ServiceIdentity {
    pub client_id: ClientId,
    pub permissions: Vec<Permission>,
    pub roles: Vec<Role>,
}

/// Mathematical value of a [`ServiceIdentity`]: the same three fields with
/// the permission and role collections abstracted to sequences.
pub struct IdentityView {
    pub client_id: ClientId,
    pub permissions: Seq<Permission>,
    pub roles: Seq<Role>,
}

impl View for ServiceIdentity {
    type V = IdentityView;

    open spec fn view(&self) -> IdentityView {
        IdentityView {
            client_id: self.client_id,
            permissions: self.permissions@,
            roles: self.roles@,
        }
    }
}

/// Validation failure, exactly one of three kinds.
///
/// `MissingHeader` is reserved for callers that decide whether an
/// authorization header was supplied at all before calling into this
/// library; [`AuthClient::validate`] and [`AuthClient::validate_token`]
/// never produce it.
#[derive(Debug)]
pub enum AuthError {
    MissingHeader,
    InvalidFormat,
    InvalidToken,
}

/// Registry record binding a token to the identity it authenticates.
#[derive(Debug)]
struct CredentialRecord {
    token: String,
    identity: ServiceIdentity,
}

/// Token-to-identity mapping held by a sequence of credential records; the
/// earliest record with a given token wins.
spec fn records_map(s: Seq<CredentialRecord>) -> Map<Seq<char>, IdentityView>
    decreases s.len(),
{
    if s.len() == 0 {
        Map::empty()
    } else {
        records_map(s.drop_first()).insert(s.first().token@, s.first().identity@)
    }
}

/// A record whose token is not shadowed by an earlier record is what the
/// map holds for that token.
proof fn lemma_records_map_found(s: Seq<CredentialRecord>, i: int, t: Seq<char>)
    requires
        0 <= i < s.len(),
        s[i].token@ == t,
        forall|j: int| 0 <= j < i ==> s[j].token@ != t,
    ensures
        records_map(s).contains_key(t),
        records_map(s)[t] == s[i].identity@,
    decreases i,
{
    if i > 0 {
        let r = s.drop_first();
        assert(forall|j: int| 0 <= j < i - 1 ==> r[j] == s[j + 1]);
        lemma_records_map_found(r, i - 1, t);
        assert(s[0].token@ != t);
    }
}

/// A token carried by no record is absent from the map.
proof fn lemma_records_map_absent(s: Seq<CredentialRecord>, t: Seq<char>)
    requires
        forall|j: int| 0 <= j < s.len() ==> s[j].token@ != t,
    ensures
        !records_map(s).contains_key(t),
    decreases s.len(),
{
    if s.len() > 0 {
        let r = s.drop_first();
        assert(forall|j: int| 0 <= j < r.len() ==> r[j] == s[j + 1]);
        lemma_records_map_absent(r, t);
    }
}

/// The authoritative registry contents: each registered token mapped to the
/// identity it authenticates.
pub open spec fn registry_map() -> Map<Seq<char>, IdentityView> {
    Map::empty().insert(
        model::CRAWLER@,
        IdentityView {
            client_id: ClientId::Crawler,
            permissions: seq![Permission::TestPermission],
            roles: seq![Role::TestRole],
        },
    ).insert(
        model::RETRIEVER@,
        IdentityView {
            client_id: ClientId::Retriever,
            permissions: Seq::empty(),
            roles: Seq::empty(),
        },
    ).insert(
        model::VENDOR_SOURCING@,
        IdentityView {
            client_id: ClientId::VendorSourcing,
            permissions: seq![Permission::FetchUrl],
            roles: Seq::empty(),
        },
    )
}

/// Auth client: an immutable token registry together with the validation
/// entry points. Construction happens once; every later operation is a pure
/// read, so a client can be shared freely across concurrent callers.
#[derive(Debug)]
pub struct AuthClient {
    tokens: Vec<CredentialRecord>,
}

impl View for AuthClient {
    type V = Map<Seq<char>, IdentityView>;

    closed spec fn view(&self) -> Map<Seq<char>, IdentityView> {
        records_map(self.tokens@)
    }
}

impl AuthClient {
    /// Create a new auth client holding the registered credentials.
    pub fn new() -> (client: AuthClient)
        ensures
            client@ == registry_map(),
    {
        let mut vendor_permissions: Vec<Permission> = Vec::new();
        vendor_permissions.push(Permission::FetchUrl);
        let mut crawler_permissions: Vec<Permission> = Vec::new();
        crawler_permissions.push(Permission::TestPermission);
        let mut crawler_roles: Vec<Role> = Vec::new();
        crawler_roles.push(Role::TestRole);

        let mut tokens: Vec<CredentialRecord> = Vec::new();
        tokens.push(CredentialRecord {
            token: String::from_str(model::VENDOR_SOURCING),
            identity: ServiceIdentity {
                client_id: ClientId::VendorSourcing,
                permissions: vendor_permissions,
                roles: Vec::new(),
            },
        });
        tokens.push(CredentialRecord {
            token: String::from_str(model::RETRIEVER),
            identity: ServiceIdentity {
                client_id: ClientId::Retriever,
                permissions: Vec::new(),
                roles: Vec::new(),
            },
        });
        tokens.push(CredentialRecord {
            token: String::from_str(model::CRAWLER),
            identity: ServiceIdentity {
                client_id: ClientId::Crawler,
                permissions: crawler_permissions,
                roles: crawler_roles,
            },
        });

        let client = AuthClient { tokens };
        proof {
            let s = client.tokens@;
            let s1 = s.drop_first();
            let s2 = s1.drop_first();
            let s3 = s2.drop_first();
            assert(s3.len() == 0);
            assert(records_map(s3) == Map::<Seq<char>, IdentityView>::empty());
            assert(records_map(s2) == records_map(s3).insert(
                s2.first().token@,
                s2.first().identity@,
            ));
            assert(records_map(s1) == records_map(s2).insert(
                s1.first().token@,
                s1.first().identity@,
            ));
            assert(records_map(s) == records_map(s1).insert(
                s.first().token@,
                s.first().identity@,
            ));
            assert(s2.first().identity@.permissions =~= seq![Permission::TestPermission]);
            assert(s2.first().identity@.roles =~= seq![Role::TestRole]);
            assert(s1.first().identity@.permissions =~= Seq::<Permission>::empty());
            assert(s1.first().identity@.roles =~= Seq::<Role>::empty());
            assert(s.first().identity@.permissions =~= seq![Permission::FetchUrl]);
            assert(s.first().identity@.roles =~= Seq::<Role>::empty());
            assert(client@ =~= registry_map());
        }
        client
    }
}

/// What the validation entry points promise of a token lookup: success
/// returns exactly the identity registered under the token, and a lookup
/// miss is `InvalidToken`.
pub open spec fn validate_token_post(
    m: Map<Seq<char>, IdentityView>,
    t: Seq<char>,
    r: Result<IdentityView, AuthError>,
) -> bool {
    match r {
        Ok(id) => m.contains_key(t) && id == m[t],
        Err(e) => e is InvalidToken && !m.contains_key(t),
    }
}

/// What header validation promises: a malformed header is `InvalidFormat`,
/// and a well-formed header behaves as a lookup of its extracted token.
pub open spec fn validate_post(
    m: Map<Seq<char>, IdentityView>,
    h: Seq<char>,
    r: Result<IdentityView, AuthError>,
) -> bool {
    match header_token(h) {
        Some(t) => validate_token_post(m, t, r),
        None => r matches Err(e) && e is InvalidFormat,
    }
}

/// The mathematical value of a validation result: the identity abstracted
/// to its view, the error kept as it is.
pub open spec fn result_view(r: Result<&ServiceIdentity, AuthError>) -> Result<
    IdentityView,
    AuthError,
> {
    match r {
        Ok(id) => Ok(id@),
        Err(e) => Err(e),
    }
}

impl AuthClient {
    /// Validate a Bearer token from an `Authorization` header value.
    ///
    /// Expects the format `"Bearer <token>"` and returns the registered
    /// identity if the extracted token is valid.
    pub fn validate<'a>(&'a self, auth_header: &str) -> (r: Result<&'a ServiceIdentity, AuthError>)
        ensures
            validate_post(self@, auth_header@, result_view(r)),
    {
        match Self::extract_bearer_token(auth_header) {
            Ok(token) => self.validate_token(token),
            Err(e) => Err(e),
        }
    }

    /// Validate a token directly, without the Bearer prefix.
    ///
    /// Returns the registered identity if the token is valid.
    pub fn validate_token<'a>(&'a self, token: &str) -> (r: Result<&'a ServiceIdentity, AuthError>)
        ensures
            validate_token_post(self@, token@, result_view(r)),
    {
        let owned: String = String::from_str(token);
        let n = self.tokens.len();
        let mut i: usize = 0;
        while i < n
            invariant
                n == self.tokens.len(),
                0 <= i <= n,
                owned@ == token@,
                forall|j: int| 0 <= j < i ==> self.tokens@[j].token@ != token@,
            decreases n - i,
        {
            if self.tokens[i].token == owned {
                proof {
                    lemma_records_map_found(self.tokens@, i as int, token@);
                }
                return Ok(&self.tokens[i].identity);
            }
            i += 1;
        }
        proof {
            lemma_records_map_absent(self.tokens@, token@);
        }
        Err(AuthError::InvalidToken)
    }

    /// Extract the token from a `"Bearer <token>"` header value.
    fn extract_bearer_token<'h>(auth_header: &'h str) -> (r: Result<&'h str, AuthError>)
        ensures
            match r {
                Ok(t) => header_token(auth_header@) == Some(t@),
                Err(e) => e is InvalidFormat && header_token(auth_header@) is None,
            },
    {
        let n = auth_header.unicode_len();
        let mut i: usize = 0;
        while i < n && auth_header.get_char(i) != ' '
            invariant
                n == auth_header@.len(),
                0 <= i <= n,
                forall|j: int| 0 <= j < i ==> auth_header@[j] != ' ',
            decreases n - i,
        {
            i += 1;
        }
        proof {
            lemma_first_space_idx_at(auth_header@, i as int);
        }
        if i == n {
            return Err(AuthError::InvalidFormat);
        }
        let scheme_ok: bool = i == 6 && fold_char(auth_header.get_char(0)) == 'b' as u32
            && fold_char(auth_header.get_char(1)) == 'e' as u32
            && fold_char(auth_header.get_char(2)) == 'a' as u32
            && fold_char(auth_header.get_char(3)) == 'r' as u32
            && fold_char(auth_header.get_char(4)) == 'e' as u32
            && fold_char(auth_header.get_char(5)) == 'r' as u32;
        if !scheme_ok {
            proof {
                assert(!is_bearer_scheme(auth_header@.take(i as int)));
            }
            return Err(AuthError::InvalidFormat);
        }
        let mut a: usize = i + 1;
        while a < n && ws_char(auth_header.get_char(a))
            invariant
                n == auth_header@.len(),
                i + 1 <= a <= n,
                forall|j: int| i + 1 <= j < a ==> is_ws(auth_header@[j]),
            decreases n - a,
        {
            a += 1;
        }
        let mut b: usize = n;
        while b > a && ws_char(auth_header.get_char(b - 1))
            invariant
                n == auth_header@.len(),
                a <= b <= n,
                forall|j: int| b <= j < n ==> is_ws(auth_header@[j]),
            decreases b,
        {
            b -= 1;
        }
        proof {
            let h = auth_header@;
            let rest = h.skip(i + 1);
            assert(forall|j: int| 0 <= j < rest.len() ==> rest[j] == h[j + i + 1]);
            if a == b {
                lemma_trim_start_skip(rest, rest.len() as int);
                assert(trim_spec(rest).len() == 0);
            } else {
                assert(!is_ws(h[a as int]));
                assert(!is_ws(h[b - 1]));
                lemma_trim_start_skip(rest, a - (i + 1));
                let mid = h.subrange(a as int, n as int);
                assert(rest.skip(a - (i + 1)) =~= mid);
                assert(forall|j: int| 0 <= j < mid.len() ==> mid[j] == h[j + a]);
                lemma_trim_end_take(mid, b - a);
                assert(mid.take(b - a) =~= h.subrange(a as int, b as int));
                assert(trim_spec(rest) == h.subrange(a as int, b as int));
            }
        }
        if a == b {
            return Err(AuthError::InvalidFormat);
        }
        let token = auth_header.substring_char(a, b);
        Ok(token)
    }
}

/// The two entry points are equivalent on direct tokens: for a trimmed,
/// non-empty token, a result satisfies the contract of `validate` on
/// `"Bearer "` followed by the token exactly when it satisfies the contract
/// of `validate_token` on the token itself.
pub proof fn lemma_entry_points_agree(
    m: Map<Seq<char>, IdentityView>,
    t: Seq<char>,
    r: Result<IdentityView, AuthError>,
)
    requires
        t.len() > 0,
        trim_spec(t) == t,
    ensures
        validate_post(m, "Bearer "@ + t, r) == validate_token_post(m, t, r),
{
    header::lemma_bearer_header_token(t);
}

/// Every registered token is non-empty and free of leading and trailing
/// whitespace, so the laws stated over trimmed, non-empty tokens apply to
/// each token of the registry.
pub proof fn lemma_registry_tokens_trimmed()
    ensures
        forall|t: Seq<char>| #[trigger] registry_map().contains_key(t) ==> t.len() > 0
            && trim_spec(t) == t,
{
    reveal_strlit("6db46e37-2e76-420d-ae41-8091c43bb790");
    reveal_strlit("fc2b6164-aefc-4d66-89dc-5e463f946ad3");
    reveal_strlit("e3b0c442-98fc-1c14-9afc-4c8996fb9242");
    assert forall|t: Seq<char>| #[trigger] registry_map().contains_key(t) implies t.len() > 0
        && trim_spec(t) == t by {
        assert(t == model::VENDOR_SOURCING@ || t == model::RETRIEVER@ || t == model::CRAWLER@);
        assert(!is_ws(t[0]));
        assert(!is_ws(t[t.len() - 1]));
        assert(header::trim_start_spec(t) == t);
        assert(header::trim_end_spec(t) == t);
    }
}

/// Success is owed to registered tokens: for a trimmed, non-empty token
/// registered in the registry, the only result the contract of `validate`
/// admits for `"Bearer "` followed by the token is the registered identity.
pub proof fn lemma_registered_token_accepted(
    m: Map<Seq<char>, IdentityView>,
    t: Seq<char>,
    r: Result<IdentityView, AuthError>,
)
    requires
        m.contains_key(t),
        t.len() > 0,
        trim_spec(t) == t,
        validate_post(m, "Bearer "@ + t, r),
    ensures
        r == Result::<IdentityView, AuthError>::Ok(m[t]),
{
    header::lemma_bearer_header_token(t);
}

/// Validation is deterministic and repeatable: any two results that the
/// contract of `validate` admits for the same registry and the same header
/// value are equal.
pub proof fn lemma_validate_deterministic(
    m: Map<Seq<char>, IdentityView>,
    h: Seq<char>,
    r1: Result<IdentityView, AuthError>,
    r2: Result<IdentityView, AuthError>,
)
    requires
        validate_post(m, h, r1),
        validate_post(m, h, r2),
    ensures
        r1 == r2,
{
}

/// Registry lookups are deterministic and repeatable: any two results that
/// the contract of `validate_token` admits for the same registry and the
/// same token are equal.
pub proof fn lemma_validate_token_deterministic(
    m: Map<Seq<char>, IdentityView>,
    t: Seq<char>,
    r1: Result<IdentityView, AuthError>,
    r2: Result<IdentityView, AuthError>,
)
    requires
        validate_token_post(m, t, r1),
        validate_token_post(m, t, r2),
    ensures
        r1 == r2,
{
}

impl Default for AuthClient {
    fn default() -> (client: AuthClient)
        ensures
            client@ == registry_map(),
    {
        AuthClient::new()
    }
}

} // verus!
