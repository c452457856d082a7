use vstd::prelude::*;

use crate::recipe::strings_view;

verus! {

/// The one origin that may make cross-origin requests.
pub const ALLOWED_ORIGIN: &'static str = "http://localhost:5000";

/// rocket_cors::Cors, the fairing, carried through opaque.
#[verifier::external_type_specification]
#[verifier::external_body]
pub struct ExCors(rocket_cors::Cors);

/// rocket_cors::Error, mapped to `CorsError`.
#[verifier::external_type_specification]
#[verifier::external_body]
pub struct ExCorsError(rocket_cors::Error);

/// rocket_cors::Method, a parsed method name handed on to `to_cors`.
#[verifier::external_type_specification]
#[verifier::external_body]
pub struct ExCorsMethod(rocket_cors::Method);

/// Why the cross-origin fairing could not be built.
#[derive(PartialEq, Eq, Structural, Clone, Copy, Debug)]
pub enum CorsError {
    /// A method name is not one of HTTP's.
    UnknownMethod,
    /// An allowed origin is not a URL with a scheme, host and port.
    InvalidOrigins,
}

/// The cross-origin policy: exact origins, methods, request headers and
/// whether credentials are allowed.
pub struct CorsPolicy {
    pub allowed_origins: Vec<String>,
    pub allowed_methods: Vec<String>,
    pub allowed_headers: Vec<String>,
    pub allow_credentials: bool,
}

/// The canonical names of HTTP's methods.
pub open spec fn is_method_name(s: Seq<char>) -> bool {
    s == "GET"@ || s == "PUT"@ || s == "POST"@ || s == "DELETE"@ || s == "OPTIONS"@
        || s == "HEAD"@ || s == "TRACE"@ || s == "CONNECT"@ || s == "PATCH"@
}

/// Whether rocket_cors accepts these exact origins: each must parse as a URL
/// whose origin is a scheme, host and port.
pub uninterp spec fn origins_accepted(origins: Seq<Seq<char>>) -> bool;

/// Relies on `FromStr` of rocket_cors::Method, which matches the names of
/// HTTP's methods ignoring ASCII case.
#[verifier::external_body]
fn parse_method(name: &str) -> (r: Option<rocket_cors::Method>)
    ensures
        is_method_name(name@) ==> r is Some,
{
    name.parse::<rocket_cors::Method>().ok()
}

/// Relies on rocket_cors::CorsOptions::to_cors over exact origins: it fails
/// exactly when an origin does not parse as a URL with a scheme, host and
/// port.
#[verifier::external_body]
fn to_cors(
    origins: &Vec<String>,
    methods: &Vec<rocket_cors::Method>,
    headers: &Vec<String>,
    allow_credentials: bool,
) -> (r: Result<rocket_cors::Cors, rocket_cors::Error>)
    ensures
        r is Ok <==> origins_accepted(strings_view(origins@)),
{
    let headers: Vec<&str> = headers.iter().map(|h| h.as_str()).collect();
    rocket_cors::CorsOptions {
        allowed_origins: rocket_cors::AllowedOrigins::some_exact(origins),
        allowed_methods: methods.iter().copied().collect(),
        allowed_headers: rocket_cors::AllowedHeaders::some(&headers),
        allow_credentials,
        ..Default::default()
    }.to_cors()
}

/// The service's policy: the origin `http://localhost:5000`, the methods
/// GET and POST, the headers Authorization, Accept and Content-Type, and
/// credentials allowed.
pub fn cors_policy() -> (p: CorsPolicy)
    ensures
        strings_view(p.allowed_origins@) == seq![ALLOWED_ORIGIN@],
        strings_view(p.allowed_methods@) == seq!["GET"@, "POST"@],
        strings_view(p.allowed_headers@) == seq!["Authorization"@, "Accept"@, "Content-Type"@],
        p.allow_credentials,
{
    let origins = vec![ALLOWED_ORIGIN.to_owned()];
    let methods = vec!["GET".to_owned(), "POST".to_owned()];
    let headers = vec!["Authorization".to_owned(), "Accept".to_owned(), "Content-Type".to_owned()];
    assert(strings_view(origins@) =~= seq![ALLOWED_ORIGIN@]);
    assert(strings_view(methods@) =~= seq!["GET"@, "POST"@]);
    assert(strings_view(headers@) =~= seq!["Authorization"@, "Accept"@, "Content-Type"@]);
    CorsPolicy {
        allowed_origins: origins,
        allowed_methods: methods,
        allowed_headers: headers,
        allow_credentials: true,
    }
}

/// The cross-origin fairing for `policy`: fails on a method name it does not
/// know, then on origins that rocket_cors refuses.
pub fn build_cors(policy: &CorsPolicy) -> (r: Result<rocket_cors::Cors, CorsError>)
    ensures
        (forall|i: int|
            0 <= i < policy.allowed_methods@.len() ==> is_method_name(
                #[trigger] policy.allowed_methods@[i]@,
            )) ==> r != Err::<rocket_cors::Cors, CorsError>(CorsError::UnknownMethod),
        match r {
            Ok(_) => origins_accepted(strings_view(policy.allowed_origins@)),
            Err(e) => e == CorsError::InvalidOrigins ==> !origins_accepted(
                strings_view(policy.allowed_origins@),
            ),
        },
{
    let mut methods: Vec<rocket_cors::Method> = Vec::new();
    let mut i: usize = 0;
    while i < policy.allowed_methods.len()
        invariant
            i <= policy.allowed_methods@.len(),
        decreases policy.allowed_methods@.len() - i,
    {
        match parse_method(policy.allowed_methods[i].as_str()) {
            Some(m) => methods.push(m),
            None => return Err(CorsError::UnknownMethod),
        }
        i = i + 1;
    }
    match to_cors(&policy.allowed_origins, &methods, &policy.allowed_headers, policy.allow_credentials) {
        Ok(c) => Ok(c),
        Err(_) => Err(CorsError::InvalidOrigins),
    }
}

/// The cross-origin fairing of the service's policy.
pub fn cors() -> (r: Result<rocket_cors::Cors, CorsError>)
    ensures
        r is Ok <==> origins_accepted(seq![ALLOWED_ORIGIN@]),
        r is Err ==> r == Err::<rocket_cors::Cors, CorsError>(CorsError::InvalidOrigins),
{
    let policy = cors_policy();
    assert forall|i: int| 0 <= i < policy.allowed_methods@.len() implies is_method_name(
        #[trigger] policy.allowed_methods@[i]@,
    ) by {
        let names = seq!["GET"@, "POST"@];
        assert(strings_view(policy.allowed_methods@).len() == policy.allowed_methods@.len());
        assert(policy.allowed_methods@[i]@ == strings_view(policy.allowed_methods@)[i]);
        assert(names[0] == "GET"@ && names[1] == "POST"@);
        if i == 0 {
            assert(policy.allowed_methods@[i]@ == "GET"@);
        } else {
            assert(policy.allowed_methods@[i]@ == "POST"@);
        }
    }
    build_cors(&policy)
}

} // verus!
