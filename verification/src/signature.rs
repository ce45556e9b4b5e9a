//! Request-signing engine: a single-use-token HMAC-SHA1 signature over a
//! fixed credential quadruple, and the `Authorization` header value built
//! from it. Pure and deterministic given its inputs; the time-varying nonce
//! and timestamp are supplied by the caller. All strings are handled as
//! UTF-8 byte strings.

use vstd::prelude::*;
use vstd::slice::slice_to_vec;
use vstd::string::*;

use crate::encoding::{percent_encode, percent_encode_into, spec_percent_encode};
use crate::errors::MonitorError;

verus! {

/// What `hmac_sha1::hmac_sha1` returns for a key and a message: the 20-byte
/// HMAC-SHA1 digest, a function of the two byte strings alone.
pub uninterp spec fn spec_hmac_sha1(key: Seq<u8>, message: Seq<u8>) -> Seq<u8>;

/// What `base64::encode` returns for a byte string: its standard-alphabet,
/// padded base64 text, a function of the input bytes alone.
pub uninterp spec fn spec_base64_encode(bytes: Seq<u8>) -> Seq<u8>;

/// Relies on `hmac_sha1::hmac_sha1` (crate `hmac-sha1`): the HMAC-SHA1
/// digest of `message` under `key`, returned as a 20-byte array, depending
/// on the two arguments alone.
#[verifier::external_body]
fn hmac_sha1_digest(key: &Vec<u8>, message: &Vec<u8>) -> (digest: Vec<u8>)
    ensures
        digest@ == spec_hmac_sha1(key@, message@),
        digest@.len() == 20,
{
    hmac_sha1::hmac_sha1(key.as_slice(), message.as_slice()).to_vec()
}

/// Relies on `base64::encode`: base64 text of the input in the standard
/// alphabet with `=` padding, so four output bytes for every started group
/// of three input bytes, depending on the input alone.
#[verifier::external_body]
fn base64_encode(bytes: &Vec<u8>) -> (r: Vec<u8>)
    ensures
        r@ == spec_base64_encode(bytes@),
        r@.len() == 4 * ((bytes@.len() + 2) / 3),
{
    base64::encode(bytes.as_slice()).into_bytes()
}

/// Append a byte-string literal (or any slice) to `out`.
fn push_bytes(out: &mut Vec<u8>, s: &[u8])
    ensures
        final(out)@ == old(out)@ + s@,
{
    out.extend_from_slice(s);
    proof {
        assert(out@ =~= old(out)@ + s@);
    }
}

/// One canonical parameter: `encode(key)=encode(value)`.
pub open spec fn spec_param(key: Seq<u8>, value: Seq<u8>) -> Seq<u8> {
    spec_percent_encode(key) + "=".spec_bytes() + spec_percent_encode(value)
}

/// The canonical parameter string over the six fixed-name parameters, pairs
/// ordered lexicographically by key (the six keys are distinct, so the key
/// order alone fixes the order), joined with `&`.
pub open spec fn spec_param_string(
    consumer_key: Seq<u8>,
    token: Seq<u8>,
    nonce: Seq<u8>,
    timestamp: Seq<u8>,
) -> Seq<u8> {
    spec_param("oauth_consumer_key".spec_bytes(), consumer_key) + "&".spec_bytes() + spec_param(
        "oauth_nonce".spec_bytes(),
        nonce,
    ) + "&".spec_bytes() + spec_param(
        "oauth_signature_method".spec_bytes(),
        "HMAC-SHA1".spec_bytes(),
    ) + "&".spec_bytes() + spec_param("oauth_timestamp".spec_bytes(), timestamp)
        + "&".spec_bytes() + spec_param("oauth_token".spec_bytes(), token) + "&".spec_bytes()
        + spec_param("oauth_version".spec_bytes(), "1.0".spec_bytes())
}

/// The signature base string: `encode(METHOD)&encode(URL)&encode(params)`.
pub open spec fn spec_signature_base(
    method: Seq<u8>,
    endpoint: Seq<u8>,
    param_string: Seq<u8>,
) -> Seq<u8> {
    spec_percent_encode(method) + "&".spec_bytes() + spec_percent_encode(endpoint)
        + "&".spec_bytes() + spec_percent_encode(param_string)
}

/// The signing key: `encode(consumer_secret)&encode(access_token_secret)`.
pub open spec fn spec_signing_key(consumer_secret: Seq<u8>, access_token_secret: Seq<u8>) -> Seq<
    u8,
> {
    spec_percent_encode(consumer_secret) + "&".spec_bytes() + spec_percent_encode(
        access_token_secret,
    )
}

/// The signature value: base64 of the HMAC-SHA1 digest of the base string
/// under the signing key.
pub open spec fn spec_oauth_signature(
    consumer_key: Seq<u8>,
    consumer_secret: Seq<u8>,
    token: Seq<u8>,
    access_token_secret: Seq<u8>,
    nonce: Seq<u8>,
    timestamp: Seq<u8>,
    method: Seq<u8>,
    endpoint: Seq<u8>,
) -> Seq<u8> {
    spec_base64_encode(
        spec_hmac_sha1(
            spec_signing_key(consumer_secret, access_token_secret),
            spec_signature_base(
                method,
                endpoint,
                spec_param_string(consumer_key, token, nonce, timestamp),
            ),
        ),
    )
}

/// One rendered header parameter: `encode(key)="encode(value)"`.
pub open spec fn spec_header_param(key: Seq<u8>, value: Seq<u8>) -> Seq<u8> {
    spec_percent_encode(key) + "=\"".spec_bytes() + spec_percent_encode(value) + "\"".spec_bytes()
}

/// The whole `Authorization` header value: `OAuth ` followed by the seven
/// parameters rendered `key="value"` and joined with `, `. The rendering
/// order is fixed: the seven keys sorted lexicographically, which puts the
/// signature third.
pub open spec fn spec_authorization_header(
    consumer_key: Seq<u8>,
    consumer_secret: Seq<u8>,
    token: Seq<u8>,
    access_token_secret: Seq<u8>,
    nonce: Seq<u8>,
    timestamp: Seq<u8>,
    method: Seq<u8>,
    endpoint: Seq<u8>,
) -> Seq<u8> {
    let signature = spec_oauth_signature(
        consumer_key,
        consumer_secret,
        token,
        access_token_secret,
        nonce,
        timestamp,
        method,
        endpoint,
    );
    "OAuth ".spec_bytes() + spec_header_param("oauth_consumer_key".spec_bytes(), consumer_key)
        + ", ".spec_bytes() + spec_header_param("oauth_nonce".spec_bytes(), nonce)
        + ", ".spec_bytes() + spec_header_param("oauth_signature".spec_bytes(), signature)
        + ", ".spec_bytes() + spec_header_param(
        "oauth_signature_method".spec_bytes(),
        "HMAC-SHA1".spec_bytes(),
    ) + ", ".spec_bytes() + spec_header_param("oauth_timestamp".spec_bytes(), timestamp)
        + ", ".spec_bytes() + spec_header_param("oauth_token".spec_bytes(), token)
        + ", ".spec_bytes() + spec_header_param("oauth_version".spec_bytes(), "1.0".spec_bytes())
}

/// The fixed credential quadruple for the notification API.
pub struct Twitter {
    pub consumer_key: Vec<u8>,
    pub consumer_secret: Vec<u8>,
    pub access_token_key: Vec<u8>,
    pub access_token_secret: Vec<u8>,
}

impl Twitter {
    /// Hold the four credentials, as UTF-8 byte strings.
    pub fn new(
        consumer_key: Vec<u8>,
        consumer_secret: Vec<u8>,
        access_token_key: Vec<u8>,
        access_token_secret: Vec<u8>,
    ) -> (t: Twitter)
        ensures
            t.consumer_key == consumer_key,
            t.consumer_secret == consumer_secret,
            t.access_token_key == access_token_key,
            t.access_token_secret == access_token_secret,
    {
        Twitter { consumer_key, consumer_secret, access_token_key, access_token_secret }
    }

    /// Build the engine from a credential quadruple as it was resolved, one
    /// value per credential when resolution found one. A missing credential
    /// is a configuration error, fatal before any signing starts: no engine
    /// is built unless all four are present.
    pub fn from_config(
        consumer_key: Option<Vec<u8>>,
        consumer_secret: Option<Vec<u8>>,
        access_token_key: Option<Vec<u8>>,
        access_token_secret: Option<Vec<u8>>,
    ) -> (r: Result<Twitter, MonitorError>)
        ensures
            r matches Ok(t) ==> {
                &&& consumer_key == Some(t.consumer_key)
                &&& consumer_secret == Some(t.consumer_secret)
                &&& access_token_key == Some(t.access_token_key)
                &&& access_token_secret == Some(t.access_token_secret)
            },
            r is Ok <==> consumer_key is Some && consumer_secret is Some && access_token_key
                is Some && access_token_secret is Some,
            r is Err ==> r == Result::<Twitter, MonitorError>::Err(
                MonitorError::ConfigurationError,
            ),
    {
        match (consumer_key, consumer_secret, access_token_key, access_token_secret) {
            (Some(ck), Some(cs), Some(tk), Some(ts)) => Ok(Twitter::new(ck, cs, tk, ts)),
            _ => Err(MonitorError::ConfigurationError),
        }
    }

    /// Build the signing key from the two secrets.
    pub fn generate_oauth_signature_key(
        &self,
        consumer_secret: &Vec<u8>,
        access_token_secret: &Vec<u8>,
    ) -> (r: Vec<u8>)
        ensures
            r@ == spec_signing_key(consumer_secret@, access_token_secret@),
    {
        let mut key = percent_encode(consumer_secret);
        push_bytes(&mut key, "&".as_bytes());
        percent_encode_into(&mut key, access_token_secret);
        proof {
            assert(key@ =~= spec_signing_key(consumer_secret@, access_token_secret@));
        }
        key
    }

    /// Append `encode(key)=encode(value)` to `out`.
    fn append_param(out: &mut Vec<u8>, key: &Vec<u8>, value: &Vec<u8>)
        ensures
            final(out)@ == old(out)@ + spec_param(key@, value@),
    {
        percent_encode_into(out, key);
        push_bytes(out, "=".as_bytes());
        percent_encode_into(out, value);
        proof {
            assert(out@ =~= old(out)@ + spec_param(key@, value@));
        }
    }

    /// Build the canonical parameter string over the six fixed-name
    /// parameters, in lexicographic key order.
    pub fn generate_oauth_param_string(&self, nonce: &Vec<u8>, timestamp: &Vec<u8>) -> (r: Vec<
        u8,
    >)
        ensures
            r@ == spec_param_string(self.consumer_key@, self.access_token_key@, nonce@, timestamp@),
    {
        let mut out: Vec<u8> = Vec::new();
        Self::append_param(&mut out, &slice_to_vec("oauth_consumer_key".as_bytes()), &self.consumer_key);
        push_bytes(&mut out, "&".as_bytes());
        Self::append_param(&mut out, &slice_to_vec("oauth_nonce".as_bytes()), nonce);
        push_bytes(&mut out, "&".as_bytes());
        Self::append_param(
            &mut out,
            &slice_to_vec("oauth_signature_method".as_bytes()),
            &slice_to_vec("HMAC-SHA1".as_bytes()),
        );
        push_bytes(&mut out, "&".as_bytes());
        Self::append_param(&mut out, &slice_to_vec("oauth_timestamp".as_bytes()), timestamp);
        push_bytes(&mut out, "&".as_bytes());
        Self::append_param(&mut out, &slice_to_vec("oauth_token".as_bytes()), &self.access_token_key);
        push_bytes(&mut out, "&".as_bytes());
        Self::append_param(
            &mut out,
            &slice_to_vec("oauth_version".as_bytes()),
            &slice_to_vec("1.0".as_bytes()),
        );
        proof {
            assert(out@ =~= spec_param_string(
                self.consumer_key@,
                self.access_token_key@,
                nonce@,
                timestamp@,
            ));
        }
        out
    }

    /// Build the signature base string for the given method and endpoint.
    pub fn generate_oauth_signature_base(
        &self,
        method: &Vec<u8>,
        endpoint: &Vec<u8>,
        nonce: &Vec<u8>,
        timestamp: &Vec<u8>,
    ) -> (r: Vec<u8>)
        ensures
            r@ == spec_signature_base(
                method@,
                endpoint@,
                spec_param_string(
                    self.consumer_key@,
                    self.access_token_key@,
                    nonce@,
                    timestamp@,
                ),
            ),
    {
        let param_string = self.generate_oauth_param_string(nonce, timestamp);
        let mut base = percent_encode(method);
        push_bytes(&mut base, "&".as_bytes());
        percent_encode_into(&mut base, endpoint);
        push_bytes(&mut base, "&".as_bytes());
        percent_encode_into(&mut base, &param_string);
        proof {
            assert(base@ =~= spec_signature_base(method@, endpoint@, param_string@));
        }
        base
    }

    /// Sign the base string: HMAC-SHA1 under the signing key, then base64.
    pub fn generate_oauth_signature(
        &self,
        signature_key: &Vec<u8>,
        signature_base: &Vec<u8>,
    ) -> (r: Vec<u8>)
        ensures
            r@ == spec_base64_encode(spec_hmac_sha1(signature_key@, signature_base@)),
    {
        let digest = hmac_sha1_digest(signature_key, signature_base);
        base64_encode(&digest)
    }

    /// Append `encode(key)="encode(value)"` to `out`.
    fn append_header_param(out: &mut Vec<u8>, key: &Vec<u8>, value: &Vec<u8>)
        ensures
            final(out)@ == old(out)@ + spec_header_param(key@, value@),
    {
        percent_encode_into(out, key);
        push_bytes(out, "=\"".as_bytes());
        percent_encode_into(out, value);
        push_bytes(out, "\"".as_bytes());
        proof {
            assert(out@ =~= old(out)@ + spec_header_param(key@, value@));
        }
    }

    /// The whole `Authorization` header value for one signed request, with
    /// the seven parameters rendered in lexicographic key order.
    pub fn get_request_header(
        &self,
        method: &Vec<u8>,
        endpoint: &Vec<u8>,
        nonce: &Vec<u8>,
        timestamp: &Vec<u8>,
    ) -> (r: Vec<u8>)
        ensures
            r@ == spec_authorization_header(
                self.consumer_key@,
                self.consumer_secret@,
                self.access_token_key@,
                self.access_token_secret@,
                nonce@,
                timestamp@,
                method@,
                endpoint@,
            ),
    {
        let signature_key = self.generate_oauth_signature_key(
            &self.consumer_secret,
            &self.access_token_secret,
        );
        let signature_base = self.generate_oauth_signature_base(method, endpoint, nonce, timestamp);
        let signature = self.generate_oauth_signature(&signature_key, &signature_base);
        let mut header = slice_to_vec("OAuth ".as_bytes());
        Self::append_header_param(&mut header, &slice_to_vec("oauth_consumer_key".as_bytes()), &self.consumer_key);
        push_bytes(&mut header, ", ".as_bytes());
        Self::append_header_param(&mut header, &slice_to_vec("oauth_nonce".as_bytes()), nonce);
        push_bytes(&mut header, ", ".as_bytes());
        Self::append_header_param(&mut header, &slice_to_vec("oauth_signature".as_bytes()), &signature);
        push_bytes(&mut header, ", ".as_bytes());
        Self::append_header_param(
            &mut header,
            &slice_to_vec("oauth_signature_method".as_bytes()),
            &slice_to_vec("HMAC-SHA1".as_bytes()),
        );
        push_bytes(&mut header, ", ".as_bytes());
        Self::append_header_param(&mut header, &slice_to_vec("oauth_timestamp".as_bytes()), timestamp);
        push_bytes(&mut header, ", ".as_bytes());
        Self::append_header_param(&mut header, &slice_to_vec("oauth_token".as_bytes()), &self.access_token_key);
        push_bytes(&mut header, ", ".as_bytes());
        Self::append_header_param(
            &mut header,
            &slice_to_vec("oauth_version".as_bytes()),
            &slice_to_vec("1.0".as_bytes()),
        );
        proof {
            assert(header@ =~= spec_authorization_header(
                self.consumer_key@,
                self.consumer_secret@,
                self.access_token_key@,
                self.access_token_secret@,
                nonce@,
                timestamp@,
                method@,
                endpoint@,
            ));
        }
        header
    }
}

/// Determinism of the signing engine: two engines holding credentials with
/// equal contents, invoked with equal method, endpoint, nonce and timestamp,
/// yield byte-identical `Authorization` header values.
pub proof fn lemma_request_header_deterministic(
    t1: Twitter,
    t2: Twitter,
    method1: Seq<u8>,
    method2: Seq<u8>,
    endpoint1: Seq<u8>,
    endpoint2: Seq<u8>,
    nonce1: Seq<u8>,
    nonce2: Seq<u8>,
    timestamp1: Seq<u8>,
    timestamp2: Seq<u8>,
)
    requires
        t1.consumer_key@ == t2.consumer_key@,
        t1.consumer_secret@ == t2.consumer_secret@,
        t1.access_token_key@ == t2.access_token_key@,
        t1.access_token_secret@ == t2.access_token_secret@,
        method1 == method2,
        endpoint1 == endpoint2,
        nonce1 == nonce2,
        timestamp1 == timestamp2,
    ensures
        spec_authorization_header(
            t1.consumer_key@,
            t1.consumer_secret@,
            t1.access_token_key@,
            t1.access_token_secret@,
            nonce1,
            timestamp1,
            method1,
            endpoint1,
        ) == spec_authorization_header(
            t2.consumer_key@,
            t2.consumer_secret@,
            t2.access_token_key@,
            t2.access_token_secret@,
            nonce2,
            timestamp2,
            method2,
            endpoint2,
        ),
{
}

} // verus!
