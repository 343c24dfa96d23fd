//! Resolution of an `S3OutputSpec` into a concrete destination: region,
//! credentials and the object key expanded from the template. The S3
//! client itself lives outside the library; what it needs is computed here
//! from plain values.

use vstd::prelude::*;
use crate::content_storage::OutputSpec;
use crate::content_storage::S3OutputSpec;
use crate::error::Error;
use crate::metadata::Metadata;
use crate::template::spec_expand;
use crate::template::template_key;
use crate::text::chars_to_string;
use crate::text::contains_char;
use crate::text::str_eq;
use crate::text::to_char_vec;

verus! {

/// An S3 region: a named one, or a custom one with an explicit endpoint.
#[derive(Debug, Clone, PartialEq)]
pub enum S3Region {
    /// A region known by name.
    Named(String),
    /// A custom region paired with its endpoint, for S3-compatible
    /// services.
    Custom {
        /// Region name.
        region: String,
        /// Endpoint URL.
        endpoint: String,
    },
}

/// The region resolved from an output spec: the configured region or
/// the default, paired with the endpoint when one is set.
pub open spec fn spec_region_ok(spec: S3OutputSpec, r: S3Region) -> bool {
    let region_name = match spec.region {
        Some(n) => n@,
        None => "us-east-1"@,
    };
    match spec.endpoint {
        Some(e) => r matches S3Region::Custom { region, endpoint } && region@ == region_name
            && endpoint@ == e@,
        None => r matches S3Region::Named(n) && n@ == region_name,
    }
}

/// Resolves the region of an output spec.
pub fn get_s3_region(spec: &S3OutputSpec) -> (r: S3Region)
    ensures
        spec_region_ok(*spec, r),
{
    let region = match &spec.region {
        Some(region) => region.clone(),
        None => String::from_str(crate::DEFAULT_REGION),
    };
    match &spec.endpoint {
        Some(endpoint) => S3Region::Custom { region, endpoint: endpoint.clone() },
        None => S3Region::Named(region),
    }
}

/// A Secret's data, as plain key/value pairs.
#[derive(Debug, Clone, PartialEq, Default)]
pub struct SecretModel {
    /// The Secret's decoded data entries.
    pub data: Vec<(String, String)>,
}

/// The value of the first entry under `key`.
pub open spec fn spec_secret_value(data: Seq<(String, String)>, key: Seq<char>) -> Option<Seq<char>>
    decreases data.len(),
{
    if data.len() == 0 {
        None
    } else if data[0].0@ == key {
        Some(data[0].1@)
    } else {
        spec_secret_value(data.drop_first(), key)
    }
}

/// Looks a key up in a Secret's data. A missing key is allowed and comes
/// back as `None`.
pub fn get_secret_value(secret: &SecretModel, key: &str) -> (r: Option<String>)
    ensures
        match r {
            Some(v) => spec_secret_value(secret.data@, key@) == Some(v@),
            None => spec_secret_value(secret.data@, key@) is None,
        },
{
    let mut i: usize = 0;
    assert(secret.data@.skip(0) =~= secret.data@);
    while i < secret.data.len()
        invariant
            i <= secret.data@.len(),
            spec_secret_value(secret.data@.skip(i as int), key@)
                == spec_secret_value(secret.data@, key@),
        decreases secret.data@.len() - i,
    {
        proof {
            assert(secret.data@.skip(i as int)[0] == secret.data@[i as int]);
            assert(secret.data@.skip(i as int).drop_first() =~= secret.data@.skip(i + 1));
        }
        if str_eq(secret.data[i].0.as_str(), key) {
            return Some(secret.data[i].1.clone());
        }
        i += 1;
    }
    assert(secret.data@.skip(i as int) =~= Seq::<(String, String)>::empty());
    None
}

/// The credentials handed to the S3 client: the ambient default provider
/// chain, or explicit values read from a Secret, each of which may be
/// absent.
#[derive(Debug, Clone, PartialEq)]
pub enum S3CredentialsModel {
    /// Use the ambient default provider chain.
    Default,
    /// Explicit credentials from the configured Secret.
    Explicit {
        /// The `access_key_id` entry.
        access_key_id: Option<String>,
        /// The `secret_access_key` entry.
        secret_access_key: Option<String>,
        /// The `security_token` entry.
        security_token: Option<String>,
        /// The `session_token` entry.
        session_token: Option<String>,
    },
}

/// One resolved credentials field carries exactly the Secret's entry of
/// the given key.
pub open spec fn spec_cred_field_ok(s: SecretModel, key: Seq<char>, v: Option<String>) -> bool {
    match v {
        Some(v) => spec_secret_value(s.data@, key) == Some(v@),
        None => spec_secret_value(s.data@, key) is None,
    }
}

/// The credentials resolved from an output spec: the four well-known
/// keys of the configured Secret, each allowed to be absent, or the
/// default provider chain when no Secret is named.
pub open spec fn spec_creds_ok(secret: Option<SecretModel>, r: S3CredentialsModel) -> bool {
    match secret {
        Some(s) => {
            &&& r matches S3CredentialsModel::Explicit {
                access_key_id,
                secret_access_key,
                security_token,
                session_token,
            }
            &&& spec_cred_field_ok(s, "access_key_id"@, access_key_id)
            &&& spec_cred_field_ok(s, "secret_access_key"@, secret_access_key)
            &&& spec_cred_field_ok(s, "security_token"@, security_token)
            &&& spec_cred_field_ok(s, "session_token"@, session_token)
        },
        None => r == S3CredentialsModel::Default,
    }
}

/// Resolves the credentials of an output spec.
pub fn get_s3_creds(spec: &S3OutputSpec, secret: Option<&SecretModel>) -> (r: S3CredentialsModel)
    requires
        spec.secret is Some <==> secret is Some,
    ensures
        ({
            match secret {
                Some(s) => spec_creds_ok(Some(*s), r),
                None => spec_creds_ok(None, r),
            }
        }),
{
    match secret {
        Some(s) => S3CredentialsModel::Explicit {
            access_key_id: get_secret_value(s, "access_key_id"),
            secret_access_key: get_secret_value(s, "secret_access_key"),
            security_token: get_secret_value(s, "security_token"),
            session_token: get_secret_value(s, "session_token"),
        },
        None => S3CredentialsModel::Default,
    }
}

/// An output spec resolved into everything the S3 client needs.
#[derive(Debug, Clone, PartialEq)]
pub struct ResolvedOutput {
    /// Bucket name.
    pub bucket: String,
    /// Region, possibly with a custom endpoint.
    pub region: S3Region,
    /// Credentials for the client.
    pub credentials: S3CredentialsModel,
    /// The expanded object key.
    pub key: String,
}

/// The template an output spec uses: its own, or the default.
pub open spec fn spec_template_of(spec: S3OutputSpec) -> Seq<char> {
    match spec.key {
        Some(k) => k@,
        None => "%(id)s.%(ext)s"@,
    }
}

/// Resolves an output spec against one video's metadata: the region and
/// credentials as configured, and the object key expanded from the
/// template. Fails exactly when the expansion leaves a template token
/// unresolved.
pub fn output_from_spec(
    spec: &S3OutputSpec,
    secret: Option<&SecretModel>,
    meta: &Metadata,
) -> (r: Result<ResolvedOutput, Error>)
    requires
        spec.secret is Some <==> secret is Some,
    ensures
        ({
            let expanded = spec_expand(meta@, spec_template_of(*spec));
            match r {
                Ok(o) => {
                    &&& o.bucket@ == spec.bucket@
                    &&& o.key@ == expanded
                    &&& !contains_char(expanded, '%')
                    &&& spec_region_ok(*spec, o.region)
                    &&& (match secret {
                        Some(s) => spec_creds_ok(Some(*s), o.credentials),
                        None => spec_creds_ok(None, o.credentials),
                    })
                },
                Err(e) => contains_char(expanded, '%') && e matches Error::UserInputError(_),
            }
        }),
{
    let region = get_s3_region(spec);
    let credentials = get_s3_creds(spec, secret);
    let template: Vec<char> = match &spec.key {
        Some(k) => to_char_vec(k.as_str()),
        None => to_char_vec(crate::DEFAULT_TEMPLATE),
    };
    let key = match template_key(meta, &template) {
        Ok(k) => k,
        Err(e) => {
            return Err(e);
        },
    };
    Ok(ResolvedOutput {
        bucket: spec.bucket.clone(),
        region,
        credentials,
        key: chars_to_string(&key),
    })
}

/// The S3 section of the video output, when one is configured.
pub fn get_video_output<'a>(output: &'a OutputSpec) -> (r: Option<&'a S3OutputSpec>)
    ensures
        match output.video {
            Some(v) => match v.s3 {
                Some(s) => r matches Some(x) && *x == s,
                None => r is None,
            },
            None => r is None,
        },
{
    match &output.video {
        Some(v) => match &v.s3 {
            Some(s) => Some(s),
            None => None,
        },
        None => None,
    }
}

/// The S3 section of the thumbnail output, when one is configured.
pub fn get_thumbnail_output<'a>(output: &'a OutputSpec) -> (r: Option<&'a S3OutputSpec>)
    ensures
        match output.thumbnail {
            Some(t) => match t.s3 {
                Some(s) => r matches Some(x) && *x == s,
                None => r is None,
            },
            None => r is None,
        },
{
    match &output.thumbnail {
        Some(t) => match &t.s3 {
            Some(s) => Some(s),
            None => None,
        },
        None => None,
    }
}

/// An object already stored with a non-zero length counts as done; a
/// missing object or an empty, interrupted upload does not.
pub fn bucket_has_obj(head_content_length: Option<u64>) -> (r: bool)
    ensures
        r == (head_content_length matches Some(n) && n > 0),
{
    match head_content_length {
        Some(n) => n > 0,
        None => false,
    }
}

} // verus!
