use vstd::prelude::*;

use crate::dss::json::{
    entries_model, items_model, json_model, lemma_entries_model, lemma_items_model, lemma_lookup_absent,
    lemma_lookup_at, Json, JsonModel,
};

verus! {

/// The standard (RFC 4648, padded) Base64 encoding of `bytes`, as
/// `base64::engine::general_purpose::STANDARD` computes it.
pub uninterp spec fn base64_standard_encode(bytes: Seq<u8>) -> Seq<char>;

/// The length of the padded Base64 encoding of `n` bytes.
pub open spec fn base64_len(n: nat) -> nat {
    4 * ((n + 2) / 3) as nat
}

/// Whether the padded Base64 encoding of `n` bytes has a length that fits in
/// a `usize`; for longer inputs the encoder panics.
pub open spec fn base64_fits(n: nat) -> bool {
    base64_len(n) <= usize::MAX
}

/// Encodes `bytes` with `base64::Engine::encode` on the standard padded engine.
///
/// Claimed: the result is the named encoding of the bytes, and it has
/// `4 * ceil(n / 3)` characters (the padded length that the crate's
/// `encoded_len` computes). The encoder panics when that length overflows a
/// `usize`, which `requires` rules out.
#[verifier::external_body]
fn encode_base64(bytes: &[u8]) -> (res: String)
    requires
        base64_fits(bytes@.len()),
    ensures
        res@ == base64_standard_encode(bytes@),
        res@.len() == base64_len(bytes@.len()),
{
    base64::Engine::encode(&base64::engine::general_purpose::STANDARD, bytes)
}

/// A document as the DSS REST service takes it, given its Base64 text.
pub open spec fn document_model(encoded: Seq<char>, name: Seq<char>) -> JsonModel {
    JsonModel::Object(
        seq![
            ("bytes"@, JsonModel::Str(encoded)),
            ("name"@, JsonModel::Str(name)),
            ("digestAlgorithm"@, JsonModel::Null),
        ],
    )
}

/// A document as the DSS REST service takes it: its bytes in Base64, its
/// name, and no digest algorithm.
pub open spec fn spec_remote_document(bytes: Seq<u8>, name: Seq<char>) -> JsonModel {
    document_model(base64_standard_encode(bytes), name)
}

/// The name under which the trust-free validation policy is sent.
pub open spec fn policy_name() -> Seq<char> {
    "no-trust-policy.xml"@
}

/// The validation policy given its Base64 text.
pub open spec fn policy_model(encoded: Seq<char>) -> JsonModel {
    JsonModel::Object(seq![("bytes"@, JsonModel::Str(encoded)), ("name"@, JsonModel::Str(policy_name()))])
}

/// The `policy` member of a request: with `no_trust`, the policy document
/// without trust-chain requirements; otherwise `null` (the service's default
/// policy).
pub open spec fn spec_policy_field(no_trust: bool, policy_xml: Seq<u8>) -> JsonModel {
    if no_trust {
        policy_model(base64_standard_encode(policy_xml))
    } else {
        JsonModel::Null
    }
}

/// The body of a request to validate a CAdES signature, given the policy
/// member and, for a detached signature, the original document.
pub open spec fn spec_cades_body(signed: JsonModel, policy: JsonModel, original: Option<JsonModel>) -> JsonModel {
    let head = seq![
        ("signedDocument"@, signed),
        ("policy"@, policy),
        ("tokenExtractionStrategy"@, JsonModel::Str("NONE"@)),
    ];
    match original {
        Some(orig) => JsonModel::Object(head.push(("originalDocuments"@, JsonModel::Array(seq![orig])))),
        None => JsonModel::Object(head),
    }
}

/// The body of a request to validate a PAdES signature.
pub open spec fn spec_pades_body(signed: JsonModel, policy: JsonModel) -> JsonModel {
    JsonModel::Object(
        seq![
            ("signedDocument"@, signed),
            ("policy"@, policy),
            ("tokenExtractionStrategy"@, JsonModel::Str("NONE"@)),
        ],
    )
}

/// The path of the validation endpoint under the service's base URL.
pub open spec fn validation_path() -> Seq<char> {
    "/validation/validateSignature"@
}

/// A document as the DSS REST service takes it, given its Base64 text.
pub fn remote_document_from_encoded(encoded: &str, name: &str) -> (res: Json)
    ensures
        res@ == document_model(encoded@, name@),
{
    let entries = vec![
        (String::from_str("bytes"), Json::String(encoded.to_owned())),
        (String::from_str("name"), Json::String(name.to_owned())),
        (String::from_str("digestAlgorithm"), Json::Null),
    ];
    proof {
        lemma_entries_model(entries@);
        assert(entries_model(entries@) =~= seq![
            ("bytes"@, JsonModel::Str(encoded@)),
            ("name"@, JsonModel::Str(name@)),
            ("digestAlgorithm"@, JsonModel::Null),
        ]);
    }
    Json::Object(entries)
}

/// A document as the DSS REST service takes it: `{ "bytes": <Base64>,
/// "name": name, "digestAlgorithm": null }`.
pub fn remote_document(bytes: &[u8], name: &str) -> (res: Json)
    requires
        base64_fits(bytes@.len()),
    ensures
        res@ == spec_remote_document(bytes@, name@),
{
    let encoded = encode_base64(bytes);
    remote_document_from_encoded(encoded.as_str(), name)
}

/// The trust-free validation policy given its Base64 text.
pub fn no_trust_policy_from_encoded(encoded: &str) -> (res: Json)
    ensures
        res@ == policy_model(encoded@),
{
    let entries = vec![
        (String::from_str("bytes"), Json::String(encoded.to_owned())),
        (String::from_str("name"), Json::String(String::from_str("no-trust-policy.xml"))),
    ];
    proof {
        lemma_entries_model(entries@);
        assert(entries_model(entries@) =~= seq![
            ("bytes"@, JsonModel::Str(encoded@)),
            ("name"@, JsonModel::Str(policy_name())),
        ]);
    }
    Json::Object(entries)
}

/// A client of the DSS REST validation service.
pub struct DssClient {
    base_url: String,
    no_trust: bool,
}

impl DssClient {
    /// The base URL of the service.
    pub closed spec fn spec_base_url(&self) -> Seq<char> {
        self.base_url@
    }

    /// Whether validation ignores the trust chain.
    pub closed spec fn spec_no_trust(&self) -> bool {
        self.no_trust
    }

    /// A client for the service at `base_url`; with `no_trust` it sends a
    /// policy that does not check the trust chain (for test or self-signed
    /// certificates).
    pub fn new(base_url: &str, no_trust: bool) -> (res: DssClient)
        ensures
            res.spec_base_url() == base_url@,
            res.spec_no_trust() == no_trust,
    {
        DssClient { base_url: base_url.to_owned(), no_trust }
    }

    /// Whether validation ignores the trust chain.
    pub fn no_trust(&self) -> (res: bool)
        ensures
            res == self.spec_no_trust(),
    {
        self.no_trust
    }

    /// The URL of the validation endpoint.
    pub fn validation_url(&self) -> (res: String)
        ensures
            res@ == self.spec_base_url() + validation_path(),
    {
        self.base_url.clone().concat("/validation/validateSignature")
    }

    /// The `policy` member of a request, `policy_xml` being the trust-free
    /// policy document.
    pub fn policy_field(&self, policy_xml: &[u8]) -> (res: Json)
        requires
            base64_fits(policy_xml@.len()),
        ensures
            res@ == spec_policy_field(self.spec_no_trust(), policy_xml@),
    {
        if self.no_trust {
            let encoded = encode_base64(policy_xml);
            no_trust_policy_from_encoded(encoded.as_str())
        } else {
            Json::Null
        }
    }

    /// The body of a request to validate the CAdES signature `sig`;
    /// `original` (bytes and name) is needed only for detached signatures.
    pub fn validate_cades_body(
        &self,
        sig: &[u8],
        sig_name: &str,
        original: Option<(&[u8], &str)>,
        policy_xml: &[u8],
    ) -> (res: Json)
        requires
            base64_fits(sig@.len()),
            base64_fits(policy_xml@.len()),
            original matches Some(o) ==> base64_fits(o.0@.len()),
        ensures
            res@ == spec_cades_body(
                spec_remote_document(sig@, sig_name@),
                spec_policy_field(self.spec_no_trust(), policy_xml@),
                match original {
                    Some(o) => Some(spec_remote_document(o.0@, o.1@)),
                    None => None,
                },
            ),
    {
        let signed = remote_document(sig, sig_name);
        let policy = self.policy_field(policy_xml);
        let ghost signed_model = signed@;
        let ghost policy_model = policy@;
        let mut entries = vec![
            (String::from_str("signedDocument"), signed),
            (String::from_str("policy"), policy),
            (String::from_str("tokenExtractionStrategy"), Json::String(String::from_str("NONE"))),
        ];
        let ghost head = seq![
            ("signedDocument"@, signed_model),
            ("policy"@, policy_model),
            ("tokenExtractionStrategy"@, JsonModel::Str("NONE"@)),
        ];
        proof {
            lemma_entries_model(entries@);
            assert(entries_model(entries@) =~= head);
        }
        match original {
            Some((orig_bytes, orig_name)) => {
                let doc = remote_document(orig_bytes, orig_name);
                let ghost doc_model = doc@;
                let docs = vec![doc];
                proof {
                    lemma_items_model(docs@);
                    assert(items_model(docs@) =~= seq![doc_model]);
                }
                entries.push((String::from_str("originalDocuments"), Json::Array(docs)));
                proof {
                    lemma_entries_model(entries@);
                    assert(entries_model(entries@) =~= head.push(
                        ("originalDocuments"@, JsonModel::Array(seq![doc_model])),
                    ));
                }
            },
            None => {},
        }
        Json::Object(entries)
    }

    /// The body of a request to validate the PAdES signature (a signed PDF) `sig`.
    pub fn validate_pades_body(&self, sig: &[u8], sig_name: &str, policy_xml: &[u8]) -> (res: Json)
        requires
            base64_fits(sig@.len()),
            base64_fits(policy_xml@.len()),
        ensures
            res@ == spec_pades_body(
                spec_remote_document(sig@, sig_name@),
                spec_policy_field(self.spec_no_trust(), policy_xml@),
            ),
    {
        let signed = remote_document(sig, sig_name);
        let policy = self.policy_field(policy_xml);
        let ghost signed_model = signed@;
        let ghost policy_model = policy@;
        let entries = vec![
            (String::from_str("signedDocument"), signed),
            (String::from_str("policy"), policy),
            (String::from_str("tokenExtractionStrategy"), Json::String(String::from_str("NONE"))),
        ];
        proof {
            lemma_entries_model(entries@);
            assert(entries_model(entries@) =~= seq![
                ("signedDocument"@, signed_model),
                ("policy"@, policy_model),
                ("tokenExtractionStrategy"@, JsonModel::Str("NONE"@)),
            ]);
        }
        Json::Object(entries)
    }
}

/// Law: a document sent to DSS carries the Base64 encoding of its bytes under
/// `bytes`, its name under `name`, and `digestAlgorithm` set to null.
pub proof fn law_remote_document_members(bytes: Seq<u8>, name: Seq<char>)
    ensures
        spec_remote_document(bytes, name).get("bytes"@) == Some(JsonModel::Str(base64_standard_encode(bytes))),
        spec_remote_document(bytes, name).get("name"@) == Some(JsonModel::Str(name)),
        spec_remote_document(bytes, name).get("digestAlgorithm"@) == Some(JsonModel::Null),
{
    reveal_strlit("bytes");
    reveal_strlit("name");
    reveal_strlit("digestAlgorithm");
    let entries = seq![
        ("bytes"@, JsonModel::Str(base64_standard_encode(bytes))),
        ("name"@, JsonModel::Str(name)),
        ("digestAlgorithm"@, JsonModel::Null),
    ];
    lemma_lookup_at(entries, "bytes"@, 0);
    assert(entries[0].0.len() != "name"@.len());
    assert(entries[0].0 != "name"@);
    assert forall|i: int| 0 <= i < 1 implies entries[i].0 != "name"@ by {}
    lemma_lookup_at(entries, "name"@, 1);
    assert(entries[0].0.len() != "digestAlgorithm"@.len());
    assert(entries[0].0 != "digestAlgorithm"@);
    assert(entries[1].0.len() != "digestAlgorithm"@.len());
    assert(entries[1].0 != "digestAlgorithm"@);
    assert forall|i: int| 0 <= i < 2 implies entries[i].0 != "digestAlgorithm"@ by {}
    lemma_lookup_at(entries, "digestAlgorithm"@, 2);
}

/// Law: with `--no-trust` the policy member is the trust-free policy object
/// (the Base64 of the policy XML under `bytes`, `no-trust-policy.xml` under
/// `name`); without it, the policy member is null.
pub proof fn law_policy_follows_no_trust(no_trust: bool, policy_xml: Seq<u8>)
    ensures
        no_trust ==> spec_policy_field(no_trust, policy_xml).get("bytes"@) == Some(
            JsonModel::Str(base64_standard_encode(policy_xml)),
        ),
        no_trust ==> spec_policy_field(no_trust, policy_xml).get("name"@) == Some(
            JsonModel::Str("no-trust-policy.xml"@),
        ),
        !no_trust ==> spec_policy_field(no_trust, policy_xml) == JsonModel::Null,
{
    reveal_strlit("bytes");
    reveal_strlit("name");
    let entries = seq![
        ("bytes"@, JsonModel::Str(base64_standard_encode(policy_xml))),
        ("name"@, JsonModel::Str(policy_name())),
    ];
    lemma_lookup_at(entries, "bytes"@, 0);
    assert(entries[0].0.len() != "name"@.len());
    assert(entries[0].0 != "name"@);
    assert forall|i: int| 0 <= i < 1 implies entries[i].0 != "name"@ by {}
    lemma_lookup_at(entries, "name"@, 1);
}

/// Law: the CAdES request body carries the signed document under
/// `signedDocument`, the policy it was given under `policy` (the trust-free
/// policy object with `--no-trust`, null without), `NONE` under
/// `tokenExtractionStrategy`, and, exactly for a detached signature, the
/// original document as the only item of `originalDocuments`.
pub proof fn law_cades_body_members(signed: JsonModel, policy: JsonModel, original: Option<JsonModel>)
    ensures
        spec_cades_body(signed, policy, original).get("signedDocument"@) == Some(signed),
        spec_cades_body(signed, policy, original).get("policy"@) == Some(policy),
        spec_cades_body(signed, policy, original).get("tokenExtractionStrategy"@) == Some(JsonModel::Str("NONE"@)),
        spec_cades_body(signed, policy, original).get("originalDocuments"@) == match original {
            Some(orig) => Some(JsonModel::Array(seq![orig])),
            None => None::<JsonModel>,
        },
{
    reveal_strlit("signedDocument");
    reveal_strlit("policy");
    reveal_strlit("tokenExtractionStrategy");
    reveal_strlit("originalDocuments");
    let head = seq![
        ("signedDocument"@, signed),
        ("policy"@, policy),
        ("tokenExtractionStrategy"@, JsonModel::Str("NONE"@)),
    ];
    match original {
        Some(orig) => {
            let entries = head.push(("originalDocuments"@, JsonModel::Array(seq![orig])));
            lemma_lookup_at(entries, "signedDocument"@, 0);
            assert(entries[0].0.len() != "policy"@.len());
            assert(entries[0].0 != "policy"@);
            assert forall|i: int| 0 <= i < 1 implies entries[i].0 != "policy"@ by {}
            lemma_lookup_at(entries, "policy"@, 1);
            assert(entries[0].0.len() != "tokenExtractionStrategy"@.len());
            assert(entries[0].0 != "tokenExtractionStrategy"@);
            assert(entries[1].0.len() != "tokenExtractionStrategy"@.len());
            assert(entries[1].0 != "tokenExtractionStrategy"@);
            assert forall|i: int| 0 <= i < 2 implies entries[i].0 != "tokenExtractionStrategy"@ by {}
            lemma_lookup_at(entries, "tokenExtractionStrategy"@, 2);
            assert(entries[0].0.len() != "originalDocuments"@.len());
            assert(entries[0].0 != "originalDocuments"@);
            assert(entries[1].0.len() != "originalDocuments"@.len());
            assert(entries[1].0 != "originalDocuments"@);
            assert(entries[2].0.len() != "originalDocuments"@.len());
            assert(entries[2].0 != "originalDocuments"@);
            assert forall|i: int| 0 <= i < 3 implies entries[i].0 != "originalDocuments"@ by {}
            lemma_lookup_at(entries, "originalDocuments"@, 3);
        },
        None => {
            lemma_lookup_at(head, "signedDocument"@, 0);
            assert(head[0].0.len() != "policy"@.len());
            assert(head[0].0 != "policy"@);
            assert forall|i: int| 0 <= i < 1 implies head[i].0 != "policy"@ by {}
            lemma_lookup_at(head, "policy"@, 1);
            assert(head[0].0.len() != "tokenExtractionStrategy"@.len());
            assert(head[0].0 != "tokenExtractionStrategy"@);
            assert(head[1].0.len() != "tokenExtractionStrategy"@.len());
            assert(head[1].0 != "tokenExtractionStrategy"@);
            assert forall|i: int| 0 <= i < 2 implies head[i].0 != "tokenExtractionStrategy"@ by {}
            lemma_lookup_at(head, "tokenExtractionStrategy"@, 2);
            assert(head[0].0.len() != "originalDocuments"@.len());
            assert(head[0].0 != "originalDocuments"@);
            assert(head[1].0.len() != "originalDocuments"@.len());
            assert(head[1].0 != "originalDocuments"@);
            assert(head[2].0.len() != "originalDocuments"@.len());
            assert(head[2].0 != "originalDocuments"@);
            assert forall|i: int| 0 <= i < head.len() implies head[i].0 != "originalDocuments"@ by {}
            lemma_lookup_absent(head, "originalDocuments"@);
        },
    }
}

/// Law: the PAdES request body carries the signed PDF under `signedDocument`,
/// the policy it was given under `policy`, `NONE` under
/// `tokenExtractionStrategy`, and no original documents.
pub proof fn law_pades_body_members(signed: JsonModel, policy: JsonModel)
    ensures
        spec_pades_body(signed, policy).get("signedDocument"@) == Some(signed),
        spec_pades_body(signed, policy).get("policy"@) == Some(policy),
        spec_pades_body(signed, policy).get("tokenExtractionStrategy"@) == Some(JsonModel::Str("NONE"@)),
        spec_pades_body(signed, policy).get("originalDocuments"@) is None,
{
    reveal_strlit("signedDocument");
    reveal_strlit("policy");
    reveal_strlit("tokenExtractionStrategy");
    reveal_strlit("originalDocuments");
    let entries = seq![
        ("signedDocument"@, signed),
        ("policy"@, policy),
        ("tokenExtractionStrategy"@, JsonModel::Str("NONE"@)),
    ];
    lemma_lookup_at(entries, "signedDocument"@, 0);
    assert(entries[0].0.len() != "policy"@.len());
    assert(entries[0].0 != "policy"@);
    assert forall|i: int| 0 <= i < 1 implies entries[i].0 != "policy"@ by {}
    lemma_lookup_at(entries, "policy"@, 1);
    assert(entries[0].0.len() != "tokenExtractionStrategy"@.len());
    assert(entries[0].0 != "tokenExtractionStrategy"@);
    assert(entries[1].0.len() != "tokenExtractionStrategy"@.len());
    assert(entries[1].0 != "tokenExtractionStrategy"@);
    assert forall|i: int| 0 <= i < 2 implies entries[i].0 != "tokenExtractionStrategy"@ by {}
    lemma_lookup_at(entries, "tokenExtractionStrategy"@, 2);
    assert(entries[0].0.len() != "originalDocuments"@.len());
    assert(entries[0].0 != "originalDocuments"@);
    assert(entries[1].0.len() != "originalDocuments"@.len());
    assert(entries[1].0 != "originalDocuments"@);
    assert(entries[2].0.len() != "originalDocuments"@.len());
    assert(entries[2].0 != "originalDocuments"@);
    assert forall|i: int| 0 <= i < entries.len() implies entries[i].0 != "originalDocuments"@ by {}
    lemma_lookup_absent(entries, "originalDocuments"@);
}

/// Law: with `--no-trust` the CAdES request body sent for `sig` names the
/// trust-free policy object as its policy, exactly as the PAdES body does; it
/// is null only without `--no-trust`.
pub proof fn law_cades_policy_matches_pades(
    no_trust: bool,
    policy_xml: Seq<u8>,
    sig: Seq<u8>,
    sig_name: Seq<char>,
    original: Option<JsonModel>,
)
    ensures
        spec_cades_body(spec_remote_document(sig, sig_name), spec_policy_field(no_trust, policy_xml), original).get(
            "policy"@,
        ) == spec_pades_body(spec_remote_document(sig, sig_name), spec_policy_field(no_trust, policy_xml)).get(
            "policy"@,
        ),
        no_trust ==> match spec_cades_body(
            spec_remote_document(sig, sig_name),
            spec_policy_field(no_trust, policy_xml),
            original,
        ).get("policy"@) {
            Some(p) => p.get("bytes"@) == Some(JsonModel::Str(base64_standard_encode(policy_xml))) && p.get("name"@)
                == Some(JsonModel::Str("no-trust-policy.xml"@)),
            None => false,
        },
        !no_trust ==> spec_cades_body(
            spec_remote_document(sig, sig_name),
            spec_policy_field(no_trust, policy_xml),
            original,
        ).get("policy"@) == Some(JsonModel::Null),
{
    law_cades_body_members(spec_remote_document(sig, sig_name), spec_policy_field(no_trust, policy_xml), original);
    law_pades_body_members(spec_remote_document(sig, sig_name), spec_policy_field(no_trust, policy_xml));
    law_policy_follows_no_trust(no_trust, policy_xml);
}

} // verus!
