//! Serialization of a keypair to and from the on-disk variable document: a
//! YAML mapping with one entry for the public key and one for the private
//! key. The YAML transform itself is the external serializer's; this module
//! states what it produces and proves that decoding gives the keypair back.

use vstd::prelude::*;

use crate::error::SshInitError;
use crate::vars::VarsFile;

verus! {

/// The YAML text the external serializer produces for a mapping of two text
/// entries `{key_a: val_a, key_b: val_b}`. A function of the entries alone.
pub uninterp spec fn yaml_mapping_doc(
    key_a: Seq<char>,
    val_a: Seq<char>,
    key_b: Seq<char>,
    val_b: Seq<char>,
) -> Seq<char>;

/// What the external parser makes of an arbitrary text `doc`, looked at
/// through the two keys `key_a` and `key_b`: either the entries it found
/// under them, or the parser's diagnostic. A function of the text and the
/// keys alone.
pub uninterp spec fn yaml_mapping_parse(
    doc: Seq<char>,
    key_a: Seq<char>,
    key_b: Seq<char>,
) -> Result<(Option<Seq<char>>, Option<Seq<char>>), Seq<char>>;

/// The variable document that holds the given keypair texts.
pub open spec fn vars_doc(public_key: Seq<char>, private_key: Seq<char>) -> Seq<char> {
    yaml_mapping_doc("ssh_public_key"@, public_key, "ssh_private_key"@, private_key)
}

/// The parse outcome for the variable document's two keys.
pub open spec fn vars_parse(doc: Seq<char>) -> Result<
    (Option<Seq<char>>, Option<Seq<char>>),
    Seq<char>,
> {
    yaml_mapping_parse(doc, "ssh_public_key"@, "ssh_private_key"@)
}

/// Relies on serde_yaml::to_string over a `BTreeMap<String, String>` of two
/// entries: the output text is a deterministic function of the entries
/// alone, and emission cannot fail — the serializer writes to an in-memory
/// buffer, and its scalar-style inference together with the emitter's
/// double-quoted fallback makes every string value representable.
#[verifier::external_body]
fn yaml_emit_mapping(key_a: &str, val_a: &str, key_b: &str, val_b: &str) -> (r: Result<
    String,
    String,
>)
    ensures
        r is Ok,
        r matches Ok(doc) ==> doc@ == yaml_mapping_doc(key_a@, val_a@, key_b@, val_b@),
{
    let mut entries = std::collections::BTreeMap::new();
    entries.insert(key_a.to_owned(), val_a.to_owned());
    entries.insert(key_b.to_owned(), val_b.to_owned());
    serde_yaml::to_string(&entries).map_err(|e| e.to_string())
}

/// What parsing a two-entry mapping document gives back: on any text the
/// serializer produced for distinct keys `key_a` and `key_b`, both entries,
/// exactly as they were serialized.
pub open spec fn parses_mapping_back(
    doc: Seq<char>,
    key_a: Seq<char>,
    key_b: Seq<char>,
    r: Result<(Option<String>, Option<String>), String>,
) -> bool {
    forall|va: Seq<char>, vb: Seq<char>|
        (key_a != key_b && doc == yaml_mapping_doc(key_a, va, key_b, vb)) ==> (r matches Ok(p)
            && p.0 matches Some(a) && p.1 matches Some(b) && a@ == va && b@ == vb)
}

/// The parse result with every text replaced by its view, for stating that
/// the result is the function [`yaml_mapping_parse`] of the input.
pub open spec fn parse_result_view(r: Result<(Option<String>, Option<String>), String>) -> Result<
    (Option<Seq<char>>, Option<Seq<char>>),
    Seq<char>,
> {
    match r {
        Ok(p) => Ok(
            (
                match p.0 {
                    Some(a) => Some(a@),
                    None => None,
                },
                match p.1 {
                    Some(b) => Some(b@),
                    None => None,
                },
            ),
        ),
        Err(m) => Err(m@),
    }
}

/// Relies on serde_yaml::from_str to a `BTreeMap<String, String>`: the parse
/// outcome is a deterministic function of the text and the keys looked up,
/// and parsing text that serde_yaml::to_string produced for a two-entry
/// mapping with distinct keys yields exactly those entries back (serde
/// documents its data formats as round-tripping self-describing values). An
/// `Err` carries the parser diagnostic; an absent key comes back as `None`.
#[verifier::external_body]
fn yaml_parse_mapping(doc: &str, key_a: &str, key_b: &str) -> (r: Result<
    (Option<String>, Option<String>),
    String,
>)
    ensures
        parse_result_view(r) == yaml_mapping_parse(doc@, key_a@, key_b@),
        parses_mapping_back(doc@, key_a@, key_b@, r),
{
    let entries: std::collections::BTreeMap<String, String> =
        serde_yaml::from_str(doc).map_err(|e| e.to_string())?;
    Ok((entries.get(key_a).cloned(), entries.get(key_b).cloned()))
}

/// Serialize a keypair as a variable document. Both fields are text, and the
/// document format represents any text, so encoding always succeeds.
pub fn encode_vars_file(vars: &VarsFile) -> (r: Result<String, SshInitError>)
    ensures
        r is Ok,
        r matches Ok(doc) ==> doc@ == vars_doc(vars.ssh_public_key@, vars.ssh_private_key@),
{
    match yaml_emit_mapping(
        "ssh_public_key",
        &vars.ssh_public_key,
        "ssh_private_key",
        &vars.ssh_private_key,
    ) {
        Ok(doc) => Ok(doc),
        Err(_) => vstd::pervasive::unreached(),
    }
}

/// Parse a variable document back into a keypair.
///
/// The first clause is the codec's round-trip law: on any document that
/// [`encode_vars_file`] produced for a keypair — whatever its field texts,
/// empty and multi-line included — decoding succeeds and returns exactly
/// that keypair. The remaining clauses pin the result on every other text
/// too: it follows the parse outcome [`vars_parse`], succeeding exactly when
/// the parser finds both entries, and failing with `ParseError` otherwise.
pub fn decode_vars_file(doc: &str) -> (r: Result<VarsFile, SshInitError>)
    ensures
        forall|pk: Seq<char>, sk: Seq<char>|
            doc@ == vars_doc(pk, sk) ==> {
                &&& r matches Ok(v)
                &&& v.ssh_public_key@ == pk
                &&& v.ssh_private_key@ == sk
            },
        r matches Ok(v) ==> (vars_parse(doc@) matches Ok(p) && p.0 == Some(v.ssh_public_key@)
            && p.1 == Some(v.ssh_private_key@)),
        (vars_parse(doc@) matches Ok(p) && p.0 is Some && p.1 is Some) ==> r is Ok,
        r matches Err(e) ==> e is ParseError,
{
    proof {
        reveal_strlit("ssh_public_key");
        reveal_strlit("ssh_private_key");
        assert("ssh_public_key"@.len() != "ssh_private_key"@.len());
        assert("ssh_public_key"@ != "ssh_private_key"@);
    }
    match yaml_parse_mapping(doc, "ssh_public_key", "ssh_private_key") {
        Ok((Some(public_key), Some(private_key))) => Ok(
            VarsFile { ssh_public_key: public_key, ssh_private_key: private_key },
        ),
        Ok(_) => Err(
            SshInitError::ParseError(String::from_str("document lacks a required key entry")),
        ),
        Err(m) => Err(SshInitError::ParseError(m)),
    }
}

} // verus!
