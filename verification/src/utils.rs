//! What the client reads from its configuration, a YAML text.

use vstd::prelude::*;
use yaml_rust::{ScanError, Yaml, YamlLoader};
use crate::error::{ConfigFault, Error};

verus! {

/// Where the configuration lies below the home directory of the user.
pub const CONFIG_FILE: &'static str = ".config/solana/cli/config.yml";

/// The name under which the configuration holds the address of the ledger.
pub const RPC_URL_FIELD: &'static str = "json_rpc_url";

/// A node of a YAML document.
#[verifier::external_type_specification]
#[verifier::external_body]
pub struct ExYaml(Yaml);

/// The texts that a YAML node holds under names: for a mapping, its entries
/// whose key and whose value are both strings; for any other node, nothing.
pub uninterp spec fn yaml_texts(node: Yaml) -> Map<Seq<char>, Seq<char>>;

/// The documents of a YAML text, each by the texts that it holds under
/// names, or nothing where the text is not YAML.
pub uninterp spec fn yaml_documents(text: Seq<char>) -> Option<Seq<Map<Seq<char>, Seq<char>>>>;

/// The documents as a list of what each holds.
pub open spec fn texts_of(documents: Seq<Yaml>) -> Seq<Map<Seq<char>, Seq<char>>> {
    Seq::new(documents.len(), |i: int| yaml_texts(documents[i]))
}

/// `YamlLoader::load_from_str`: the documents of the text, in their order,
/// or the error of the first place that is not YAML.
#[verifier::external_body]
fn load_from_str(text: &str) -> (result: Result<Vec<Yaml>, ScanError>)
    ensures
        match result {
            Ok(documents) => yaml_documents(text@) == Some(texts_of(documents@)),
            Err(_) => yaml_documents(text@) is None,
        },
{
    YamlLoader::load_from_str(text)
}

/// Indexing a `Yaml` by a name, then `Yaml::as_str`: the string that a
/// mapping holds under the name. A node that is no mapping, a mapping
/// without the name, and a value that is no string all give nothing.
#[verifier::external_body]
fn text_under(node: &Yaml, name: &str) -> (text: Option<String>)
    ensures
        match text {
            Some(text) => yaml_texts(*node).contains_key(name@) && yaml_texts(*node)[name@]
                == text@,
            None => !yaml_texts(*node).contains_key(name@),
        },
{
    node[name].as_str().map(|text| text.to_string())
}

/// What reading the text under `name` from a configuration comes to. The
/// configuration must be YAML, hold one document, and hold a text under the
/// name in it.
pub open spec fn reads_text(
    documents: Option<Seq<Map<Seq<char>, Seq<char>>>>,
    name: Seq<char>,
    result: Result<String, Error>,
) -> bool {
    match documents {
        None => result matches Err(Error::InvalidConfig(ConfigFault::Syntax(_))),
        Some(documents) => if documents.len() != 1 {
            result matches Err(Error::InvalidConfig(ConfigFault::DocumentCount(count))) && count
                == documents.len()
        } else if documents[0].contains_key(name) {
            result matches Ok(text) && text@ == documents[0][name]
        } else {
            result matches Err(Error::InvalidConfig(ConfigFault::MissingField(missing)))
                && missing@ == name
        },
    }
}

/// The one document of a configuration that has been loaded. Any other
/// number of documents is refused.
pub fn single_document(documents: Vec<Yaml>) -> (result: Result<Yaml, Error>)
    ensures
        match result {
            Ok(document) => documents@.len() == 1 && document == documents@[0],
            Err(error) => {
                &&& documents@.len() != 1
                &&& error matches Error::InvalidConfig(ConfigFault::DocumentCount(count))
                &&& count == documents@.len()
            },
        },
{
    let mut documents = documents;
    let count: usize = documents.len();
    if count == 1 {
        Ok(documents.remove(0))
    } else {
        Err(Error::InvalidConfig(ConfigFault::DocumentCount(count)))
    }
}

/// The one document of a configuration.
pub fn get_config(text: &str) -> (result: Result<Yaml, Error>)
    ensures
        match yaml_documents(text@) {
            None => result matches Err(Error::InvalidConfig(ConfigFault::Syntax(_))),
            Some(documents) => if documents.len() == 1 {
                result matches Ok(document) && yaml_texts(document) == documents[0]
            } else {
                result matches Err(Error::InvalidConfig(ConfigFault::DocumentCount(count)))
                    && count == documents.len()
            },
        },
{
    match load_from_str(text) {
        Ok(documents) => {
            assert(texts_of(documents@).len() == documents@.len());
            assert(documents@.len() == 1 ==> texts_of(documents@)[0] == yaml_texts(documents@[0]));
            single_document(documents)
        },
        Err(error) => Err(Error::InvalidConfig(ConfigFault::Syntax(error))),
    }
}

/// The text that a document holds under a name.
pub fn text_field(document: &Yaml, name: &str) -> (result: Result<String, Error>)
    ensures
        match result {
            Ok(text) => yaml_texts(*document).contains_key(name@) && text@ == yaml_texts(
                *document,
            )[name@],
            Err(error) => {
                &&& !yaml_texts(*document).contains_key(name@)
                &&& error matches Error::InvalidConfig(ConfigFault::MissingField(missing))
                &&& missing@ == name@
            },
        },
{
    match text_under(document, name) {
        Some(text) => Ok(text),
        None => Err(Error::InvalidConfig(ConfigFault::MissingField(name.to_owned()))),
    }
}

/// The address of the ledger: the text that the configuration holds under
/// `json_rpc_url`.
pub fn get_rpc_url(text: &str) -> (result: Result<String, Error>)
    ensures
        reads_text(yaml_documents(text@), RPC_URL_FIELD@, result),
{
    let document = get_config(text)?;
    text_field(&document, RPC_URL_FIELD)
}

/// The path of a keypair file: the text that the configuration holds under
/// `path_key`.
pub fn get_keypair_path(text: &str, path_key: &str) -> (result: Result<String, Error>)
    ensures
        reads_text(yaml_documents(text@), path_key@, result),
{
    let document = get_config(text)?;
    text_field(&document, path_key)
}

} // verus!
