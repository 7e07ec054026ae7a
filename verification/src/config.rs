//! The one immutable configuration value a pipeline is built from.

use vstd::prelude::*;
use vstd::string::*;

verus! {

/// Everything a pipeline needs to know about its surroundings.
pub struct Config {
    /// Name of the collection that holds the indexed corpus.
    pub collection: String,
    /// Endpoint of the vector store, as `http://host:port`.
    pub milvus_url: String,
    /// Identifier of the embedding model.
    pub embedding_model: String,
    /// Device the embedding model runs on.
    pub device: String,
    /// Name of the scalar field that identifies a document.
    pub doc_field: String,
    /// Name of the similarity metric the index was built with.
    pub metric_type: String,
}

/// The mathematical content of a [`Config`].
pub ghost struct ConfigView {
    pub collection: Seq<char>,
    pub milvus_url: Seq<char>,
    pub embedding_model: Seq<char>,
    pub device: Seq<char>,
    pub doc_field: Seq<char>,
    pub metric_type: Seq<char>,
}

impl View for Config {
    type V = ConfigView;

    open spec fn view(&self) -> ConfigView {
        ConfigView {
            collection: self.collection@,
            milvus_url: self.milvus_url@,
            embedding_model: self.embedding_model@,
            device: self.device@,
            doc_field: self.doc_field@,
            metric_type: self.metric_type@,
        }
    }
}

/// Settings supplied from outside the program, one per recognised option;
/// `None` stands for an option that was not given.
pub struct Overrides {
    pub collection: Option<String>,
    pub host: Option<String>,
    pub port: Option<String>,
    pub embedding_model: Option<String>,
    pub device: Option<String>,
}

/// The value of a setting: what was supplied, else the fallback.
pub open spec fn setting(supplied: Option<String>, fallback: Seq<char>) -> Seq<char> {
    match supplied {
        Some(s) => s@,
        None => fallback,
    }
}

/// The endpoint text for a host and a port.
pub open spec fn endpoint(host: Seq<char>, port: Seq<char>) -> Seq<char> {
    "http://"@ + host + ":"@ + port
}

/// The configuration that a set of supplied settings describes.
pub open spec fn configured(o: Overrides) -> ConfigView {
    ConfigView {
        collection: setting(o.collection, "VECTOR-STORAGE"@),
        milvus_url: endpoint(setting(o.host, "localhost"@), setting(o.port, "19530"@)),
        embedding_model: setting(o.embedding_model, "XIANXIE31-EMB-CHAMPON"@),
        device: setting(o.device, "cuda"@),
        doc_field: "doc_id"@,
        metric_type: "IP"@,
    }
}

/// No setting supplied.
pub open spec fn no_overrides() -> Overrides {
    Overrides { collection: None, host: None, port: None, embedding_model: None, device: None }
}

fn or_fallback(supplied: Option<String>, fallback: &str) -> (out: String)
    ensures
        out@ == setting(supplied, fallback@),
{
    match supplied {
        Some(s) => s,
        None => String::from_str(fallback),
    }
}

impl Overrides {
    /// The set of settings in which nothing was supplied.
    pub fn none() -> (o: Overrides)
        ensures
            o == no_overrides(),
    {
        Overrides { collection: None, host: None, port: None, embedding_model: None, device: None }
    }
}

impl Config {
    /// Builds the configuration from the supplied settings, filling every
    /// gap with its fallback. The document field and the metric are fixed.
    pub fn from_overrides(o: Overrides) -> (c: Config)
        ensures
            c@ == configured(o),
    {
        let host = or_fallback(o.host, "localhost");
        let port = or_fallback(o.port, "19530");
        let url = String::from_str("http://").concat(host.as_str()).concat(":").concat(
            port.as_str(),
        );
        Config {
            collection: or_fallback(o.collection, "VECTOR-STORAGE"),
            milvus_url: url,
            embedding_model: or_fallback(o.embedding_model, "XIANXIE31-EMB-CHAMPON"),
            device: or_fallback(o.device, "cuda"),
            doc_field: String::from_str("doc_id"),
            metric_type: String::from_str("IP"),
        }
    }
}

impl Default for Config {
    /// The configuration with every setting at its fallback.
    fn default() -> (c: Config)
        ensures
            c@ == configured(no_overrides()),
    {
        Config::from_overrides(Overrides::none())
    }
}

impl Clone for Config {
    fn clone(&self) -> (c: Config)
        ensures
            c == *self,
    {
        Config {
            collection: self.collection.clone(),
            milvus_url: self.milvus_url.clone(),
            embedding_model: self.embedding_model.clone(),
            device: self.device.clone(),
            doc_field: self.doc_field.clone(),
            metric_type: self.metric_type.clone(),
        }
    }
}

} // verus!
