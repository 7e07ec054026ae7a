use heungguk_poc_rag::config::{Config, Overrides};

#[test]
fn default_configuration_uses_every_fallback() {
    let cfg = Config::default();
    assert_eq!(cfg.collection, "VECTOR-STORAGE");
    assert_eq!(cfg.milvus_url, "http://localhost:19530");
    assert_eq!(cfg.embedding_model, "XIANXIE31-EMB-CHAMPON");
    assert_eq!(cfg.device, "cuda");
    assert_eq!(cfg.doc_field, "doc_id");
    assert_eq!(cfg.metric_type, "IP");
}

#[test]
fn no_overrides_gives_the_default() {
    let a = Config::from_overrides(Overrides::none());
    let b = Config::default();
    assert_eq!(a.collection, b.collection);
    assert_eq!(a.milvus_url, b.milvus_url);
    assert_eq!(a.embedding_model, b.embedding_model);
    assert_eq!(a.device, b.device);
    assert_eq!(a.doc_field, b.doc_field);
    assert_eq!(a.metric_type, b.metric_type);
}

#[test]
fn supplied_settings_replace_fallbacks() {
    let cfg = Config::from_overrides(Overrides {
        collection: Some(String::from("papers")),
        host: Some(String::from("10.0.0.7")),
        port: Some(String::from("29530")),
        embedding_model: Some(String::from("mini-lm")),
        device: Some(String::from("cpu")),
    });
    assert_eq!(cfg.collection, "papers");
    assert_eq!(cfg.milvus_url, "http://10.0.0.7:29530");
    assert_eq!(cfg.embedding_model, "mini-lm");
    assert_eq!(cfg.device, "cpu");
    assert_eq!(cfg.doc_field, "doc_id");
    assert_eq!(cfg.metric_type, "IP");
}

#[test]
fn host_and_port_are_filled_in_independently() {
    let host_only = Config::from_overrides(Overrides {
        collection: None,
        host: Some(String::from("milvus.internal")),
        port: None,
        embedding_model: None,
        device: None,
    });
    assert_eq!(host_only.milvus_url, "http://milvus.internal:19530");
    let port_only = Config::from_overrides(Overrides {
        collection: None,
        host: None,
        port: Some(String::from("1")),
        embedding_model: None,
        device: None,
    });
    assert_eq!(port_only.milvus_url, "http://localhost:1");
}

#[test]
fn an_empty_setting_counts_as_supplied() {
    let cfg = Config::from_overrides(Overrides {
        collection: Some(String::new()),
        host: Some(String::new()),
        port: Some(String::new()),
        embedding_model: None,
        device: None,
    });
    assert_eq!(cfg.collection, "");
    assert_eq!(cfg.milvus_url, "http://:");
}

#[test]
fn clone_copies_every_field() {
    let cfg = Config::from_overrides(Overrides {
        collection: Some(String::from("c")),
        host: Some(String::from("h")),
        port: Some(String::from("p")),
        embedding_model: Some(String::from("m")),
        device: Some(String::from("d")),
    });
    let copy = cfg.clone();
    assert_eq!(copy.collection, "c");
    assert_eq!(copy.milvus_url, "http://h:p");
    assert_eq!(copy.embedding_model, "m");
    assert_eq!(copy.device, "d");
    assert_eq!(copy.doc_field, cfg.doc_field);
    assert_eq!(copy.metric_type, cfg.metric_type);
}
