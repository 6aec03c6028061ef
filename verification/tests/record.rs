use s3_ingest::record::{Fields, Origin};

fn origin(metadata: Option<Vec<(&str, &str)>>) -> Origin {
    Origin {
        bucket: "my-bucket".to_string(),
        object: "out.log".to_string(),
        region: "us-east-1".to_string(),
        metadata: metadata.map(|pairs| {
            pairs
                .into_iter()
                .map(|(k, v)| (k.to_string(), v.to_string()))
                .collect()
        }),
    }
}

#[test]
fn fields_set_and_get() {
    let mut fields = Fields::new();
    assert_eq!(fields.len(), 0);
    assert_eq!(fields.get("a"), None);
    fields.insert("a".to_string(), "1".to_string());
    fields.insert("b".to_string(), "2".to_string());
    assert_eq!(fields.get("a"), Some("1"));
    assert_eq!(fields.get("b"), Some("2"));
    assert_eq!(fields.get("c"), None);
    assert_eq!(fields.len(), 2);
    assert_eq!(fields.entry(0), ("a", "1"));
    assert_eq!(fields.entry(1), ("b", "2"));
}

#[test]
fn fields_later_value_replaces_earlier() {
    let mut fields = Fields::new();
    fields.insert("a".to_string(), "1".to_string());
    fields.insert("b".to_string(), "2".to_string());
    fields.insert("a".to_string(), "3".to_string());
    assert_eq!(fields.get("a"), Some("3"));
    assert_eq!(fields.get("b"), Some("2"));
    assert_eq!(fields.len(), 2);
}

#[test]
fn record_carries_bucket_object_and_region() {
    let record = origin(None).enrich(b"hello".to_vec());
    assert_eq!(record.message, b"hello".to_vec());
    assert_eq!(record.fields.get("bucket"), Some("my-bucket"));
    assert_eq!(record.fields.get("object"), Some("out.log"));
    assert_eq!(record.fields.get("region"), Some("us-east-1"));
    assert_eq!(record.fields.len(), 3);
}

#[test]
fn record_carries_user_metadata() {
    let record = origin(Some(vec![("owner", "me"), ("stage", "prod")])).enrich(b"x".to_vec());
    assert_eq!(record.fields.get("owner"), Some("me"));
    assert_eq!(record.fields.get("stage"), Some("prod"));
    assert_eq!(record.fields.get("bucket"), Some("my-bucket"));
    assert_eq!(record.fields.len(), 5);
}

#[test]
fn later_metadata_replaces_earlier_and_the_fixed_fields() {
    let record = origin(Some(vec![("k", "1"), ("region", "mars"), ("k", "2")]))
        .enrich(b"x".to_vec());
    assert_eq!(record.fields.get("k"), Some("2"));
    assert_eq!(record.fields.get("region"), Some("mars"));
    assert_eq!(record.fields.get("bucket"), Some("my-bucket"));
    assert_eq!(record.fields.get("object"), Some("out.log"));
    assert_eq!(record.fields.len(), 4);
}

#[test]
fn empty_metadata_adds_nothing() {
    let record = origin(Some(vec![])).enrich(Vec::new());
    assert_eq!(record.message, Vec::<u8>::new());
    assert_eq!(record.fields.len(), 3);
}
