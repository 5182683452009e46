use qdrant_operator::{
    classify_creation_error, comma_list, decode_group_ids, dense_space_configs, dense_space_for,
    field_index, id_list, normalize_groups, normalize_hits, normalize_ids, plan_add_to_group,
    plan_group_search, plan_point_insert, plan_point_update, plan_remove_from_group,
    plan_search, point_id_texts, query_space, recommend_space, BootstrapAction, BootstrapEvent,
    BootstrapStage, CollectionBootstrap, FieldValue, GroupKey, IndexKind, Payload,
    PointKey, PointMetadata, PointWrite, QdrantError, RawGroup, ScoredHit, StoredPayload,
    VectorSpace, VectorType, NIL_ID,
};

const G1: &str = "6f1c2a3e-8b4d-4c2a-9e1f-0a1b2c3d4e5f";
const G2: &str = "11111111-2222-4333-8444-555555555555";
const D: &str = "a0a0a0a0-b1b1-4c2c-8d3d-e4e4e4e4e4e4";

fn id(s: &str) -> u128 {
    uuid::Uuid::parse_str(s).unwrap().as_u128()
}

fn texts(v: &FieldValue) -> Vec<String> {
    match v {
        FieldValue::List(items) => items
            .iter()
            .map(|x| match x {
                FieldValue::Text(t) => t.clone(),
                other => panic!("not a text: {:?}", other),
            })
            .collect(),
        other => panic!("not a list: {:?}", other),
    }
}

fn text_list(parts: &[&str]) -> FieldValue {
    FieldValue::List(parts.iter().map(|p| FieldValue::Text(p.to_string())).collect())
}

fn stored_of(p: Payload) -> StoredPayload {
    StoredPayload {
        tag_set: Some(p.tag_set),
        link: Some(p.link),
        metadata: Some(p.metadata),
        time_stamp: Some(p.time_stamp),
        dataset_id: Some(p.dataset_id),
        group_ids: Some(p.group_ids),
    }
}

fn sample_stored(group_ids: Option<FieldValue>) -> StoredPayload {
    StoredPayload {
        tag_set: Some(text_list(&["a", "b"])),
        link: Some(text_list(&["http://x"])),
        metadata: Some(FieldValue::Object(vec![])),
        time_stamp: Some(FieldValue::Integer(1700000000)),
        dataset_id: Some(FieldValue::Text(D.to_string())),
        group_ids,
    }
}

fn metadata() -> PointMetadata {
    PointMetadata {
        tag_set: Some("a,b".to_string()),
        link: Some("http://x".to_string()),
        metadata: None,
        time_stamp: Some(1700000000),
        dataset_id: id(D),
    }
}

fn upsert_payload(w: PointWrite) -> (VectorSpace, Payload, bool) {
    match w {
        PointWrite::Upsert { space, payload, wait } => (space, payload, wait),
        other => panic!("expected an upsert: {:?}", other),
    }
}

fn overwrite_payload(w: PointWrite) -> Payload {
    match w {
        PointWrite::OverwritePayload { payload } => payload,
        other => panic!("expected a payload overwrite: {:?}", other),
    }
}

fn group_texts(p: &Payload) -> Vec<String> {
    texts(&p.group_ids)
}

#[test]
fn supported_lengths_route_to_their_space() {
    let cases = [
        (384usize, VectorSpace::Dense384, "384_vectors"),
        (512, VectorSpace::Dense512, "512_vectors"),
        (768, VectorSpace::Dense768, "768_vectors"),
        (1024, VectorSpace::Dense1024, "1024_vectors"),
        (1536, VectorSpace::Dense1536, "1536_vectors"),
    ];
    for (len, space, name) in cases {
        let s = dense_space_for(len).unwrap();
        assert_eq!(s, space);
        assert_eq!(s.name(), name);
        assert_eq!(s.dimension_of(), len as u64);
    }
    assert_eq!(VectorSpace::Sparse.name(), "sparse_vectors");
}

#[test]
fn unsupported_lengths_fail_everywhere() {
    for len in [0usize, 1, 383, 385, 1000, 2048] {
        assert_eq!(dense_space_for(len), Err(QdrantError::InvalidVectorSize));
        assert_eq!(recommend_space(len), Err(QdrantError::InvalidVectorSize));
        let v = VectorType::Dense(vec![0; len]);
        assert_eq!(plan_search(1, 5, &v), Err(QdrantError::InvalidVectorSize));
        assert_eq!(plan_group_search(1, 5, 3, &v), Err(QdrantError::InvalidVectorSize));
        assert!(matches!(
            plan_point_insert(len, metadata(), None),
            Err(QdrantError::InvalidVectorSize)
        ));
        assert!(matches!(
            plan_point_update(None, Some(len), None, id(D), Some(sample_stored(None))),
            Err(QdrantError::InvalidVectorSize)
        ));
    }
}

#[test]
fn sparse_queries_use_sparse_space() {
    let v = VectorType::Sparse(vec![(3, 0x3f80_0000), (17, 0x4000_0000)]);
    assert_eq!(query_space(&v), Ok(VectorSpace::Sparse));
    let v = VectorType::Sparse(vec![]);
    assert_eq!(plan_search(1, 5, &v).unwrap().space, VectorSpace::Sparse);
}

#[test]
fn insert_builds_payload() {
    let w = plan_point_insert(768, metadata(), Some(vec![id(G1)])).unwrap();
    let (space, p, wait) = upsert_payload(w);
    assert_eq!(space, VectorSpace::Dense768);
    assert!(wait);
    assert_eq!(texts(&p.tag_set), vec!["a", "b"]);
    assert_eq!(texts(&p.link), vec!["http://x"]);
    assert!(matches!(p.metadata, FieldValue::Object(ref o) if o.is_empty()));
    assert!(matches!(p.time_stamp, FieldValue::Integer(1700000000)));
    assert!(matches!(p.dataset_id, FieldValue::Text(ref t) if t == D));
    assert_eq!(group_texts(&p), vec![G1]);
}

#[test]
fn insert_defaults_absent_fields() {
    let m = PointMetadata {
        tag_set: None,
        link: None,
        metadata: None,
        time_stamp: None,
        dataset_id: id(D),
    };
    let (_, p, _) = upsert_payload(plan_point_insert(384, m, None).unwrap());
    assert_eq!(texts(&p.tag_set), vec![""]);
    assert_eq!(texts(&p.link), vec![""]);
    assert!(matches!(p.metadata, FieldValue::Object(ref o) if o.is_empty()));
    assert!(matches!(p.time_stamp, FieldValue::Integer(0)));
    assert!(group_texts(&p).is_empty());
}

#[test]
fn round_trip_without_metadata_keeps_fields() {
    let (_, p, _) = upsert_payload(plan_point_insert(512, metadata(), Some(vec![id(G1)])).unwrap());
    let before = format!("{:?}", p);
    let q = overwrite_payload(plan_point_update(None, None, None, id(D), Some(stored_of(p))).unwrap());
    assert_eq!(format!("{:?}", q), before);
    assert_eq!(texts(&q.tag_set), vec!["a", "b"]);
    assert_eq!(texts(&q.link), vec!["http://x"]);
    assert!(matches!(q.time_stamp, FieldValue::Integer(1700000000)));
    assert!(matches!(q.dataset_id, FieldValue::Text(ref t) if t == D));
    assert_eq!(group_texts(&q), vec![G1]);
}

#[test]
fn vector_only_update_keeps_payload_and_replaces_vector() {
    let before = format!("{:?}", sample_stored(Some(text_list(&[G1]))).tag_set.unwrap());
    let w = plan_point_update(None, Some(1024), None, id(D), Some(sample_stored(Some(text_list(&[G1])))))
        .unwrap();
    let (space, p, wait) = upsert_payload(w);
    assert_eq!(space, VectorSpace::Dense1024);
    assert!(!wait);
    assert_eq!(format!("{:?}", p.tag_set), before);
    assert_eq!(texts(&p.link), vec!["http://x"]);
    assert!(matches!(p.time_stamp, FieldValue::Integer(1700000000)));
    assert_eq!(group_texts(&p), vec![G1]);
}

#[test]
fn update_blanks_missing_fields() {
    let s = StoredPayload {
        tag_set: None,
        link: None,
        metadata: None,
        time_stamp: None,
        dataset_id: None,
        group_ids: None,
    };
    let p = overwrite_payload(plan_point_update(None, None, None, id(D), Some(s)).unwrap());
    for f in [&p.tag_set, &p.link, &p.metadata, &p.time_stamp, &p.dataset_id] {
        assert!(matches!(f, FieldValue::Text(t) if t.is_empty()));
    }
    assert!(group_texts(&p).is_empty());
}

#[test]
fn update_with_metadata_group_fallbacks() {
    let p = overwrite_payload(
        plan_point_update(Some(metadata()), None, None, id(G2), Some(sample_stored(Some(text_list(&[G1])))))
            .unwrap(),
    );
    assert_eq!(group_texts(&p), vec![G1]);
    assert!(matches!(p.dataset_id, FieldValue::Text(ref t) if t == G2));
    let p = overwrite_payload(
        plan_point_update(Some(metadata()), None, Some(vec![id(G2)]), id(D), Some(sample_stored(Some(text_list(&[G1])))))
            .unwrap(),
    );
    assert_eq!(group_texts(&p), vec![G2]);
    let p = overwrite_payload(plan_point_update(Some(metadata()), None, None, id(D), None).unwrap());
    assert!(group_texts(&p).is_empty());
}

#[test]
fn update_of_absent_point_without_metadata_is_not_found() {
    assert!(matches!(
        plan_point_update(None, None, None, id(D), None),
        Err(QdrantError::NotFound)
    ));
    assert!(matches!(
        plan_point_update(None, Some(384), None, id(D), None),
        Err(QdrantError::NotFound)
    ));
}

#[test]
fn add_to_group_without_prior_field() {
    let p = plan_add_to_group(Some(sample_stored(None)), id(G2)).unwrap();
    assert_eq!(group_texts(&p), vec![G2]);
    assert_eq!(texts(&p.tag_set), vec!["a", "b"]);
}

#[test]
fn add_to_group_twice_keeps_duplicates() {
    let first = plan_add_to_group(Some(sample_stored(Some(text_list(&[G1])))), id(G2)).unwrap();
    assert_eq!(group_texts(&first), vec![G1, G2]);
    let second = plan_add_to_group(Some(stored_of(first)), id(G2)).unwrap();
    assert_eq!(group_texts(&second), vec![G1, G2, G2]);
}

#[test]
fn remove_from_group_is_idempotent() {
    let first =
        plan_remove_from_group(Some(sample_stored(Some(text_list(&[G1, G2, G1])))), id(G1)).unwrap();
    assert_eq!(group_texts(&first), vec![G2]);
    let second = plan_remove_from_group(Some(stored_of(first)), id(G1)).unwrap();
    assert_eq!(group_texts(&second), vec![G2]);
    let p = plan_remove_from_group(Some(sample_stored(None)), id(G1)).unwrap();
    assert!(group_texts(&p).is_empty());
}

#[test]
fn membership_edit_of_absent_point_is_not_found() {
    assert!(matches!(plan_add_to_group(None, id(G1)), Err(QdrantError::NotFound)));
    assert!(matches!(plan_remove_from_group(None, id(G1)), Err(QdrantError::NotFound)));
}

#[test]
fn unreadable_group_ids_become_nil() {
    let v = FieldValue::List(vec![
        FieldValue::Text(G1.to_string()),
        FieldValue::Text("not-a-uuid".to_string()),
        FieldValue::Integer(4),
    ]);
    assert_eq!(decode_group_ids(&v), vec![id(G1), NIL_ID, NIL_ID]);
    assert!(decode_group_ids(&FieldValue::Text(G1.to_string())).is_empty());
    let p = plan_add_to_group(Some(sample_stored(Some(v))), id(G2)).unwrap();
    assert_eq!(
        group_texts(&p),
        vec![G1, "00000000-0000-0000-0000-000000000000", "00000000-0000-0000-0000-000000000000", G2]
    );
}

#[test]
fn comma_lists_split_on_every_comma() {
    assert_eq!(texts(&comma_list("a,b")), vec!["a", "b"]);
    assert_eq!(texts(&comma_list("a,,b,")), vec!["a", "", "b", ""]);
    assert_eq!(texts(&comma_list("")), vec![""]);
}

#[test]
fn identifiers_are_written_hyphenated() {
    assert_eq!(texts(&id_list(&vec![id(G1), 0])), vec![G1, "00000000-0000-0000-0000-000000000000"]);
    let t = point_id_texts(&vec![id(G2)]);
    assert_eq!(t, vec![G2.to_string()]);
}

#[test]
fn search_pages_have_fixed_stride() {
    let v = VectorType::Dense(vec![0; 384]);
    let p1 = plan_search(1, 5, &v).unwrap();
    assert_eq!(p1.offset, 0);
    assert_eq!(p1.limit, 5);
    assert_eq!(p1.space, VectorSpace::Dense384);
    let p2 = plan_search(2, 5, &v).unwrap();
    assert_eq!(p2.offset, 10);
    assert_eq!(p2.limit, 5);
    assert_eq!(plan_search(4, 3, &v).unwrap().offset, 30);
}

#[test]
fn group_search_requests_growing_limit() {
    let v = VectorType::Dense(vec![0; 1536]);
    let p = plan_group_search(2, 5, 3, &v).unwrap();
    assert_eq!(p.limit, 10);
    assert_eq!(p.group_size, 3);
    assert_eq!(p.space, VectorSpace::Dense1536);
    assert_eq!(plan_group_search(1, 5, 3, &v).unwrap().limit, 5);
    assert_eq!(plan_group_search(0, 5, 3, &v).unwrap().limit, 0);
}

#[test]
fn recommendation_space_follows_configured_size() {
    assert_eq!(recommend_space(1024), Ok(VectorSpace::Dense1024));
}

#[test]
fn hits_keep_identifier_keys_only() {
    let hits = vec![
        ScoredHit { id: Some(PointKey::Uuid(G1.to_string())), score_bits: 7 },
        ScoredHit { id: Some(PointKey::Num(5)), score_bits: 8 },
        ScoredHit { id: None, score_bits: 9 },
        ScoredHit { id: Some(PointKey::Uuid("bad".to_string())), score_bits: 10 },
        ScoredHit { id: Some(PointKey::Uuid(G2.to_string())), score_bits: 11 },
    ];
    let r = normalize_hits(&hits);
    assert_eq!(r.len(), 2);
    assert_eq!((r[0].point_id, r[0].score_bits), (id(G1), 7));
    assert_eq!((r[1].point_id, r[1].score_bits), (id(G2), 11));
    let keys = vec![Some(PointKey::Num(1)), Some(PointKey::Uuid(G2.to_string())), None];
    assert_eq!(normalize_ids(&keys), vec![id(G2)]);
}

#[test]
fn groups_keep_text_keys_only() {
    let groups = vec![
        RawGroup {
            id: Some(GroupKey::Text(G1.to_string())),
            hits: vec![ScoredHit { id: Some(PointKey::Uuid(G2.to_string())), score_bits: 1 }],
        },
        RawGroup { id: Some(GroupKey::Integer(3)), hits: vec![] },
        RawGroup { id: Some(GroupKey::Unsigned(3)), hits: vec![] },
        RawGroup { id: None, hits: vec![] },
        RawGroup { id: Some(GroupKey::Text("junk".to_string())), hits: vec![] },
    ];
    let r = normalize_groups(&groups);
    assert_eq!(r.len(), 2);
    assert_eq!(r[0].group_id, id(G1));
    assert_eq!(r[0].hits.len(), 1);
    assert_eq!(r[0].hits[0].point_id, id(G2));
    assert_eq!(r[1].group_id, NIL_ID);
    assert!(r[1].hits.is_empty());
}

#[test]
fn collection_spaces_quantize_all_but_smallest() {
    let c = dense_space_configs(true);
    assert_eq!(c.len(), 5);
    assert_eq!(c[0].size, 384);
    assert!(!c[0].quantized);
    for (cfg, size) in c[1..].iter().zip([512u64, 768, 1024, 1536]) {
        assert_eq!(cfg.size, size);
        assert!(cfg.quantized);
    }
    assert!(dense_space_configs(false).iter().all(|c| !c.quantized));
}

#[test]
fn bootstrap_creates_collection_then_six_indexes() {
    let mut b = CollectionBootstrap::new(true);
    match b.step(BootstrapEvent::Checked { present: false }) {
        BootstrapAction::CreateCollection(c) => assert_eq!(c.len(), 5),
        other => panic!("{:?}", other),
    }
    let expected = [
        ("link", IndexKind::Text),
        ("tag_set", IndexKind::Text),
        ("dataset_id", IndexKind::Keyword),
        ("metadata", IndexKind::Keyword),
        ("time_stamp", IndexKind::Integer),
        ("group_ids", IndexKind::Keyword),
    ];
    let mut seen = vec![];
    let mut action = b.step(BootstrapEvent::Created);
    loop {
        match action {
            BootstrapAction::CreateIndex(ix) => {
                seen.push((ix.field, ix.kind));
                action = b.step(BootstrapEvent::Created);
            }
            BootstrapAction::Finish(r) => {
                assert_eq!(r, Ok(()));
                break;
            }
            other => panic!("{:?}", other),
        }
    }
    assert_eq!(seen, expected.to_vec());
    assert_eq!(b.stage, BootstrapStage::Finished);
    assert_eq!(field_index(5).field, "group_ids");
}

#[test]
fn second_creation_reports_already_exists() {
    let mut b = CollectionBootstrap::new(false);
    match b.step(BootstrapEvent::Checked { present: true }) {
        BootstrapAction::Finish(r) => assert_eq!(r, Err(QdrantError::AlreadyExists)),
        other => panic!("{:?}", other),
    }
    let mut b = CollectionBootstrap::new(false);
    b.step(BootstrapEvent::Checked { present: false });
    match b.step(BootstrapEvent::Refused("Wrong input: Collection `c` already exists!".to_string())) {
        BootstrapAction::Finish(r) => assert_eq!(r, Err(QdrantError::AlreadyExists)),
        other => panic!("{:?}", other),
    }
}

#[test]
fn creation_errors_are_classified() {
    assert_eq!(classify_creation_error("collection already exists"), QdrantError::AlreadyExists);
    assert_eq!(classify_creation_error("timeout"), QdrantError::CollectionCreationFailed);
    assert_eq!(classify_creation_error("already"), QdrantError::CollectionCreationFailed);
}

#[test]
fn failed_index_stops_bootstrap() {
    let mut b = CollectionBootstrap::new(false);
    assert!(b.accepts(&BootstrapEvent::Checked { present: false }));
    b.step(BootstrapEvent::Checked { present: false });
    assert!(!b.accepts(&BootstrapEvent::Checked { present: false }));
    b.step(BootstrapEvent::Created);
    match b.step(BootstrapEvent::Refused("no".to_string())) {
        BootstrapAction::Finish(r) => assert_eq!(r, Err(QdrantError::IndexCreationFailed)),
        other => panic!("{:?}", other),
    }
    assert!(!b.accepts(&BootstrapEvent::Created));
}

#[test]
fn errors_describe_themselves() {
    assert_eq!(QdrantError::AlreadyExists.message(), "Collection already exists");
    assert_eq!(QdrantError::InvalidVectorSize.message(), "Invalid embedding vector size");
    assert_eq!(QdrantError::PayloadUpdateFailed.message(), "Failed updating chunk payload in qdrant");
}
