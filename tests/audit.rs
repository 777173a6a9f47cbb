use mauth_audit::audit::{
    audit_batch_sizes, build_query_input, id_batches, saved_ids_text, successful_ids, Audit,
    ChangeType, QueryNext, QueryPage, QueryTally,
};

fn ids(n: usize) -> Vec<String> {
    (0..n).map(|i| format!("id-{}", i)).collect()
}

#[test]
fn batch_sizes_split_at_five_hundred() {
    assert_eq!(audit_batch_sizes(0), Vec::<i32>::new());
    assert_eq!(audit_batch_sizes(-3), Vec::<i32>::new());
    assert_eq!(audit_batch_sizes(4), vec![4]);
    assert_eq!(audit_batch_sizes(1000), vec![500, 500]);
    assert_eq!(audit_batch_sizes(1201), vec![500, 500, 201]);
}

#[test]
fn successful_ids_keep_accepted_records() {
    let all = ids(4);
    assert_eq!(
        successful_ids(&all, &vec![true, false, true, false]),
        vec!["id-0".to_string(), "id-2".to_string()]
    );
    assert_eq!(successful_ids(&all, &vec![true]), vec!["id-0".to_string()]);
    assert_eq!(successful_ids(&all, &vec![]), Vec::<String>::new());
}

#[test]
fn saved_ids_one_per_line() {
    assert_eq!(saved_ids_text(&vec![]), "\n");
    assert_eq!(saved_ids_text(&ids(2)), "id-0\nid-1\n");
}

#[test]
fn id_batches_of_one_hundred() {
    let batches = id_batches(&ids(250));
    assert_eq!(batches.len(), 3);
    assert_eq!(batches[0].len(), 100);
    assert_eq!(batches[1][0], "id-100");
    assert_eq!(batches[2].len(), 50);
    assert_eq!(batches[2][49], "id-249");
    assert!(id_batches(&vec![]).is_empty());
    assert_eq!(id_batches(&ids(100)).len(), 1);
}

#[test]
fn query_input_for_item() {
    let q = build_query_input("abc".to_string(), Some(7u32));
    assert_eq!(q.table_name, "audits.sandbox");
    assert_eq!(q.index_name, "what_uri_uuid-when_audited-index");
    assert_eq!(q.key_condition_expression, "what_uri_uuid = :item_uuid");
    assert_eq!(q.select, "ALL_ATTRIBUTES");
    assert_eq!(q.return_consumed_capacity, "INDEXES");
    assert_eq!(q.item_uuid_placeholder, ":item_uuid");
    assert_eq!(q.item_uuid, "abc");
    assert_eq!(q.exclusive_start_key, Some(7));
    assert_eq!(build_query_input::<u32>("x".to_string(), None).exclusive_start_key, None);
}

#[test]
fn query_tally_counts_pages() {
    let mut t = QueryTally::new();
    assert_eq!(t.record_page(QueryPage::Items { count: 3, more: true }), QueryNext::NextPage);
    assert_eq!(t.record_page(QueryPage::Items { count: 2, more: false }), QueryNext::NextItem(5));
    assert_eq!(t.total_retrieved, 5);
    assert_eq!(t.record_page(QueryPage::Items { count: 4, more: true }), QueryNext::NextPage);
    assert_eq!(t.record_page(QueryPage::Failed), QueryNext::Stop);
    assert_eq!(t.total_retrieved, 5);
    assert_eq!(t.item_retrieved, 4);
}

#[test]
fn fake_changes_are_numbered_fields() {
    let changes = Audit::create_fake_changes(3);
    assert_eq!(changes.len(), 3);
    assert_eq!(changes[2].field, "field_2");
    assert_eq!(changes[0].old_value.len(), 10);
    assert!(changes[0].new_value.chars().all(|c| c.is_ascii_alphanumeric()));
    assert!(Audit::create_fake_changes(-1).is_empty());
}

#[test]
fn fake_audit_shape() {
    let a = Audit::create_fake_audit();
    assert_eq!(a.audit_uuid.len(), 36);
    assert!(a.what_uri.starts_with("com:mdsol:test_items:"));
    assert_eq!(a.what_uri.len(), "com:mdsol:test_items:".len() + 36);
    assert!(a.where_uri.starts_with("com:mdsol:apps:"));
    assert_eq!(a.who_uri, "com:mdsol:apps:c775584c-7438-11e8-b836-c3b1435e3798");
    assert_eq!(a.consumer_index, "mason_test");
    assert!(a.tags.is_empty());
    assert_eq!(a.which_changed.audit_type, ChangeType::Update);
    assert_eq!(a.which_changed.changes.len(), 10);
    assert!(a.when_audited.ends_with('Z'));
}
