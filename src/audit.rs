//! The audit tooling around the client: fake audit records, batching them
//! for the streaming ingest service, and the queries and tallies of reading
//! them back from the document store.
use crate::encoding::{decimal_string, decimal_text, uuid_text};
use crate::primitives::uuid_string;
use rand::distributions::DistString;
use vstd::prelude::*;

verus! {

/// The largest number of records that one put to the ingest service carries.
pub const BATCH_SIZE: i32 = 500;

/// The largest number of identities that one batched read asks for.
pub const READ_BATCH_SIZE: usize = 100;

/// The number of field changes in a fake audit.
pub const FAKE_CHANGE_COUNT: i32 = 10;

/// The length of the random old and new values of a fake change.
pub const FAKE_VALUE_LEN: usize = 10;

/// What kind of change an audit records.
#[derive(Clone, Copy, Debug, PartialEq, Eq, Structural)]
pub enum ChangeType {
    Create,
    Update,
    Destroy,
}

/// One changed field, with its value before and after.
#[derive(Debug)]
pub struct Change {
    pub field: String,
    pub old_value: String,
    pub new_value: String,
}

/// The kind of an audited change and the fields it touched.
#[derive(Debug)]
pub struct WhichChanged {
    pub audit_type: ChangeType,
    pub changes: Vec<Change>,
}

/// An audit record.
#[derive(Debug)]
pub struct Audit {
    pub audit_uuid: String,
    pub what_uri: String,
    pub where_uri: String,
    pub who_uri: String,
    pub when_audited: String,
    pub tags: Vec<String>,
    pub which_changed: WhichChanged,
    pub consumer_index: String,
}

/// A query of the audits of one item, by the item's identity, resuming after
/// `exclusive_start_key` when a previous page left one.
#[derive(Debug)]
pub struct QueryInput<K> {
    pub table_name: String,
    pub index_name: String,
    pub key_condition_expression: String,
    pub select: String,
    pub exclusive_start_key: Option<K>,
    pub return_consumed_capacity: String,
    pub item_uuid_placeholder: String,
    pub item_uuid: String,
}

/// Whether a character is an ASCII letter or digit.
pub open spec fn is_alphanumeric(c: char) -> bool {
    ('a' <= c <= 'z') || ('A' <= c <= 'Z') || ('0' <= c <= '9')
}

/// Relies on rand's `Alphanumeric` distribution, sampled into a string with
/// `thread_rng`: `len` characters, each an ASCII letter or digit.
#[verifier::external_body]
fn random_alphanumeric(len: usize) -> (r: String)
    ensures
        r@.len() == len,
        forall|i: int| 0 <= i < r@.len() ==> is_alphanumeric(#[trigger] r@[i]),
{
    rand::distributions::Alphanumeric.sample_string(&mut rand::thread_rng(), len)
}

/// Relies on `uuid::Uuid::new_v4`: a random identity.
#[verifier::external_body]
fn random_uuid() -> (r: u128) {
    uuid::Uuid::new_v4().as_u128()
}

/// Relies on chrono's `Utc::now` and `to_rfc3339_opts` with milliseconds and
/// `Z`: the present time as RFC 3339 text.
#[verifier::external_body]
fn now_rfc3339() -> (r: String) {
    chrono::Utc::now().to_rfc3339_opts(chrono::SecondsFormat::Millis, true)
}

/// Whether a string is `len` ASCII letters and digits.
pub open spec fn random_text(s: Seq<char>, len: nat) -> bool {
    &&& s.len() == len
    &&& forall|i: int| 0 <= i < s.len() ==> is_alphanumeric(#[trigger] s[i])
}

/// Whether `changes` are the fake changes `field_0`, `field_1`, ... with
/// random values, `count` of them (none for a negative count).
pub open spec fn fake_changes(changes: Seq<Change>, count: int) -> bool {
    &&& changes.len() == if count > 0 {
        count
    } else {
        0
    }
    &&& forall|i: int|
        0 <= i < changes.len() ==> {
            &&& (#[trigger] changes[i]).field@ == "field_"@ + decimal_text(i)
            &&& random_text(changes[i].old_value@, FAKE_VALUE_LEN as nat)
            &&& random_text(changes[i].new_value@, FAKE_VALUE_LEN as nat)
        }
}

/// Whether text is some identity prefixed by `prefix`.
pub open spec fn prefixed_uuid(s: Seq<char>, prefix: Seq<char>) -> bool {
    exists|u: u128| s == prefix + uuid_text(u)
}

impl Audit {
    /// A fake audit of an update with ten changed fields, random identities
    /// and the present time.
    pub fn create_fake_audit() -> (r: Audit)
        ensures
            prefixed_uuid(r.audit_uuid@, Seq::empty()),
            prefixed_uuid(r.what_uri@, "com:mdsol:test_items:"@),
            prefixed_uuid(r.where_uri@, "com:mdsol:apps:"@),
            r.who_uri@ == "com:mdsol:apps:c775584c-7438-11e8-b836-c3b1435e3798"@,
            r.consumer_index@ == "mason_test"@,
            r.tags@.len() == 0,
            r.which_changed.audit_type == ChangeType::Update,
            fake_changes(r.which_changed.changes@, FAKE_CHANGE_COUNT as int),
    {
        let audit_id = random_uuid();
        let audit_uuid = uuid_string(audit_id);
        assert(audit_uuid@ == Seq::<char>::empty() + uuid_text(audit_id));
        let what_id = random_uuid();
        let what_text = uuid_string(what_id);
        let what_uri = String::from_str("com:mdsol:test_items:").concat(what_text.as_str());
        let where_id = random_uuid();
        let where_text = uuid_string(where_id);
        let where_uri = String::from_str("com:mdsol:apps:").concat(where_text.as_str());
        Audit {
            audit_uuid,
            what_uri,
            where_uri,
            who_uri: String::from_str("com:mdsol:apps:c775584c-7438-11e8-b836-c3b1435e3798"),
            when_audited: now_rfc3339(),
            tags: Vec::new(),
            which_changed: WhichChanged {
                audit_type: ChangeType::Update,
                changes: Self::create_fake_changes(FAKE_CHANGE_COUNT),
            },
            consumer_index: String::from_str("mason_test"),
        }
    }

    /// `count` fake changes of the fields `field_0`, `field_1`, ..., each
    /// with random old and new values.
    pub fn create_fake_changes(count: i32) -> (r: Vec<Change>)
        ensures
            fake_changes(r@, count as int),
    {
        let mut changes: Vec<Change> = Vec::new();
        let mut num: i32 = 0;
        while num < count
            invariant
                0 <= num,
                count > 0 ==> num <= count,
                count <= 0 ==> num == 0,
                fake_changes(changes@, num as int),
            decreases count - num,
        {
            let number = decimal_string(num as i64);
            let field = String::from_str("field_").concat(number.as_str());
            let change = Change {
                field,
                old_value: random_alphanumeric(FAKE_VALUE_LEN),
                new_value: random_alphanumeric(FAKE_VALUE_LEN),
            };
            changes.push(change);
            num = num + 1;
        }
        changes
    }
}

/// The sizes of the puts that carry `audits` records: as many full batches
/// as fit, then one batch with the rest if any is left.
pub open spec fn batch_sizes(audits: int) -> Seq<i32> {
    if audits <= 0 {
        Seq::empty()
    } else {
        let full = Seq::new((audits / BATCH_SIZE as int) as nat, |i: int| BATCH_SIZE);
        if audits % BATCH_SIZE as int > 0 {
            full.push((audits % BATCH_SIZE as int) as i32)
        } else {
            full
        }
    }
}

/// Splits `audits` records into puts of at most the batch size.
pub fn audit_batch_sizes(audits: i32) -> (r: Vec<i32>)
    ensures
        r@ == batch_sizes(audits as int),
{
    let mut sizes: Vec<i32> = Vec::new();
    if audits <= 0 {
        return sizes;
    }
    let groups = audits / BATCH_SIZE;
    let remainder = audits % BATCH_SIZE;
    let mut i: i32 = 0;
    while i < groups
        invariant
            0 <= i <= groups,
            groups == audits / BATCH_SIZE,
            sizes@ =~= Seq::new(i as nat, |k: int| BATCH_SIZE),
        decreases groups - i,
    {
        sizes.push(BATCH_SIZE);
        i = i + 1;
    }
    if remainder > 0 {
        sizes.push(remainder);
    }
    sizes
}

/// The identities whose record the ingest service took: those paired with
/// `true`, in order; pairs stop with the shorter list.
pub open spec fn accepted_ids(ids: Seq<String>, accepted: Seq<bool>) -> Seq<String>
    decreases ids.len(),
{
    if ids.len() == 0 || accepted.len() == 0 {
        Seq::empty()
    } else {
        let rest = accepted_ids(ids.drop_first(), accepted.drop_first());
        if accepted[0] {
            seq![ids[0]] + rest
        } else {
            rest
        }
    }
}

/// The identities whose record the ingest service took.
pub fn successful_ids(ids: &Vec<String>, accepted: &Vec<bool>) -> (r: Vec<String>)
    ensures
        r@ == accepted_ids(ids@, accepted@),
{
    let mut kept: Vec<String> = Vec::new();
    let mut i: usize = 0;
    assert(ids@.subrange(0, ids@.len() as int) =~= ids@);
    assert(accepted@.subrange(0, accepted@.len() as int) =~= accepted@);
    assert(kept@ + accepted_ids(ids@, accepted@) =~= accepted_ids(ids@, accepted@));
    while i < ids.len() && i < accepted.len()
        invariant
            0 <= i <= ids@.len(),
            i <= accepted@.len(),
            kept@ + accepted_ids(
                ids@.subrange(i as int, ids@.len() as int),
                accepted@.subrange(i as int, accepted@.len() as int),
            ) == accepted_ids(ids@, accepted@),
        decreases ids@.len() - i,
    {
        let ghost a = ids@.subrange(i as int, ids@.len() as int);
        let ghost b = accepted@.subrange(i as int, accepted@.len() as int);
        assert(a.drop_first() =~= ids@.subrange(i + 1, ids@.len() as int));
        assert(b.drop_first() =~= accepted@.subrange(i + 1, accepted@.len() as int));
        let ghost before = kept@;
        if accepted[i] {
            kept.push(ids[i].clone());
            assert(kept@ =~= before + seq![a[0]]);
        }
        i = i + 1;
    }
    proof {
        let a = ids@.subrange(i as int, ids@.len() as int);
        let b = accepted@.subrange(i as int, accepted@.len() as int);
        assert(a.len() == 0 || b.len() == 0);
        assert(kept@ + accepted_ids(a, b) =~= kept@);
    }
    kept
}

/// The text of a file of identities: each on a line of its own.
pub open spec fn id_lines(ids: Seq<String>) -> Seq<char>
    decreases ids.len(),
{
    if ids.len() == 0 {
        Seq::empty()
    } else {
        id_lines(ids.drop_last()) + ids.last()@ + "\n"@
    }
}

/// The text saved for a list of identities: the identities joined by line
/// feeds, then a final line feed.
pub open spec fn saved_ids(ids: Seq<String>) -> Seq<char> {
    if ids.len() == 0 {
        "\n"@
    } else {
        id_lines(ids)
    }
}

/// The text saved for a list of identities.
pub fn saved_ids_text(ids: &Vec<String>) -> (r: String)
    ensures
        r@ == saved_ids(ids@),
{
    if ids.len() == 0 {
        return String::from_str("\n");
    }
    let mut text = String::new();
    let mut i: usize = 0;
    while i < ids.len()
        invariant
            0 <= i <= ids@.len(),
            text@ == id_lines(ids@.subrange(0, i as int)),
        decreases ids@.len() - i,
    {
        assert(ids@.subrange(0, i + 1).drop_last() =~= ids@.subrange(0, i as int));
        text.append(ids[i].as_str());
        text.append("\n");
        i = i + 1;
    }
    assert(ids@.subrange(0, ids@.len() as int) =~= ids@);
    text
}

/// The batches of a batched read: consecutive runs of at most the read
/// batch size, in order.
pub open spec fn read_batches(ids: Seq<String>) -> Seq<Seq<String>>
    decreases ids.len(),
{
    if ids.len() <= READ_BATCH_SIZE {
        if ids.len() == 0 {
            Seq::empty()
        } else {
            seq![ids]
        }
    } else {
        seq![ids.subrange(0, READ_BATCH_SIZE as int)] + read_batches(
            ids.subrange(READ_BATCH_SIZE as int, ids.len() as int),
        )
    }
}

/// Splits identities into the batches of a batched read.
pub fn id_batches(ids: &Vec<String>) -> (r: Vec<Vec<String>>)
    ensures
        r@.map_values(|b: Vec<String>| b@) == read_batches(ids@),
{
    let mut batches: Vec<Vec<String>> = Vec::new();
    let mut start: usize = 0;
    assert(ids@.subrange(0, ids@.len() as int) =~= ids@);
    assert(batches@.map_values(|b: Vec<String>| b@) + read_batches(ids@) =~= read_batches(ids@));
    while start < ids.len()
        invariant
            0 <= start <= ids@.len(),
            batches@.map_values(|b: Vec<String>| b@) + read_batches(
                ids@.subrange(start as int, ids@.len() as int),
            ) == read_batches(ids@),
        decreases ids@.len() - start,
    {
        let end = if ids.len() - start > READ_BATCH_SIZE {
            start + READ_BATCH_SIZE
        } else {
            ids.len()
        };
        let mut batch: Vec<String> = Vec::new();
        let mut i: usize = start;
        while i < end
            invariant
                start <= i <= end,
                end <= ids@.len(),
                batch@ == ids@.subrange(start as int, i as int),
            decreases end - i,
        {
            batch.push(ids[i].clone());
            i = i + 1;
            assert(batch@ =~= ids@.subrange(start as int, i as int));
        }
        let ghost rest = ids@.subrange(start as int, ids@.len() as int);
        let ghost before = batches@;
        assert(rest.subrange(0, (end - start) as int) =~= ids@.subrange(start as int, end as int));
        assert(rest.subrange((end - start) as int, rest.len() as int) =~= ids@.subrange(
            end as int,
            ids@.len() as int,
        ));
        batches.push(batch);
        assert(batches@.map_values(|b: Vec<String>| b@) =~= before.map_values(
            |b: Vec<String>| b@,
        ).push(ids@.subrange(start as int, end as int)));
        start = end;
    }
    proof {
        let rest = ids@.subrange(start as int, ids@.len() as int);
        assert(rest.len() == 0);
        assert(batches@.map_values(|b: Vec<String>| b@) + read_batches(rest) =~= batches@.map_values(
            |b: Vec<String>| b@,
        ));
    }
    batches
}

/// The query of the audits of one item, resuming after `exclusive_start_key`
/// if a previous page left one.
pub fn build_query_input<K>(what_uri_uuid: String, exclusive_start_key: Option<K>) -> (r:
    QueryInput<K>)
    ensures
        r.table_name@ == "audits.sandbox"@,
        r.index_name@ == "what_uri_uuid-when_audited-index"@,
        r.key_condition_expression@ == "what_uri_uuid = :item_uuid"@,
        r.select@ == "ALL_ATTRIBUTES"@,
        r.exclusive_start_key == exclusive_start_key,
        r.return_consumed_capacity@ == "INDEXES"@,
        r.item_uuid_placeholder@ == ":item_uuid"@,
        r.item_uuid@ == what_uri_uuid@,
{
    QueryInput {
        table_name: String::from_str("audits.sandbox"),
        index_name: String::from_str("what_uri_uuid-when_audited-index"),
        key_condition_expression: String::from_str("what_uri_uuid = :item_uuid"),
        select: String::from_str("ALL_ATTRIBUTES"),
        exclusive_start_key,
        return_consumed_capacity: String::from_str("INDEXES"),
        item_uuid_placeholder: String::from_str(":item_uuid"),
        item_uuid: what_uri_uuid,
    }
}

/// Running counts of a read of many items' audits.
#[derive(Clone, Copy, Debug, PartialEq, Eq, Structural)]
pub struct QueryTally {
    /// Audits of the items whose pages are all read.
    pub total_retrieved: u64,
    /// Audits read so far for the item whose pages are being read.
    pub item_retrieved: u64,
}

/// The answer to one page of a query.
#[derive(Clone, Copy, Debug, PartialEq, Eq, Structural)]
pub enum QueryPage {
    /// The page held `count` audits; `more` when the query left a key to
    /// resume after.
    Items { count: u64, more: bool },
    /// The query failed.
    Failed,
}

/// What the read does next.
#[derive(Clone, Copy, Debug, PartialEq, Eq, Structural)]
pub enum QueryNext {
    /// Ask for the next page of the same item.
    NextPage,
    /// The item is done, with this many audits; go on to the next item.
    NextItem(u64),
    /// Stop reading.
    Stop,
}

impl QueryTally {
    /// A tally with nothing read.
    pub fn new() -> (r: QueryTally)
        ensures
            r.total_retrieved == 0 && r.item_retrieved == 0,
    {
        QueryTally { total_retrieved: 0, item_retrieved: 0 }
    }

    /// Records one page: its audits count toward the item; the item's total
    /// counts toward the whole read once its last page is in. A failed query
    /// stops the read, and the item's audits then do not count.
    pub fn record_page(&mut self, page: QueryPage) -> (r: QueryNext)
        requires
            match page {
                QueryPage::Items { count, more } => old(self).total_retrieved + old(
                    self,
                ).item_retrieved + count <= u64::MAX,
                QueryPage::Failed => true,
            },
        ensures
            match page {
                QueryPage::Items { count, more } => if more {
                    &&& r == QueryNext::NextPage
                    &&& final(self).total_retrieved == old(self).total_retrieved
                    &&& final(self).item_retrieved == old(self).item_retrieved + count
                } else {
                    &&& r == QueryNext::NextItem((old(self).item_retrieved + count) as u64)
                    &&& final(self).total_retrieved == old(self).total_retrieved + old(
                        self,
                    ).item_retrieved + count
                    &&& final(self).item_retrieved == 0
                },
                QueryPage::Failed => r == QueryNext::Stop && *final(self) == *old(self),
            },
    {
        match page {
            QueryPage::Items { count, more } => {
                self.item_retrieved = self.item_retrieved + count;
                if more {
                    QueryNext::NextPage
                } else {
                    let item = self.item_retrieved;
                    self.total_retrieved = self.total_retrieved + item;
                    self.item_retrieved = 0;
                    QueryNext::NextItem(item)
                }
            },
            QueryPage::Failed => QueryNext::Stop,
        }
    }
}

} // verus!
