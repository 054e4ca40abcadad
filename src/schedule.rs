//! Retry schedules of the status synchronisation of each connector.
use vstd::prelude::*;
use vstd::string::*;

verus! {

/// A retry schedule: the delay before the first run, then buckets of
/// `(interval in seconds, number of retries at that interval)`.
#[derive(Debug, Clone, PartialEq, Eq)]
pub struct RetryMapping {
    pub start_after: i32,
    pub frequencies: Vec<(i32, i32)>,
}

/// The retry schedule of one connector: a default schedule, schedules for
/// particular merchants, and the most retries allowed.
#[derive(Debug, Clone, PartialEq, Eq)]
pub struct ConnectorPTMapping {
    pub default_mapping: RetryMapping,
    /// The first entry for a merchant applies to it.
    pub custom_merchant_mapping: Vec<(String, RetryMapping)>,
    pub max_retries_count: i32,
}

pub open spec fn is_default_mapping(m: ConnectorPTMapping) -> bool {
    &&& m.default_mapping.start_after == 60
    &&& m.default_mapping.frequencies@ == seq![(300i32, 5i32)]
    &&& m.custom_merchant_mapping@.len() == 0
    &&& m.max_retries_count == 5
}

impl Default for ConnectorPTMapping {
    /// The process-wide schedule used when a connector has none: first run
    /// after a minute, then five runs five minutes apart.
    fn default() -> (r: ConnectorPTMapping)
        ensures
            is_default_mapping(r),
    {
        let mut frequencies: Vec<(i32, i32)> = Vec::new();
        frequencies.push((300, 5));
        assert(frequencies@ =~= seq![(300i32, 5i32)]);
        ConnectorPTMapping {
            default_mapping: RetryMapping { start_after: 60, frequencies },
            custom_merchant_mapping: Vec::new(),
            max_retries_count: 5,
        }
    }
}

/// The interval that applies to the given retry, walking the buckets with
/// `counted` retries already consumed by the buckets before them.
pub open spec fn delay_from(retry_count: int, frequencies: Seq<(i32, i32)>, counted: int) -> Option<i32>
    decreases frequencies.len(),
{
    if frequencies.len() == 0 {
        None
    } else if counted + frequencies[0].1 >= retry_count {
        Some(frequencies[0].0)
    } else {
        delay_from(retry_count, frequencies.drop_first(), counted + frequencies[0].1)
    }
}

/// The interval before the given 1-based retry: that of the bucket in which
/// the running total of retries first reaches it; none past the last bucket.
pub open spec fn spec_get_delay(retry_count: int, frequencies: Seq<(i32, i32)>) -> Option<i32> {
    if retry_count <= 0 {
        None
    } else {
        delay_from(retry_count, frequencies, 0)
    }
}

/// The interval before the given 1-based retry under these buckets.
pub fn get_delay(retry_count: i32, frequencies: &Vec<(i32, i32)>) -> (r: Option<i32>)
    ensures
        r == spec_get_delay(retry_count as int, frequencies@),
{
    if retry_count <= 0 {
        return None;
    }
    let mut counted: i128 = 0;
    let mut i: usize = 0;
    assert(frequencies@.skip(0) =~= frequencies@);
    while i < frequencies.len()
        invariant
            0 < retry_count,
            i <= frequencies@.len(),
            counted < retry_count,
            counted >= -(i as int) * 0x8000_0000,
            spec_get_delay(retry_count as int, frequencies@) == delay_from(
                retry_count as int,
                frequencies@.skip(i as int),
                counted as int,
            ),
        decreases frequencies.len() - i,
    {
        let ghost rest = frequencies@.skip(i as int);
        assert(rest[0] == frequencies@[i as int]);
        assert(rest.drop_first() =~= frequencies@.skip(i + 1));
        let (frequency, count) = frequencies[i];
        counted = counted + count as i128;
        if counted >= retry_count as i128 {
            return Some(frequency);
        }
        i = i + 1;
    }
    None
}

/// The schedule that applies to a merchant: its own, else the default.
pub open spec fn merchant_mapping(entries: Seq<(String, RetryMapping)>, merchant_id: Seq<char>, default: RetryMapping) -> RetryMapping
    decreases entries.len(),
{
    if entries.len() == 0 {
        default
    } else if entries[0].0@ == merchant_id {
        entries[0].1
    } else {
        merchant_mapping(entries.drop_first(), merchant_id, default)
    }
}

/// The delay, in seconds, before the run with this retry count: `start_after`
/// for the first run, the bucket interval for later ones, none past
/// `max_retries_count` or past the last bucket.
pub open spec fn spec_get_schedule_time(mapping: ConnectorPTMapping, merchant_id: Seq<char>, retry_count: int) -> Option<i32> {
    let m = merchant_mapping(mapping.custom_merchant_mapping@, merchant_id, mapping.default_mapping);
    if retry_count > mapping.max_retries_count {
        None
    } else if retry_count == 0 {
        Some(m.start_after)
    } else {
        spec_get_delay(retry_count, m.frequencies@)
    }
}

/// The schedule that applies to a merchant.
fn mapping_for_merchant<'a>(mapping: &'a ConnectorPTMapping, merchant_id: &str) -> (r: &'a RetryMapping)
    ensures
        *r == merchant_mapping(mapping.custom_merchant_mapping@, merchant_id@, mapping.default_mapping),
{
    let merchant: String = merchant_id.to_owned();
    let entries = &mapping.custom_merchant_mapping;
    let mut i: usize = 0;
    assert(entries@.skip(0) =~= entries@);
    while i < entries.len()
        invariant
            i <= entries@.len(),
            merchant@ == merchant_id@,
            entries@ == mapping.custom_merchant_mapping@,
            merchant_mapping(entries@, merchant_id@, mapping.default_mapping) == merchant_mapping(
                entries@.skip(i as int),
                merchant_id@,
                mapping.default_mapping,
            ),
        decreases entries.len() - i,
    {
        let ghost rest = entries@.skip(i as int);
        assert(rest[0] == entries@[i as int]);
        assert(rest.drop_first() =~= entries@.skip(i + 1));
        if entries[i].0 == merchant {
            assert(rest[0].0@ == merchant_id@);
            assert(merchant_mapping(rest, merchant_id@, mapping.default_mapping) == rest[0].1);
            return &entries[i].1;
        }
        i = i + 1;
    }
    assert(entries@.skip(i as int) =~= Seq::<(String, RetryMapping)>::empty());
    &mapping.default_mapping
}

/// The delay, in seconds, before the run with this retry count.
pub fn get_schedule_time(mapping: &ConnectorPTMapping, merchant_id: &str, retry_count: i32) -> (r: Option<i32>)
    ensures
        r == spec_get_schedule_time(*mapping, merchant_id@, retry_count as int),
{
    let chosen = mapping_for_merchant(mapping, merchant_id);
    if retry_count > mapping.max_retries_count {
        None
    } else if retry_count == 0 {
        Some(chosen.start_after)
    } else {
        get_delay(retry_count, &chosen.frequencies)
    }
}

pub open spec fn spec_pt_mapping_key(connector: Seq<char>) -> Seq<char> {
    "pt_mapping_"@ + connector
}

/// Key under which a connector's retry schedule is configured.
pub fn pt_mapping_key(connector: &str) -> (r: String)
    ensures
        r@ == spec_pt_mapping_key(connector@),
{
    let mut key = String::from_str("pt_mapping_");
    key.append(connector);
    key
}

/// The schedule that applies: the configured one where it could be read
/// and parsed, else the process-wide default.
pub fn resolve_mapping(configured: Option<ConnectorPTMapping>) -> (r: ConnectorPTMapping)
    ensures
        configured matches Some(m) ==> r == m,
        configured is None ==> is_default_mapping(r),
{
    match configured {
        Some(m) => m,
        None => ConnectorPTMapping::default(),
    }
}

/// `now` moved by `seconds`, saturating at the bounds of `i64`.
pub open spec fn spec_time_after(now: i64, seconds: i32) -> i64 {
    if now + seconds > i64::MAX {
        i64::MAX
    } else if now + seconds < i64::MIN {
        i64::MIN
    } else {
        (now + seconds) as i64
    }
}

/// The time, in unix seconds, of the run with this retry count, counted from
/// `now`; none when the schedule is exhausted.
pub open spec fn spec_sync_process_schedule_time(
    mapping: ConnectorPTMapping,
    merchant_id: Seq<char>,
    retry_count: int,
    now: i64,
) -> Option<i64> {
    match spec_get_schedule_time(mapping, merchant_id, retry_count) {
        Some(delay) => Some(spec_time_after(now, delay)),
        None => None,
    }
}

/// The time, in unix seconds, of the run with this retry count, counted from
/// `now`, under the configured schedule or the default one.
pub fn get_sync_process_schedule_time(
    configured: Option<ConnectorPTMapping>,
    merchant_id: &str,
    retry_count: i32,
    now: i64,
) -> (r: Option<i64>)
    ensures
        configured matches Some(m) ==> r == spec_sync_process_schedule_time(m, merchant_id@, retry_count as int, now),
        configured is None ==> forall|d: ConnectorPTMapping|
            is_default_mapping(d) ==> r == spec_sync_process_schedule_time(d, merchant_id@, retry_count as int, now),
{
    let mapping = resolve_mapping(configured);
    let r = match get_schedule_time(&mapping, merchant_id, retry_count) {
        Some(delay) => Some(time_after(now, delay)),
        None => None,
    };
    proof {
        if configured is None {
            assert forall|d: ConnectorPTMapping| is_default_mapping(d) implies r == spec_sync_process_schedule_time(
                d,
                merchant_id@,
                retry_count as int,
                now,
            ) by {
                lemma_default_mappings_agree(d, mapping, merchant_id@, retry_count as int);
            }
        }
    }
    r
}

/// All default mappings give the same schedule.
proof fn lemma_default_mappings_agree(a: ConnectorPTMapping, b: ConnectorPTMapping, merchant_id: Seq<char>, retry_count: int)
    requires
        is_default_mapping(a),
        is_default_mapping(b),
    ensures
        spec_get_schedule_time(a, merchant_id, retry_count) == spec_get_schedule_time(b, merchant_id, retry_count),
{
    assert(a.custom_merchant_mapping@ =~= b.custom_merchant_mapping@);
    assert(a.default_mapping.frequencies@ =~= b.default_mapping.frequencies@);
}

/// `now` moved by `seconds`, saturating at the bounds of `i64`.
pub fn time_after(now: i64, seconds: i32) -> (r: i64)
    ensures
        r == spec_time_after(now, seconds),
{
    if seconds > 0 && now > i64::MAX - seconds as i64 {
        i64::MAX
    } else if seconds < 0 && now < i64::MIN - seconds as i64 {
        i64::MIN
    } else {
        now + seconds as i64
    }
}

/// The first run waits the `start_after` of the schedule that applies to the
/// merchant, and a retry count beyond `max_retries_count` gets no run.
pub proof fn lemma_schedule_start_and_exhaustion(mapping: ConnectorPTMapping, merchant_id: Seq<char>, retry_count: int)
    ensures
        mapping.max_retries_count >= 0 ==> spec_get_schedule_time(mapping, merchant_id, 0) == Some(
            merchant_mapping(mapping.custom_merchant_mapping@, merchant_id, mapping.default_mapping).start_after,
        ),
        retry_count > mapping.max_retries_count ==> spec_get_schedule_time(mapping, merchant_id, retry_count) is None,
{
}

} // verus!
