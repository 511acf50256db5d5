//! Gauges, gauge families and their snapshots, as the `prometheus` crate keeps them.
//!
//! The crate's types are held behind small wrappers whose contracts are
//! believed, not proved. The contracts speak of four things: what a gauge or a
//! family was created with, what it currently holds, the key under which a
//! family files a combination of label values (a hash, written out below), and
//! what a collected snapshot shows to a scraper.

use vstd::prelude::*;
use vstd::utf8::{encode_utf8, is_ascii_chars, is_ascii_chars_encode_utf8};

verus! {

/// Largest magnitude that a double-precision number holds exactly, 2^53.
///
/// The exposition format carries every value as a double, so a gauge is only
/// ever set to a value within this bound.
pub const MAX_EXACT: i64 = 9_007_199_254_740_992;

/// One sample as a scraper sees it: its labels by name, and its value.
pub ghost struct Sample {
    pub labels: Map<Seq<char>, Seq<char>>,
    pub value: int,
}

/// What a gauge or a gauge family was created with.
pub ghost struct Definition {
    pub name: Seq<char>,
    pub help: Seq<char>,
    pub label_names: Seq<Seq<char>>,
}

/// What a collected family shows: its name and help text, whether it is typed
/// as a gauge, and its samples in the order they will be written.
pub ghost struct FamilyView {
    pub name: Seq<char>,
    pub help: Seq<char>,
    pub is_gauge: bool,
    pub samples: Seq<Sample>,
}

/// A single integer gauge without labels (`prometheus::IntGauge`). Nothing is
/// known of a value but what `gauge_definition` and `gauge_value` say.
#[verifier::external_body]
pub struct GaugeCell {
    inner: prometheus::IntGauge,
}

/// A family of integer gauges that differ in their label values
/// (`prometheus::IntGaugeVec`). Nothing is known of a value but what
/// `family_definition` and `family_series` say.
#[verifier::external_body]
pub struct GaugeFamily {
    inner: prometheus::IntGaugeVec,
}

/// `prometheus::proto::MetricFamily`: one collected family, as the encoder
/// takes it. Nothing is known of a value but what `family_view` says.
#[verifier::external_type_specification]
#[verifier::external_body]
pub struct ExMetricFamily(prometheus::proto::MetricFamily);

/// The name and help text a gauge was created with.
pub uninterp spec fn gauge_definition(g: GaugeCell) -> Definition;

/// The value a gauge holds.
pub uninterp spec fn gauge_value(g: GaugeCell) -> int;

/// The name, help text and label names a family was created with.
pub uninterp spec fn family_definition(f: GaugeFamily) -> Definition;

/// The series a family holds, each filed under the key of the label values
/// that first created it.
pub uninterp spec fn family_series(f: GaugeFamily) -> Map<u64, Sample>;

/// The key of no bytes, with which every key starts.
pub const KEY_START: u64 = 0xcbf2_9ce4_8422_2325;

/// The factor by which a key is multiplied for every byte.
pub const KEY_FACTOR: u64 = 0x0000_0100_0000_01b3;

/// The key after one more byte: the byte is mixed into the key bit by bit, and
/// the result multiplied by the factor, in 64 bits.
pub open spec fn key_step(key: u64, byte: u8) -> u64 {
    (((key ^ (byte as u64)) * KEY_FACTOR) % 0x1_0000_0000_0000_0000int) as u64
}

/// The key of a run of bytes (the 64-bit FNV-1a hash).
pub open spec fn key_of_bytes(bytes: Seq<u8>) -> u64
    decreases bytes.len(),
{
    if bytes.len() == 0 {
        KEY_START
    } else {
        key_step(key_of_bytes(bytes.drop_last()), bytes.last())
    }
}

/// The bytes of label values: their UTF-8 bytes, one value after the other,
/// with nothing in between.
pub open spec fn label_bytes(values: Seq<Seq<char>>) -> Seq<u8>
    decreases values.len(),
{
    if values.len() == 0 {
        Seq::empty()
    } else {
        label_bytes(values.drop_last()) + encode_utf8(values.last())
    }
}

/// The key under which a family files a combination of label values: the key
/// of the values' bytes. Two combinations with the same key share one series.
pub open spec fn label_key(values: Seq<Seq<char>>) -> u64 {
    key_of_bytes(label_bytes(values))
}

/// One more byte changes a key differently for different bytes.
pub proof fn lemma_key_step_tells_bytes_apart(key: u64, a: u8, b: u8)
    by (bit_vector)
    requires
        a != b,
    ensures
        key_step(key, a) != key_step(key, b),
{
}

/// Two one-character label values of ASCII get different keys if the
/// characters differ.
pub proof fn lemma_one_character_keys_differ(a: char, b: char)
    requires
        a != b,
        a <= '\u{7f}',
        b <= '\u{7f}',
    ensures
        label_key(seq![seq![a]]) != label_key(seq![seq![b]]),
{
    lemma_one_character_key(a);
    lemma_one_character_key(b);
    lemma_key_step_tells_bytes_apart(KEY_START, a as u8, b as u8);
}

proof fn lemma_one_character_key(c: char)
    requires
        c <= '\u{7f}',
    ensures
        label_key(seq![seq![c]]) == key_step(KEY_START, c as u8),
{
    let value = seq![c];
    let values = seq![value];
    assert(is_ascii_chars(value));
    is_ascii_chars_encode_utf8(value);
    assert(encode_utf8(value) =~= seq![c as u8]);
    assert(values.drop_last() =~= Seq::<Seq<char>>::empty());
    assert(label_bytes(values.drop_last()) =~= Seq::<u8>::empty());
    assert(label_bytes(values) =~= seq![c as u8]);
    assert(seq![c as u8].drop_last() =~= Seq::<u8>::empty());
    assert(key_of_bytes(seq![c as u8].drop_last()) == KEY_START);
}

/// What a collected family shows.
pub uninterp spec fn family_view(mf: prometheus::proto::MetricFamily) -> FamilyView;

/// A family without series.
pub open spec fn no_series() -> Map<u64, Sample> {
    Map::empty()
}

/// The fully qualified name of a metric `name` in `namespace`.
pub open spec fn fq_name(namespace: Seq<char>, name: Seq<char>) -> Seq<char> {
    if name.len() == 0 {
        Seq::empty()
    } else if namespace.len() == 0 {
        name
    } else {
        namespace + seq!['_'] + name
    }
}

/// ASCII letters and the underscore.
pub open spec fn is_word_start(c: char) -> bool {
    ('a' <= c && c <= 'z') || ('A' <= c && c <= 'Z') || c == '_'
}

/// ASCII letters, digits and the underscore.
pub open spec fn is_word_char(c: char) -> bool {
    is_word_start(c) || ('0' <= c && c <= '9')
}

/// A label name: a word character that is no digit, then word characters.
pub open spec fn valid_label_name(s: Seq<char>) -> bool {
    &&& s.len() > 0
    &&& is_word_start(s[0])
    &&& forall|i: int| 0 <= i < s.len() ==> is_word_char(#[trigger] s[i])
}

/// A metric name: like a label name, with the colon allowed everywhere.
pub open spec fn valid_metric_name(s: Seq<char>) -> bool {
    &&& s.len() > 0
    &&& (is_word_start(s[0]) || s[0] == ':')
    &&& forall|i: int| 0 <= i < s.len() ==> is_word_char(#[trigger] s[i]) || s[i] == ':'
}

/// Label names that a family can be created with: each valid, none twice.
pub open spec fn valid_label_names(names: Seq<Seq<char>>) -> bool {
    &&& forall|i: int| 0 <= i < names.len() ==> valid_label_name(#[trigger] names[i])
    &&& forall|i: int, j: int| 0 <= i < j < names.len() ==> names[i] != names[j]
}

/// The labels of a series: each label name with the value at its position.
pub open spec fn label_map(names: Seq<Seq<char>>, values: Seq<Seq<char>>) -> Map<
    Seq<char>,
    Seq<char>,
>
    decreases names.len(),
{
    if names.len() == 0 || values.len() != names.len() {
        Map::empty()
    } else {
        label_map(names.drop_last(), values.drop_last()).insert(names.last(), values.last())
    }
}

/// The series of a family after the series filed under `key` is set to
/// `value`: a series already filed there keeps its labels and takes the value;
/// otherwise a new series is filed with `labels`.
pub open spec fn recorded(
    series: Map<u64, Sample>,
    key: u64,
    labels: Map<Seq<char>, Seq<char>>,
    value: int,
) -> Map<u64, Sample> {
    if series.contains_key(key) {
        series.insert(key, Sample { labels: series[key].labels, value })
    } else {
        series.insert(key, Sample { labels, value })
    }
}

/// The one sample of a gauge without labels.
pub open spec fn bare_sample(value: int) -> Sample {
    Sample { labels: Map::empty(), value }
}

/// A snapshot shows exactly the given series, each once, in some order.
pub open spec fn shows_series(view: FamilyView, series: Map<u64, Sample>) -> bool {
    &&& series.dom().finite()
    &&& view.samples.len() == series.dom().len()
    &&& view.samples.to_set() == series.values()
}

/// Creates a gauge with `IntGauge::with_opts`, from `Opts::new(name, help)` in
/// `namespace`. The crate accepts a non-empty help text and a valid fully
/// qualified name; the new gauge holds zero.
#[verifier::external_body]
pub(crate) fn new_gauge(namespace: &str, name: &str, help: &str) -> (g: GaugeCell)
    requires
        help@.len() > 0,
        valid_metric_name(fq_name(namespace@, name@)),
    ensures
        gauge_definition(g).name == fq_name(namespace@, name@),
        gauge_definition(g).help == help@,
        gauge_value(g) == 0,
{
    let opts = prometheus::Opts::new(name, help).namespace(namespace);
    GaugeCell { inner: prometheus::IntGauge::with_opts(opts).expect("valid gauge options") }
}

/// Sets a gauge with `IntGauge::set`: it then holds `value`.
#[verifier::external_body]
pub(crate) fn set_gauge(g: &mut GaugeCell, value: i64)
    requires
        -MAX_EXACT <= value <= MAX_EXACT,
    ensures
        gauge_definition(*final(g)) == gauge_definition(*old(g)),
        gauge_value(*final(g)) == value,
{
    g.inner.set(value)
}

/// Collects a gauge with `Collector::collect`: one family under the gauge's
/// name and help text, with one sample that has no labels and the gauge's value.
#[verifier::external_body]
pub(crate) fn collect_gauge(g: &GaugeCell) -> (r: Vec<prometheus::proto::MetricFamily>)
    ensures
        r@.len() == 1,
        family_view(r@[0]).name == gauge_definition(*g).name,
        family_view(r@[0]).help == gauge_definition(*g).help,
        family_view(r@[0]).is_gauge,
        family_view(r@[0]).samples == seq![bare_sample(gauge_value(*g))],
{
    prometheus::core::Collector::collect(&g.inner)
}

/// Creates a family with `IntGaugeVec::new`, from `Opts::new(name, help)` in
/// `namespace` and the label names. The crate accepts a non-empty help text, a
/// valid fully qualified name and valid label names without repetition; the
/// new family has no series.
#[verifier::external_body]
pub(crate) fn new_gauge_family(
    namespace: &str,
    name: &str,
    help: &str,
    label_names: &Vec<String>,
) -> (f: GaugeFamily)
    requires
        help@.len() > 0,
        valid_metric_name(fq_name(namespace@, name@)),
        valid_label_names(label_names.deep_view()),
    ensures
        family_definition(f).name == fq_name(namespace@, name@),
        family_definition(f).help == help@,
        family_definition(f).label_names == label_names.deep_view(),
        family_series(f) == no_series(),
{
    let names: Vec<&str> = label_names.iter().map(|s| s.as_str()).collect();
    let opts = prometheus::Opts::new(name, help).namespace(namespace);
    GaugeFamily { inner: prometheus::IntGaugeVec::new(opts, &names).expect("valid family options") }
}

/// Sets one series with `IntGaugeVec::with_label_values` and `IntGauge::set`.
/// The crate looks the series up by the key of the label values, which it
/// makes with `fnv::FnvHasher` from the bytes of each value in turn, and
/// creates the series if the key is new; it panics unless there is one value
/// per label name.
#[verifier::external_body]
pub(crate) fn set_series(f: &mut GaugeFamily, label_values: &Vec<String>, value: i64)
    requires
        label_values.deep_view().len() == family_definition(*old(f)).label_names.len(),
        -MAX_EXACT <= value <= MAX_EXACT,
    ensures
        family_definition(*final(f)) == family_definition(*old(f)),
        family_series(*final(f)) == recorded(
            family_series(*old(f)),
            label_key(label_values.deep_view()),
            label_map(family_definition(*old(f)).label_names, label_values.deep_view()),
            value as int,
        ),
{
    let values: Vec<&str> = label_values.iter().map(|s| s.as_str()).collect();
    f.inner.with_label_values(&values).set(value)
}

/// Drops every series of a family with `IntGaugeVec::reset`.
#[verifier::external_body]
pub(crate) fn reset_family(f: &mut GaugeFamily)
    ensures
        family_definition(*final(f)) == family_definition(*old(f)),
        family_series(*final(f)) == no_series(),
{
    f.inner.reset()
}

/// Collects a family with `Collector::collect`: one family under the name and
/// help text it was created with, showing each series once. The crate walks
/// its series in no fixed order.
#[verifier::external_body]
pub(crate) fn collect_family(f: &GaugeFamily) -> (r: Vec<prometheus::proto::MetricFamily>)
    ensures
        r@.len() == 1,
        family_view(r@[0]).name == family_definition(*f).name,
        family_view(r@[0]).help == family_definition(*f).help,
        family_view(r@[0]).is_gauge,
        shows_series(family_view(r@[0]), family_series(*f)),
{
    prometheus::core::Collector::collect(&f.inner)
}

/// The number of samples in a collected family, from `MetricFamily::get_metric`.
#[verifier::external_body]
pub(crate) fn sample_count(mf: &prometheus::proto::MetricFamily) -> (n: usize)
    ensures
        n == family_view(*mf).samples.len(),
{
    mf.get_metric().len()
}

} // verus!
