//! What holds of every export, proved from the contract of `Exporter::export`.
//!
//! A gauge family files its series under a 64-bit key of the label values, so
//! two devices whose label values have the same key share one series. What is
//! said of one device therefore asks that no other device has its key, and
//! what is said of all devices that no two of them share one.

use crate::catalogue::{namespace, slot_at, slot_labels, Slot, FAMILY_COUNT};
use crate::exporter::{
    exported, gauge_reading, has_family, identity_series, reading_series, slot_shows, snapshot_devices,
    up_value, visible_slots, Exporter,
};
use crate::metrics::{CollectionError, Device, Metrics, Quantity, QUANTITY_COUNT};
use crate::registry::{
    bare_sample, family_view, fq_name, label_bytes, label_key, label_map,
    lemma_one_character_keys_differ, no_series, shows_series, FamilyView, Sample,
};
use prometheus::proto::MetricFamily;
use vstd::prelude::*;
use vstd::utf8::encode_utf8;

verus! {

/// Where the family of `slot` stands among the families of a scrape that read
/// devices.
pub open spec fn position_of(slot: Slot) -> int {
    match slot {
        Slot::DeviceCount => 0,
        Slot::DeviceInfo => 1,
        Slot::DriverInfo => 3,
        Slot::Up => 9,
        Slot::Reading(q) => if q.position() == 0 {
            2
        } else if q.position() <= 5 {
            q.position() + 3
        } else {
            q.position() + 4
        },
    }
}

/// Where `up` stands among the families of a scrape.
pub open spec fn up_position(outcome: Result<Metrics, CollectionError>) -> int {
    if snapshot_devices(outcome).len() > 0 {
        9
    } else {
        2
    }
}

/// Where `driver_info` stands among the families of a scrape.
pub open spec fn driver_position(outcome: Result<Metrics, CollectionError>) -> int {
    if snapshot_devices(outcome).len() > 0 {
        3
    } else {
        1
    }
}

/// The sample of quantity `q` for device `d`: labelled with the minor number,
/// valued with the reading.
pub open spec fn reading_sample(d: Device, q: Quantity) -> Sample {
    Sample { labels: map!["minor"@ => d.minor_number@], value: gauge_reading(d.reading(q)) }
}

/// The identity sample of device `d`.
pub open spec fn identity_sample(d: Device) -> Sample {
    Sample {
        labels: map![
            "index"@ => d.index@,
            "minor"@ => d.minor_number@,
            "uuid"@ => d.uuid@,
            "name"@ => d.name@,
        ],
        value: 1,
    }
}

/// The sample of `driver_info` for a driver version.
pub open spec fn driver_sample(version: Seq<char>) -> Sample {
    Sample { labels: map!["version"@ => version], value: 1 }
}

/// The key under which the per-device families file device `d`.
pub open spec fn minor_key(d: Device) -> u64 {
    label_key(seq![d.minor_number@])
}

/// The key under which the identity family files device `d`.
pub open spec fn identity_key(d: Device) -> u64 {
    label_key(seq![d.index@, d.minor_number@, d.uuid@, d.name@])
}

/// No two devices are filed under the same key by the per-device families.
pub open spec fn minor_keys_distinct(devices: Seq<Device>) -> bool {
    forall|i: int, j: int|
        0 <= i < j < devices.len() ==> minor_key(#[trigger] devices[i]) != minor_key(
            #[trigger] devices[j],
        )
}

/// No two devices are filed under the same key by the identity family.
pub open spec fn identity_keys_distinct(devices: Seq<Device>) -> bool {
    forall|i: int, j: int|
        0 <= i < j < devices.len() ==> identity_key(#[trigger] devices[i]) != identity_key(
            #[trigger] devices[j],
        )
}

/// `s` is the sample of one of the devices.
pub open spec fn is_sample_of_one(
    s: Sample,
    devices: Seq<Device>,
    sample: spec_fn(Device) -> Sample,
) -> bool {
    exists|i: int| 0 <= i < devices.len() && s == sample(#[trigger] devices[i])
}

/// A family shows one sample for each device, and no other, and no two of
/// its samples have the same labels.
pub open spec fn shows_each_device(
    view: FamilyView,
    devices: Seq<Device>,
    sample: spec_fn(Device) -> Sample,
) -> bool {
    &&& view.samples.len() == devices.len()
    &&& forall|i: int| 0 <= i < devices.len() ==> view.samples.contains(sample(#[trigger] devices[i]))
    &&& forall|k: int|
        0 <= k < view.samples.len() ==> is_sample_of_one(#[trigger] view.samples[k], devices, sample)
    &&& forall|a: int, b: int|
        0 <= a < b < view.samples.len() ==> (#[trigger] view.samples[a]).labels != (
        #[trigger] view.samples[b]).labels
}

/// A family that shows an injective map of series, one per device, shows each
/// device's sample once, and differently labelled samples.
proof fn lemma_shows_each_device(
    view: FamilyView,
    series: Map<u64, Sample>,
    devices: Seq<Device>,
    key: spec_fn(Device) -> u64,
    sample: spec_fn(Device) -> Sample,
)
    requires
        shows_series(view, series),
        series.dom().len() == devices.len(),
        forall|i: int|
            0 <= i < devices.len() ==> series.contains_key(key(#[trigger] devices[i]))
                && series[key(devices[i])] == sample(devices[i]),
        forall|k: u64| #[trigger]
            series.contains_key(k) ==> exists|i: int|
                0 <= i < devices.len() && k == key(#[trigger] devices[i]),
        forall|c: Device, d: Device|
            #[trigger] key(c) != #[trigger] key(d) ==> sample(c).labels != sample(d).labels,
    ensures
        shows_each_device(view, devices, sample),
{
    assert forall|i: int| 0 <= i < devices.len() implies view.samples.contains(
        sample(#[trigger] devices[i]),
    ) by {
        assert(series.values().contains(series[key(devices[i])]));
        assert(view.samples.to_set().contains(sample(devices[i])));
    }
    assert forall|k: int| 0 <= k < view.samples.len() implies is_sample_of_one(
        #[trigger] view.samples[k],
        devices,
        sample,
    ) by {
        assert(view.samples.to_set().contains(view.samples[k]));
        assert(series.values().contains(view.samples[k]));
        let at = choose|at: u64| series.dom().contains(at) && #[trigger] series[at] == view.samples[k];
        assert(series.contains_key(at));
        let i = choose|i: int| 0 <= i < devices.len() && at == key(#[trigger] devices[i]);
        assert(view.samples[k] == sample(devices[i]));
    }
    assert(series.is_injective()) by {
        assert forall|x: u64, y: u64|
            x != y && series.dom().contains(x) && series.dom().contains(y) implies #[trigger] series[x]
            != #[trigger] series[y] by {
            assert(series.contains_key(x) && series.contains_key(y));
            let i = choose|i: int| 0 <= i < devices.len() && x == key(#[trigger] devices[i]);
            let j = choose|j: int| 0 <= j < devices.len() && y == key(#[trigger] devices[j]);
            assert(sample(devices[i]).labels != sample(devices[j]).labels);
        }
    }
    series.lemma_injective_values_len();
    view.samples.lemma_no_dup_set_cardinality();
    assert forall|a: int, b: int| 0 <= a < b < view.samples.len() implies (
    #[trigger] view.samples[a]).labels != (#[trigger] view.samples[b]).labels by {
        assert(is_sample_of_one(view.samples[a], devices, sample));
        assert(is_sample_of_one(view.samples[b], devices, sample));
        let i = choose|i: int|
            0 <= i < devices.len() && view.samples[a] == sample(#[trigger] devices[i]);
        let j = choose|j: int|
            0 <= j < devices.len() && view.samples[b] == sample(#[trigger] devices[j]);
        assert(view.samples[a] != view.samples[b]);
        if key(devices[i]) == key(devices[j]) {
            assert(series[key(devices[i])] == sample(devices[i]));
            assert(series[key(devices[j])] == sample(devices[j]));
        }
    }
}

proof fn lemma_slot_at_position(slot: Slot)
    ensures
        0 <= position_of(slot) < FAMILY_COUNT,
        slot_at(position_of(slot)) == slot,
{
    if let Slot::Reading(q) = slot {
        assert(0 <= q.position() < QUANTITY_COUNT);
        assert(Quantity::at(q.position()) == q);
    }
}

proof fn lemma_single_label(name: Seq<char>, value: Seq<char>)
    ensures
        label_map(seq![name], seq![value]) == map![name => value],
{
    let names = seq![name];
    let values = seq![value];
    assert(names.drop_last() =~= Seq::<Seq<char>>::empty());
    assert(label_map(names.drop_last(), values.drop_last()) =~= Map::<
        Seq<char>,
        Seq<char>,
    >::empty());
    assert(label_map(names, values) =~= map![name => value]);
}

proof fn lemma_identity_labels(d: Device)
    ensures
        label_map(slot_labels(Slot::DeviceInfo), seq![d.index@, d.minor_number@, d.uuid@, d.name@])
            == identity_sample(d).labels,
{
    let n4 = slot_labels(Slot::DeviceInfo);
    let v4 = seq![d.index@, d.minor_number@, d.uuid@, d.name@];
    let n3 = n4.drop_last();
    let v3 = v4.drop_last();
    let n2 = n3.drop_last();
    let v2 = v3.drop_last();
    let n1 = n2.drop_last();
    let v1 = v2.drop_last();
    assert(n1.drop_last() =~= Seq::<Seq<char>>::empty());
    assert(label_map(n1.drop_last(), v1.drop_last()) =~= Map::<Seq<char>, Seq<char>>::empty());
    assert(label_map(n1, v1) =~= map!["index"@ => d.index@]);
    assert(label_map(n2, v2) =~= label_map(n1, v1).insert("minor"@, d.minor_number@));
    assert(label_map(n3, v3) =~= label_map(n2, v2).insert("uuid"@, d.uuid@));
    assert(label_map(n4, v4) =~= label_map(n3, v3).insert("name"@, d.name@));
    assert(label_map(n4, v4) =~= identity_sample(d).labels);
}

/// With different keys, the family of a quantity holds exactly the sample of
/// each device under the device's key.
proof fn lemma_reading_series_by_device(devices: Seq<Device>, q: Quantity)
    requires
        minor_keys_distinct(devices),
    ensures
        reading_series(devices, q).dom().finite(),
        reading_series(devices, q).dom().len() == devices.len(),
        forall|i: int|
            0 <= i < devices.len() ==> reading_series(devices, q).contains_key(
                minor_key(#[trigger] devices[i]),
            ) && reading_series(devices, q)[minor_key(devices[i])] == reading_sample(
                devices[i],
                q,
            ),
        forall|key: u64| #[trigger]
            reading_series(devices, q).contains_key(key) ==> exists|i: int|
                0 <= i < devices.len() && key == minor_key(#[trigger] devices[i]),
    decreases devices.len(),
{
    if devices.len() > 0 {
        let rest = devices.drop_last();
        let d = devices.last();
        assert forall|i: int, j: int| 0 <= i < j < rest.len() implies minor_key(
            #[trigger] rest[i],
        ) != minor_key(#[trigger] rest[j]) by {
            assert(rest[i] == devices[i] && rest[j] == devices[j]);
        }
        lemma_reading_series_by_device(rest, q);
        lemma_single_label("minor"@, d.minor_number@);
        let before = reading_series(rest, q);
        let after = reading_series(devices, q);
        assert(!before.contains_key(minor_key(d))) by {
            if before.contains_key(minor_key(d)) {
                let i = choose|i: int| 0 <= i < rest.len() && minor_key(d) == minor_key(
                    #[trigger] rest[i],
                );
                assert(rest[i] == devices[i]);
                assert(devices[devices.len() - 1] == d);
            }
        }
        assert(after == before.insert(minor_key(d), reading_sample(d, q)));
        assert(after.dom() =~= before.dom().insert(minor_key(d)));
        assert forall|i: int| 0 <= i < devices.len() implies after.contains_key(
            minor_key(#[trigger] devices[i]),
        ) && after[minor_key(devices[i])] == reading_sample(devices[i], q) by {
            if i < rest.len() {
                assert(rest[i] == devices[i]);
                assert(devices[devices.len() - 1] == d);
            }
        }
        assert forall|key: u64| #[trigger] after.contains_key(key) implies exists|i: int|
            0 <= i < devices.len() && key == minor_key(#[trigger] devices[i]) by {
            if key == minor_key(d) {
                assert(devices[devices.len() - 1] == d);
            } else {
                let i = choose|i: int| 0 <= i < rest.len() && key == minor_key(#[trigger] rest[i]);
                assert(rest[i] == devices[i]);
            }
        }
    }
}

/// With different keys, the identity family holds exactly the identity sample
/// of each device under the device's key.
proof fn lemma_identity_series_by_device(devices: Seq<Device>)
    requires
        identity_keys_distinct(devices),
    ensures
        identity_series(devices).dom().finite(),
        identity_series(devices).dom().len() == devices.len(),
        forall|i: int|
            0 <= i < devices.len() ==> identity_series(devices).contains_key(
                identity_key(#[trigger] devices[i]),
            ) && identity_series(devices)[identity_key(devices[i])] == identity_sample(devices[i]),
        forall|key: u64| #[trigger]
            identity_series(devices).contains_key(key) ==> exists|i: int|
                0 <= i < devices.len() && key == identity_key(#[trigger] devices[i]),
    decreases devices.len(),
{
    if devices.len() > 0 {
        let rest = devices.drop_last();
        let d = devices.last();
        assert forall|i: int, j: int| 0 <= i < j < rest.len() implies identity_key(
            #[trigger] rest[i],
        ) != identity_key(#[trigger] rest[j]) by {
            assert(rest[i] == devices[i] && rest[j] == devices[j]);
        }
        lemma_identity_series_by_device(rest);
        lemma_identity_labels(d);
        let before = identity_series(rest);
        let after = identity_series(devices);
        assert(!before.contains_key(identity_key(d))) by {
            if before.contains_key(identity_key(d)) {
                let i = choose|i: int| 0 <= i < rest.len() && identity_key(d) == identity_key(
                    #[trigger] rest[i],
                );
                assert(rest[i] == devices[i]);
                assert(devices[devices.len() - 1] == d);
            }
        }
        assert(after == before.insert(identity_key(d), identity_sample(d)));
        assert(after.dom() =~= before.dom().insert(identity_key(d)));
        assert forall|i: int| 0 <= i < devices.len() implies after.contains_key(
            identity_key(#[trigger] devices[i]),
        ) && after[identity_key(devices[i])] == identity_sample(devices[i]) by {
            if i < rest.len() {
                assert(rest[i] == devices[i]);
                assert(devices[devices.len() - 1] == d);
            }
        }
        assert forall|key: u64| #[trigger] after.contains_key(key) implies exists|i: int|
            0 <= i < devices.len() && key == identity_key(#[trigger] devices[i]) by {
            if key == identity_key(d) {
                assert(devices[devices.len() - 1] == d);
            } else {
                let i = choose|i: int|
                    0 <= i < rest.len() && key == identity_key(#[trigger] rest[i]);
                assert(rest[i] == devices[i]);
            }
        }
    }
}

/// The minor numbers are single ASCII characters, as "0" to "9" are, and no
/// two devices have the same.
pub open spec fn one_character_minors(devices: Seq<Device>) -> bool {
    &&& forall|i: int|
        0 <= i < devices.len() ==> (#[trigger] devices[i]).minor_number@.len() == 1
            && devices[i].minor_number@[0] <= '\u{7f}'
    &&& forall|i: int, j: int|
        0 <= i < j < devices.len() ==> (#[trigger] devices[i]).minor_number@ != (
        #[trigger] devices[j]).minor_number@
}

/// Devices whose minor numbers are different single ASCII characters are
/// filed under different keys: each has series of its own.
pub proof fn lemma_one_character_minors_have_own_keys(devices: Seq<Device>)
    requires
        one_character_minors(devices),
    ensures
        minor_keys_distinct(devices),
{
    assert forall|i: int, j: int| 0 <= i < j < devices.len() implies minor_key(
        #[trigger] devices[i],
    ) != minor_key(#[trigger] devices[j]) by {
        let a = devices[i].minor_number@;
        let b = devices[j].minor_number@;
        assert(a =~= seq![a[0]]);
        assert(b =~= seq![b[0]]);
        if a[0] == b[0] {
            assert(a =~= b);
        }
        lemma_one_character_keys_differ(a[0], b[0]);
    }
}

/// After a scrape of devices whose minor numbers are different single ASCII
/// characters, the family of every quantity shows one sample for each device,
/// labelled with the device's minor number and valued with its reading, and
/// no other sample.
pub proof fn lemma_one_character_minors_are_exported(
    families: Seq<MetricFamily>,
    m: Metrics,
    q: Quantity,
)
    requires
        exported(families, Ok(m)),
        m.devices@.len() > 0,
        one_character_minors(m.devices@),
    ensures
        0 <= position_of(Slot::Reading(q)) < families.len(),
        shows_each_device(
            family_view(families[position_of(Slot::Reading(q))]),
            m.devices@,
            |d: Device| reading_sample(d, q),
        ),
{
    lemma_one_character_minors_have_own_keys(m.devices@);
    lemma_each_device_is_exported(families, m, q);
}

proof fn lemma_encode_concat(a: Seq<char>, b: Seq<char>)
    ensures
        encode_utf8(a + b) == encode_utf8(a) + encode_utf8(b),
    decreases a.len(),
{
    if a.len() == 0 {
        assert(a + b =~= b);
        assert(encode_utf8(a) + encode_utf8(b) =~= encode_utf8(b));
    } else {
        lemma_encode_concat(a.drop_first(), b);
        assert((a + b).drop_first() =~= a.drop_first() + b);
        assert((a + b)[0] == a[0]);
        assert(encode_utf8(a + b) =~= encode_utf8(a) + encode_utf8(b));
    }
}

proof fn lemma_label_bytes_concat(x: Seq<Seq<char>>, y: Seq<Seq<char>>)
    ensures
        label_bytes(x + y) == label_bytes(x) + label_bytes(y),
    decreases y.len(),
{
    if y.len() == 0 {
        assert(x + y =~= x);
        assert(label_bytes(x) + label_bytes(y) =~= label_bytes(x));
    } else {
        lemma_label_bytes_concat(x, y.drop_last());
        assert((x + y).drop_last() =~= x + y.drop_last());
        assert((x + y).last() == y.last());
        assert(label_bytes(x + y) =~= label_bytes(x) + label_bytes(y));
    }
}

proof fn lemma_label_bytes_of_two(u: Seq<char>, v: Seq<char>)
    ensures
        label_bytes(seq![u, v]) == encode_utf8(u) + encode_utf8(v),
{
    let two = seq![u, v];
    let one = seq![u];
    assert(two.drop_last() =~= one);
    assert(two.last() == v);
    assert(one.drop_last() =~= Seq::<Seq<char>>::empty());
    assert(one.last() == u);
    assert(label_bytes(one.drop_last()) =~= Seq::<u8>::empty());
    assert(label_bytes(one) =~= encode_utf8(u));
    assert(label_bytes(two) =~= encode_utf8(u) + encode_utf8(v));
}

/// Label values that run together to the same bytes get the same key: index
/// "1" with minor number "23" and index "12" with minor number "3" are filed
/// as one by the identity family if UUID and name are the same.
pub proof fn lemma_values_that_run_together_share_a_key(
    a: Seq<char>,
    b: Seq<char>,
    c: Seq<char>,
    rest: Seq<Seq<char>>,
)
    ensures
        label_key(seq![a + b, c] + rest) == label_key(seq![a, b + c] + rest),
{
    lemma_label_bytes_concat(seq![a + b, c], rest);
    lemma_label_bytes_concat(seq![a, b + c], rest);
    lemma_label_bytes_of_two(a + b, c);
    lemma_label_bytes_of_two(a, b + c);
    lemma_encode_concat(a, b);
    lemma_encode_concat(b, c);
    assert(encode_utf8(a) + encode_utf8(b) + encode_utf8(c) =~= encode_utf8(a) + (encode_utf8(b)
        + encode_utf8(c)));
}

/// No other device of the snapshot is filed under the key of device `i` by
/// the per-device families.
pub open spec fn has_own_minor_key(devices: Seq<Device>, i: int) -> bool {
    forall|j: int|
        0 <= j < devices.len() && j != i ==> minor_key(#[trigger] devices[j]) != minor_key(
            devices[i],
        )
}

/// No other device of the snapshot is filed under the key of device `i` by
/// the identity family.
pub open spec fn has_own_identity_key(devices: Seq<Device>, i: int) -> bool {
    forall|j: int|
        0 <= j < devices.len() && j != i ==> identity_key(#[trigger] devices[j]) != identity_key(
            devices[i],
        )
}

/// Every series of the family of a quantity is filed under the key of a device.
proof fn lemma_reading_series_keys(devices: Seq<Device>, q: Quantity)
    ensures
        reading_series(devices, q).dom().finite(),
        forall|key: u64| #[trigger]
            reading_series(devices, q).contains_key(key) ==> exists|j: int|
                0 <= j < devices.len() && key == minor_key(#[trigger] devices[j]),
    decreases devices.len(),
{
    if devices.len() > 0 {
        let rest = devices.drop_last();
        let d = devices.last();
        lemma_reading_series_keys(rest, q);
        let before = reading_series(rest, q);
        let after = reading_series(devices, q);
        assert(after.dom() =~= before.dom().insert(minor_key(d)));
        assert forall|key: u64| #[trigger] after.contains_key(key) implies exists|j: int|
            0 <= j < devices.len() && key == minor_key(#[trigger] devices[j]) by {
            if key == minor_key(d) {
                assert(devices[devices.len() - 1] == d);
            } else {
                let j = choose|j: int| 0 <= j < rest.len() && key == minor_key(#[trigger] rest[j]);
                assert(rest[j] == devices[j]);
            }
        }
    }
}

/// Every series of the identity family is filed under the key of a device.
proof fn lemma_identity_series_keys(devices: Seq<Device>)
    ensures
        identity_series(devices).dom().finite(),
        forall|key: u64| #[trigger]
            identity_series(devices).contains_key(key) ==> exists|j: int|
                0 <= j < devices.len() && key == identity_key(#[trigger] devices[j]),
    decreases devices.len(),
{
    if devices.len() > 0 {
        let rest = devices.drop_last();
        let d = devices.last();
        lemma_identity_series_keys(rest);
        let before = identity_series(rest);
        let after = identity_series(devices);
        assert(after.dom() =~= before.dom().insert(identity_key(d)));
        assert forall|key: u64| #[trigger] after.contains_key(key) implies exists|j: int|
            0 <= j < devices.len() && key == identity_key(#[trigger] devices[j]) by {
            if key == identity_key(d) {
                assert(devices[devices.len() - 1] == d);
            } else {
                let j = choose|j: int|
                    0 <= j < rest.len() && key == identity_key(#[trigger] rest[j]);
                assert(rest[j] == devices[j]);
            }
        }
    }
}

/// A device with a key of its own has its sample in the family of every
/// quantity, whatever keys the other devices share.
proof fn lemma_reading_series_of_one(devices: Seq<Device>, q: Quantity, i: int)
    requires
        0 <= i < devices.len(),
        has_own_minor_key(devices, i),
    ensures
        reading_series(devices, q).contains_key(minor_key(devices[i])),
        reading_series(devices, q)[minor_key(devices[i])] == reading_sample(devices[i], q),
    decreases devices.len(),
{
    let rest = devices.drop_last();
    let d = devices.last();
    let before = reading_series(rest, q);
    lemma_single_label("minor"@, d.minor_number@);
    if i == devices.len() - 1 {
        lemma_reading_series_keys(rest, q);
        if before.contains_key(minor_key(d)) {
            let j = choose|j: int| 0 <= j < rest.len() && minor_key(d) == minor_key(#[trigger] rest[j]);
            assert(rest[j] == devices[j]);
        }
    } else {
        assert(rest[i] == devices[i]);
        assert forall|j: int| 0 <= j < rest.len() && j != i implies minor_key(
            #[trigger] rest[j],
        ) != minor_key(rest[i]) by {
            assert(rest[j] == devices[j]);
        }
        lemma_reading_series_of_one(rest, q, i);
        assert(devices[devices.len() - 1] == d);
    }
}

/// A device with a key of its own has its sample in the identity family,
/// whatever keys the other devices share.
proof fn lemma_identity_series_of_one(devices: Seq<Device>, i: int)
    requires
        0 <= i < devices.len(),
        has_own_identity_key(devices, i),
    ensures
        identity_series(devices).contains_key(identity_key(devices[i])),
        identity_series(devices)[identity_key(devices[i])] == identity_sample(devices[i]),
    decreases devices.len(),
{
    let rest = devices.drop_last();
    let d = devices.last();
    let before = identity_series(rest);
    lemma_identity_labels(d);
    if i == devices.len() - 1 {
        lemma_identity_series_keys(rest);
        if before.contains_key(identity_key(d)) {
            let j = choose|j: int|
                0 <= j < rest.len() && identity_key(d) == identity_key(#[trigger] rest[j]);
            assert(rest[j] == devices[j]);
        }
    } else {
        assert(rest[i] == devices[i]);
        assert forall|j: int| 0 <= j < rest.len() && j != i implies identity_key(
            #[trigger] rest[j],
        ) != identity_key(rest[i]) by {
            assert(rest[j] == devices[j]);
        }
        lemma_identity_series_of_one(rest, i);
        assert(devices[devices.len() - 1] == d);
    }
}

/// A family that shows a single series shows exactly its sample.
proof fn lemma_shows_single(view: FamilyView, key: u64, sample: Sample)
    requires
        shows_series(view, no_series().insert(key, sample)),
    ensures
        view.samples == seq![sample],
{
    let series = no_series().insert(key, sample);
    assert(series.dom() =~= set![key]);
    assert(view.samples.len() == 1);
    assert(view.samples.to_set().contains(view.samples[0]));
    assert(series.values().contains(view.samples[0]));
    assert(view.samples =~= seq![sample]);
}

/// Every export holds the family `up`, with the one sample that tells whether
/// the hardware could be read. No export is empty.
pub proof fn lemma_up_is_always_exported(
    families: Seq<MetricFamily>,
    outcome: Result<Metrics, CollectionError>,
)
    requires
        exported(families, outcome),
    ensures
        families.len() >= 3,
        has_family(families, "nvidia_up"@),
        0 <= up_position(outcome) < families.len(),
        family_view(families[up_position(outcome)]).name == "nvidia_up"@,
        family_view(families[up_position(outcome)]).samples == seq![
            bare_sample(up_value(outcome)),
        ],
{
    reveal_strlit("nvidia");
    reveal_strlit("up");
    reveal_strlit("nvidia_up");
    let view = family_view(families[up_position(outcome)]);
    assert(visible_slots(outcome)[up_position(outcome)] == Slot::Up);
    assert(slot_shows(view, Slot::Up, outcome));
    assert(view.name =~= "nvidia_up"@);
}

/// After a failed scrape exactly three families are exported: `device_count`
/// at 0, `driver_info` with the version "unavailable" at 1, and `up` at 0.
pub proof fn lemma_failed_scrape_exports_scalars_only(
    families: Seq<MetricFamily>,
    error: CollectionError,
)
    requires
        exported(families, Err(error)),
    ensures
        families.len() == 3,
        family_view(families[0]).name == "nvidia_device_count"@,
        family_view(families[0]).samples == seq![bare_sample(0)],
        family_view(families[1]).name == "nvidia_driver_info"@,
        family_view(families[1]).samples == seq![driver_sample("unavailable"@)],
        family_view(families[2]).name == "nvidia_up"@,
        family_view(families[2]).samples == seq![bare_sample(0)],
{
    let outcome: Result<Metrics, CollectionError> = Err(error);
    reveal_strlit("nvidia");
    reveal_strlit("up");
    reveal_strlit("nvidia_up");
    reveal_strlit("device_count");
    reveal_strlit("nvidia_device_count");
    reveal_strlit("driver_info");
    reveal_strlit("nvidia_driver_info");
    assert(snapshot_devices(outcome).len() == 0);
    assert(slot_shows(family_view(families[0]), visible_slots(outcome)[0], outcome));
    assert(slot_shows(family_view(families[1]), visible_slots(outcome)[1], outcome));
    assert(slot_shows(family_view(families[2]), visible_slots(outcome)[2], outcome));
    assert(family_view(families[0]).name =~= "nvidia_device_count"@);
    assert(family_view(families[1]).name =~= "nvidia_driver_info"@);
    assert(family_view(families[2]).name =~= "nvidia_up"@);
    lemma_single_label("version"@, "unavailable"@);
    lemma_shows_single(
        family_view(families[1]),
        label_key(seq!["unavailable"@]),
        driver_sample("unavailable"@),
    );
}

/// After a scrape that read the hardware, `up` is 1, `device_count` is the
/// number of devices and `driver_info` carries the driver version.
pub proof fn lemma_snapshot_exports_scalars(families: Seq<MetricFamily>, m: Metrics)
    requires
        exported(families, Ok(m)),
    ensures
        family_view(families[0]).name == "nvidia_device_count"@,
        family_view(families[0]).samples == seq![
            bare_sample(gauge_reading(m.devices@.len() as int)),
        ],
        0 <= driver_position(Ok(m)) < families.len(),
        family_view(families[driver_position(Ok(m))]).name == "nvidia_driver_info"@,
        family_view(families[driver_position(Ok(m))]).samples == seq![driver_sample(m.version@)],
        family_view(families[up_position(Ok(m))]).samples == seq![bare_sample(1)],
{
    let outcome: Result<Metrics, CollectionError> = Ok(m);
    reveal_strlit("nvidia");
    reveal_strlit("device_count");
    reveal_strlit("nvidia_device_count");
    reveal_strlit("driver_info");
    reveal_strlit("nvidia_driver_info");
    lemma_up_is_always_exported(families, outcome);
    let p = driver_position(outcome);
    assert(visible_slots(outcome)[0] == Slot::DeviceCount);
    assert(visible_slots(outcome)[p] == Slot::DriverInfo);
    assert(slot_shows(family_view(families[0]), Slot::DeviceCount, outcome));
    assert(slot_shows(family_view(families[p]), Slot::DriverInfo, outcome));
    assert(family_view(families[0]).name =~= "nvidia_device_count"@);
    assert(family_view(families[p]).name =~= "nvidia_driver_info"@);
    lemma_single_label("version"@, m.version@);
    lemma_shows_single(
        family_view(families[p]),
        label_key(seq![m.version@]),
        driver_sample(m.version@),
    );
}

/// After a scrape that read devices, the family of every quantity is
/// exported, and if the devices have different keys it shows one sample for
/// each device, labelled with the device's minor number and valued with its
/// reading, and no other sample.
pub proof fn lemma_each_device_is_exported(families: Seq<MetricFamily>, m: Metrics, q: Quantity)
    requires
        exported(families, Ok(m)),
        m.devices@.len() > 0,
    ensures
        families.len() == FAMILY_COUNT,
        0 <= position_of(Slot::Reading(q)) < families.len(),
        family_view(families[position_of(Slot::Reading(q))]).name == fq_name(
            namespace(),
            q.metric_name(),
        ),
        minor_keys_distinct(m.devices@) ==> shows_each_device(
            family_view(families[position_of(Slot::Reading(q))]),
            m.devices@,
            |d: Device| reading_sample(d, q),
        ),
{
    let outcome: Result<Metrics, CollectionError> = Ok(m);
    let devices = m.devices@;
    let slot = Slot::Reading(q);
    let p = position_of(slot);
    lemma_slot_at_position(slot);
    let view = family_view(families[p]);
    assert(visible_slots(outcome)[p] == slot);
    assert(slot_shows(view, slot, outcome));
    if minor_keys_distinct(devices) {
        lemma_reading_series_by_device(devices, q);
        assert forall|c: Device, d: Device| #[trigger]
            minor_key(c) != #[trigger] minor_key(d) implies reading_sample(c, q).labels
            != reading_sample(d, q).labels by {
            assert(reading_sample(c, q).labels["minor"@] == c.minor_number@);
            assert(reading_sample(d, q).labels["minor"@] == d.minor_number@);
        }
        lemma_shows_each_device(
            view,
            reading_series(devices, q),
            devices,
            |d: Device| minor_key(d),
            |d: Device| reading_sample(d, q),
        );
    }
}

/// After a scrape that read devices, the identity family is exported, and if
/// the devices have different keys it shows one sample for each device,
/// labelled with index, minor number, UUID and name, and no other sample.
pub proof fn lemma_each_identity_is_exported(families: Seq<MetricFamily>, m: Metrics)
    requires
        exported(families, Ok(m)),
        m.devices@.len() > 0,
    ensures
        families.len() == FAMILY_COUNT,
        family_view(families[1]).name == "nvidia_info"@,
        identity_keys_distinct(m.devices@) ==> shows_each_device(
            family_view(families[1]),
            m.devices@,
            |d: Device| identity_sample(d),
        ),
{
    let outcome: Result<Metrics, CollectionError> = Ok(m);
    let devices = m.devices@;
    reveal_strlit("nvidia");
    reveal_strlit("info");
    reveal_strlit("nvidia_info");
    let view = family_view(families[1]);
    assert(visible_slots(outcome)[1] == Slot::DeviceInfo);
    assert(slot_shows(view, Slot::DeviceInfo, outcome));
    assert(view.name =~= "nvidia_info"@);
    if identity_keys_distinct(devices) {
        lemma_identity_series_by_device(devices);
        assert forall|c: Device, d: Device| #[trigger]
            identity_key(c) != #[trigger] identity_key(d) implies identity_sample(c).labels
            != identity_sample(d).labels by {
            reveal_strlit("index");
            reveal_strlit("minor");
            reveal_strlit("uuid");
            reveal_strlit("name");
            assert("index"@[0] == 'i' && "minor"@[0] == 'm' && "uuid"@[0] == 'u' && "name"@[0]
                == 'n');
            assert(identity_sample(c).labels["index"@] == c.index@);
            assert(identity_sample(c).labels["minor"@] == c.minor_number@);
            assert(identity_sample(c).labels["uuid"@] == c.uuid@);
            assert(identity_sample(c).labels["name"@] == c.name@);
            assert(identity_sample(d).labels["index"@] == d.index@);
            assert(identity_sample(d).labels["minor"@] == d.minor_number@);
            assert(identity_sample(d).labels["uuid"@] == d.uuid@);
            assert(identity_sample(d).labels["name"@] == d.name@);
            if identity_sample(c).labels == identity_sample(d).labels {
                assert(seq![c.index@, c.minor_number@, c.uuid@, c.name@] =~= seq![
                    d.index@,
                    d.minor_number@,
                    d.uuid@,
                    d.name@,
                ]);
            }
        }
        lemma_shows_each_device(
            view,
            identity_series(devices),
            devices,
            |d: Device| identity_key(d),
            |d: Device| identity_sample(d),
        );
    }
}

/// After a scrape that read devices, a device whose minor number has a key
/// of its own has a sample in the family of every quantity, labelled with its
/// minor number and valued with its reading: the reading itself where it is
/// there, 0 where the device lacks the measurement. What keys the other
/// devices share among themselves does not matter.
pub proof fn lemma_device_is_exported(families: Seq<MetricFamily>, m: Metrics, i: int, q: Quantity)
    requires
        exported(families, Ok(m)),
        0 <= i < m.devices@.len(),
    ensures
        0 <= position_of(Slot::Reading(q)) < families.len(),
        has_own_minor_key(m.devices@, i) ==> family_view(
            families[position_of(Slot::Reading(q))],
        ).samples.contains(reading_sample(m.devices@[i], q)),
{
    let outcome: Result<Metrics, CollectionError> = Ok(m);
    let devices = m.devices@;
    let slot = Slot::Reading(q);
    let p = position_of(slot);
    lemma_slot_at_position(slot);
    let view = family_view(families[p]);
    assert(visible_slots(outcome)[p] == slot);
    assert(slot_shows(view, slot, outcome));
    if has_own_minor_key(devices, i) {
        let series = reading_series(devices, q);
        lemma_reading_series_of_one(devices, q, i);
        assert(series.values().contains(series[minor_key(devices[i])]));
        assert(view.samples.to_set().contains(reading_sample(devices[i], q)));
    }
}

/// After a scrape that read devices, a device whose identity has a key of its
/// own has its sample in the identity family.
pub proof fn lemma_identity_is_exported(families: Seq<MetricFamily>, m: Metrics, i: int)
    requires
        exported(families, Ok(m)),
        0 <= i < m.devices@.len(),
    ensures
        1 < families.len(),
        has_own_identity_key(m.devices@, i) ==> family_view(families[1]).samples.contains(
            identity_sample(m.devices@[i]),
        ),
{
    let outcome: Result<Metrics, CollectionError> = Ok(m);
    let devices = m.devices@;
    let view = family_view(families[1]);
    assert(visible_slots(outcome)[1] == Slot::DeviceInfo);
    assert(slot_shows(view, Slot::DeviceInfo, outcome));
    if has_own_identity_key(devices, i) {
        let series = identity_series(devices);
        lemma_identity_series_of_one(devices, i);
        assert(series.values().contains(series[identity_key(devices[i])]));
        assert(view.samples.to_set().contains(identity_sample(devices[i])));
    }
}

/// A device that lacks an optional measurement still has a sample in the
/// family of that measurement, with the value 0, if its minor number has a
/// key of its own.
pub proof fn lemma_absent_measurement_is_exported_as_zero(
    families: Seq<MetricFamily>,
    m: Metrics,
    i: int,
    q: Quantity,
)
    requires
        exported(families, Ok(m)),
        0 <= i < m.devices@.len(),
        m.devices@[i].lacks(q),
    ensures
        0 <= position_of(Slot::Reading(q)) < families.len(),
        has_own_minor_key(m.devices@, i) ==> family_view(
            families[position_of(Slot::Reading(q))],
        ).samples.contains(Sample { labels: map!["minor"@ => m.devices@[i].minor_number@], value: 0 }),
{
    lemma_device_is_exported(families, m, i, q);
    assert(m.devices@[i].reading(q) == 0);
    assert(reading_sample(m.devices@[i], q) == Sample {
        labels: map!["minor"@ => m.devices@[i].minor_number@],
        value: 0,
    });
}

/// Two exports of the same outcome are alike: the same families in the same
/// order, each with the same name, help text and set of samples.
pub proof fn lemma_export_is_repeatable(
    first: Seq<MetricFamily>,
    second: Seq<MetricFamily>,
    outcome: Result<Metrics, CollectionError>,
)
    requires
        exported(first, outcome),
        exported(second, outcome),
    ensures
        first.len() == second.len(),
        forall|j: int|
            0 <= j < first.len() ==> {
                let a = family_view(#[trigger] first[j]);
                let b = family_view(second[j]);
                &&& a.name == b.name
                &&& a.help == b.help
                &&& a.samples.len() == b.samples.len()
                &&& a.samples.to_set() == b.samples.to_set()
            },
{
    assert forall|j: int| 0 <= j < first.len() implies {
        let a = family_view(#[trigger] first[j]);
        let b = family_view(second[j]);
        &&& a.name == b.name
        &&& a.help == b.help
        &&& a.samples.len() == b.samples.len()
        &&& a.samples.to_set() == b.samples.to_set()
    } by {
        let slot = visible_slots(outcome)[j];
        assert(slot_shows(family_view(first[j]), slot, outcome));
        assert(slot_shows(family_view(second[j]), slot, outcome));
    }
}

/// What a registry holds after a scrape depends on the outcome alone: two
/// registries that reflect the same outcome hold the same values and series.
pub proof fn lemma_registry_is_determined(
    first: Exporter,
    second: Exporter,
    outcome: Result<Metrics, CollectionError>,
)
    requires
        first.reflects(outcome),
        second.reflects(outcome),
    ensures
        first.value(Slot::Up) == second.value(Slot::Up),
        first.value(Slot::DeviceCount) == second.value(Slot::DeviceCount),
        first.series(Slot::DriverInfo) == second.series(Slot::DriverInfo),
        first.series(Slot::DeviceInfo) == second.series(Slot::DeviceInfo),
        forall|q: Quantity| #[trigger]
            first.series(Slot::Reading(q)) == second.series(Slot::Reading(q)),
{
}

} // verus!
