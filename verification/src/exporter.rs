//! The metric registry: a fixed catalogue of gauge families, refilled from
//! every scrape.
//!
//! No series survives from one scrape to the next. A scrape that reads the
//! hardware shows every family; one that fails, or finds no device, shows only
//! the three process-wide families.

use crate::catalogue::{
    is_word, lemma_qualified_name_valid, lemma_slot_texts, namespace, namespace_str, slot_at,
    slot_help, slot_labels, slot_name, Slot, FAMILY_COUNT,
};
use crate::guarantees::lemma_up_is_always_exported;
use crate::metrics::{
    collect_metrics, is_enumeration, CollectionError, Device, Metrics, MetricsCollector, Quantity,
    QUANTITY_COUNT,
};
use crate::registry::{
    bare_sample, collect_family, collect_gauge, family_definition, family_series, family_view,
    fq_name, gauge_definition, gauge_value, is_word_start, label_key, label_map, new_gauge,
    new_gauge_family, no_series, recorded, reset_family, sample_count, set_gauge, set_series,
    shows_series, valid_label_names, FamilyView, GaugeCell, GaugeFamily, Sample, MAX_EXACT,
};
use prometheus::proto::MetricFamily;
use vstd::prelude::*;

verus! {

/// The value a gauge takes for a reading: the reading itself, or the largest
/// value the exposition format holds exactly if the reading is above it.
pub open spec fn gauge_reading(v: int) -> int {
    if v > MAX_EXACT as int {
        MAX_EXACT as int
    } else {
        v
    }
}

fn to_gauge(v: u64) -> (r: i64)
    ensures
        r == gauge_reading(v as int),
        0 <= r <= MAX_EXACT,
{
    if v > MAX_EXACT as u64 {
        MAX_EXACT
    } else {
        v as i64
    }
}

fn count_to_gauge(n: usize) -> (r: i64)
    ensures
        r == gauge_reading(n as int),
        0 <= r <= MAX_EXACT,
{
    to_gauge(n as u64)
}

/// The series of the family of quantity `q` once `devices` are recorded, first to last.
pub open spec fn reading_series(devices: Seq<Device>, q: Quantity) -> Map<u64, Sample>
    decreases devices.len(),
{
    if devices.len() == 0 {
        no_series()
    } else {
        let d = devices.last();
        recorded(
            reading_series(devices.drop_last(), q),
            label_key(seq![d.minor_number@]),
            label_map(slot_labels(Slot::Reading(q)), seq![d.minor_number@]),
            gauge_reading(d.reading(q)),
        )
    }
}

/// The series of the identity family once `devices` are recorded, first to last.
pub open spec fn identity_series(devices: Seq<Device>) -> Map<u64, Sample>
    decreases devices.len(),
{
    if devices.len() == 0 {
        no_series()
    } else {
        let d = devices.last();
        recorded(
            identity_series(devices.drop_last()),
            label_key(seq![d.index@, d.minor_number@, d.uuid@, d.name@]),
            label_map(
                slot_labels(Slot::DeviceInfo),
                seq![d.index@, d.minor_number@, d.uuid@, d.name@],
            ),
            1,
        )
    }
}

/// The one series of the driver family for a driver version.
pub open spec fn driver_series(version: Seq<char>) -> Map<u64, Sample> {
    recorded(
        no_series(),
        label_key(seq![version]),
        label_map(slot_labels(Slot::DriverInfo), seq![version]),
        1,
    )
}

/// The devices of a scrape; none when it failed.
pub open spec fn snapshot_devices(outcome: Result<Metrics, CollectionError>) -> Seq<Device> {
    match outcome {
        Ok(m) => m.devices@,
        Err(_) => Seq::empty(),
    }
}

/// The driver version a scrape reports; "unavailable" when it failed.
pub open spec fn reported_version(outcome: Result<Metrics, CollectionError>) -> Seq<char> {
    match outcome {
        Ok(m) => m.version@,
        Err(_) => "unavailable"@,
    }
}

/// The value of `up` after a scrape.
pub open spec fn up_value(outcome: Result<Metrics, CollectionError>) -> int {
    match outcome {
        Ok(_) => 1,
        Err(_) => 0,
    }
}

/// A collected family shows what `slot` holds after a scrape with `outcome`.
pub open spec fn slot_shows(
    view: FamilyView,
    slot: Slot,
    outcome: Result<Metrics, CollectionError>,
) -> bool {
    &&& view.name == fq_name(namespace(), slot_name(slot))
    &&& view.help == slot_help(slot)
    &&& view.is_gauge
    &&& match slot {
        Slot::Up => view.samples == seq![bare_sample(up_value(outcome))],
        Slot::DeviceCount => view.samples == seq![
            bare_sample(gauge_reading(snapshot_devices(outcome).len() as int)),
        ],
        Slot::DriverInfo => shows_series(view, driver_series(reported_version(outcome))),
        Slot::DeviceInfo => shows_series(view, identity_series(snapshot_devices(outcome))),
        Slot::Reading(q) => shows_series(view, reading_series(snapshot_devices(outcome), q)),
    }
}

/// The slots that have series after a scrape, in catalogue order: all of them
/// when devices were read, otherwise the three process-wide ones.
pub open spec fn visible_slots(outcome: Result<Metrics, CollectionError>) -> Seq<Slot> {
    if snapshot_devices(outcome).len() > 0 {
        Seq::new(FAMILY_COUNT as nat, |j: int| slot_at(j))
    } else {
        seq![Slot::DeviceCount, Slot::DriverInfo, Slot::Up]
    }
}

/// `families` is what a scrape with `outcome` exports: one family for each
/// visible slot, in catalogue order, each showing what the slot holds.
pub open spec fn exported(
    families: Seq<MetricFamily>,
    outcome: Result<Metrics, CollectionError>,
) -> bool {
    &&& families.len() == visible_slots(outcome).len()
    &&& forall|j: int|
        0 <= j < families.len() ==> slot_shows(
            family_view(#[trigger] families[j]),
            visible_slots(outcome)[j],
            outcome,
        )
}

/// One of the families has the name `name`.
pub open spec fn has_family(families: Seq<MetricFamily>, name: Seq<char>) -> bool {
    exists|j: int| 0 <= j < families.len() && family_view(#[trigger] families[j]).name == name
}

/// A definition is the one the catalogue gives for `slot`.
pub open spec fn defines(name: Seq<char>, help: Seq<char>, slot: Slot) -> bool {
    &&& name == fq_name(namespace(), slot_name(slot))
    &&& help == slot_help(slot)
}

fn one_text(s: &str) -> (v: Vec<String>)
    ensures
        v.deep_view() == seq![s@],
{
    let mut v: Vec<String> = Vec::new();
    v.push(String::from_str(s));
    assert(v.deep_view() =~= seq![s@]);
    v
}

fn four_texts(a: &str, b: &str, c: &str, d: &str) -> (v: Vec<String>)
    ensures
        v.deep_view() == seq![a@, b@, c@, d@],
{
    let mut v: Vec<String> = Vec::new();
    v.push(String::from_str(a));
    v.push(String::from_str(b));
    v.push(String::from_str(c));
    v.push(String::from_str(d));
    assert(v.deep_view() =~= seq![a@, b@, c@, d@]);
    v
}

fn minor_label() -> (v: Vec<String>)
    ensures
        v.deep_view() == seq!["minor"@],
        valid_label_names(v.deep_view()),
{
    proof {
        reveal_strlit("minor");
    }
    one_text("minor")
}

fn version_label() -> (v: Vec<String>)
    ensures
        v.deep_view() == seq!["version"@],
        valid_label_names(v.deep_view()),
{
    proof {
        reveal_strlit("version");
    }
    one_text("version")
}

fn identity_label() -> (v: Vec<String>)
    ensures
        v.deep_view() == seq!["index"@, "minor"@, "uuid"@, "name"@],
        valid_label_names(v.deep_view()),
{
    proof {
        reveal_strlit("index");
        reveal_strlit("minor");
        reveal_strlit("uuid");
        reveal_strlit("name");
    }
    let v = four_texts("index", "minor", "uuid", "name");
    proof {
        let names = v.deep_view();
        assert(names[0][0] == 'i' && names[1][0] == 'm' && names[2][0] == 'u' && names[3][0]
            == 'n');
    }
    v
}

/// The registry: one gauge or gauge family for each slot of the catalogue.
pub struct Exporter {
    up: GaugeCell,
    device_count: GaugeCell,
    info: GaugeFamily,
    device_info: GaugeFamily,
    readings: Vec<GaugeFamily>,
}

impl Exporter {
    /// Every gauge and family is the one the catalogue defines for its slot.
    pub closed spec fn well_formed(&self) -> bool {
        &&& defines(gauge_definition(self.up).name, gauge_definition(self.up).help, Slot::Up)
        &&& defines(
            gauge_definition(self.device_count).name,
            gauge_definition(self.device_count).help,
            Slot::DeviceCount,
        )
        &&& Self::family_defined(self.info, Slot::DriverInfo)
        &&& Self::family_defined(self.device_info, Slot::DeviceInfo)
        &&& self.readings@.len() == QUANTITY_COUNT
        &&& forall|k: int|
            0 <= k < QUANTITY_COUNT ==> Self::family_defined(
                #[trigger] self.readings@[k],
                Slot::Reading(Quantity::at(k)),
            )
    }

    spec fn family_defined(f: GaugeFamily, slot: Slot) -> bool {
        &&& defines(family_definition(f).name, family_definition(f).help, slot)
        &&& family_definition(f).label_names == slot_labels(slot)
    }

    /// Creates the registry with every family of the catalogue and no series.
    pub fn new() -> (e: Exporter)
        ensures
            e.well_formed(),
            e.value(Slot::Up) == 0,
            e.value(Slot::DeviceCount) == 0,
            forall|slot: Slot| #[trigger] e.series(slot) == no_series(),
    {
        let ns = namespace_str();
        proof {
            reveal_strlit("up");
            reveal_strlit("NVML Metric Collection Operational");
            reveal_strlit("device_count");
            reveal_strlit("Count of found nvidia devices");
            reveal_strlit("driver_info");
            reveal_strlit("NVML Info");
            reveal_strlit("info");
            reveal_strlit("Info as reported by the device");
            lemma_qualified_name_valid(ns@, "up"@);
            lemma_qualified_name_valid(ns@, "device_count"@);
            lemma_qualified_name_valid(ns@, "driver_info"@);
            lemma_qualified_name_valid(ns@, "info"@);
        }
        let up = new_gauge(ns, "up", "NVML Metric Collection Operational");
        let info = new_gauge_family(ns, "driver_info", "NVML Info", &version_label());
        let device_count = new_gauge(ns, "device_count", "Count of found nvidia devices");
        let device_info = new_gauge_family(
            ns,
            "info",
            "Info as reported by the device",
            &identity_label(),
        );
        let minor = minor_label();
        let mut readings: Vec<GaugeFamily> = Vec::new();
        let mut k: usize = 0;
        while k < QUANTITY_COUNT
            invariant
                k <= QUANTITY_COUNT,
                readings@.len() == k,
                ns@ == namespace(),
                is_word(ns@),
                is_word_start(ns@[0]),
                minor.deep_view() == seq!["minor"@],
                valid_label_names(minor.deep_view()),
                forall|j: int|
                    0 <= j < k ==> Self::family_defined(
                        #[trigger] readings@[j],
                        Slot::Reading(Quantity::at(j)),
                    ) && family_series(readings@[j]) == no_series(),
            decreases QUANTITY_COUNT - k,
        {
            let q = Quantity::from_position(k);
            let name = q.name();
            proof {
                lemma_qualified_name_valid(ns@, name@);
            }
            let family = new_gauge_family(ns, name, q.help(), &minor);
            readings.push(family);
            k += 1;
        }
        let e = Exporter { up, device_count, info, device_info, readings };
        assert forall|slot: Slot| #[trigger] e.series(slot) == no_series() by {
            if let Slot::Reading(q) = slot {
                assert(0 <= q.position() < QUANTITY_COUNT);
            }
        }
        e
    }

    /// The value that the gauge of `slot` holds (`Up` and `DeviceCount`).
    pub closed spec fn value(&self, slot: Slot) -> int {
        match slot {
            Slot::Up => gauge_value(self.up),
            Slot::DeviceCount => gauge_value(self.device_count),
            _ => 0,
        }
    }

    /// The series that the family of `slot` holds (every slot but `Up` and
    /// `DeviceCount`).
    pub closed spec fn series(&self, slot: Slot) -> Map<u64, Sample> {
        match slot {
            Slot::DriverInfo => family_series(self.info),
            Slot::DeviceInfo => family_series(self.device_info),
            Slot::Reading(q) => family_series(self.readings@[q.position()]),
            _ => no_series(),
        }
    }

    /// The registry holds exactly what a scrape with `outcome` leaves in it.
    pub open spec fn reflects(&self, outcome: Result<Metrics, CollectionError>) -> bool {
        &&& self.value(Slot::Up) == up_value(outcome)
        &&& self.value(Slot::DeviceCount) == gauge_reading(snapshot_devices(outcome).len() as int)
        &&& self.series(Slot::DriverInfo) == driver_series(reported_version(outcome))
        &&& self.series(Slot::DeviceInfo) == identity_series(snapshot_devices(outcome))
        &&& forall|q: Quantity| #[trigger]
            self.series(Slot::Reading(q)) == reading_series(snapshot_devices(outcome), q)
    }

    spec fn filled(&self, devices: Seq<Device>) -> bool {
        &&& family_series(self.device_info) == identity_series(devices)
        &&& forall|k: int|
            0 <= k < QUANTITY_COUNT ==> family_series(#[trigger] self.readings@[k])
                == reading_series(devices, Quantity::at(k))
    }

    fn clear(&mut self)
        requires
            old(self).well_formed(),
        ensures
            final(self).well_formed(),
            final(self).up == old(self).up,
            final(self).device_count == old(self).device_count,
            family_series(final(self).info) == no_series(),
            final(self).filled(Seq::empty()),
    {
        reset_family(&mut self.info);
        reset_family(&mut self.device_info);
        let mut k: usize = 0;
        while k < QUANTITY_COUNT
            invariant
                k <= QUANTITY_COUNT,
                self.well_formed(),
                self.up == old(self).up,
                self.device_count == old(self).device_count,
                family_series(self.info) == no_series(),
                family_series(self.device_info) == no_series(),
                self.readings@.len() == QUANTITY_COUNT,
                forall|j: int|
                    0 <= j < k ==> family_series(#[trigger] self.readings@[j]) == no_series(),
            decreases QUANTITY_COUNT - k,
        {
            reset_family(&mut self.readings[k]);
            k += 1;
        }
    }

    fn record(&mut self, device: &Device, Ghost(before): Ghost<Seq<Device>>)
        requires
            old(self).well_formed(),
            old(self).filled(before),
        ensures
            final(self).well_formed(),
            final(self).up == old(self).up,
            final(self).device_count == old(self).device_count,
            final(self).info == old(self).info,
            final(self).filled(before.push(*device)),
    {
        let ghost after = before.push(*device);
        assert(after.drop_last() =~= before);
        assert(after.last() == *device);
        let identity = four_texts(
            device.index.as_str(),
            device.minor_number.as_str(),
            device.uuid.as_str(),
            device.name.as_str(),
        );
        set_series(&mut self.device_info, &identity, 1);
        let minor = one_text(device.minor_number.as_str());
        let mut k: usize = 0;
        while k < QUANTITY_COUNT
            invariant
                k <= QUANTITY_COUNT,
                self.well_formed(),
                self.up == old(self).up,
                self.device_count == old(self).device_count,
                self.info == old(self).info,
                after.drop_last() == before,
                after.last() == *device,
                after.len() > 0,
                minor.deep_view() == seq![device.minor_number@],
                family_series(self.device_info) == identity_series(after),
                self.readings@.len() == QUANTITY_COUNT,
                forall|j: int|
                    0 <= j < k ==> family_series(#[trigger] self.readings@[j]) == reading_series(
                        after,
                        Quantity::at(j),
                    ),
                forall|j: int|
                    k <= j < QUANTITY_COUNT ==> family_series(#[trigger] self.readings@[j])
                        == reading_series(before, Quantity::at(j)),
            decreases QUANTITY_COUNT - k,
        {
            let q = Quantity::from_position(k);
            let value = to_gauge(device.value_of(q));
            set_series(&mut self.readings[k], &minor, value);
            k += 1;
        }
    }

    spec fn shown(&self, view: FamilyView, slot: Slot) -> bool {
        &&& defines(view.name, view.help, slot)
        &&& view.is_gauge
        &&& match slot {
            Slot::Up => view.samples == seq![bare_sample(self.value(slot))],
            Slot::DeviceCount => view.samples == seq![bare_sample(self.value(slot))],
            _ => shows_series(view, self.series(slot)),
        }
    }

    fn collect_slot(&self, j: usize) -> (r: Vec<MetricFamily>)
        requires
            self.well_formed(),
            j < FAMILY_COUNT,
        ensures
            r@.len() == 1,
            self.shown(family_view(r@[0]), slot_at(j as int)),
    {
        if j == 0 {
            collect_gauge(&self.device_count)
        } else if j == 1 {
            collect_family(&self.device_info)
        } else if j == 2 {
            collect_family(&self.readings[0])
        } else if j == 3 {
            collect_family(&self.info)
        } else if j <= 8 {
            collect_family(&self.readings[j - 3])
        } else if j == 9 {
            collect_gauge(&self.up)
        } else {
            collect_family(&self.readings[j - 4])
        }
    }

    fn collect(&self, Ghost(outcome): Ghost<Result<Metrics, CollectionError>>) -> (families: Vec<
        MetricFamily,
    >)
        requires
            self.well_formed(),
            self.reflects(outcome),
        ensures
            exported(families@, outcome),
    {
        let ghost devices = snapshot_devices(outcome);
        let mut families: Vec<MetricFamily> = Vec::new();
        let mut j: usize = 0;
        while j < FAMILY_COUNT
            invariant
                j <= FAMILY_COUNT,
                self.well_formed(),
                self.reflects(outcome),
                devices == snapshot_devices(outcome),
                devices.len() > 0 ==> families@.len() == j && forall|k: int|
                    0 <= k < j ==> slot_shows(
                        family_view(#[trigger] families@[k]),
                        slot_at(k),
                        outcome,
                    ),
                devices.len() == 0 ==> families@.len() == (if j > 0 {
                    1int
                } else {
                    0int
                }) + (if j > 3 {
                    1int
                } else {
                    0int
                }) + (if j > 9 {
                    1int
                } else {
                    0int
                }),
                devices.len() == 0 && j > 0 ==> slot_shows(
                    family_view(families@[0]),
                    Slot::DeviceCount,
                    outcome,
                ),
                devices.len() == 0 && j > 3 ==> slot_shows(
                    family_view(families@[1]),
                    Slot::DriverInfo,
                    outcome,
                ),
                devices.len() == 0 && j > 9 ==> slot_shows(
                    family_view(families@[2]),
                    Slot::Up,
                    outcome,
                ),
            decreases FAMILY_COUNT - j,
        {
            let mut collected = self.collect_slot(j);
            let ghost slot = slot_at(j as int);
            proof {
                lemma_driver_series_single(reported_version(outcome));
                lemma_identity_series_presence(devices);
                if let Slot::Reading(q) = slot {
                    lemma_reading_series_presence(devices, q);
                }
            }
            match collected.pop() {
                Some(family) => {
                    assert(slot_shows(family_view(family), slot, outcome));
                    if sample_count(&family) > 0 {
                        families.push(family);
                    }
                },
                None => {},
            }
            j += 1;
        }
        proof {
            assert forall|k: int| 0 <= k < families@.len() implies slot_shows(
                family_view(#[trigger] families@[k]),
                visible_slots(outcome)[k],
                outcome,
            ) by {}
        }
        families
    }

    /// Refills the registry from the outcome of one scrape and returns the
    /// families that then have series.
    ///
    /// Every series of an earlier scrape is dropped first. After a snapshot,
    /// `up` is 1, `device_count` is the number of devices, `driver_info` carries
    /// the driver version, and every device is recorded in the identity family
    /// and in the family of every quantity, an absent measurement as zero.
    /// After a failure `up` and `device_count` are 0 and `driver_info` carries
    /// "unavailable".
    pub fn export(&mut self, outcome: &Result<Metrics, CollectionError>) -> (families: Vec<
        MetricFamily,
    >)
        requires
            old(self).well_formed(),
        ensures
            final(self).well_formed(),
            final(self).reflects(*outcome),
            exported(families@, *outcome),
            has_family(families@, "nvidia_up"@),
    {
        self.clear();
        match outcome {
            Ok(data) => {
                set_gauge(&mut self.up, 1);
                set_gauge(&mut self.device_count, count_to_gauge(data.devices.len()));
                let version = one_text(data.version.as_str());
                set_series(&mut self.info, &version, 1);
                let mut i: usize = 0;
                while i < data.devices.len()
                    invariant
                        i <= data.devices@.len(),
                        self.well_formed(),
                        gauge_value(self.up) == 1,
                        gauge_value(self.device_count) == gauge_reading(
                            data.devices@.len() as int,
                        ),
                        family_series(self.info) == driver_series(data.version@),
                        self.filled(data.devices@.take(i as int)),
                    decreases data.devices@.len() - i,
                {
                    self.record(&data.devices[i], Ghost(data.devices@.take(i as int)));
                    assert(data.devices@.take(i as int).push(data.devices@[i as int])
                        =~= data.devices@.take(i + 1));
                    i += 1;
                }
                assert(data.devices@.take(i as int) =~= data.devices@);
            },
            Err(_) => {
                set_gauge(&mut self.up, 0);
                set_gauge(&mut self.device_count, 0);
                let version = one_text("unavailable");
                set_series(&mut self.info, &version, 1);
            },
        }
        proof {
            self.lemma_filled_reflects(*outcome);
        }
        let families = self.collect(Ghost(*outcome));
        proof {
            lemma_up_is_always_exported(families@, *outcome);
        }
        families
    }

    /// Makes one scrape with `collector` and exports its outcome, whatever it
    /// is. The family `up` is always among the families returned.
    pub fn gather_with<C: MetricsCollector>(&mut self, collector: &C) -> (families: Vec<
        MetricFamily,
    >)
        requires
            old(self).well_formed(),
        ensures
            final(self).well_formed(),
            has_family(families@, "nvidia_up"@),
            exists|outcome: Result<Metrics, CollectionError>|
                final(self).reflects(outcome) && #[trigger] exported(families@, outcome),
    {
        let outcome = collector.collect();
        self.export(&outcome)
    }

    /// Makes one scrape of the GPUs of this machine and exports its outcome:
    /// the full catalogue if the hardware could be read and has devices, the
    /// three process-wide families otherwise. A failure of the hardware is
    /// never passed on to the caller, and the family `up` is always among the
    /// families returned.
    pub fn gather(&mut self) -> (families: Vec<MetricFamily>)
        requires
            old(self).well_formed(),
        ensures
            final(self).well_formed(),
            has_family(families@, "nvidia_up"@),
            exists|outcome: Result<Metrics, CollectionError>|
                {
                    &&& outcome matches Ok(m) ==> is_enumeration(m)
                    &&& final(self).reflects(outcome)
                    &&& #[trigger] exported(families@, outcome)
                },
    {
        let outcome = collect_metrics();
        self.export(&outcome)
    }

    proof fn lemma_filled_reflects(&self, outcome: Result<Metrics, CollectionError>)
        requires
            self.well_formed(),
            self.filled(snapshot_devices(outcome)),
            gauge_value(self.up) == up_value(outcome),
            gauge_value(self.device_count) == gauge_reading(snapshot_devices(outcome).len() as int),
            family_series(self.info) == driver_series(reported_version(outcome)),
        ensures
            self.reflects(outcome),
    {
        assert forall|q: Quantity| #[trigger]
            self.series(Slot::Reading(q)) == reading_series(snapshot_devices(outcome), q) by {
            assert(0 <= q.position() < QUANTITY_COUNT);
            assert(Quantity::at(q.position()) == q);
        }
    }
}

/// The driver family has exactly one series.
pub proof fn lemma_driver_series_single(version: Seq<char>)
    ensures
        driver_series(version).dom().finite(),
        driver_series(version).dom().len() == 1,
{
    assert(driver_series(version).dom() =~= set![label_key(seq![version])]);
}

/// The family of a quantity has series exactly when devices were recorded.
pub proof fn lemma_reading_series_presence(devices: Seq<Device>, q: Quantity)
    ensures
        reading_series(devices, q).dom().finite(),
        devices.len() == 0 ==> reading_series(devices, q).dom().len() == 0,
        devices.len() > 0 ==> reading_series(devices, q).dom().len() > 0,
    decreases devices.len(),
{
    if devices.len() > 0 {
        lemma_reading_series_presence(devices.drop_last(), q);
        let before = reading_series(devices.drop_last(), q);
        let key = label_key(seq![devices.last().minor_number@]);
        assert(reading_series(devices, q).dom() =~= before.dom().insert(key));
    }
}

/// The identity family has series exactly when devices were recorded.
pub proof fn lemma_identity_series_presence(devices: Seq<Device>)
    ensures
        identity_series(devices).dom().finite(),
        devices.len() == 0 ==> identity_series(devices).dom().len() == 0,
        devices.len() > 0 ==> identity_series(devices).dom().len() > 0,
    decreases devices.len(),
{
    if devices.len() > 0 {
        lemma_identity_series_presence(devices.drop_last());
        let before = identity_series(devices.drop_last());
        let d = devices.last();
        let key = label_key(seq![d.index@, d.minor_number@, d.uuid@, d.name@]);
        assert(identity_series(devices).dom() =~= before.dom().insert(key));
    }
}

/// Whatever a scrape exports can be encoded: every family is a gauge family
/// with a name and at least one sample.
pub proof fn lemma_exported_is_encodable(
    families: Seq<MetricFamily>,
    outcome: Result<Metrics, CollectionError>,
)
    requires
        exported(families, outcome),
    ensures
        crate::encoder::all_gauges(families),
        crate::encoder::encodable(families),
{
    let devices = snapshot_devices(outcome);
    assert forall|j: int| 0 <= j < families.len() implies {
        let view = family_view(#[trigger] families[j]);
        view.is_gauge && view.name.len() > 0 && view.samples.len() > 0
    } by {
        let slot = visible_slots(outcome)[j];
        let view = family_view(families[j]);
        assert(slot_shows(view, slot, outcome));
        lemma_slot_texts(slot);
        lemma_driver_series_single(reported_version(outcome));
        lemma_identity_series_presence(devices);
        if let Slot::Reading(q) = slot {
            lemma_reading_series_presence(devices, q);
        }
    }
}

impl Default for Exporter {
    fn default() -> (e: Exporter)
        ensures
            e.well_formed(),
            e.value(Slot::Up) == 0,
            e.value(Slot::DeviceCount) == 0,
            forall|slot: Slot| #[trigger] e.series(slot) == no_series(),
    {
        Exporter::new()
    }
}

impl Clone for Exporter {
    /// A registry of its own with the same catalogue. Series live for one
    /// scrape only, so none is carried over.
    fn clone(&self) -> (e: Exporter)
        ensures
            e.well_formed(),
            e.value(Slot::Up) == 0,
            e.value(Slot::DeviceCount) == 0,
            forall|slot: Slot| #[trigger] e.series(slot) == no_series(),
    {
        Exporter::new()
    }
}

} // verus!
