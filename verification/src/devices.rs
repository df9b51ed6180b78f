//! Device registry and capability catalog.
//!
//! The registry maps a device's stable id (its enumerated name) to the
//! capabilities the hardware provider reported for it. It is populated as
//! devices are enumerated or resolved as defaults; re-enumeration overwrites
//! by id. The catalog functions derive supported configuration ranges,
//! format sets, rate sets, and channel maxima from the stored capabilities.

use vstd::prelude::*;
use vstd::hash_map::StringHashMap;

use crate::types::AudioError;
use crate::types::ConfigRange;
use crate::types::DeviceConfig;
use crate::types::DeviceInfo;
use crate::types::HostInfo;
use crate::types::SampleFormat;

verus! {

/// Everything the hardware provider reported about one device: its
/// capability ranges for each direction and its default configurations.
pub struct DeviceCaps {
    pub input_configs: Vec<ConfigRange>,
    pub output_configs: Vec<ConfigRange>,
    pub default_input_config: Option<DeviceConfig>,
    pub default_output_config: Option<DeviceConfig>,
}

/// Process-wide mapping from device id to the device's reported
/// capabilities. Devices are never mutated after insertion.
pub struct DeviceRegistry {
    devices: StringHashMap<DeviceCaps>,
}

impl View for DeviceRegistry {
    type V = Map<Seq<char>, DeviceCaps>;

    closed spec fn view(&self) -> Map<Seq<char>, DeviceCaps> {
        self.devices@
    }
}

impl DeviceRegistry {
    /// Creates an empty registry.
    pub fn new() -> (registry: Self)
        ensures
            registry@ == Map::<Seq<char>, DeviceCaps>::empty(),
    {
        DeviceRegistry { devices: StringHashMap::new() }
    }

    /// Registers a device under its id, overwriting any earlier entry.
    pub fn insert_device(&mut self, name: String, caps: DeviceCaps)
        ensures
            final(self)@ == old(self)@.insert(name@, caps),
    {
        self.devices.insert(name, caps);
    }
}

/// Looks a device up by id.
pub fn get_device<'a>(registry: &'a DeviceRegistry, device_id: &str) -> (caps: Option<
    &'a DeviceCaps,
>)
    ensures
        match caps {
            Some(c) => registry@.contains_key(device_id@) && *c == registry@[device_id@],
            None => !registry@.contains_key(device_id@),
        },
{
    registry.devices.get(device_id)
}

/// Copies a vector of capability ranges.
fn copy_ranges(src: &Vec<ConfigRange>) -> (out: Vec<ConfigRange>)
    ensures
        out@ == src@,
{
    let mut out: Vec<ConfigRange> = Vec::new();
    let mut i: usize = 0;
    while i < src.len()
        invariant
            i <= src.len(),
            out@ == src@.take(i as int),
        decreases src.len() - i,
    {
        out.push(src[i]);
        proof {
            assert(src@.take(i + 1 as int) =~= src@.take(i as int).push(src@[i as int]));
        }
        i = i + 1;
    }
    proof {
        assert(src@.take(src@.len() as int) =~= src@);
    }
    out
}

/// The capability ranges a device reports for the capture direction:
/// exactly what the provider reported, or `Unsupported` when the provider
/// reported none.
pub fn get_supported_input_configs(registry: &DeviceRegistry, device_id: &str) -> (result: Result<
    Vec<ConfigRange>,
    AudioError,
>)
    ensures
        !registry@.contains_key(device_id@) ==> result matches Err(AudioError::DeviceNotFound),
        registry@.contains_key(device_id@) && registry@[device_id@].input_configs@.len() == 0
            ==> result matches Err(AudioError::Unsupported),
        registry@.contains_key(device_id@) && registry@[device_id@].input_configs@.len() > 0 ==> (
        result matches Ok(configs) && configs@ == registry@[device_id@].input_configs@),
{
    match registry.devices.get(device_id) {
        None => Err(AudioError::DeviceNotFound),
        Some(caps) => {
            if caps.input_configs.len() == 0 {
                Err(AudioError::Unsupported)
            } else {
                Ok(copy_ranges(&caps.input_configs))
            }
        },
    }
}

/// The capability ranges a device reports for the playback direction:
/// exactly what the provider reported, or `Unsupported` when the provider
/// reported none.
pub fn get_supported_output_configs(registry: &DeviceRegistry, device_id: &str) -> (result: Result<
    Vec<ConfigRange>,
    AudioError,
>)
    ensures
        !registry@.contains_key(device_id@) ==> result matches Err(AudioError::DeviceNotFound),
        registry@.contains_key(device_id@) && registry@[device_id@].output_configs@.len() == 0
            ==> result matches Err(AudioError::Unsupported),
        registry@.contains_key(device_id@) && registry@[device_id@].output_configs@.len() > 0 ==> (
        result matches Ok(configs) && configs@ == registry@[device_id@].output_configs@),
{
    match registry.devices.get(device_id) {
        None => Err(AudioError::DeviceNotFound),
        Some(caps) => {
            if caps.output_configs.len() == 0 {
                Err(AudioError::Unsupported)
            } else {
                Ok(copy_ranges(&caps.output_configs))
            }
        },
    }
}

/// The sample formats of a sequence of capability ranges, in order.
pub open spec fn formats_of(ranges: Seq<ConfigRange>) -> Seq<SampleFormat> {
    ranges.map(|i: int, r: ConfigRange| r.format)
}

/// Appends to `acc` each format of `s` not seen before, keeping the order in
/// which formats are first discovered.
pub open spec fn dedup_scan(acc: Seq<SampleFormat>, s: Seq<SampleFormat>) -> Seq<SampleFormat>
    decreases s.len(),
{
    if s.len() == 0 {
        acc
    } else {
        let prev = dedup_scan(acc, s.drop_last());
        if prev.contains(s.last()) {
            prev
        } else {
            prev.push(s.last())
        }
    }
}

proof fn lemma_dedup_scan_no_duplicates(acc: Seq<SampleFormat>, s: Seq<SampleFormat>)
    requires
        acc.no_duplicates(),
    ensures
        dedup_scan(acc, s).no_duplicates(),
    decreases s.len(),
{
    if s.len() > 0 {
        lemma_dedup_scan_no_duplicates(acc, s.drop_last());
    }
}

proof fn lemma_dedup_scan_contains(acc: Seq<SampleFormat>, s: Seq<SampleFormat>, f: SampleFormat)
    ensures
        dedup_scan(acc, s).contains(f) <==> (acc.contains(f) || s.contains(f)),
    decreases s.len(),
{
    if s.len() == 0 {
        assert(!s.contains(f));
    } else {
        lemma_dedup_scan_contains(acc, s.drop_last(), f);
        let prev = dedup_scan(acc, s.drop_last());
        if s.contains(f) {
            let j = choose|j: int| 0 <= j < s.len() && s[j] == f;
            if j < s.len() - 1 {
                assert(s.drop_last()[j] == f);
                assert(s.drop_last().contains(f));
            }
        }
        if s.drop_last().contains(f) {
            let j = choose|j: int| 0 <= j < s.drop_last().len() && s.drop_last()[j] == f;
            assert(s[j] == f);
        }
        if !prev.contains(s.last()) {
            assert(prev.push(s.last()).contains(f) <==> (prev.contains(f) || s.last() == f)) by {
                if prev.contains(f) {
                    let j = choose|j: int| 0 <= j < prev.len() && prev[j] == f;
                    assert(prev.push(s.last())[j] == f);
                }
                if s.last() == f {
                    assert(prev.push(s.last())[prev.len() as int] == f);
                }
                if prev.push(s.last()).contains(f) {
                    let j = choose|j: int|
                        0 <= j < prev.push(s.last()).len() && prev.push(s.last())[j] == f;
                    if j < prev.len() {
                        assert(prev[j] == f);
                    }
                }
            }
        }
        assert(s.contains(s.last())) by {
            assert(s[s.len() - 1] == s.last());
        }
    }
}

/// Whether a format was already collected.
fn contains_format(formats: &Vec<SampleFormat>, fmt: SampleFormat) -> (present: bool)
    ensures
        present == formats@.contains(fmt),
{
    let mut i: usize = 0;
    while i < formats.len()
        invariant
            i <= formats.len(),
            forall|k: int| 0 <= k < i ==> formats@[k] != fmt,
        decreases formats.len() - i,
    {
        if formats[i] == fmt {
            proof {
                assert(formats@.contains(fmt)) by {
                    assert(formats@[i as int] == fmt);
                }
            }
            return true;
        }
        i = i + 1;
    }
    false
}

/// Collects the formats of `ranges` into `formats`, skipping those already
/// present.
fn add_formats(formats: &mut Vec<SampleFormat>, ranges: &Vec<ConfigRange>)
    ensures
        final(formats)@ == dedup_scan(old(formats)@, formats_of(ranges@)),
{
    let ghost f0 = formats@;
    let ghost fs = formats_of(ranges@);
    let mut i: usize = 0;
    while i < ranges.len()
        invariant
            i <= ranges.len(),
            fs == formats_of(ranges@),
            formats@ == dedup_scan(f0, fs.take(i as int)),
        decreases ranges.len() - i,
    {
        let fmt = ranges[i].format;
        proof {
            assert(fs.take(i + 1).drop_last() =~= fs.take(i as int));
            assert(fs.take(i + 1).last() == fmt);
        }
        let present = contains_format(formats, fmt);
        if !present {
            formats.push(fmt);
        }
        i = i + 1;
    }
    proof {
        assert(fs.take(ranges@.len() as int) =~= fs);
    }
}

/// The set of sample formats appearing in a device's capability ranges,
/// input ranges first, deduplicated with the order of discovery preserved,
/// or `DeviceNotFound` for an unknown id.
pub fn get_supported_formats(registry: &DeviceRegistry, device_id: &str) -> (result: Result<
    Vec<SampleFormat>,
    AudioError,
>)
    ensures
        !registry@.contains_key(device_id@) ==> result matches Err(AudioError::DeviceNotFound),
        registry@.contains_key(device_id@) ==> (result matches Ok(formats) && {
            let all = formats_of(registry@[device_id@].input_configs@) + formats_of(
                registry@[device_id@].output_configs@,
            );
            &&& formats@ == dedup_scan(Seq::<SampleFormat>::empty(), all)
            &&& formats@.no_duplicates()
            &&& forall|f: SampleFormat| formats@.contains(f) <==> all.contains(f)
        }),
{
    match registry.devices.get(device_id) {
        None => Err(AudioError::DeviceNotFound),
        Some(caps) => {
            let mut formats: Vec<SampleFormat> = Vec::new();
            add_formats(&mut formats, &caps.input_configs);
            add_formats(&mut formats, &caps.output_configs);
            proof {
                let fin = formats_of(caps.input_configs@);
                let fout = formats_of(caps.output_configs@);
                lemma_dedup_scan_concat(Seq::<SampleFormat>::empty(), fin, fout);
                lemma_dedup_scan_no_duplicates(Seq::<SampleFormat>::empty(), fin + fout);
                assert forall|f: SampleFormat|
                    formats@.contains(f) <==> (fin + fout).contains(f) by {
                    lemma_dedup_scan_contains(Seq::<SampleFormat>::empty(), fin + fout, f);
                }
            }
            Ok(formats)
        },
    }
}

proof fn lemma_dedup_scan_concat(
    acc: Seq<SampleFormat>,
    s: Seq<SampleFormat>,
    t: Seq<SampleFormat>,
)
    ensures
        dedup_scan(dedup_scan(acc, s), t) == dedup_scan(acc, s + t),
    decreases t.len(),
{
    if t.len() == 0 {
        assert(s + t =~= s);
    } else {
        lemma_dedup_scan_concat(acc, s, t.drop_last());
        assert((s + t).drop_last() =~= s + t.drop_last());
        assert((s + t).last() == t.last());
    }
}

/// Every sample-rate interval boundary appearing in a sequence of capability
/// ranges.
pub open spec fn rate_bounds_of(ranges: Seq<ConfigRange>) -> Set<u32>
    decreases ranges.len(),
{
    if ranges.len() == 0 {
        Set::empty()
    } else {
        rate_bounds_of(ranges.drop_last()).insert(ranges.last().min_sample_rate).insert(
            ranges.last().max_sample_rate,
        )
    }
}

/// A sequence of rates in strictly ascending order.
pub open spec fn strictly_increasing(s: Seq<u32>) -> bool {
    forall|i: int, j: int| 0 <= i < j < s.len() ==> s[i] < s[j]
}

proof fn lemma_insert_to_set(s: Seq<u32>, i: int, v: u32)
    requires
        0 <= i <= s.len(),
    ensures
        s.insert(i, v).to_set() == s.to_set().insert(v),
{
    let t = s.insert(i, v);
    s.insert_ensures(i, v);
    assert forall|a: u32| t.to_set().contains(a) implies s.to_set().insert(v).contains(a) by {
        let j = choose|j: int| 0 <= j < t.len() && t[j] == a;
        if j < i {
            assert(s[j] == a);
            assert(s.contains(a));
        } else if j > i {
            assert(t[(j - 1) + 1] == s[j - 1]);
            assert(s.contains(a)) by {
                assert(s[j - 1] == a);
            }
        }
    };
    assert forall|a: u32| s.to_set().insert(v).contains(a) implies t.to_set().contains(a) by {
        if a == v {
            assert(t.contains(a)) by {
                assert(t[i] == a);
            }
        } else {
            let j = choose|j: int| 0 <= j < s.len() && s[j] == a;
            if j < i {
                assert(t.contains(a)) by {
                    assert(t[j] == a);
                }
            } else {
                assert(t.contains(a)) by {
                    assert(t[j + 1] == a);
                }
            }
        }
    };
    assert(t.to_set() =~= s.to_set().insert(v));
}

/// Inserts a rate into an ascending, duplicate-free sequence, keeping it so.
fn insert_rate(rates: &mut Vec<u32>, rate: u32)
    requires
        strictly_increasing(old(rates)@),
    ensures
        strictly_increasing(final(rates)@),
        final(rates)@.to_set() == old(rates)@.to_set().insert(rate),
{
    let mut i: usize = 0;
    while i < rates.len() && rates[i] < rate
        invariant
            i <= rates.len(),
            rates@ == old(rates)@,
            forall|k: int| 0 <= k < i ==> rates@[k] < rate,
        decreases rates.len() - i,
    {
        i = i + 1;
    }
    if i < rates.len() && rates[i] == rate {
        proof {
            assert(rates@.contains(rate)) by {
                assert(rates@[i as int] == rate);
            }
            assert(rates@.to_set() =~= old(rates)@.to_set().insert(rate));
        }
        return ;
    }
    proof {
        lemma_insert_to_set(rates@, i as int, rate);
        rates@.insert_ensures(i as int, rate);
        assert(forall|k: int| i <= k < rates@.len() ==> rates@[k] > rate);
    }
    rates.insert(i, rate);
}

/// Collects every interval boundary of `ranges` into `rates`, keeping the
/// sequence strictly ascending.
fn add_rates(rates: &mut Vec<u32>, ranges: &Vec<ConfigRange>)
    requires
        strictly_increasing(old(rates)@),
    ensures
        strictly_increasing(final(rates)@),
        final(rates)@.to_set() == old(rates)@.to_set().union(rate_bounds_of(ranges@)),
{
    let ghost r0 = rates@;
    let mut i: usize = 0;
    while i < ranges.len()
        invariant
            i <= ranges.len(),
            strictly_increasing(rates@),
            rates@.to_set() == r0.to_set().union(rate_bounds_of(ranges@.take(i as int))),
        decreases ranges.len() - i,
    {
        proof {
            assert(ranges@.take(i + 1).drop_last() =~= ranges@.take(i as int));
            assert(ranges@.take(i + 1).last() == ranges@[i as int]);
        }
        insert_rate(rates, ranges[i].min_sample_rate);
        insert_rate(rates, ranges[i].max_sample_rate);
        proof {
            assert(rates@.to_set() =~= r0.to_set().union(
                rate_bounds_of(ranges@.take(i + 1)),
            ));
        }
        i = i + 1;
    }
    proof {
        assert(ranges@.take(ranges@.len() as int) =~= ranges@);
    }
}

/// Every sample-rate interval boundary the device reports in either
/// direction, strictly ascending and duplicate-free, or `DeviceNotFound` for
/// an unknown id.
pub fn get_supported_sample_rates(registry: &DeviceRegistry, device_id: &str) -> (result: Result<
    Vec<u32>,
    AudioError,
>)
    ensures
        !registry@.contains_key(device_id@) ==> result matches Err(AudioError::DeviceNotFound),
        registry@.contains_key(device_id@) ==> (result matches Ok(rates) && {
            &&& strictly_increasing(rates@)
            &&& rates@.no_duplicates()
            &&& rates@.to_set() == rate_bounds_of(registry@[device_id@].input_configs@).union(
                rate_bounds_of(registry@[device_id@].output_configs@),
            )
        }),
{
    match registry.devices.get(device_id) {
        None => Err(AudioError::DeviceNotFound),
        Some(caps) => {
            let mut rates: Vec<u32> = Vec::new();
            add_rates(&mut rates, &caps.input_configs);
            add_rates(&mut rates, &caps.output_configs);
            proof {
                assert(rates@.to_set() =~= rate_bounds_of(caps.input_configs@).union(
                    rate_bounds_of(caps.output_configs@),
                ));
                assert(rates@.no_duplicates()) by {
                    assert(forall|i: int, j: int|
                        0 <= i < rates@.len() && 0 <= j < rates@.len() && i != j ==> rates@[i]
                            != rates@[j]);
                }
            }
            Ok(rates)
        },
    }
}

/// The largest channel count a sequence of capability ranges reports, with
/// `acc` as the count already seen.
pub open spec fn max_channels_scan(acc: u16, ranges: Seq<ConfigRange>) -> u16
    decreases ranges.len(),
{
    if ranges.len() == 0 {
        acc
    } else {
        let rest = max_channels_scan(acc, ranges.drop_last());
        if ranges.last().channels > rest {
            ranges.last().channels
        } else {
            rest
        }
    }
}

/// Folds the channel counts of `ranges` into a running maximum.
fn scan_max_channels(acc: u16, ranges: &Vec<ConfigRange>) -> (m: u16)
    ensures
        m == max_channels_scan(acc, ranges@),
{
    let mut m = acc;
    let mut i: usize = 0;
    while i < ranges.len()
        invariant
            i <= ranges.len(),
            m == max_channels_scan(acc, ranges@.take(i as int)),
        decreases ranges.len() - i,
    {
        proof {
            assert(ranges@.take(i + 1).drop_last() =~= ranges@.take(i as int));
            assert(ranges@.take(i + 1).last() == ranges@[i as int]);
        }
        if ranges[i].channels > m {
            m = ranges[i].channels;
        }
        i = i + 1;
    }
    proof {
        assert(ranges@.take(ranges@.len() as int) =~= ranges@);
    }
    m
}

/// The largest channel count the device reports in either direction, zero
/// when it reports no ranges at all, or `DeviceNotFound` for an unknown id.
pub fn get_max_channels(registry: &DeviceRegistry, device_id: &str) -> (result: Result<
    u16,
    AudioError,
>)
    ensures
        !registry@.contains_key(device_id@) ==> result matches Err(AudioError::DeviceNotFound),
        registry@.contains_key(device_id@) ==> (result matches Ok(m) && m == max_channels_scan(
            max_channels_scan(0u16, registry@[device_id@].input_configs@),
            registry@[device_id@].output_configs@,
        )),
{
    match registry.devices.get(device_id) {
        None => Err(AudioError::DeviceNotFound),
        Some(caps) => {
            let m = scan_max_channels(0u16, &caps.input_configs);
            let m = scan_max_channels(m, &caps.output_configs);
            Ok(m)
        },
    }
}

/// A device as the provider enumerated it: its name and its reported
/// capabilities.
pub struct DiscoveredDevice {
    pub name: String,
    pub caps: DeviceCaps,
}

/// The registry after every discovered device is inserted in order; a later
/// entry with the same name overwrites an earlier one.
pub open spec fn insert_all(
    m: Map<Seq<char>, DeviceCaps>,
    devs: Seq<DiscoveredDevice>,
) -> Map<Seq<char>, DeviceCaps>
    decreases devs.len(),
{
    if devs.len() == 0 {
        m
    } else {
        insert_all(m, devs.drop_last()).insert(devs.last().name@, devs.last().caps)
    }
}

/// Whether a device name matches the current default for a direction.
pub open spec fn spec_is_default(name: Seq<char>, default_name: Option<&String>) -> bool {
    match default_name {
        Some(d) => d@ == name,
        None => false,
    }
}

/// The hosts the provider offers, each host's name serving as its id.
pub fn get_hosts(host_names: Vec<String>) -> (hosts: Vec<HostInfo>)
    ensures
        hosts@.len() == host_names@.len(),
        forall|i: int|
            0 <= i < hosts@.len() ==> #[trigger] hosts@[i].id@ == host_names@[i]@ && hosts@[i].name@
                == host_names@[i]@,
{
    let mut hosts: Vec<HostInfo> = Vec::new();
    let mut i: usize = 0;
    while i < host_names.len()
        invariant
            i <= host_names.len(),
            hosts@.len() == i,
            forall|k: int|
                0 <= k < i ==> #[trigger] hosts@[k].id@ == host_names@[k]@ && hosts@[k].name@
                    == host_names@[k]@,
        decreases host_names.len() - i,
    {
        let id = host_names[i].clone();
        let name = host_names[i].clone();
        hosts.push(HostInfo { id, name });
        i = i + 1;
    }
    hosts
}

/// Registers every enumerated device of a host, overwriting by id, and
/// describes each to the host caller, with the default flags computed
/// against the host's current default device names.
pub fn get_devices(
    registry: &mut DeviceRegistry,
    host_id: &str,
    discovered: Vec<DiscoveredDevice>,
    default_input: Option<&String>,
    default_output: Option<&String>,
) -> (infos: Vec<DeviceInfo>)
    ensures
        final(registry)@ == insert_all(old(registry)@, discovered@),
        infos@.len() == discovered@.len(),
        forall|i: int|
            0 <= i < infos@.len() ==> {
                &&& #[trigger] infos@[i].name@ == discovered@[i].name@
                &&& infos@[i].device_id@ == discovered@[i].name@
                &&& infos@[i].host_id@ == host_id@
                &&& infos@[i].is_default_input == spec_is_default(
                    discovered@[i].name@,
                    default_input,
                )
                &&& infos@[i].is_default_output == spec_is_default(
                    discovered@[i].name@,
                    default_output,
                )
            },
{
    let ghost orig = discovered@;
    let mut remaining = discovered;
    let mut infos: Vec<DeviceInfo> = Vec::new();
    while remaining.len() > 0
        invariant
            infos@.len() + remaining@.len() == orig.len(),
            remaining@ == orig.skip(infos@.len() as int),
            registry@ == insert_all(old(registry)@, orig.take(infos@.len() as int)),
            forall|k: int|
                0 <= k < infos@.len() ==> {
                    &&& #[trigger] infos@[k].name@ == orig[k].name@
                    &&& infos@[k].device_id@ == orig[k].name@
                    &&& infos@[k].host_id@ == host_id@
                    &&& infos@[k].is_default_input == spec_is_default(orig[k].name@, default_input)
                    &&& infos@[k].is_default_output == spec_is_default(
                        orig[k].name@,
                        default_output,
                    )
                },
        decreases remaining.len(),
    {
        let ghost k = infos@.len() as int;
        let dev = remaining.remove(0);
        proof {
            assert(dev == orig[k]) by {
                assert(orig.skip(k)[0] == orig[k]);
            }
            assert(remaining@ =~= orig.skip(k + 1));
            assert(orig.take(k + 1).drop_last() =~= orig.take(k));
            assert(orig.take(k + 1).last() == orig[k]);
        }
        let is_default_input_flag = match default_input {
            Some(d) => dev.name.eq(d),
            None => false,
        };
        let is_default_output_flag = match default_output {
            Some(d) => dev.name.eq(d),
            None => false,
        };
        let name = dev.name.clone();
        let device_id = dev.name.clone();
        registry.insert_device(dev.name, dev.caps);
        infos.push(
            DeviceInfo {
                name,
                device_id,
                host_id: host_id.to_owned(),
                is_default_input: is_default_input_flag,
                is_default_output: is_default_output_flag,
            },
        );
    }
    proof {
        assert(orig.take(orig.len() as int) =~= orig);
    }
    infos
}

/// Registers the host's current default device for a direction and
/// describes it; fails when the host reports none. The default flags are
/// computed against the host's current default names for both directions —
/// one device is often the default for both — exactly as enumeration
/// computes them.
pub fn get_default_device(
    registry: &mut DeviceRegistry,
    is_input: bool,
    device: Option<DiscoveredDevice>,
    host_id: &str,
    default_input: Option<&String>,
    default_output: Option<&String>,
) -> (result: Result<DeviceInfo, AudioError>)
    ensures
        device is None ==> (result matches Err(AudioError::DeviceNotFound) && final(registry)@
            == old(registry)@),
        device matches Some(dev) ==> (result matches Ok(info) && {
            &&& final(registry)@ == old(registry)@.insert(dev.name@, dev.caps)
            &&& info.name@ == dev.name@
            &&& info.device_id@ == dev.name@
            &&& info.host_id@ == host_id@
            &&& info.is_default_input == spec_is_default(dev.name@, default_input)
            &&& info.is_default_output == spec_is_default(dev.name@, default_output)
        }),
{
    match device {
        None => Err(AudioError::DeviceNotFound),
        Some(dev) => {
            let is_default_input_flag = match default_input {
                Some(d) => dev.name.eq(d),
                None => false,
            };
            let is_default_output_flag = match default_output {
                Some(d) => dev.name.eq(d),
                None => false,
            };
            let name = dev.name.clone();
            let device_id = dev.name.clone();
            registry.insert_device(dev.name, dev.caps);
            Ok(
                DeviceInfo {
                    name,
                    device_id,
                    host_id: host_id.to_owned(),
                    is_default_input: is_default_input_flag,
                    is_default_output: is_default_output_flag,
                },
            )
        },
    }
}

/// The default configuration a device reports for a direction.
pub open spec fn spec_default_config(caps: DeviceCaps, is_input: bool) -> Result<
    DeviceConfig,
    AudioError,
> {
    let chosen = if is_input {
        caps.default_input_config
    } else {
        caps.default_output_config
    };
    match chosen {
        Some(config) => Ok(config),
        None => Err(AudioError::ProviderError),
    }
}

/// The default configuration of the registered device, or of the host's
/// current default device when the id is unknown; fails with
/// `DeviceNotFound` when neither resolves, and with `ProviderError` when the
/// device reports no default for the direction.
pub fn get_default_config(
    registry: &DeviceRegistry,
    device_id: &str,
    is_input: bool,
    fallback: Option<&DeviceCaps>,
) -> (result: Result<DeviceConfig, AudioError>)
    ensures
        registry@.contains_key(device_id@) ==> result == spec_default_config(
            registry@[device_id@],
            is_input,
        ),
        !registry@.contains_key(device_id@) ==> (fallback matches Some(caps) ==> result
            == spec_default_config(*caps, is_input)),
        !registry@.contains_key(device_id@) && fallback is None ==> result matches Err(
            AudioError::DeviceNotFound,
        ),
{
    let caps: &DeviceCaps = match registry.devices.get(device_id) {
        Some(c) => c,
        None => {
            match fallback {
                Some(c) => c,
                None => {
                    return Err(AudioError::DeviceNotFound);
                },
            }
        },
    };
    let chosen = if is_input {
        &caps.default_input_config
    } else {
        &caps.default_output_config
    };
    match chosen {
        Some(config) => Ok(*config),
        None => Err(AudioError::ProviderError),
    }
}

} // verus!
