//! The device inventory: descriptors derived from the project, one entry
//! per real channel, and the last-value cells behind each device's
//! observable streams. The event task applies update batches here; the
//! writes it gets back are what subscribers observe.

use crate::dev::{brightness_of, state_of, DeviceKind, DeviceState};
use crate::proj::ProjectItem;
use crate::text::str_eq;
use crate::update::{ItemUpdateValue, ItemUpdateValueView};
use vstd::prelude::*;

verus! {

/// A device derived from a project item: its display name, its item
/// number, and its kind.
#[derive(Debug, PartialEq, Eq)]
pub struct DeviceDesc {
    pub name: String,
    pub number: u32,
    pub kind: DeviceKind,
}

impl DeviceDesc {
    /// An equal copy.
    pub fn duplicate(&self) -> (r: DeviceDesc)
        ensures
            r == *self,
    {
        DeviceDesc { name: self.name.clone(), number: self.number, kind: self.kind }
    }
}

/// The device a project item describes: a programmable binary switch, any
/// dimmer, or any blinds; everything else is no device.
pub open spec fn desc_of_item(item: ProjectItem) -> Option<DeviceDesc> {
    match item {
        ProjectItem::Binaer(b) => if b.programmable {
            Some(DeviceDesc { name: b.name, number: b.number, kind: DeviceKind::Binary })
        } else {
            None
        },
        ProjectItem::Dimmer(d) => Some(
            DeviceDesc { name: d.name, number: d.number, kind: DeviceKind::Dimmer },
        ),
        ProjectItem::Jalousie(j) => Some(
            DeviceDesc { name: j.name, number: j.number, kind: DeviceKind::Blinds },
        ),
        _ => None,
    }
}

impl DeviceDesc {
    /// Derive a device from a project item, handing the item back when it
    /// describes none.
    pub fn from_item(item: ProjectItem) -> (r: Result<DeviceDesc, ProjectItem>)
        ensures
            match r {
                Ok(d) => desc_of_item(item) == Some(d),
                Err(it) => desc_of_item(item) is None && it == item,
            },
    {
        match item {
            ProjectItem::Binaer(b) => if b.programmable {
                Ok(DeviceDesc { name: b.name, number: b.number, kind: DeviceKind::Binary })
            } else {
                Err(ProjectItem::Binaer(b))
            },
            ProjectItem::Dimmer(d) => Ok(
                DeviceDesc { name: d.name, number: d.number, kind: DeviceKind::Dimmer },
            ),
            ProjectItem::Jalousie(j) => Ok(
                DeviceDesc { name: j.name, number: j.number, kind: DeviceKind::Blinds },
            ),
            other => Err(other),
        }
    }
}

/// One write to a device's observable streams: the channel written, and
/// the state and brightness values pushed, where present.
#[derive(Debug, Clone, Copy, PartialEq, Eq, Structural)]
pub struct StreamWrite {
    pub channel: u32,
    pub state: Option<DeviceState>,
    pub brightness: Option<u8>,
}

/// One inventory entry: the descriptor, the immutable channel index, and
/// the last value written to each stream.
#[derive(Debug, PartialEq, Eq)]
pub struct InventoryEntry {
    pub desc: DeviceDesc,
    pub channel: u32,
    pub state: Option<DeviceState>,
    pub brightness: Option<u8>,
}

/// The inventory: one entry per real device channel.
#[derive(Debug, PartialEq, Eq)]
pub struct Inventory {
    pub entries: Vec<InventoryEntry>,
}

impl Inventory {
    /// Channel indices are unique across entries.
    pub open spec fn wf(self) -> bool {
        forall|i: int, j: int|
            0 <= i < j < self.entries@.len() ==> self.entries@[i].channel
                != self.entries@[j].channel
    }
}

/// The entry built from one project item at one channel slot.
pub open spec fn entry_of(item: ProjectItem, idx: u32) -> Option<InventoryEntry> {
    match desc_of_item(item) {
        Some(d) => Some(InventoryEntry { desc: d, channel: idx, state: None, brightness: None }),
        None => None,
    }
}

/// The entries built from the first `n` project items: a slot is kept when
/// its channel type code is `1` and its item describes a device.
pub open spec fn built_entries(items: Seq<ProjectItem>, types: Seq<u32>, n: int) -> Seq<
    InventoryEntry,
>
    decreases n,
{
    if n <= 0 {
        Seq::empty()
    } else {
        let pre = built_entries(items, types, n - 1);
        if n - 1 < types.len() && types[n - 1] == 1 {
            match entry_of(items[n - 1], (n - 1) as u32) {
                Some(e) => pre + seq![e],
                None => pre,
            }
        } else {
            pre
        }
    }
}

/// Every channel of the first `n` built entries is below `n`.
proof fn lemma_built_channels_below(items: Seq<ProjectItem>, types: Seq<u32>, n: int)
    requires
        0 <= n <= items.len(),
        n <= 0xffff_ffff,
    ensures
        forall|k: int|
            0 <= k < built_entries(items, types, n).len() ==> (#[trigger] built_entries(
                items,
                types,
                n,
            )[k]).channel < n,
    decreases n,
{
    if n > 0 {
        lemma_built_channels_below(items, types, n - 1);
    }
}

/// The built entries have pairwise distinct channels.
proof fn lemma_built_distinct(items: Seq<ProjectItem>, types: Seq<u32>, n: int)
    requires
        0 <= n <= items.len(),
        n <= 0xffff_ffff,
    ensures
        forall|i: int, j: int|
            0 <= i < j < built_entries(items, types, n).len() ==> (#[trigger] built_entries(
                items,
                types,
                n,
            )[i]).channel != (#[trigger] built_entries(items, types, n)[j]).channel,
    decreases n,
{
    if n > 0 {
        lemma_built_distinct(items, types, n - 1);
        lemma_built_channels_below(items, types, n - 1);
    }
}

impl Inventory {
    /// Build the inventory from the project items and the parallel vector
    /// of channel type codes.
    pub fn build(items: Vec<ProjectItem>, channel_types: &Vec<u32>) -> (r: Inventory)
        requires
            items@.len() <= 0xffff_ffff,
        ensures
            r.entries@ == built_entries(items@, channel_types@, items@.len() as int),
            r.wf(),
    {
        let ghost gitems = items@;
        let n = items.len();
        let mut entries: Vec<InventoryEntry> = Vec::new();
        let mut i: usize = 0;
        // consume the items front to back; `rest` holds the tail not yet seen
        let mut rest = items;
        proof {
            assert(built_entries(gitems, channel_types@, 0) =~= Seq::<InventoryEntry>::empty());
        }
        while i < n
            invariant
                i <= n,
                n == gitems.len(),
                n <= 0xffff_ffff,
                rest@ == gitems.skip(i as int),
                entries@ == built_entries(gitems, channel_types@, i as int),
            decreases n - i,
        {
            let keep = if i < channel_types.len() {
                *vstd::slice::slice_index_get(channel_types.as_slice(), i) == 1u32
            } else {
                false
            };
            proof {
                assert(gitems.skip(i as int)[0] == gitems[i as int]);
                assert(gitems.skip(i as int).drop_first() =~= gitems.skip(i as int + 1));
            }
            let item = rest.remove(0);
            if keep {
                match DeviceDesc::from_item(item) {
                    Ok(d) => {
                        let e = InventoryEntry {
                            desc: d,
                            channel: i as u32,
                            state: None,
                            brightness: None,
                        };
                        let ghost before = entries@;
                        entries.push(e);
                        proof {
                            assert(entries@ =~= built_entries(
                                gitems,
                                channel_types@,
                                i as int + 1,
                            ));
                        }
                    },
                    Err(_) => {
                        proof {
                            assert(entries@ =~= built_entries(
                                gitems,
                                channel_types@,
                                i as int + 1,
                            ));
                        }
                    },
                }
            } else {
                proof {
                    assert(entries@ =~= built_entries(gitems, channel_types@, i as int + 1));
                }
            }
            i = i + 1;
        }
        let r = Inventory { entries };
        proof {
            lemma_built_distinct(gitems, channel_types@, n as int);
        }
        r
    }

    /// The channel indices of all entries, in order: what the event task
    /// subscribes for.
    pub fn channels(&self) -> (r: Vec<u32>)
        ensures
            r@ == Seq::new(self.entries@.len(), |i: int| self.entries@[i].channel),
    {
        let mut r: Vec<u32> = Vec::new();
        let mut i: usize = 0;
        while i < self.entries.len()
            invariant
                i <= self.entries@.len(),
                r@ == Seq::new(i as nat, |k: int| self.entries@[k].channel),
            decreases self.entries@.len() - i,
        {
            r.push(self.entries[i].channel);
            proof {
                assert(r@ =~= Seq::new(i as nat + 1, |k: int| self.entries@[k].channel));
            }
            i = i + 1;
        }
        proof {
            assert(r@ =~= Seq::new(self.entries@.len(), |k: int| self.entries@[k].channel));
        }
        r
    }
}

/// A dimmer's brightness as pushed by the gateway: a decimal brightness
/// string, or the sentinel `-1` meaning brightness zero.
pub open spec fn update_brightness_of(value: Seq<char>) -> Option<u8> {
    match brightness_of(value) {
        Some(b) => Some(b),
        None => if value == "-1"@ {
            Some(0u8)
        } else {
            None
        },
    }
}

/// An entry after one update: only the entry whose channel equals the
/// update's number changes, and only the fields whose strings parse.
pub open spec fn apply_update_entry(e: InventoryEntry, u: ItemUpdateValueView) -> InventoryEntry {
    if e.channel != u.number {
        e
    } else {
        match e.desc.kind {
            DeviceKind::Binary => InventoryEntry {
                desc: e.desc,
                channel: e.channel,
                state: match state_of(u.state) {
                    Some(st) => Some(st),
                    None => e.state,
                },
                brightness: e.brightness,
            },
            DeviceKind::Dimmer => InventoryEntry {
                desc: e.desc,
                channel: e.channel,
                state: match state_of(u.state) {
                    Some(st) => Some(st),
                    None => e.state,
                },
                brightness: match update_brightness_of(u.value) {
                    Some(b) => Some(b),
                    None => e.brightness,
                },
            },
            DeviceKind::Blinds => e,
        }
    }
}

/// The write one update causes on one entry, if any.
pub open spec fn write_of(e: InventoryEntry, u: ItemUpdateValueView) -> Option<StreamWrite> {
    if e.channel != u.number {
        None
    } else {
        match e.desc.kind {
            DeviceKind::Binary => match state_of(u.state) {
                Some(st) => Some(
                    StreamWrite { channel: e.channel, state: Some(st), brightness: None },
                ),
                None => None,
            },
            DeviceKind::Dimmer => {
                let st = state_of(u.state);
                let b = update_brightness_of(u.value);
                if st is None && b is None {
                    None
                } else {
                    Some(StreamWrite { channel: e.channel, state: st, brightness: b })
                }
            },
            DeviceKind::Blinds => None,
        }
    }
}

/// All entries after one update.
pub open spec fn apply_update(entries: Seq<InventoryEntry>, u: ItemUpdateValueView) -> Seq<
    InventoryEntry,
> {
    Seq::new(entries.len(), |i: int| apply_update_entry(entries[i], u))
}

/// The writes one update causes, in entry order.
pub open spec fn update_write(entries: Seq<InventoryEntry>, u: ItemUpdateValueView) -> Seq<
    StreamWrite,
>
    decreases entries.len(),
{
    if entries.len() == 0 {
        Seq::empty()
    } else {
        update_write(entries.drop_last(), u) + match write_of(entries.last(), u) {
            Some(w) => seq![w],
            None => Seq::empty(),
        }
    }
}

/// All entries after a whole batch, applied in order.
pub open spec fn apply_updates_spec(entries: Seq<InventoryEntry>, us: Seq<ItemUpdateValueView>)
    -> Seq<InventoryEntry>
    decreases us.len(),
{
    if us.len() == 0 {
        entries
    } else {
        apply_update(apply_updates_spec(entries, us.drop_last()), us.last())
    }
}

/// The writes a whole batch causes, in order.
pub open spec fn batch_writes(entries: Seq<InventoryEntry>, us: Seq<ItemUpdateValueView>) -> Seq<
    StreamWrite,
>
    decreases us.len(),
{
    if us.len() == 0 {
        Seq::empty()
    } else {
        batch_writes(entries, us.drop_last()) + update_write(
            apply_updates_spec(entries, us.drop_last()),
            us.last(),
        )
    }
}

/// The views of a batch of update entries.
pub open spec fn update_views(vs: Seq<ItemUpdateValue>) -> Seq<ItemUpdateValueView> {
    Seq::new(vs.len(), |i: int| vs[i]@)
}

impl Inventory {
    /// Apply one gateway update batch: each entry whose channel matches an
    /// update's number takes the parsed state, and for dimmers the parsed
    /// brightness (the string `-1` counting as zero); everything else is
    /// untouched. Returns the stream writes in order.
    pub fn apply_update_batch(&mut self, values: &Vec<ItemUpdateValue>) -> (writes: Vec<
        StreamWrite,
    >)
        ensures
            final(self).entries@ == apply_updates_spec(
                old(self).entries@,
                update_views(values@),
            ),
            writes@ == batch_writes(old(self).entries@, update_views(values@)),
            old(self).wf() ==> final(self).wf(),
    {
        let ghost orig = self.entries@;
        let ghost us = update_views(values@);
        let mut writes: Vec<StreamWrite> = Vec::new();
        let mut k: usize = 0;
        proof {
            assert(update_views(values@.take(0)) =~= Seq::<ItemUpdateValueView>::empty());
            assert(us.take(0) =~= Seq::<ItemUpdateValueView>::empty());
        }
        while k < values.len()
            invariant
                k <= values@.len(),
                us == update_views(values@),
                us.len() == values@.len(),
                self.entries@ == apply_updates_spec(orig, us.take(k as int)),
                writes@ == batch_writes(orig, us.take(k as int)),
            decreases values@.len() - k,
        {
            proof {
                assert(us.take(k + 1).drop_last() =~= us.take(k as int));
                assert(us.take(k + 1).last() == us[k as int]);
                assert(us[k as int] == values@[k as int]@);
            }
            let ghost before = self.entries@;
            let w = self.apply_one_update(&values[k]);
            proof {
                assert(self.entries@ == apply_update(before, us[k as int]));
                assert(self.entries@ =~= apply_updates_spec(orig, us.take(k + 1)));
                assert(writes@ + w@ =~= batch_writes(orig, us.take(k + 1)));
            }
            let mut w = w;
            writes.append(&mut w);
            k = k + 1;
        }
        proof {
            assert(us.take(us.len() as int) =~= us);
            if old(self).wf() {
                lemma_apply_updates_channels(orig, us);
                assert forall|i: int, j: int|
                    0 <= i < j < self.entries@.len() implies self.entries@[i].channel
                    != self.entries@[j].channel by {
                    assert(self.entries@[i].channel == orig[i].channel);
                    assert(self.entries@[j].channel == orig[j].channel);
                }
            }
        }
        writes
    }

    /// Apply one update entry to every matching inventory entry.
    fn apply_one_update(&mut self, u: &ItemUpdateValue) -> (writes: Vec<StreamWrite>)
        ensures
            final(self).entries@ == apply_update(old(self).entries@, u@),
            writes@ == update_write(old(self).entries@, u@),
    {
        let ghost orig = self.entries@;
        let mut writes: Vec<StreamWrite> = Vec::new();
        let mut updated: Vec<InventoryEntry> = Vec::new();
        let mut j: usize = 0;
        let n = self.entries.len();
        while j < n
            invariant
                j <= n,
                n == orig.len(),
                self.entries@ == orig,
                updated@.len() == j,
                forall|i: int|
                    0 <= i < j ==> updated@[i] == apply_update_entry(orig[i], u@),
                writes@ == update_write(orig.take(j as int), u@),
            decreases n - j,
        {
            proof {
                assert(orig.take(j + 1).drop_last() =~= orig.take(j as int));
                assert(orig.take(j + 1).last() == orig[j as int]);
            }
            let e = &self.entries[j];
            if e.channel == u.number {
                match e.desc.kind {
                    DeviceKind::Binary => {
                        match DeviceState::from_str(u.state.as_str()) {
                            Ok(st) => {
                                updated.push(
                                    InventoryEntry {
                                        desc: e.desc.duplicate(),
                                        channel: e.channel,
                                        state: Some(st),
                                        brightness: e.brightness,
                                    },
                                );
                                writes.push(
                                    StreamWrite {
                                        channel: e.channel,
                                        state: Some(st),
                                        brightness: None,
                                    },
                                );
                            },
                            Err(_) => {
                                updated.push(
                                    InventoryEntry {
                                        desc: e.desc.duplicate(),
                                        channel: e.channel,
                                        state: e.state,
                                        brightness: e.brightness,
                                    },
                                );
                            },
                        }
                    },
                    DeviceKind::Dimmer => {
                        let st = match DeviceState::from_str(u.state.as_str()) {
                            Ok(st) => Some(st),
                            Err(_) => None,
                        };
                        let br = match crate::dev::DeviceBrightness::from_str(u.value.as_str()) {
                            Ok(b) => Some(b.get()),
                            Err(_) => if str_eq(u.value.as_str(), "-1") {
                                Some(0u8)
                            } else {
                                None
                            },
                        };
                        updated.push(
                            InventoryEntry {
                                desc: e.desc.duplicate(),
                                channel: e.channel,
                                state: match st {
                                    Some(s) => Some(s),
                                    None => e.state,
                                },
                                brightness: match br {
                                    Some(b) => Some(b),
                                    None => e.brightness,
                                },
                            },
                        );
                        if st.is_some() || br.is_some() {
                            writes.push(
                                StreamWrite { channel: e.channel, state: st, brightness: br },
                            );
                        }
                    },
                    DeviceKind::Blinds => {
                        updated.push(
                            InventoryEntry {
                                desc: e.desc.duplicate(),
                                channel: e.channel,
                                state: e.state,
                                brightness: e.brightness,
                            },
                        );
                    },
                }
            } else {
                updated.push(
                    InventoryEntry {
                        desc: e.desc.duplicate(),
                        channel: e.channel,
                        state: e.state,
                        brightness: e.brightness,
                    },
                );
            }
            j = j + 1;
        }
        proof {
            assert(orig.take(n as int) =~= orig);
            assert(updated@ =~= apply_update(orig, u@));
        }
        self.entries = updated;
        writes
    }
}

/// Applying updates never changes an entry's channel or kind.
proof fn lemma_apply_updates_channels(entries: Seq<InventoryEntry>, us: Seq<ItemUpdateValueView>)
    ensures
        apply_updates_spec(entries, us).len() == entries.len(),
        forall|i: int|
            0 <= i < entries.len() ==> (#[trigger] apply_updates_spec(entries, us)[i]).channel
                == entries[i].channel && apply_updates_spec(entries, us)[i].desc.kind
                == entries[i].desc.kind,
    decreases us.len(),
{
    if us.len() > 0 {
        lemma_apply_updates_channels(entries, us.drop_last());
    }
}

/// Dispatcher correctness: an update whose number no entry carries changes
/// nothing and writes nothing; one with a known number writes only that
/// channel's streams, and every other entry is untouched.
pub proof fn lemma_dispatcher_correctness(entries: Seq<InventoryEntry>, u: ItemUpdateValueView)
    ensures
        !(exists|k: int| 0 <= k < entries.len() && (#[trigger] entries[k]).channel == u.number)
            ==> (apply_update(entries, u) =~= entries && update_write(entries, u)
            =~= Seq::<StreamWrite>::empty()),
        forall|k: int|
            0 <= k < entries.len() && (#[trigger] entries[k]).channel != u.number ==> apply_update(
                entries,
                u,
            )[k] == entries[k],
        forall|j: int|
            0 <= j < update_write(entries, u).len() ==> (#[trigger] update_write(entries, u)[j])
                .channel == u.number,
    decreases entries.len(),
{
    if entries.len() > 0 {
        lemma_dispatcher_correctness(entries.drop_last(), u);
        assert forall|k: int|
            0 <= k < entries.drop_last().len() && (#[trigger] entries.drop_last()[k]).channel
                == u.number implies exists|k2: int|
            0 <= k2 < entries.len() && (#[trigger] entries[k2]).channel == u.number by {
            assert(entries[k] == entries.drop_last()[k]);
        }
    }
}


/// The synthetic write one commanded `(number, state)` pair causes on one
/// entry: blinds carry no state stream.
pub open spec fn state_write_of(e: InventoryEntry, n: u32, st: DeviceState) -> Option<
    StreamWrite,
> {
    if e.channel == n && !(e.desc.kind is Blinds) {
        Some(StreamWrite { channel: e.channel, state: Some(st), brightness: None })
    } else {
        None
    }
}

/// An entry after one commanded pair.
pub open spec fn apply_state_entry(e: InventoryEntry, n: u32, st: DeviceState) -> InventoryEntry {
    if e.channel == n && !(e.desc.kind is Blinds) {
        InventoryEntry { desc: e.desc, channel: e.channel, state: Some(st), brightness: e.brightness }
    } else {
        e
    }
}

/// All entries after one commanded pair.
pub open spec fn apply_state(entries: Seq<InventoryEntry>, n: u32, st: DeviceState) -> Seq<
    InventoryEntry,
> {
    Seq::new(entries.len(), |i: int| apply_state_entry(entries[i], n, st))
}

/// The writes one commanded pair causes, in entry order.
pub open spec fn state_write(entries: Seq<InventoryEntry>, n: u32, st: DeviceState) -> Seq<
    StreamWrite,
>
    decreases entries.len(),
{
    if entries.len() == 0 {
        Seq::empty()
    } else {
        state_write(entries.drop_last(), n, st) + match state_write_of(entries.last(), n, st) {
            Some(w) => seq![w],
            None => Seq::empty(),
        }
    }
}

/// All entries after a batch of commanded pairs, applied in order.
pub open spec fn apply_states_spec(entries: Seq<InventoryEntry>, pairs: Seq<(u32, DeviceState)>)
    -> Seq<InventoryEntry>
    decreases pairs.len(),
{
    if pairs.len() == 0 {
        entries
    } else {
        apply_state(apply_states_spec(entries, pairs.drop_last()), pairs.last().0, pairs.last().1)
    }
}

/// The writes a batch of commanded pairs causes, in order.
pub open spec fn state_batch_writes(entries: Seq<InventoryEntry>, pairs: Seq<(u32, DeviceState)>)
    -> Seq<StreamWrite>
    decreases pairs.len(),
{
    if pairs.len() == 0 {
        Seq::empty()
    } else {
        state_batch_writes(entries, pairs.drop_last()) + state_write(
            apply_states_spec(entries, pairs.drop_last()),
            pairs.last().0,
            pairs.last().1,
        )
    }
}

impl Inventory {
    /// Apply one commanded pair to every matching entry.
    fn apply_one_state(&mut self, n: u32, st: DeviceState) -> (writes: Vec<StreamWrite>)
        ensures
            final(self).entries@ == apply_state(old(self).entries@, n, st),
            writes@ == state_write(old(self).entries@, n, st),
    {
        let ghost orig = self.entries@;
        let mut writes: Vec<StreamWrite> = Vec::new();
        let mut updated: Vec<InventoryEntry> = Vec::new();
        let mut j: usize = 0;
        let count = self.entries.len();
        while j < count
            invariant
                j <= count,
                count == orig.len(),
                self.entries@ == orig,
                updated@.len() == j,
                forall|i: int| 0 <= i < j ==> updated@[i] == apply_state_entry(orig[i], n, st),
                writes@ == state_write(orig.take(j as int), n, st),
            decreases count - j,
        {
            proof {
                assert(orig.take(j + 1).drop_last() =~= orig.take(j as int));
                assert(orig.take(j + 1).last() == orig[j as int]);
            }
            let e = &self.entries[j];
            let is_blinds = match e.desc.kind {
                DeviceKind::Blinds => true,
                _ => false,
            };
            if e.channel == n && !is_blinds {
                updated.push(
                    InventoryEntry {
                        desc: e.desc.duplicate(),
                        channel: e.channel,
                        state: Some(st),
                        brightness: e.brightness,
                    },
                );
                writes.push(StreamWrite { channel: e.channel, state: Some(st), brightness: None });
            } else {
                updated.push(
                    InventoryEntry {
                        desc: e.desc.duplicate(),
                        channel: e.channel,
                        state: e.state,
                        brightness: e.brightness,
                    },
                );
            }
            j = j + 1;
        }
        proof {
            assert(orig.take(count as int) =~= orig);
            assert(updated@ =~= apply_state(orig, n, st));
        }
        self.entries = updated;
        writes
    }

    /// Apply a batch of synthetic `(number, state)` pairs from a local
    /// `set_values` command, making the commanded transitions visible
    /// before the gateway echoes them. Brightness is not synthesized.
    pub fn apply_state_batch(&mut self, pairs: &Vec<(u32, DeviceState)>) -> (writes: Vec<
        StreamWrite,
    >)
        ensures
            final(self).entries@ == apply_states_spec(old(self).entries@, pairs@),
            writes@ == state_batch_writes(old(self).entries@, pairs@),
    {
        let ghost orig = self.entries@;
        let mut writes: Vec<StreamWrite> = Vec::new();
        let mut k: usize = 0;
        proof {
            assert(pairs@.take(0) =~= Seq::<(u32, DeviceState)>::empty());
        }
        while k < pairs.len()
            invariant
                k <= pairs@.len(),
                self.entries@ == apply_states_spec(orig, pairs@.take(k as int)),
                writes@ == state_batch_writes(orig, pairs@.take(k as int)),
            decreases pairs@.len() - k,
        {
            proof {
                assert(pairs@.take(k + 1).drop_last() =~= pairs@.take(k as int));
                assert(pairs@.take(k + 1).last() == pairs@[k as int]);
            }
            let (n, st) = pairs[k];
            let ghost before = self.entries@;
            let mut w = self.apply_one_state(n, st);
            proof {
                assert(self.entries@ =~= apply_states_spec(orig, pairs@.take(k + 1)));
                assert(writes@ + w@ =~= state_batch_writes(orig, pairs@.take(k + 1)));
            }
            writes.append(&mut w);
            k = k + 1;
        }
        proof {
            assert(pairs@.take(pairs@.len() as int) =~= pairs@);
        }
        writes
    }
}

/// Applying commanded pairs never changes an entry's channel or kind.
proof fn lemma_apply_states_channels(entries: Seq<InventoryEntry>, pairs: Seq<(u32, DeviceState)>)
    ensures
        apply_states_spec(entries, pairs).len() == entries.len(),
        forall|i: int|
            0 <= i < entries.len() ==> (#[trigger] apply_states_spec(entries, pairs)[i]).channel
                == entries[i].channel && apply_states_spec(entries, pairs)[i].desc.kind
                == entries[i].desc.kind,
    decreases pairs.len(),
{
    if pairs.len() > 0 {
        lemma_apply_states_channels(entries, pairs.drop_last());
    }
}

/// A commanded pair whose number some non-blinds entry carries always
/// causes a write of exactly that state on that channel.
proof fn lemma_state_write_contains(entries: Seq<InventoryEntry>, n: u32, st: DeviceState)
    requires
        exists|k: int|
            0 <= k < entries.len() && (#[trigger] entries[k]).channel == n && !(entries[k].desc.kind
                is Blinds),
    ensures
        state_write(entries, n, st).contains(
            StreamWrite { channel: n, state: Some(st), brightness: None },
        ),
    decreases entries.len(),
{
    let w = StreamWrite { channel: n, state: Some(st), brightness: None };
    let k = choose|k: int|
        0 <= k < entries.len() && (#[trigger] entries[k]).channel == n && !(entries[k].desc.kind
            is Blinds);
    if k == entries.len() - 1 {
        assert(state_write_of(entries.last(), n, st) == Some(w));
        let s = state_write(entries, n, st);
        assert(s.last() == w);
        assert(s.contains(w));
    } else {
        assert(entries.drop_last()[k] == entries[k]);
        lemma_state_write_contains(entries.drop_last(), n, st);
        let pre = state_write(entries.drop_last(), n, st);
        let i = choose|i: int| 0 <= i < pre.len() && pre[i] == w;
        assert(state_write(entries, n, st)[i] == w);
        assert(state_write(entries, n, st).contains(w));
    }
}

/// Set-values echo: after a batch of synthetic pairs, every pair whose
/// number is a known non-blinds channel has its commanded state among the
/// writes, so subscribers of that device's state stream observe it at
/// least once.
pub proof fn lemma_set_values_echo(
    entries: Seq<InventoryEntry>,
    pairs: Seq<(u32, DeviceState)>,
    i: int,
)
    requires
        0 <= i < pairs.len(),
        exists|k: int|
            0 <= k < entries.len() && (#[trigger] entries[k]).channel == pairs[i].0 && !(
            entries[k].desc.kind is Blinds),
    ensures
        state_batch_writes(entries, pairs).contains(
            StreamWrite { channel: pairs[i].0, state: Some(pairs[i].1), brightness: None },
        ),
    decreases pairs.len(),
{
    let w = StreamWrite { channel: pairs[i].0, state: Some(pairs[i].1), brightness: None };
    if i == pairs.len() - 1 {
        let mid = apply_states_spec(entries, pairs.drop_last());
        lemma_apply_states_channels(entries, pairs.drop_last());
        let k = choose|k: int|
            0 <= k < entries.len() && (#[trigger] entries[k]).channel == pairs[i].0 && !(
            entries[k].desc.kind is Blinds);
        assert(mid[k].channel == pairs[i].0 && !(mid[k].desc.kind is Blinds));
        lemma_state_write_contains(mid, pairs[i].0, pairs[i].1);
        let tail = state_write(mid, pairs.last().0, pairs.last().1);
        let j = choose|j: int| 0 <= j < tail.len() && tail[j] == w;
        let whole = state_batch_writes(entries, pairs);
        assert(whole[state_batch_writes(entries, pairs.drop_last()).len() + j] == w);
        assert(whole.contains(w));
    } else {
        assert(pairs.drop_last()[i] == pairs[i]);
        lemma_set_values_echo(entries, pairs.drop_last(), i);
        let pre = state_batch_writes(entries, pairs.drop_last());
        let j = choose|j: int| 0 <= j < pre.len() && pre[j] == w;
        assert(state_batch_writes(entries, pairs)[j] == w);
        assert(state_batch_writes(entries, pairs).contains(w));
    }
}

} // verus!
