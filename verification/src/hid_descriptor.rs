//! Report sizes from a HID report descriptor.
//!
//! The parser walks short and long items, tracks the global report size,
//! count and ID (with push and pop), and adds the bits of every input,
//! output and feature main item to the layout of its report ID.
use vstd::prelude::*;
use std::collections::BTreeMap;

verus! {

/// The sizes, in bits, of one report ID's input, output and feature reports.
#[derive(Clone, Copy, Debug, Default, PartialEq, Eq, Structural)]
pub struct ReportLayout {
    pub report_id: u8,
    pub input_bits: u32,
    pub output_bits: u32,
    pub feature_bits: u32,
}

/// Whole bytes needed for `bits` bits, saturating at the top of the range.
pub open spec fn bytes_for_bits_spec(bits: u32) -> u32 {
    ((if bits + 7 > u32::MAX {
        u32::MAX as int
    } else {
        bits + 7
    }) / 8) as u32
}

fn bytes_for_bits(bits: u32) -> (bytes: u32)
    ensures
        bytes == bytes_for_bits_spec(bits),
{
    bits.saturating_add(7) / 8
}

impl ReportLayout {
    pub fn input_bytes(self) -> (bytes: u32)
        ensures
            bytes == bytes_for_bits_spec(self.input_bits),
    {
        bytes_for_bits(self.input_bits)
    }

    pub fn output_bytes(self) -> (bytes: u32)
        ensures
            bytes == bytes_for_bits_spec(self.output_bits),
    {
        bytes_for_bits(self.output_bits)
    }

    pub fn feature_bytes(self) -> (bytes: u32)
        ensures
            bytes == bytes_for_bits_spec(self.feature_bits),
    {
        bytes_for_bits(self.feature_bits)
    }

    /// Feature report length as hidapi counts it: one more byte for a
    /// numbered report, which carries its ID.
    pub fn hidapi_feature_bytes(self) -> (bytes: u32)
        requires
            bytes_for_bits_spec(self.feature_bits) < u32::MAX,
        ensures
            bytes == bytes_for_bits_spec(self.feature_bits) + (if self.report_id != 0 {
                1int
            } else {
                0
            }),
    {
        self.feature_bytes() + if self.report_id != 0 {
            1
        } else {
            0
        }
    }
}

#[derive(Clone, Copy, Debug, PartialEq, Eq, Structural)]
pub enum DescriptorError {
    TruncatedShortItem { offset: usize },
    TruncatedLongItem { offset: usize },
    GlobalStackUnderflow { offset: usize },
    ReportSizeOverflow { offset: usize },
}

/// The global items that affect report sizes.
#[derive(Clone, Copy, Debug, Default, PartialEq, Eq, Structural)]
pub struct Globals {
    pub report_size: u32,
    pub report_count: u32,
    pub report_id: u8,
}

/// The parser's state after some items: the next offset, the globals, the
/// push/pop stack and the layouts found so far.
pub struct DescriptorState {
    pub offset: int,
    pub globals: Globals,
    pub stack: Seq<Globals>,
    pub layouts: Map<u8, ReportLayout>,
}

/// Data bytes of a short item, from the low two bits of its prefix.
pub open spec fn item_size(prefix: u8) -> int {
    if prefix % 4 == 0 {
        0
    } else if prefix % 4 == 1 {
        1
    } else if prefix % 4 == 2 {
        2
    } else {
        4
    }
}

/// Little-endian value of the `size` data bytes at `offset`.
pub open spec fn short_value(d: Seq<u8>, offset: int, size: int) -> u32 {
    if size == 0 {
        0
    } else if size == 1 {
        d[offset] as u32
    } else if size == 2 {
        (d[offset] + 256 * d[offset + 1]) as u32
    } else {
        (d[offset] + 256 * d[offset + 1] + 65536 * d[offset + 2] + 16777216 * d[offset + 3]) as u32
    }
}

pub open spec fn saturating_add_u32(a: u32, b: u32) -> u32 {
    if a + b > u32::MAX {
        u32::MAX
    } else {
        (a + b) as u32
    }
}

/// `layouts` after a main item of kind `tag` adds `bits` to report `id`.
pub open spec fn add_layout_bits(layouts: Map<u8, ReportLayout>, id: u8, tag: u8, bits: u32) -> Map<
    u8,
    ReportLayout,
> {
    let old = if layouts.contains_key(id) {
        layouts[id]
    } else {
        ReportLayout { report_id: id, input_bits: 0, output_bits: 0, feature_bits: 0 }
    };
    let new = if tag == 8 {
        ReportLayout { input_bits: saturating_add_u32(old.input_bits, bits), ..old }
    } else if tag == 9 {
        ReportLayout { output_bits: saturating_add_u32(old.output_bits, bits), ..old }
    } else {
        ReportLayout { feature_bits: saturating_add_u32(old.feature_bits, bits), ..old }
    };
    layouts.insert(id, new)
}

/// The effect of the item at `s.offset`.
pub open spec fn descriptor_step(d: Seq<u8>, s: DescriptorState) -> Result<DescriptorState, DescriptorError> {
    let item = s.offset;
    let prefix = d[item];
    let o = item + 1;
    if prefix == 0xFE {
        if o + 2 > d.len() {
            Err(DescriptorError::TruncatedLongItem { offset: item as usize })
        } else if o + 2 + d[o] > d.len() {
            Err(DescriptorError::TruncatedLongItem { offset: item as usize })
        } else {
            Ok(DescriptorState { offset: o + 2 + d[o], ..s })
        }
    } else {
        let size = item_size(prefix);
        if o + size > d.len() {
            Err(DescriptorError::TruncatedShortItem { offset: item as usize })
        } else {
            let value = short_value(d, o, size);
            let next = DescriptorState { offset: o + size, ..s };
            let item_type = (prefix / 4) % 4;
            let tag = prefix / 16;
            if item_type == 1 && tag == 7 {
                Ok(DescriptorState { globals: Globals { report_size: value, ..s.globals }, ..next })
            } else if item_type == 1 && tag == 8 {
                Ok(DescriptorState { globals: Globals { report_id: (value % 256) as u8, ..s.globals }, ..next })
            } else if item_type == 1 && tag == 9 {
                Ok(DescriptorState { globals: Globals { report_count: value, ..s.globals }, ..next })
            } else if item_type == 1 && tag == 10 {
                Ok(DescriptorState { stack: s.stack.push(s.globals), ..next })
            } else if item_type == 1 && tag == 11 {
                if s.stack.len() == 0 {
                    Err(DescriptorError::GlobalStackUnderflow { offset: item as usize })
                } else {
                    Ok(DescriptorState { globals: s.stack.last(), stack: s.stack.drop_last(), ..next })
                }
            } else if item_type == 0 && (tag == 8 || tag == 9 || tag == 11) {
                if s.globals.report_size * s.globals.report_count > u32::MAX {
                    Err(DescriptorError::ReportSizeOverflow { offset: item as usize })
                } else {
                    Ok(
                        DescriptorState {
                            layouts: add_layout_bits(
                                s.layouts,
                                s.globals.report_id,
                                tag,
                                (s.globals.report_size * s.globals.report_count) as u32,
                            ),
                            ..next
                        },
                    )
                }
            } else {
                Ok(next)
            }
        }
    }
}

/// The layouts after all items from `s` on, or the first error.
pub open spec fn descriptor_run(d: Seq<u8>, s: DescriptorState) -> Result<Map<u8, ReportLayout>, DescriptorError>
    decreases d.len() - s.offset,
{
    if s.offset < 0 || s.offset >= d.len() {
        Ok(s.layouts)
    } else {
        match descriptor_step(d, s) {
            Err(e) => Err(e),
            Ok(t) => if t.offset > s.offset {
                descriptor_run(d, t)
            } else {
                Ok(t.layouts)
            },
        }
    }
}

pub open spec fn initial_state() -> DescriptorState {
    DescriptorState {
        offset: 0,
        globals: Globals { report_size: 0, report_count: 0, report_id: 0 },
        stack: seq![],
        layouts: Map::empty(),
    }
}

/// `v` lists the layouts of `m` in increasing report ID order.
pub open spec fn lists_layouts(v: Seq<ReportLayout>, m: Map<u8, ReportLayout>) -> bool {
    &&& forall|i: int, j: int| 0 <= i < j < v.len() ==> #[trigger] v[i].report_id < #[trigger] v[j].report_id
    &&& forall|i: int| 0 <= i < v.len() ==> m.contains_key(#[trigger] v[i].report_id) && m[v[i].report_id] == v[i]
    &&& forall|id: u8| m.contains_key(id) ==> exists|i: int| 0 <= i < v.len() && #[trigger] v[i].report_id == id
}

fn read_unsigned(d: &[u8], offset: usize, size: usize) -> (value: u32)
    requires
        size == 0 || size == 1 || size == 2 || size == 4,
        offset + size <= d@.len(),
    ensures
        value == short_value(d@, offset as int, size as int),
{
    if size == 0 {
        0
    } else if size == 1 {
        d[offset] as u32
    } else if size == 2 {
        d[offset] as u32 + 256 * d[offset + 1] as u32
    } else {
        d[offset] as u32 + 256 * d[offset + 1] as u32 + 65536 * d[offset + 2] as u32 + 16777216
            * d[offset + 3] as u32
    }
}

/// Byte keys obey the ordering laws that a sorted map needs.
proof fn lemma_byte_keys_ordered()
    ensures
        vstd::laws_cmp::obeys_cmp::<u8>(),
{
    broadcast use vstd::laws_cmp::group_laws_cmp;
}

/// The layouts of every report ID that a descriptor's main items use, in
/// increasing report ID order.
pub fn parse_report_layouts(descriptor: &[u8]) -> (res: Result<Vec<ReportLayout>, DescriptorError>)
    ensures
        match descriptor_run(descriptor@, initial_state()) {
            Ok(m) => res matches Ok(v) && lists_layouts(v@, m),
            Err(e) => res == Err::<Vec<ReportLayout>, DescriptorError>(e),
        },
{
    broadcast use vstd::std_specs::btree::group_btree_axioms;
    proof {
        lemma_byte_keys_ordered();
    }
    let mut layouts: BTreeMap<u8, ReportLayout> = BTreeMap::new();
    let mut globals = Globals { report_size: 0, report_count: 0, report_id: 0 };
    let mut stack: Vec<Globals> = Vec::new();
    let mut offset: usize = 0;
    let ghost mut m: Map<u8, ReportLayout> = Map::empty();
    while offset < descriptor.len()
        invariant
            offset <= descriptor@.len(),
            layouts@ == m,
            forall|k: u8| #[trigger] m.contains_key(k) ==> m[k].report_id == k,
            descriptor_run(descriptor@, initial_state()) == descriptor_run(
                descriptor@,
                DescriptorState { offset: offset as int, globals, stack: stack@, layouts: m },
            ),
        decreases descriptor.len() - offset,
    {
        let ghost s = DescriptorState { offset: offset as int, globals, stack: stack@, layouts: m };
        let item_offset = offset;
        let prefix = descriptor[offset];
        offset += 1;
        if prefix == 0xFE {
            if offset > descriptor.len() || 2 > descriptor.len() - offset {
                return Err(DescriptorError::TruncatedLongItem { offset: item_offset });
            }
            let length = descriptor[offset] as usize;
            offset += 2;
            if length > descriptor.len() - offset {
                return Err(DescriptorError::TruncatedLongItem { offset: item_offset });
            }
            offset += length;
            assert(descriptor_step(descriptor@, s) == Ok::<DescriptorState, DescriptorError>(
                DescriptorState { offset: offset as int, ..s },
            ));
            continue;
        }
        let size: usize = if prefix % 4 == 0 {
            0
        } else if prefix % 4 == 1 {
            1
        } else if prefix % 4 == 2 {
            2
        } else {
            4
        };
        if size > descriptor.len() - offset {
            return Err(DescriptorError::TruncatedShortItem { offset: item_offset });
        }
        let value = read_unsigned(descriptor, offset, size);
        offset += size;
        let item_type = (prefix / 4) % 4;
        let tag = prefix / 16;
        if item_type == 1 && tag == 0x07 {
            globals.report_size = value;
        } else if item_type == 1 && tag == 0x08 {
            globals.report_id = (value % 256) as u8;
        } else if item_type == 1 && tag == 0x09 {
            globals.report_count = value;
        } else if item_type == 1 && tag == 0x0A {
            stack.push(globals);
        } else if item_type == 1 && tag == 0x0B {
            match stack.pop() {
                Some(saved) => {
                    globals = saved;
                },
                None => {
                    return Err(DescriptorError::GlobalStackUnderflow { offset: item_offset });
                },
            }
        } else if item_type == 0 && (tag == 0x08 || tag == 0x09 || tag == 0x0B) {
            let bits = match globals.report_size.checked_mul(globals.report_count) {
                Some(bits) => bits,
                None => {
                    return Err(DescriptorError::ReportSizeOverflow { offset: item_offset });
                },
            };
            let id = globals.report_id;
            let layout = match layouts.get(&id) {
                Some(layout) => *layout,
                None => ReportLayout { report_id: id, input_bits: 0, output_bits: 0, feature_bits: 0 },
            };
            let layout = if tag == 8 {
                ReportLayout { input_bits: layout.input_bits.saturating_add(bits), ..layout }
            } else if tag == 9 {
                ReportLayout { output_bits: layout.output_bits.saturating_add(bits), ..layout }
            } else {
                ReportLayout { feature_bits: layout.feature_bits.saturating_add(bits), ..layout }
            };
            layouts.insert(id, layout);
            proof {
                m = add_layout_bits(m, id, tag, bits);
            }
            assert(layouts@ =~= m);
        }
        assert(descriptor_step(descriptor@, s) == Ok::<DescriptorState, DescriptorError>(
            DescriptorState { offset: offset as int, globals, stack: stack@, layouts: m },
        ));
    }
    let mut listed: Vec<ReportLayout> = Vec::new();
    let mut id: u16 = 0;
    while id < 256
        invariant
            id <= 256,
            layouts@ == m,
            forall|k: u8| #[trigger] m.contains_key(k) ==> m[k].report_id == k,
            forall|i: int, j: int| 0 <= i < j < listed@.len() ==> #[trigger] listed@[i].report_id < #[trigger] listed@[j].report_id,
            forall|i: int| 0 <= i < listed@.len() ==> (#[trigger] listed@[i]).report_id < id && m.contains_key(listed@[i].report_id)
                && m[listed@[i].report_id] == listed@[i],
            forall|k: u8| m.contains_key(k) && k < id ==> exists|i: int| 0 <= i < listed@.len() && #[trigger] listed@[i].report_id == k,
        decreases 256 - id,
    {
        let key = id as u8;
        let ghost before = listed@;
        if let Some(layout) = layouts.get(&key) {
            listed.push(*layout);
            assert(listed@[listed@.len() - 1].report_id == key);
        }
        assert forall|k: u8| m.contains_key(k) && k < id + 1 implies exists|i: int|
            0 <= i < listed@.len() && #[trigger] listed@[i].report_id == k by {
            if k < id {
                let i = choose|i: int| 0 <= i < before.len() && #[trigger] before[i].report_id == k;
                assert(listed@[i] == before[i]);
            } else {
                assert(listed@[listed@.len() - 1].report_id == k);
            }
        }
        id += 1;
    }
    assert(lists_layouts(listed@, m));
    Ok(listed)
}

/// The report ID current at the item at `s.offset`, when that item is an
/// Input, Output or Feature main item.
pub open spec fn main_item_report_id(d: Seq<u8>, s: DescriptorState) -> Option<u8> {
    let prefix = d[s.offset];
    let tag = prefix / 16;
    if prefix != 0xFE && (prefix / 4) % 4 == 0 && (tag == 8 || tag == 9 || tag == 11) {
        Some(s.globals.report_id)
    } else {
        None
    }
}

/// The report IDs current at the Input, Output and Feature main items that
/// the parser reaches from `s` on.
pub open spec fn main_item_ids(d: Seq<u8>, s: DescriptorState) -> Set<u8>
    decreases d.len() - s.offset,
{
    if s.offset < 0 || s.offset >= d.len() {
        Set::empty()
    } else {
        match descriptor_step(d, s) {
            Err(_) => Set::empty(),
            Ok(t) => {
                let here = match main_item_report_id(d, s) {
                    Some(id) => set![id],
                    None => Set::empty(),
                };
                if t.offset > s.offset {
                    here + main_item_ids(d, t)
                } else {
                    here
                }
            },
        }
    }
}

proof fn lemma_run_keys(d: Seq<u8>, s: DescriptorState)
    requires
        descriptor_run(d, s) is Ok,
    ensures
        descriptor_run(d, s)->Ok_0.dom() =~= s.layouts.dom() + main_item_ids(d, s),
    decreases d.len() - s.offset,
{
    if s.offset < 0 || s.offset >= d.len() {
    } else {
        let t = descriptor_step(d, s)->Ok_0;
        match main_item_report_id(d, s) {
            Some(id) => {
                assert(t.layouts.dom() =~= s.layouts.dom().insert(id));
            },
            None => {
                assert(t.layouts == s.layouts);
            },
        }
        if t.offset > s.offset {
            lemma_run_keys(d, t);
        }
    }
}

/// The layouts of a descriptor are exactly one per report ID that was
/// current at one of its Input, Output or Feature main items.
pub proof fn lemma_layout_ids_are_main_item_ids(descriptor: Seq<u8>, layouts: Seq<ReportLayout>)
    requires
        descriptor_run(descriptor, initial_state()) matches Ok(m) && lists_layouts(layouts, m),
    ensures
        forall|id: u8|
            (exists|i: int| 0 <= i < layouts.len() && #[trigger] layouts[i].report_id == id) <==> main_item_ids(
                descriptor,
                initial_state(),
            ).contains(id),
        forall|i: int, j: int| 0 <= i < j < layouts.len() ==> #[trigger] layouts[i].report_id != #[trigger] layouts[j].report_id,
{
    lemma_run_keys(descriptor, initial_state());
    let m = descriptor_run(descriptor, initial_state())->Ok_0;
    assert(initial_state().layouts.dom() =~= Set::<u8>::empty());
    assert forall|id: u8|
        (exists|i: int| 0 <= i < layouts.len() && #[trigger] layouts[i].report_id == id) <==> main_item_ids(
            descriptor,
            initial_state(),
        ).contains(id) by {
        if exists|i: int| 0 <= i < layouts.len() && #[trigger] layouts[i].report_id == id {
            let i = choose|i: int| 0 <= i < layouts.len() && #[trigger] layouts[i].report_id == id;
            assert(m.contains_key(layouts[i].report_id));
        }
        if main_item_ids(descriptor, initial_state()).contains(id) {
            assert(m.dom().contains(id));
        }
    }
}

/// A short global Push item: type 1, tag 10.
pub open spec fn is_push_item(prefix: u8) -> bool {
    prefix != 0xFE && (prefix / 4) % 4 == 1 && prefix / 16 == 10
}

/// A short global Pop item: type 1, tag 11.
pub open spec fn is_pop_item(prefix: u8) -> bool {
    prefix != 0xFE && (prefix / 4) % 4 == 1 && prefix / 16 == 11
}

/// A Pop right after a Push gives back the globals and the stack from
/// before the Push (when both items are whole).
pub proof fn lemma_push_then_pop(d: Seq<u8>, s: DescriptorState)
    requires
        0 <= s.offset < d.len(),
        is_push_item(d[s.offset]),
        descriptor_step(d, s) matches Ok(t) && 0 <= t.offset < d.len() && is_pop_item(d[t.offset])
            && descriptor_step(d, t) is Ok,
    ensures
        descriptor_step(d, descriptor_step(d, s)->Ok_0) matches Ok(u) && u.globals == s.globals && u.stack
            == s.stack,
{
    let t = descriptor_step(d, s)->Ok_0;
    assert(t.stack == s.stack.push(s.globals));
    assert(t.stack.drop_last() =~= s.stack);
}

/// A Pop restores the report size, count and ID saved by the matching
/// Push, whatever a global item between them changed: after Push, one
/// other item, Pop, the globals and the stack are those from before the
/// Push, so a main item after the Pop counts under the restored ID and
/// size.
pub proof fn lemma_pop_restores_pushed_globals(d: Seq<u8>, s: DescriptorState)
    requires
        0 <= s.offset < d.len(),
        is_push_item(d[s.offset]),
        descriptor_step(d, s) matches Ok(t) && 0 <= t.offset < d.len() && !is_push_item(d[t.offset])
            && !is_pop_item(d[t.offset]) && (descriptor_step(d, t) matches Ok(u) && 0 <= u.offset < d.len()
            && is_pop_item(d[u.offset]) && descriptor_step(d, u) is Ok),
    ensures
        descriptor_step(d, descriptor_step(d, descriptor_step(d, s)->Ok_0)->Ok_0) matches Ok(v) && v.globals
            == s.globals && v.stack == s.stack,
{
    let t = descriptor_step(d, s)->Ok_0;
    let u = descriptor_step(d, t)->Ok_0;
    assert(t.stack == s.stack.push(s.globals));
    assert(u.stack == t.stack);
    assert(u.stack.drop_last() =~= s.stack);
}

} // verus!
