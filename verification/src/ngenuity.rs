//! Read-only parser for the NGENUITY `.hxp` preset format, and the import of
//! its confirmed fields into a portable software profile.
//!
//! Only fields confirmed from version-40 presets are decoded. Nothing here
//! performs I/O.
use vstd::prelude::*;
use vstd::utf8::*;
use crate::color::RgbColor;
use crate::button::{MacroDefinition, MacroEvent, MacroEventView, MacroPlayback};
use crate::performance::DpiStage;
use crate::profile::{
    NamedMacro, SoftwareDpiProfile, SoftwareProfile, SoftwareProfileSource,
    UnresolvedButtonAssignment,
};
use crate::text::{
    byte_hex_lower, decimal_chars, push_byte_hex_lower, push_decimal, string_from_utf8,
    string_push, string_push_str,
};

verus! {

pub const HEADER_ALL: u32 = 0x7D6583CA;

pub const HEADER_PRESET: u32 = 0x4D2C83CE;

pub const HEADER_MOUSE_PRESET: u32 = 0x1A4A0099;

pub const HEADER_KEY_ASSIGNMENT: u32 = 0x2CD854CB;

pub const HEADER_MACRO: u32 = 0x2545C654;

pub const HEADER_MACRO_ITEM: u32 = 0x1B35A31E;

pub const SUPPORTED_PRESET_VERSION: u32 = 40;

/// Largest preset file the offline tools read, in bytes.
pub const MAX_PRESET_FILE_BYTES: u64 = 16777216;

pub const DPI_COUNT_OFFSET: usize = 29;

pub const DPI_RECORD_OFFSET: usize = 33;

pub const DPI_RECORD_LENGTH: usize = 64;

pub const KEY_ASSIGNMENT_LENGTH: usize = 93;

pub const MACRO_ITEM_LENGTH: usize = 38;

pub const MAX_COLLECTION_ITEMS: usize = 1024;

#[derive(Clone, Copy, Debug, PartialEq, Eq, Structural)]
pub enum NgenuityContainer {
    Export,
    InternalPreset,
}

/// One DPI record of a preset.
#[derive(Clone, Copy, Debug, PartialEq, Eq)]
pub struct NgenuityDpiStage {
    pub source_id: [u8; 16],
    pub dpi: u32,
    pub alpha: u8,
    pub color: RgbColor,
}

/// One recorded macro event of a preset.
#[derive(Clone, Copy, Debug, PartialEq, Eq)]
pub struct NgenuityMacroItem {
    pub source_id: [u8; 16],
    pub item_type: u32,
    pub action: u8,
    pub state: u8,
    pub data: u32,
    pub timing_ms: u32,
    pub key_data: u16,
}

/// One macro of a preset.
#[derive(Clone, Debug, PartialEq, Eq)]
pub struct NgenuityMacro {
    pub source_id: [u8; 16],
    pub name: String,
    pub use_standard_timing: bool,
    pub standard_timing_ms: u32,
    pub expanded: bool,
    pub playback_mode: u32,
    pub play_times: u8,
    pub items: Vec<NgenuityMacroItem>,
}

/// One key assignment record, with the macro it refers to when that macro's
/// identifier occurs in the record.
#[derive(Clone, Copy, Debug, PartialEq, Eq)]
pub struct NgenuityKeyAssignment {
    pub source_id: [u8; 16],
    pub macro_source_id: Option<[u8; 16]>,
}

/// A decoded preset.
#[derive(Clone, Debug, PartialEq, Eq)]
pub struct NgenuityPreset {
    pub container: NgenuityContainer,
    pub embedded_length: usize,
    pub version: u32,
    pub name: String,
    pub dpi_stages: Vec<NgenuityDpiStage>,
    /// The exact one-based value stored by version 40.
    pub active_dpi_stage: u32,
    pub macros: Vec<NgenuityMacro>,
    pub key_assignments: Vec<NgenuityKeyAssignment>,
}

/// A DPI record with its identifier as a byte sequence.
pub struct NgenuityDpiStageView {
    pub source_id: Seq<u8>,
    pub dpi: u32,
    pub alpha: u8,
    pub color: RgbColor,
}

impl View for NgenuityDpiStage {
    type V = NgenuityDpiStageView;

    open spec fn view(&self) -> NgenuityDpiStageView {
        NgenuityDpiStageView {
            source_id: self.source_id@,
            dpi: self.dpi,
            alpha: self.alpha,
            color: self.color,
        }
    }
}

/// A macro event with its identifier as a byte sequence.
pub struct NgenuityMacroItemView {
    pub source_id: Seq<u8>,
    pub item_type: u32,
    pub action: u8,
    pub state: u8,
    pub data: u32,
    pub timing_ms: u32,
    pub key_data: u16,
}

impl View for NgenuityMacroItem {
    type V = NgenuityMacroItemView;

    open spec fn view(&self) -> NgenuityMacroItemView {
        NgenuityMacroItemView {
            source_id: self.source_id@,
            item_type: self.item_type,
            action: self.action,
            state: self.state,
            data: self.data,
            timing_ms: self.timing_ms,
            key_data: self.key_data,
        }
    }
}

/// A macro with its name as characters and its items as views.
pub struct NgenuityMacroView {
    pub source_id: Seq<u8>,
    pub name: Seq<char>,
    pub use_standard_timing: bool,
    pub standard_timing_ms: u32,
    pub expanded: bool,
    pub playback_mode: u32,
    pub play_times: u8,
    pub items: Seq<NgenuityMacroItemView>,
}

impl View for NgenuityMacro {
    type V = NgenuityMacroView;

    open spec fn view(&self) -> NgenuityMacroView {
        NgenuityMacroView {
            source_id: self.source_id@,
            name: self.name@,
            use_standard_timing: self.use_standard_timing,
            standard_timing_ms: self.standard_timing_ms,
            expanded: self.expanded,
            playback_mode: self.playback_mode,
            play_times: self.play_times,
            items: self.items@.map_values(|i: NgenuityMacroItem| i@),
        }
    }
}

/// A key assignment with its identifiers as byte sequences.
pub struct NgenuityKeyAssignmentView {
    pub source_id: Seq<u8>,
    pub macro_source_id: Option<Seq<u8>>,
}

impl View for NgenuityKeyAssignment {
    type V = NgenuityKeyAssignmentView;

    open spec fn view(&self) -> NgenuityKeyAssignmentView {
        NgenuityKeyAssignmentView {
            source_id: self.source_id@,
            macro_source_id: match self.macro_source_id {
                Some(id) => Some(id@),
                None => None,
            },
        }
    }
}

/// The decoded preset's fields as plain values.
pub struct NgenuityPresetView {
    pub container: NgenuityContainer,
    pub embedded_length: usize,
    pub version: u32,
    pub name: Seq<char>,
    pub dpi_stages: Seq<NgenuityDpiStageView>,
    pub active_dpi_stage: u32,
    pub macros: Seq<NgenuityMacroView>,
    pub key_assignments: Seq<NgenuityKeyAssignmentView>,
}

impl View for NgenuityPreset {
    type V = NgenuityPresetView;

    open spec fn view(&self) -> NgenuityPresetView {
        NgenuityPresetView {
            container: self.container,
            embedded_length: self.embedded_length,
            version: self.version,
            name: self.name@,
            dpi_stages: self.dpi_stages@.map_values(|d: NgenuityDpiStage| d@),
            active_dpi_stage: self.active_dpi_stage,
            macros: self.macros@.map_values(|m: NgenuityMacro| m@),
            key_assignments: self.key_assignments@.map_values(|a: NgenuityKeyAssignment| a@),
        }
    }
}

#[derive(Clone, Copy, Debug, PartialEq, Eq, Structural)]
pub enum NgenuityMouseButton {
    Left,
    Right,
    Middle,
}

#[derive(Clone, Copy, Debug, PartialEq, Eq, Structural)]
pub enum NgenuityInputAction {
    Keyboard { usage: u16, pressed: bool },
    MouseButton { button: NgenuityMouseButton, pressed: bool },
}

/// Why a preset could not be decoded.
#[derive(Clone, Copy, Debug, PartialEq, Eq)]
pub enum NgenuityPresetError {
    Truncated { context: &'static str, offset: usize },
    UnknownHeader(u32),
    InvalidEmbeddedLength { declared: usize, available: usize },
    UnsupportedVersion(u32),
    InvalidStringLength,
    InvalidUtf8(&'static str),
    MissingMousePreset,
    InvalidItemCount { name: &'static str, count: usize },
    WrongObjectHeader { name: &'static str, expected: u32, offset: usize },
}

/// Little-endian 16-bit value at `offset`.
pub open spec fn le16(bytes: Seq<u8>, offset: int) -> int {
    bytes[offset] + 256 * bytes[offset + 1]
}

/// Little-endian 32-bit value at `offset`.
pub open spec fn le32(bytes: Seq<u8>, offset: int) -> int {
    bytes[offset] + 256 * bytes[offset + 1] + 65536 * bytes[offset + 2] + 16777216 * bytes[offset
        + 3]
}

/// Whether `length` bytes are available at `offset`.
pub open spec fn available(bytes: Seq<u8>, offset: int, length: int) -> bool {
    0 <= offset && offset + length <= bytes.len()
}

pub open spec fn truncated<T>(context: &'static str, offset: int) -> Result<T, NgenuityPresetError> {
    Err(NgenuityPresetError::Truncated { context, offset: offset as usize })
}

pub open spec fn read_u8_spec(bytes: Seq<u8>, offset: int, context: &'static str) -> Result<
    u8,
    NgenuityPresetError,
> {
    if available(bytes, offset, 1) {
        Ok(bytes[offset])
    } else {
        truncated(context, offset)
    }
}

pub open spec fn read_u16_spec(bytes: Seq<u8>, offset: int, context: &'static str) -> Result<
    u16,
    NgenuityPresetError,
> {
    if available(bytes, offset, 2) {
        Ok(le16(bytes, offset) as u16)
    } else {
        truncated(context, offset)
    }
}

pub open spec fn read_u32_spec(bytes: Seq<u8>, offset: int, context: &'static str) -> Result<
    u32,
    NgenuityPresetError,
> {
    if available(bytes, offset, 4) {
        Ok(le32(bytes, offset) as u32)
    } else {
        truncated(context, offset)
    }
}

pub open spec fn read_id_spec(bytes: Seq<u8>, offset: int, context: &'static str) -> Result<
    Seq<u8>,
    NgenuityPresetError,
> {
    if available(bytes, offset, 16) {
        Ok(bytes.subrange(offset, offset + 16))
    } else {
        truncated(context, offset)
    }
}

/// Whether `bytes` holds `header` in little-endian order at `i`.
pub open spec fn header_at(bytes: Seq<u8>, i: int, header: u32) -> bool {
    available(bytes, i, 4) && le32(bytes, i) == header
}

/// The first offset that holds `header`.
#[verifier::opaque]
pub open spec fn find_header_spec(bytes: Seq<u8>, header: u32) -> Option<int> {
    if exists|i: int| header_at(bytes, i, header) {
        Some(choose|i: int| header_at(bytes, i, header) && forall|j: int| 0 <= j < i ==> !header_at(bytes, j, header))
    } else {
        None
    }
}

pub open spec fn expect_header_spec(
    bytes: Seq<u8>,
    offset: int,
    expected: u32,
    name: &'static str,
) -> Result<(), NgenuityPresetError> {
    match read_u32_spec(bytes, offset, name) {
        Err(e) => Err(e),
        Ok(actual) => if actual == expected {
            Ok(())
        } else {
            Err(NgenuityPresetError::WrongObjectHeader { name, expected, offset: offset as usize })
        },
    }
}

pub open spec fn validate_count_spec(name: &'static str, count: int) -> Result<(), NgenuityPresetError> {
    if count > 1024 {
        Err(NgenuityPresetError::InvalidItemCount { name, count: count as usize })
    } else {
        Ok(())
    }
}

/// The value of the first `n` bytes of a 7-bit encoded length at `offset`.
pub open spec fn seven_bit_value(bytes: Seq<u8>, offset: int, n: nat) -> int
    decreases n,
{
    if n == 0 {
        0
    } else {
        seven_bit_value(bytes, offset, (n - 1) as nat) + (bytes[offset + n - 1] % 128) * pow128(
            (n - 1) as nat,
        )
    }
}

pub open spec fn pow128(n: nat) -> int
    decreases n,
{
    if n == 0 {
        1
    } else {
        128 * pow128((n - 1) as nat)
    }
}

/// A 7-bit encoded length of at most five bytes: the value and the offset
/// after it.
pub open spec fn read_7bit_length_spec(bytes: Seq<u8>, offset: int) -> Result<
    (usize, int),
    NgenuityPresetError,
> {
    seven_bit_from(bytes, offset, 0)
}

pub open spec fn seven_bit_from(bytes: Seq<u8>, offset: int, n: nat) -> Result<
    (usize, int),
    NgenuityPresetError,
>
    decreases 5 - n,
{
    if n >= 5 {
        Err(NgenuityPresetError::InvalidStringLength)
    } else if !available(bytes, offset + n, 1) {
        truncated("7-bit string length", offset + n)
    } else if bytes[offset + n] < 128 {
        Ok((seven_bit_value(bytes, offset, n + 1) as usize, offset + n + 1))
    } else {
        seven_bit_from(bytes, offset, n + 1)
    }
}

/// A length-prefixed UTF-8 string: its characters and the offset after it.
pub open spec fn read_string_spec(bytes: Seq<u8>, offset: int, context: &'static str) -> Result<
    (Seq<char>, int),
    NgenuityPresetError,
> {
    match read_7bit_length_spec(bytes, offset) {
        Err(e) => Err(e),
        Ok((length, cursor)) => if !available(bytes, cursor, length as int) {
            truncated(context, cursor)
        } else if !valid_utf8(bytes.subrange(cursor, cursor + length)) {
            Err(NgenuityPresetError::InvalidUtf8(context))
        } else {
            Ok((decode_utf8(bytes.subrange(cursor, cursor + length)), cursor + length))
        },
    }
}

fn read_u8(bytes: &[u8], offset: usize, context: &'static str) -> (res: Result<u8, NgenuityPresetError>)
    ensures
        res == read_u8_spec(bytes@, offset as int, context),
{
    if offset < bytes.len() {
        Ok(bytes[offset])
    } else {
        Err(NgenuityPresetError::Truncated { context, offset })
    }
}

fn read_u16(bytes: &[u8], offset: usize, context: &'static str) -> (res: Result<u16, NgenuityPresetError>)
    ensures
        res == read_u16_spec(bytes@, offset as int, context),
{
    if offset < bytes.len() && 2 <= bytes.len() - offset {
        Ok(bytes[offset] as u16 + 256 * bytes[offset + 1] as u16)
    } else {
        Err(NgenuityPresetError::Truncated { context, offset })
    }
}

fn read_u32(bytes: &[u8], offset: usize, context: &'static str) -> (res: Result<u32, NgenuityPresetError>)
    ensures
        res == read_u32_spec(bytes@, offset as int, context),
{
    if offset < bytes.len() && 4 <= bytes.len() - offset {
        Ok(
            bytes[offset] as u32 + 256 * bytes[offset + 1] as u32 + 65536 * bytes[offset + 2] as u32
                + 16777216 * bytes[offset + 3] as u32,
        )
    } else {
        Err(NgenuityPresetError::Truncated { context, offset })
    }
}

fn read_id(bytes: &[u8], offset: usize, context: &'static str) -> (res: Result<[u8; 16], NgenuityPresetError>)
    ensures
        res matches Ok(id) ==> read_id_spec(bytes@, offset as int, context) == Ok::<
            Seq<u8>,
            NgenuityPresetError,
        >(id@),
        res matches Err(e) ==> read_id_spec(bytes@, offset as int, context) == Err::<
            Seq<u8>,
            NgenuityPresetError,
        >(e),
{
    if offset < bytes.len() && 16 <= bytes.len() - offset {
        let mut id = [0u8; 16];
        let end = offset + 16;
        let mut i: usize = 0;
        while i < 16
            invariant
                end == offset + 16,
                end <= bytes@.len(),
                i <= 16,
                forall|j: int| 0 <= j < i ==> id@[j] == bytes@[offset + j],
            decreases 16 - i,
        {
            id[i] = bytes[offset + i];
            i += 1;
        }
        assert(id@ =~= bytes@.subrange(offset as int, offset + 16));
        Ok(id)
    } else {
        Err(NgenuityPresetError::Truncated { context, offset })
    }
}

fn find_header(bytes: &[u8], header: u32) -> (found: Option<usize>)
    ensures
        found matches Some(i) ==> find_header_spec(bytes@, header) == Some(i as int) && i + 4
            <= bytes@.len(),
        found is None ==> find_header_spec(bytes@, header) is None,
{
    reveal(find_header_spec);
    if bytes.len() < 4 {
        assert(forall|i: int| !header_at(bytes@, i, header));
        return None;
    }
    let mut i: usize = 0;
    while i <= bytes.len() - 4
        invariant
            bytes@.len() >= 4,
            i + 3 <= bytes@.len(),
            forall|j: int| 0 <= j < i ==> !header_at(bytes@, j, header),
        decreases bytes.len() - i,
    {
        let value = bytes[i] as u32 + 256 * bytes[i + 1] as u32 + 65536 * bytes[i + 2] as u32
            + 16777216 * bytes[i + 3] as u32;
        if value == header {
            assert(header_at(bytes@, i as int, header));
            assert(forall|j: int| 0 <= j < i ==> !header_at(bytes@, j, header));
            proof {
                reveal(find_header_spec);
            }
            let ghost c = choose|c: int| header_at(bytes@, c, header) && forall|j: int| 0 <= j < c ==> !header_at(bytes@, j, header);
            proof {
                if c < i {
                    assert(!header_at(bytes@, c, header));
                }
                if c > i {
                    assert(!header_at(bytes@, i as int, header));
                }
            }
            return Some(i);
        }
        i += 1;
    }
    assert(forall|j: int| !header_at(bytes@, j, header));
    None
}

fn expect_header(bytes: &[u8], offset: usize, expected: u32, name: &'static str) -> (res: Result<
    (),
    NgenuityPresetError,
>)
    ensures
        res == expect_header_spec(bytes@, offset as int, expected, name),
{
    let actual = read_u32(bytes, offset, name)?;
    if actual == expected {
        Ok(())
    } else {
        Err(NgenuityPresetError::WrongObjectHeader { name, expected, offset })
    }
}

fn validate_count(name: &'static str, count: usize) -> (res: Result<(), NgenuityPresetError>)
    ensures
        res == validate_count_spec(name, count as int),
{
    if count > MAX_COLLECTION_ITEMS {
        Err(NgenuityPresetError::InvalidItemCount { name, count })
    } else {
        Ok(())
    }
}


proof fn lemma_seven_bit_bound(bytes: Seq<u8>, offset: int, n: nat)
    ensures
        0 <= seven_bit_value(bytes, offset, n) < pow128(n),
        pow128(n) >= 1,
    decreases n,
{
    if n > 0 {
        lemma_seven_bit_bound(bytes, offset, (n - 1) as nat);
        let m = pow128((n - 1) as nat);
        let b = bytes[offset + n - 1] % 128;
        assert(0 <= b * m <= 127 * m) by (nonlinear_arith)
            requires
                0 <= b <= 127,
                m >= 1,
        ;
    }
}

fn read_7bit_length(bytes: &[u8], offset: usize) -> (res: Result<(usize, usize), NgenuityPresetError>)
    ensures
        match read_7bit_length_spec(bytes@, offset as int) {
            Ok((value, end)) => res == Ok::<(usize, usize), NgenuityPresetError>(
                (value, end as usize),
            ),
            Err(e) => res == Err::<(usize, usize), NgenuityPresetError>(e),
        },
        read_7bit_length_spec(bytes@, offset as int) matches Ok((_, end)) ==> offset < end <= bytes@.len(),
{
    let mut value: u64 = 0;
    let mut multiplier: u64 = 1;
    let mut cursor = offset;
    let mut n: usize = 0;
    while n < 5
        invariant
            n <= 5,
            cursor == offset + n,
            value == seven_bit_value(bytes@, offset as int, n as nat),
            n <= 4 ==> multiplier == pow128(n as nat),
            seven_bit_from(bytes@, offset as int, 0) == seven_bit_from(
                bytes@,
                offset as int,
                n as nat,
            ),
            n > 0 ==> cursor <= bytes@.len(),
            bytes@.len() == bytes.len(),
        decreases 5 - n,
    {
        proof {
            lemma_seven_bit_bound(bytes@, offset as int, n as nat);
            lemma_seven_bit_bound(bytes@, offset as int, (n + 1) as nat);
            reveal_with_fuel(pow128, 5);
            if n == 0 {
                assert(multiplier == 1);
            } else if n == 1 {
                assert(multiplier == 128);
            } else if n == 2 {
                assert(multiplier == 16384);
            } else if n == 3 {
                assert(multiplier == 2097152);
            } else {
                assert(multiplier == 268435456);
            }
        }
        let byte = match read_u8(bytes, cursor, "7-bit string length") {
            Ok(byte) => byte,
            Err(e) => return Err(e),
        };
        cursor += 1;
        assert((byte % 128) as u64 * multiplier <= 127 * multiplier) by (nonlinear_arith)
            requires
                (byte % 128) <= 127,
        ;
        value = value + (byte % 128) as u64 * multiplier;
        if byte < 128 {
            return Ok((#[verifier::truncate] (value as usize), cursor));
        }
        if n < 4 {
            multiplier = multiplier * 128;
        }
        n += 1;
    }
    Err(NgenuityPresetError::InvalidStringLength)
}

/// The bytes `bytes[start..start + length]`.
fn copy_bytes(bytes: &[u8], start: usize, length: usize) -> (out: Vec<u8>)
    requires
        start + length <= bytes@.len(),
    ensures
        out@ == bytes@.subrange(start as int, start + length),
{
    let mut out: Vec<u8> = Vec::new();
    let mut i: usize = 0;
    while i < length
        invariant
            start + length <= bytes.len(),
            i <= length,
            out@ == bytes@.subrange(start as int, start + i),
        decreases length - i,
    {
        out.push(bytes[start + i]);
        i += 1;
        assert(out@ =~= bytes@.subrange(start as int, start + i));
    }
    out
}

fn read_string(bytes: &[u8], offset: usize, context: &'static str) -> (res: Result<
    (String, usize),
    NgenuityPresetError,
>)
    ensures
        match read_string_spec(bytes@, offset as int, context) {
            Ok((text, end)) => res matches Ok((s, e)) && s@ == text && e == end,
            Err(e) => res == Err::<(String, usize), NgenuityPresetError>(e),
        },
{
    let (length, cursor) = match read_7bit_length(bytes, offset) {
        Ok(pair) => pair,
        Err(e) => return Err(e),
    };
    if cursor > bytes.len() || length > bytes.len() - cursor {
        return Err(NgenuityPresetError::Truncated { context, offset: cursor });
    }
    let raw = copy_bytes(bytes, cursor, length);
    match string_from_utf8(raw) {
        Some(text) => Ok((text, cursor + length)),
        None => Err(NgenuityPresetError::InvalidUtf8(context)),
    }
}


/// The macro event record at `c`.
#[verifier::opaque]
pub open spec fn macro_item_spec(p: Seq<u8>, c: int) -> Result<NgenuityMacroItemView, NgenuityPresetError> {
    match expect_header_spec(p, c, HEADER_MACRO_ITEM, "macro item") {
        Err(e) => Err(e),
        Ok(_) => match read_id_spec(p, c + 4, "macro item identifier") {
            Err(e) => Err(e),
            Ok(source_id) => match read_u32_spec(p, c + 20, "macro item type") {
                Err(e) => Err(e),
                Ok(item_type) => match read_u8_spec(p, c + 24, "macro item action") {
                    Err(e) => Err(e),
                    Ok(action) => match read_u8_spec(p, c + 25, "macro item state") {
                        Err(e) => Err(e),
                        Ok(state) => match read_u32_spec(p, c + 28, "macro item data") {
                            Err(e) => Err(e),
                            Ok(data) => match read_u32_spec(p, c + 32, "macro item timing") {
                                Err(e) => Err(e),
                                Ok(timing_ms) => match read_u16_spec(p, c + 36, "macro item key data") {
                                    Err(e) => Err(e),
                                    Ok(key_data) => Ok(
                                        NgenuityMacroItemView {
                                            source_id,
                                            item_type,
                                            action,
                                            state,
                                            data,
                                            timing_ms,
                                            key_data,
                                        },
                                    ),
                                },
                            },
                        },
                    },
                },
            },
        },
    }
}

/// `n` consecutive macro event records from `c`, appended to `acc`.
pub open spec fn macro_items_from(
    p: Seq<u8>,
    c: int,
    n: nat,
    acc: Seq<NgenuityMacroItemView>,
) -> Result<Seq<NgenuityMacroItemView>, NgenuityPresetError>
    decreases n,
{
    if n == 0 {
        Ok(acc)
    } else {
        match macro_item_spec(p, c) {
            Err(e) => Err(e),
            Ok(item) => macro_items_from(p, c + 38, (n - 1) as nat, acc.push(item)),
        }
    }
}

/// The macro record at `o` and the offset after it.
#[verifier::opaque]
pub open spec fn macro_spec(p: Seq<u8>, o: int) -> Result<(NgenuityMacroView, int), NgenuityPresetError> {
    match expect_header_spec(p, o, HEADER_MACRO, "macro") {
        Err(e) => Err(e),
        Ok(_) => match read_id_spec(p, o + 4, "macro identifier") {
            Err(e) => Err(e),
            Ok(source_id) => match read_string_spec(p, o + 20, "macro name") {
                Err(e) => Err(e),
                Ok((name, c)) => match read_u8_spec(p, c, "standard timing flag") {
                    Err(e) => Err(e),
                    Ok(standard) => match read_u32_spec(p, c + 1, "standard timing") {
                        Err(e) => Err(e),
                        Ok(standard_timing_ms) => match read_u8_spec(p, c + 5, "macro expanded flag") {
                            Err(e) => Err(e),
                            Ok(expanded) => match read_u32_spec(p, c + 6, "macro playback mode") {
                                Err(e) => Err(e),
                                Ok(playback_mode) => match read_u8_spec(p, c + 10, "macro play count") {
                                    Err(e) => Err(e),
                                    Ok(play_times) => match read_u32_spec(p, c + 11, "macro item count") {
                                        Err(e) => Err(e),
                                        Ok(count) => match validate_count_spec("macro items", count as int) {
                                            Err(e) => Err(e),
                                            Ok(_) => match macro_items_from(p, c + 15, count as nat, seq![]) {
                                                Err(e) => Err(e),
                                                Ok(items) => Ok(
                                                    (
                                                        NgenuityMacroView {
                                                            source_id,
                                                            name,
                                                            use_standard_timing: standard != 0,
                                                            standard_timing_ms,
                                                            expanded: expanded != 0,
                                                            playback_mode,
                                                            play_times,
                                                            items,
                                                        },
                                                        c + 15 + 38 * count,
                                                    ),
                                                ),
                                            },
                                        },
                                    },
                                },
                            },
                        },
                    },
                },
            },
        },
    }
}

/// `n` consecutive macro records from `o`, appended to `acc`.
pub open spec fn macros_from(p: Seq<u8>, o: int, n: nat, acc: Seq<NgenuityMacroView>) -> Result<
    Seq<NgenuityMacroView>,
    NgenuityPresetError,
>
    decreases n,
{
    if n == 0 {
        Ok(acc)
    } else {
        match macro_spec(p, o) {
            Err(e) => Err(e),
            Ok((m, end)) => macros_from(p, end, (n - 1) as nat, acc.push(m)),
        }
    }
}

/// The macro collection: a count just before the first macro header, then
/// that many macros; none when no macro header occurs.
#[verifier::opaque]
pub open spec fn macros_spec(p: Seq<u8>) -> Result<Seq<NgenuityMacroView>, NgenuityPresetError> {
    match find_header_spec(p, HEADER_MACRO) {
        None => Ok(seq![]),
        Some(first) => if first < 4 {
            truncated("macro count", first)
        } else {
            match read_u32_spec(p, first - 4, "macro count") {
                Err(e) => Err(e),
                Ok(count) => match validate_count_spec("macros", count as int) {
                    Err(e) => Err(e),
                    Ok(_) => macros_from(p, first, count as nat, seq![]),
                },
            }
        },
    }
}

fn read_macro_item(p: &[u8], c: usize) -> (res: Result<NgenuityMacroItem, NgenuityPresetError>)
    requires
        c <= p@.len() <= isize::MAX,
    ensures
        match macro_item_spec(p@, c as int) {
            Ok(v) => res matches Ok(item) && item@ == v,
            Err(e) => res == Err::<NgenuityMacroItem, NgenuityPresetError>(e),
        },
        res is Ok ==> c + 38 <= p@.len(),
{
    reveal(macro_item_spec);
    expect_header(p, c, HEADER_MACRO_ITEM, "macro item")?;
    let source_id = read_id(p, c + 4, "macro item identifier")?;
    let item_type = read_u32(p, c + 20, "macro item type")?;
    let action = read_u8(p, c + 24, "macro item action")?;
    let state = read_u8(p, c + 25, "macro item state")?;
    let data = read_u32(p, c + 28, "macro item data")?;
    let timing_ms = read_u32(p, c + 32, "macro item timing")?;
    let key_data = read_u16(p, c + 36, "macro item key data")?;
    Ok(NgenuityMacroItem { source_id, item_type, action, state, data, timing_ms, key_data })
}

fn read_macro_items(p: &[u8], start: usize, item_count: usize) -> (res: Result<
    Vec<NgenuityMacroItem>,
    NgenuityPresetError,
>)
    requires
        start <= p@.len() <= isize::MAX,
        item_count <= 1024,
    ensures
        match macro_items_from(p@, start as int, item_count as nat, seq![]) {
            Ok(v) => res matches Ok(items) && items@.map_values(|i: NgenuityMacroItem| i@) == v
                && start + 38 * item_count <= p@.len(),
            Err(e) => res == Err::<Vec<NgenuityMacroItem>, NgenuityPresetError>(e),
        },
{
    let mut items: Vec<NgenuityMacroItem> = Vec::new();
    let mut c = start;
    let mut k: usize = 0;
    assert(items@.map_values(|i: NgenuityMacroItem| i@) =~= Seq::<NgenuityMacroItemView>::empty());
    while k < item_count
        invariant
            p@.len() <= isize::MAX,
            item_count <= 1024,
            start <= p@.len(),
            k <= item_count,
            c == start + 38 * k,
            c <= p@.len(),
            macro_items_from(p@, start as int, item_count as nat, seq![]) == macro_items_from(
                p@,
                c as int,
                (item_count - k) as nat,
                items@.map_values(|i: NgenuityMacroItem| i@),
            ),
        decreases item_count - k,
    {
        let item = match read_macro_item(p, c) {
            Ok(item) => item,
            Err(e) => return Err(e),
        };
        let ghost before = items@.map_values(|i: NgenuityMacroItem| i@);
        items.push(item);
        assert(items@.map_values(|i: NgenuityMacroItem| i@) =~= before.push(item@));
        c = c + MACRO_ITEM_LENGTH;
        k += 1;
    }
    Ok(items)
}

fn read_macro(p: &[u8], o: usize) -> (res: Result<(NgenuityMacro, usize), NgenuityPresetError>)
    requires
        o <= p@.len() <= isize::MAX,
    ensures
        match macro_spec(p@, o as int) {
            Ok((v, end)) => res matches Ok((m, e)) && m@ == v && e == end && e <= p@.len(),
            Err(e) => res == Err::<(NgenuityMacro, usize), NgenuityPresetError>(e),
        },
{
    reveal(macro_spec);
    expect_header(p, o, HEADER_MACRO, "macro")?;
    let source_id = read_id(p, o + 4, "macro identifier")?;
    let (name, cursor) = match read_string(p, o + 20, "macro name") {
        Ok(pair) => pair,
        Err(e) => return Err(e),
    };
    let standard = read_u8(p, cursor, "standard timing flag")?;
    let standard_timing_ms = read_u32(p, cursor + 1, "standard timing")?;
    let expanded = read_u8(p, cursor + 5, "macro expanded flag")?;
    let playback_mode = read_u32(p, cursor + 6, "macro playback mode")?;
    let play_times = read_u8(p, cursor + 10, "macro play count")?;
    let item_count = read_u32(p, cursor + 11, "macro item count")? as usize;
    let start = cursor + 15;
    validate_count("macro items", item_count)?;
    let items = match read_macro_items(p, start, item_count) {
        Ok(items) => items,
        Err(e) => return Err(e),
    };
    let end = start + MACRO_ITEM_LENGTH * item_count;
    Ok(
        (
            NgenuityMacro {
                source_id,
                name,
                use_standard_timing: standard != 0,
                standard_timing_ms,
                expanded: expanded != 0,
                playback_mode,
                play_times,
                items,
            },
            end,
        ),
    )
}

fn read_macros_from(payload: &[u8], first: usize, count: usize) -> (res: Result<
    Vec<NgenuityMacro>,
    NgenuityPresetError,
>)
    requires
        first <= payload@.len() <= isize::MAX,
        count <= 1024,
    ensures
        match macros_from(payload@, first as int, count as nat, seq![]) {
            Ok(v) => res matches Ok(ms) && ms@.map_values(|m: NgenuityMacro| m@) == v,
            Err(e) => res == Err::<Vec<NgenuityMacro>, NgenuityPresetError>(e),
        },
{
    let mut macros: Vec<NgenuityMacro> = Vec::new();
    let mut offset = first;
    let mut k: usize = 0;
    assert(macros@.map_values(|m: NgenuityMacro| m@) =~= Seq::<NgenuityMacroView>::empty());
    while k < count
        invariant
            payload@.len() <= isize::MAX,
            count <= 1024,
            k <= count,
            offset <= payload@.len(),
            macros_from(payload@, first as int, count as nat, seq![]) == macros_from(
                payload@,
                offset as int,
                (count - k) as nat,
                macros@.map_values(|m: NgenuityMacro| m@),
            ),
        decreases count - k,
    {
        let (m, end) = match read_macro(payload, offset) {
            Ok(pair) => pair,
            Err(e) => return Err(e),
        };
        let ghost before = macros@.map_values(|m: NgenuityMacro| m@);
        macros.push(m);
        assert(macros@.map_values(|m: NgenuityMacro| m@) =~= before.push(m@));
        offset = end;
        k += 1;
    }
    Ok(macros)
}

fn parse_macros(payload: &[u8]) -> (res: Result<Vec<NgenuityMacro>, NgenuityPresetError>)
    requires
        payload@.len() <= isize::MAX,
    ensures
        match macros_spec(payload@) {
            Ok(v) => res matches Ok(ms) && ms@.map_values(|m: NgenuityMacro| m@) == v,
            Err(e) => res == Err::<Vec<NgenuityMacro>, NgenuityPresetError>(e),
        },
{
    reveal(macros_spec);
    let first = match find_header(payload, HEADER_MACRO) {
        Some(first) => first,
        None => {
            let empty: Vec<NgenuityMacro> = Vec::new();
            assert(empty@.map_values(|m: NgenuityMacro| m@) =~= Seq::<NgenuityMacroView>::empty());
            return Ok(empty);
        },
    };
    if first < 4 {
        return Err(NgenuityPresetError::Truncated { context: "macro count", offset: first });
    }
    let count = match read_u32(payload, first - 4, "macro count") {
        Ok(count) => count as usize,
        Err(e) => return Err(e),
    };
    if let Err(e) = validate_count("macros", count) {
        return Err(e);
    }
    read_macros_from(payload, first, count)
}



/// Whether `id` occurs as sixteen consecutive bytes of `record`.
pub open spec fn contains_id(record: Seq<u8>, id: Seq<u8>) -> bool {
    exists|i: int| 0 <= i && i + 16 <= record.len() && #[trigger] record.subrange(i, i + 16) == id
}

/// The identifier of the first macro from `k` on whose identifier occurs in
/// `record`.
pub open spec fn first_referenced_macro(record: Seq<u8>, macros: Seq<NgenuityMacroView>, k: nat) -> Option<
    Seq<u8>,
>
    decreases macros.len() - k,
{
    if k >= macros.len() {
        None
    } else if contains_id(record, macros[k as int].source_id) {
        Some(macros[k as int].source_id)
    } else {
        first_referenced_macro(record, macros, k + 1)
    }
}

/// The key assignment record at `offset`.
#[verifier::opaque]
pub open spec fn key_assignment_spec(p: Seq<u8>, offset: int, macros: Seq<NgenuityMacroView>) -> Result<
    NgenuityKeyAssignmentView,
    NgenuityPresetError,
> {
    match expect_header_spec(p, offset, HEADER_KEY_ASSIGNMENT, "key assignment") {
        Err(e) => Err(e),
        Ok(_) => if !available(p, offset, 93) {
            truncated("key assignment", offset)
        } else {
            match read_id_spec(p, offset + 4, "key assignment identifier") {
                Err(e) => Err(e),
                Ok(source_id) => Ok(
                    NgenuityKeyAssignmentView {
                        source_id,
                        macro_source_id: first_referenced_macro(
                            p.subrange(offset, offset + 93),
                            macros,
                            0,
                        ),
                    },
                ),
            }
        },
    }
}

/// Key assignment records `index..count` from `first`, appended to `acc`.
pub open spec fn key_assignments_from(
    p: Seq<u8>,
    first: int,
    count: nat,
    index: nat,
    macros: Seq<NgenuityMacroView>,
    acc: Seq<NgenuityKeyAssignmentView>,
) -> Result<Seq<NgenuityKeyAssignmentView>, NgenuityPresetError>
    decreases count - index,
{
    if index >= count {
        Ok(acc)
    } else {
        match key_assignment_spec(p, first + 93 * index, macros) {
            Err(e) => Err(e),
            Ok(a) => key_assignments_from(p, first, count, index + 1, macros, acc.push(a)),
        }
    }
}

/// The key assignment collection; none when no assignment header occurs.
#[verifier::opaque]
pub open spec fn key_assignments_spec(p: Seq<u8>, macros: Seq<NgenuityMacroView>) -> Result<
    Seq<NgenuityKeyAssignmentView>,
    NgenuityPresetError,
> {
    match find_header_spec(p, HEADER_KEY_ASSIGNMENT) {
        None => Ok(seq![]),
        Some(first) => if first < 4 {
            truncated("key assignment count", first)
        } else {
            match read_u32_spec(p, first - 4, "key assignment count") {
                Err(e) => Err(e),
                Ok(count) => match validate_count_spec("key assignments", count as int) {
                    Err(e) => Err(e),
                    Ok(_) => key_assignments_from(p, first, count as nat, 0, macros, seq![]),
                },
            }
        },
    }
}

/// Whether `id` occurs in `p[start..start + length]`.
fn record_contains_id(p: &[u8], start: usize, length: usize, id: &[u8; 16]) -> (found: bool)
    requires
        start + length <= p@.len(),
    ensures
        found == contains_id(p@.subrange(start as int, start + length), id@),
{
    let ghost record = p@.subrange(start as int, start + length);
    if length < 16 {
        return false;
    }
    let mut i: usize = 0;
    while i <= length - 16
        invariant
            length >= 16,
            start + length <= p@.len(),
            record == p@.subrange(start as int, start + length),
            forall|j: int| 0 <= j < i ==> #[trigger] record.subrange(j, j + 16) != id@,
        decreases length - 16 - i + 1,
    {
        let mut same = true;
        let mut k: usize = 0;
        while k < 16
            invariant
                length >= 16,
                i <= length - 16,
                start + length <= p.len(),
                k <= 16,
                same == forall|m: int| 0 <= m < k ==> p@[start + i + m] == id@[m],
            decreases 16 - k,
        {
            if p[start + i + k] != id[k] {
                same = false;
            }
            k += 1;
        }
        if same {
            assert(record.subrange(i as int, i + 16) =~= id@);
            return true;
        }
        assert(p@[start + i + 0] == record.subrange(i as int, i + 16)[0]);
        assert(record.subrange(i as int, i + 16) != id@) by {
            let m = choose|m: int| 0 <= m < 16 && p@[start + i + m] != id@[m];
            assert(record.subrange(i as int, i + 16)[m] == p@[start + i + m]);
        }
        i += 1;
    }
    false
}

/// The identifier of the first macro whose identifier occurs in the record.
fn referenced_macro(p: &[u8], start: usize, macros: &[NgenuityMacro]) -> (found: Option<[u8; 16]>)
    requires
        start + 93 <= p@.len(),
    ensures
        match first_referenced_macro(
            p@.subrange(start as int, start + 93),
            macros@.map_values(|m: NgenuityMacro| m@),
            0,
        ) {
            Some(id) => found matches Some(f) && f@ == id,
            None => found is None,
        },
{
    let ghost views = macros@.map_values(|m: NgenuityMacro| m@);
    let ghost record = p@.subrange(start as int, start + 93);
    let mut k: usize = 0;
    while k < macros.len()
        invariant
            start + 93 <= p@.len(),
            views == macros@.map_values(|m: NgenuityMacro| m@),
            record == p@.subrange(start as int, start + 93),
            k <= macros@.len(),
            first_referenced_macro(record, views, 0) == first_referenced_macro(
                record,
                views,
                k as nat,
            ),
        decreases macros.len() - k,
    {
        if record_contains_id(p, start, 93, &macros[k].source_id) {
            return Some(macros[k].source_id);
        }
        k += 1;
    }
    None
}

fn read_key_assignment(p: &[u8], offset: usize, macros: &[NgenuityMacro]) -> (res: Result<
    NgenuityKeyAssignment,
    NgenuityPresetError,
>)
    requires
        offset <= p@.len() <= isize::MAX,
    ensures
        match key_assignment_spec(p@, offset as int, macros@.map_values(|m: NgenuityMacro| m@)) {
            Ok(v) => res matches Ok(a) && a@ == v,
            Err(e) => res == Err::<NgenuityKeyAssignment, NgenuityPresetError>(e),
        },
        res is Ok ==> offset + 93 <= p@.len(),
{
    reveal(key_assignment_spec);
    expect_header(p, offset, HEADER_KEY_ASSIGNMENT, "key assignment")?;
    if 93 > p.len() - offset {
        return Err(NgenuityPresetError::Truncated { context: "key assignment", offset });
    }
    let source_id = read_id(p, offset + 4, "key assignment identifier")?;
    let macro_source_id = referenced_macro(p, offset, macros);
    Ok(NgenuityKeyAssignment { source_id, macro_source_id })
}

fn read_key_assignments_from(
    payload: &[u8],
    first: usize,
    count: usize,
    macros: &[NgenuityMacro],
) -> (res: Result<Vec<NgenuityKeyAssignment>, NgenuityPresetError>)
    requires
        first <= payload@.len() <= isize::MAX,
        count <= 1024,
    ensures
        match key_assignments_from(
            payload@,
            first as int,
            count as nat,
            0,
            macros@.map_values(|m: NgenuityMacro| m@),
            seq![],
        ) {
            Ok(v) => res matches Ok(a) && a@.map_values(|x: NgenuityKeyAssignment| x@) == v,
            Err(e) => res == Err::<Vec<NgenuityKeyAssignment>, NgenuityPresetError>(e),
        },
{
    let ghost views = macros@.map_values(|m: NgenuityMacro| m@);
    let mut assignments: Vec<NgenuityKeyAssignment> = Vec::new();
    let mut index: usize = 0;
    assert(assignments@.map_values(|x: NgenuityKeyAssignment| x@) =~= Seq::<NgenuityKeyAssignmentView>::empty());
    while index < count
        invariant
            payload@.len() <= isize::MAX,
            first <= payload@.len(),
            count <= 1024,
            index <= count,
            views == macros@.map_values(|m: NgenuityMacro| m@),
            first + 93 * index <= payload@.len(),
            key_assignments_from(payload@, first as int, count as nat, 0, views, seq![])
                == key_assignments_from(
                payload@,
                first as int,
                count as nat,
                index as nat,
                views,
                assignments@.map_values(|x: NgenuityKeyAssignment| x@),
            ),
        decreases count - index,
    {
        let offset = first + KEY_ASSIGNMENT_LENGTH * index;
        let a = match read_key_assignment(payload, offset, macros) {
            Ok(a) => a,
            Err(e) => return Err(e),
        };
        let ghost before = assignments@.map_values(|x: NgenuityKeyAssignment| x@);
        assignments.push(a);
        assert(assignments@.map_values(|x: NgenuityKeyAssignment| x@) =~= before.push(a@));
        index += 1;
    }
    Ok(assignments)
}

fn parse_key_assignments(payload: &[u8], macros: &[NgenuityMacro]) -> (res: Result<
    Vec<NgenuityKeyAssignment>,
    NgenuityPresetError,
>)
    requires
        payload@.len() <= isize::MAX,
    ensures
        match key_assignments_spec(payload@, macros@.map_values(|m: NgenuityMacro| m@)) {
            Ok(v) => res matches Ok(a) && a@.map_values(|x: NgenuityKeyAssignment| x@) == v,
            Err(e) => res == Err::<Vec<NgenuityKeyAssignment>, NgenuityPresetError>(e),
        },
{
    reveal(key_assignments_spec);
    let first = match find_header(payload, HEADER_KEY_ASSIGNMENT) {
        Some(first) => first,
        None => {
            let empty: Vec<NgenuityKeyAssignment> = Vec::new();
            assert(empty@.map_values(|x: NgenuityKeyAssignment| x@) =~= Seq::<NgenuityKeyAssignmentView>::empty());
            return Ok(empty);
        },
    };
    if first < 4 {
        return Err(
            NgenuityPresetError::Truncated { context: "key assignment count", offset: first },
        );
    }
    let count = match read_u32(payload, first - 4, "key assignment count") {
        Ok(count) => count as usize,
        Err(e) => return Err(e),
    };
    if let Err(e) = validate_count("key assignments", count) {
        return Err(e);
    }
    read_key_assignments_from(payload, first, count, macros)
}


/// The DPI record at `offset`.
#[verifier::opaque]
pub open spec fn dpi_stage_spec(p: Seq<u8>, offset: int) -> Result<NgenuityDpiStageView, NgenuityPresetError> {
    match read_id_spec(p, offset, "DPI stage identifier") {
        Err(e) => Err(e),
        Ok(source_id) => match read_u32_spec(p, offset + 16, "DPI value") {
            Err(e) => Err(e),
            Ok(dpi) => if !available(p, offset + 36, 4) {
                truncated("DPI stage color", offset + 36)
            } else {
                Ok(
                    NgenuityDpiStageView {
                        source_id,
                        dpi,
                        alpha: p[offset + 36],
                        color: RgbColor { red: p[offset + 37], green: p[offset + 38], blue: p[offset + 39] },
                    },
                )
            },
        },
    }
}

/// DPI records `index..count` of the mouse block at `mouse`, appended to
/// `acc`.
pub open spec fn dpi_stages_from(
    p: Seq<u8>,
    mouse: int,
    count: nat,
    index: nat,
    acc: Seq<NgenuityDpiStageView>,
) -> Result<Seq<NgenuityDpiStageView>, NgenuityPresetError>
    decreases count - index,
{
    if index >= count {
        Ok(acc)
    } else {
        match dpi_stage_spec(p, mouse + 33 + 64 * index) {
            Err(e) => Err(e),
            Ok(stage) => dpi_stages_from(p, mouse, count, index + 1, acc.push(stage)),
        }
    }
}

/// The container and the embedded preset bytes: an export wraps the preset
/// after a length; an internal preset is the bytes themselves.
pub open spec fn embedded_payload_spec(bytes: Seq<u8>) -> Result<
    (NgenuityContainer, Seq<u8>),
    NgenuityPresetError,
> {
    match read_u32_spec(bytes, 0, "container header") {
        Err(e) => Err(e),
        Ok(header) => if header == HEADER_ALL {
            match read_u32_spec(bytes, 4, "embedded preset length") {
                Err(e) => Err(e),
                Ok(length) => {
                    let available = if bytes.len() >= 8 {
                        bytes.len() - 8
                    } else {
                        0
                    };
                    if length > available {
                        Err(
                            NgenuityPresetError::InvalidEmbeddedLength {
                                declared: length as usize,
                                available: available as usize,
                            },
                        )
                    } else {
                        Ok((NgenuityContainer::Export, bytes.subrange(8, 8 + length)))
                    }
                },
            }
        } else if header == HEADER_PRESET {
            Ok((NgenuityContainer::InternalPreset, bytes))
        } else {
            Err(NgenuityPresetError::UnknownHeader(header))
        },
    }
}

/// The preset header, version and name, and the offset of the mouse block.
#[verifier::opaque]
pub open spec fn preset_head_spec(p: Seq<u8>) -> Result<(u32, Seq<char>, int), NgenuityPresetError> {
    match expect_header_spec(p, 0, HEADER_PRESET, "preset") {
        Err(e) => Err(e),
        Ok(_) => match read_u32_spec(p, 4, "preset version") {
            Err(e) => Err(e),
            Ok(version) => if version != 40 {
                Err(NgenuityPresetError::UnsupportedVersion(version))
            } else {
                match read_string_spec(p, 16, "preset name") {
                    Err(e) => Err(e),
                    Ok((name, _)) => match find_header_spec(p, HEADER_MOUSE_PRESET) {
                        None => Err(NgenuityPresetError::MissingMousePreset),
                        Some(mouse) => Ok((version, name, mouse)),
                    },
                }
            },
        },
    }
}

/// The preset decoded from the embedded bytes `p` of a container.
#[verifier::opaque]
pub open spec fn preset_body_spec(container: NgenuityContainer, p: Seq<u8>) -> Result<
    NgenuityPresetView,
    NgenuityPresetError,
> {
    match preset_head_spec(p) {
        Err(e) => Err(e),
        Ok((version, name, mouse)) => match read_u32_spec(p, mouse + 29, "DPI stage count") {
                            Err(e) => Err(e),
                            Ok(count) => match validate_count_spec("DPI stages", count as int) {
                                Err(e) => Err(e),
                                Ok(_) => match dpi_stages_from(p, mouse, count as nat, 0, seq![]) {
                                    Err(e) => Err(e),
                                    Ok(dpi_stages) => match read_u32_spec(
                                        p,
                                        mouse + 33 + 64 * count,
                                        "active DPI stage",
                                    ) {
                                        Err(e) => Err(e),
                                        Ok(active_dpi_stage) => match macros_spec(p) {
                                            Err(e) => Err(e),
                                            Ok(macros) => match key_assignments_spec(p, macros) {
                                                Err(e) => Err(e),
                                                Ok(key_assignments) => Ok(
                                                    NgenuityPresetView {
                                                        container,
                                                        embedded_length: p.len() as usize,
                                                        version,
                                                        name,
                                                        dpi_stages,
                                                        active_dpi_stage,
                                                        macros,
                                                        key_assignments,
                                                    },
                                                ),
                                            },
                                        },
                                    },
                                },
                            },
                        },
    }
}

/// The preset decoded from a file's bytes.
pub open spec fn preset_spec(bytes: Seq<u8>) -> Result<NgenuityPresetView, NgenuityPresetError> {
    match embedded_payload_spec(bytes) {
        Err(e) => Err(e),
        Ok((container, p)) => preset_body_spec(container, p),
    }
}

fn read_dpi_stage(p: &[u8], offset: usize) -> (res: Result<NgenuityDpiStage, NgenuityPresetError>)
    requires
        offset <= p@.len() <= isize::MAX,
    ensures
        match dpi_stage_spec(p@, offset as int) {
            Ok(v) => res matches Ok(d) && d@ == v,
            Err(e) => res == Err::<NgenuityDpiStage, NgenuityPresetError>(e),
        },
        res is Ok ==> offset + 40 <= p@.len(),
{
    reveal(dpi_stage_spec);
    let source_id = read_id(p, offset, "DPI stage identifier")?;
    let dpi = read_u32(p, offset + 16, "DPI value")?;
    let color_offset = offset + 36;
    if color_offset > p.len() || 4 > p.len() - color_offset {
        return Err(NgenuityPresetError::Truncated { context: "DPI stage color", offset: color_offset });
    }
    Ok(
        NgenuityDpiStage {
            source_id,
            dpi,
            alpha: p[color_offset],
            color: RgbColor::new(p[color_offset + 1], p[color_offset + 2], p[color_offset + 3]),
        },
    )
}

fn read_dpi_stages(p: &[u8], mouse: usize, count: usize) -> (res: Result<
    Vec<NgenuityDpiStage>,
    NgenuityPresetError,
>)
    requires
        mouse <= p@.len() <= isize::MAX,
        count <= 1024,
    ensures
        match dpi_stages_from(p@, mouse as int, count as nat, 0, seq![]) {
            Ok(v) => res matches Ok(d) && d@.map_values(|x: NgenuityDpiStage| x@) == v,
            Err(e) => res == Err::<Vec<NgenuityDpiStage>, NgenuityPresetError>(e),
        },
{
    let mut stages: Vec<NgenuityDpiStage> = Vec::new();
    let mut index: usize = 0;
    assert(stages@.map_values(|x: NgenuityDpiStage| x@) =~= Seq::<NgenuityDpiStageView>::empty());
    while index < count
        invariant
            p@.len() <= isize::MAX,
            mouse <= p@.len(),
            count <= 1024,
            index <= count,
            index > 0 ==> mouse + 33 + 64 * index <= p@.len() + 24,
            dpi_stages_from(p@, mouse as int, count as nat, 0, seq![]) == dpi_stages_from(
                p@,
                mouse as int,
                count as nat,
                index as nat,
                stages@.map_values(|x: NgenuityDpiStage| x@),
            ),
        decreases count - index,
    {
        let offset = mouse + DPI_RECORD_OFFSET + DPI_RECORD_LENGTH * index;
        if offset > p.len() {
            proof {
                reveal(dpi_stage_spec);
            }
            return Err(NgenuityPresetError::Truncated { context: "DPI stage identifier", offset });
        }
        let stage = match read_dpi_stage(p, offset) {
            Ok(stage) => stage,
            Err(e) => return Err(e),
        };
        let ghost before = stages@.map_values(|x: NgenuityDpiStage| x@);
        stages.push(stage);
        assert(stages@.map_values(|x: NgenuityDpiStage| x@) =~= before.push(stage@));
        index += 1;
    }
    Ok(stages)
}

fn unwrap_container(bytes: &[u8]) -> (res: Result<(NgenuityContainer, Vec<u8>), NgenuityPresetError>)
    ensures
        match embedded_payload_spec(bytes@) {
            Ok((container, p)) => res matches Ok((c, q)) && c == container && q@ == p,
            Err(e) => res == Err::<(NgenuityContainer, Vec<u8>), NgenuityPresetError>(e),
        },
{
    let outer = read_u32(bytes, 0, "container header")?;
    if outer == HEADER_ALL {
        let length = read_u32(bytes, 4, "embedded preset length")? as usize;
        let available = if bytes.len() >= 8 {
            bytes.len() - 8
        } else {
            0
        };
        if length > available {
            return Err(NgenuityPresetError::InvalidEmbeddedLength { declared: length, available });
        }
        Ok((NgenuityContainer::Export, copy_bytes(bytes, 8, length)))
    } else if outer == HEADER_PRESET {
        Ok((NgenuityContainer::InternalPreset, copy_bytes(bytes, 0, bytes.len())))
    } else {
        Err(NgenuityPresetError::UnknownHeader(outer))
    }
}

/// The embedded preset bytes of an export, or the bytes of an internal
/// preset.
pub fn ngenuity_embedded_payload(bytes: &[u8]) -> (res: Result<Vec<u8>, NgenuityPresetError>)
    ensures
        match embedded_payload_spec(bytes@) {
            Ok((_, p)) => res matches Ok(q) && q@ == p,
            Err(e) => res == Err::<Vec<u8>, NgenuityPresetError>(e),
        },
{
    match unwrap_container(bytes) {
        Ok((_, payload)) => Ok(payload),
        Err(e) => Err(e),
    }
}

fn read_preset_head(payload: &[u8]) -> (res: Result<(u32, String, usize), NgenuityPresetError>)
    requires
        payload@.len() <= isize::MAX,
    ensures
        match preset_head_spec(payload@) {
            Ok((version, name, mouse)) => res matches Ok((v, n, m)) && v == version && n@ == name
                && m == mouse && m + 4 <= payload@.len(),
            Err(e) => res == Err::<(u32, String, usize), NgenuityPresetError>(e),
        },
{
    reveal(preset_head_spec);
    expect_header(payload, 0, HEADER_PRESET, "preset")?;
    let version = read_u32(payload, 4, "preset version")?;
    if version != SUPPORTED_PRESET_VERSION {
        return Err(NgenuityPresetError::UnsupportedVersion(version));
    }
    let (name, _) = match read_string(payload, 16, "preset name") {
        Ok(pair) => pair,
        Err(e) => return Err(e),
    };
    let mouse = match find_header(payload, HEADER_MOUSE_PRESET) {
        Some(mouse) => mouse,
        None => return Err(NgenuityPresetError::MissingMousePreset),
    };
    Ok((version, name, mouse))
}

#[verifier::rlimit(60)]
fn parse_preset_body(container: NgenuityContainer, payload: &[u8]) -> (res: Result<
    NgenuityPreset,
    NgenuityPresetError,
>)
    requires
        payload@.len() <= isize::MAX,
    ensures
        match preset_body_spec(container, payload@) {
            Ok(v) => res matches Ok(preset) && preset@ == v,
            Err(e) => res == Err::<NgenuityPreset, NgenuityPresetError>(e),
        },
{
    reveal(preset_body_spec);
    let (version, name, mouse) = match read_preset_head(payload) {
        Ok(head) => head,
        Err(e) => return Err(e),
    };
    let dpi_count = match read_u32(payload, mouse + DPI_COUNT_OFFSET, "DPI stage count") {
        Ok(count) => count as usize,
        Err(e) => return Err(e),
    };
    if let Err(e) = validate_count("DPI stages", dpi_count) {
        return Err(e);
    }
    let dpi_stages = match read_dpi_stages(payload, mouse, dpi_count) {
        Ok(stages) => stages,
        Err(e) => return Err(e),
    };
    let active_offset = mouse + DPI_RECORD_OFFSET + DPI_RECORD_LENGTH * dpi_count;
    let active_dpi_stage = read_u32(payload, active_offset, "active DPI stage")?;
    let macros = match parse_macros(payload) {
        Ok(macros) => macros,
        Err(e) => return Err(e),
    };
    let key_assignments = match parse_key_assignments(payload, macros.as_slice()) {
        Ok(a) => a,
        Err(e) => return Err(e),
    };
    Ok(
        NgenuityPreset {
            container,
            embedded_length: payload.len(),
            version,
            name,
            dpi_stages,
            active_dpi_stage,
            macros,
            key_assignments,
        },
    )
}

/// Decode a preset file: the container, the preset header and version, the
/// name, the DPI records and active stage, the macros and the key
/// assignments.
pub fn parse_ngenuity_preset(bytes: &[u8]) -> (res: Result<NgenuityPreset, NgenuityPresetError>)
    requires
        bytes@.len() <= isize::MAX,
    ensures
        match preset_spec(bytes@) {
            Ok(v) => res matches Ok(preset) && preset@ == v,
            Err(e) => res == Err::<NgenuityPreset, NgenuityPresetError>(e),
        },
{
    let (container, payload) = match unwrap_container(bytes) {
        Ok(pair) => pair,
        Err(e) => return Err(e),
    };
    parse_preset_body(container, payload.as_slice())
}


/// Why a decoded preset could not be imported.
#[derive(Clone, Debug, PartialEq, Eq)]
pub enum NgenuityImportError {
    UnsupportedPlayback { name: String, mode: u32 },
    UnsupportedMacroItem { name: String, event: usize, item_type: u32, action: u8, state: u8 },
    UnknownKeyboardUsage { name: String, event: usize, usage: u16 },
    TimingOutOfRange { name: String, event: usize, timing_ms: u32 },
}

/// Lower-case hexadecimal text of a byte sequence, two digits per byte.
pub open spec fn hex_lower_bytes(bytes: Seq<u8>) -> Seq<char>
    decreases bytes.len(),
{
    if bytes.len() == 0 {
        seq![]
    } else {
        hex_lower_bytes(bytes.drop_last()) + byte_hex_lower(bytes.last())
    }
}

/// The 32-digit lower-case hexadecimal form of a source identifier.
pub fn format_ngenuity_id(id: &[u8; 16]) -> (text: String)
    ensures
        text@ == hex_lower_bytes(id@),
{
    let mut text = String::new();
    let mut i: usize = 0;
    while i < 16
        invariant
            i <= 16,
            text@ == hex_lower_bytes(id@.take(i as int)),
        decreases 16 - i,
    {
        push_byte_hex_lower(&mut text, id[i]);
        i += 1;
        assert(id@.take(i as int).drop_last() =~= id@.take(i - 1));
    }
    assert(id@.take(16) =~= id@);
    text
}

/// The name of a mouse button in macro files.
pub open spec fn mouse_button_name(button: NgenuityMouseButton) -> Seq<char> {
    match button {
        NgenuityMouseButton::Left => "left"@,
        NgenuityMouseButton::Right => "right"@,
        NgenuityMouseButton::Middle => "middle"@,
    }
}

impl NgenuityMouseButton {
    pub fn name(self) -> (name: &'static str)
        ensures
            name@ == mouse_button_name(self),
    {
        match self {
            NgenuityMouseButton::Left => "left",
            NgenuityMouseButton::Right => "right",
            NgenuityMouseButton::Middle => "middle",
        }
    }
}

/// The delay of an event: the macro's standard timing when it is used,
/// else the event's own timing.
pub open spec fn effective_timing(m: NgenuityMacroView, item: NgenuityMacroItemView) -> u32 {
    if m.use_standard_timing {
        m.standard_timing_ms
    } else {
        item.timing_ms
    }
}

impl NgenuityMacro {
    pub fn effective_timing_ms(&self, item: &NgenuityMacroItem) -> (timing: u32)
        ensures
            timing == effective_timing(self@, item@),
    {
        if self.use_standard_timing {
            self.standard_timing_ms
        } else {
            item.timing_ms
        }
    }
}

/// The input action of a recorded event, for the confirmed type, action
/// and state triples.
pub open spec fn decoded_action_spec(item: NgenuityMacroItemView) -> Option<NgenuityInputAction> {
    if item.item_type == 1 && item.action == 0 && item.state == 1 {
        Some(NgenuityInputAction::Keyboard { usage: item.key_data, pressed: true })
    } else if item.item_type == 1 && item.action == 1 && item.state == 1 {
        Some(NgenuityInputAction::Keyboard { usage: item.key_data, pressed: false })
    } else if item.item_type == 2 && item.state == 2 && item.action == 1 {
        Some(NgenuityInputAction::MouseButton { button: NgenuityMouseButton::Left, pressed: true })
    } else if item.item_type == 2 && item.state == 2 && item.action == 2 {
        Some(NgenuityInputAction::MouseButton { button: NgenuityMouseButton::Left, pressed: false })
    } else if item.item_type == 2 && item.state == 2 && item.action == 4 {
        Some(NgenuityInputAction::MouseButton { button: NgenuityMouseButton::Right, pressed: true })
    } else if item.item_type == 2 && item.state == 2 && item.action == 5 {
        Some(NgenuityInputAction::MouseButton { button: NgenuityMouseButton::Right, pressed: false })
    } else if item.item_type == 2 && item.state == 2 && item.action == 7 {
        Some(NgenuityInputAction::MouseButton { button: NgenuityMouseButton::Middle, pressed: true })
    } else if item.item_type == 2 && item.state == 2 && item.action == 8 {
        Some(NgenuityInputAction::MouseButton { button: NgenuityMouseButton::Middle, pressed: false })
    } else {
        None
    }
}

impl NgenuityMacroItem {
    pub fn decoded_action(&self) -> (action: Option<NgenuityInputAction>)
        ensures
            action == decoded_action_spec(self@),
    {
        match (self.item_type, self.action, self.state) {
            (1, 0, 1) => Some(NgenuityInputAction::Keyboard { usage: self.key_data, pressed: true }),
            (1, 1, 1) => Some(NgenuityInputAction::Keyboard { usage: self.key_data, pressed: false }),
            (2, 1, 2) => Some(
                NgenuityInputAction::MouseButton { button: NgenuityMouseButton::Left, pressed: true },
            ),
            (2, 2, 2) => Some(
                NgenuityInputAction::MouseButton { button: NgenuityMouseButton::Left, pressed: false },
            ),
            (2, 4, 2) => Some(
                NgenuityInputAction::MouseButton { button: NgenuityMouseButton::Right, pressed: true },
            ),
            (2, 5, 2) => Some(
                NgenuityInputAction::MouseButton { button: NgenuityMouseButton::Right, pressed: false },
            ),
            (2, 7, 2) => Some(
                NgenuityInputAction::MouseButton { button: NgenuityMouseButton::Middle, pressed: true },
            ),
            (2, 8, 2) => Some(
                NgenuityInputAction::MouseButton { button: NgenuityMouseButton::Middle, pressed: false },
            ),
            _ => None,
        }
    }
}

/// The canonical macro-file name of a HID keyboard usage, if it has one.
pub open spec fn usage_name(usage: u16) -> Option<Seq<char>> {
    if 0x04 <= usage <= 0x1D {
        Some(seq![(97 + usage - 4) as char])
    } else if 0x1E <= usage <= 0x26 {
        Some(decimal_chars((usage - 0x1E + 1) as nat))
    } else if usage == 0x27 {
        Some("0"@)
    } else if 0x3A <= usage <= 0x45 {
        Some("f"@ + decimal_chars((usage - 0x3A + 1) as nat))
    } else if 0x59 <= usage <= 0x61 {
        Some("keypad-"@ + decimal_chars((usage - 0x59 + 1) as nat))
    } else if 0x68 <= usage <= 0x73 {
        Some("f"@ + decimal_chars((usage - 0x68 + 13) as nat))
    } else {
        match fixed_usage_name(usage) {
            Some(name) => Some(name@),
            None => None,
        }
    }
}

/// Names of the usages outside the numbered ranges.
pub open spec fn fixed_usage_name(usage: u16) -> Option<&'static str> {
    if usage == 0x28 { Some("enter") }
    else if usage == 0x29 { Some("escape") }
    else if usage == 0x2A { Some("backspace") }
    else if usage == 0x2B { Some("tab") }
    else if usage == 0x2C { Some("space") }
    else if usage == 0x2D { Some("minus") }
    else if usage == 0x2E { Some("equal") }
    else if usage == 0x2F { Some("left-bracket") }
    else if usage == 0x30 { Some("right-bracket") }
    else if usage == 0x31 { Some("backslash") }
    else if usage == 0x32 { Some("non-us-hash") }
    else if usage == 0x33 { Some("semicolon") }
    else if usage == 0x34 { Some("apostrophe") }
    else if usage == 0x35 { Some("grave") }
    else if usage == 0x36 { Some("comma") }
    else if usage == 0x37 { Some("period") }
    else if usage == 0x38 { Some("slash") }
    else if usage == 0x39 { Some("caps-lock") }
    else if usage == 0x46 { Some("print-screen") }
    else if usage == 0x47 { Some("scroll-lock") }
    else if usage == 0x48 { Some("pause") }
    else if usage == 0x49 { Some("insert") }
    else if usage == 0x4A { Some("home") }
    else if usage == 0x4B { Some("page-up") }
    else if usage == 0x4C { Some("delete") }
    else if usage == 0x4D { Some("end") }
    else if usage == 0x4E { Some("page-down") }
    else if usage == 0x4F { Some("arrow-right") }
    else if usage == 0x50 { Some("arrow-left") }
    else if usage == 0x51 { Some("arrow-down") }
    else if usage == 0x52 { Some("arrow-up") }
    else if usage == 0x53 { Some("num-lock") }
    else if usage == 0x54 { Some("keypad-divide") }
    else if usage == 0x55 { Some("keypad-multiply") }
    else if usage == 0x56 { Some("keypad-subtract") }
    else if usage == 0x57 { Some("keypad-add") }
    else if usage == 0x58 { Some("keypad-enter") }
    else if usage == 0x62 { Some("keypad-0") }
    else if usage == 0x63 { Some("keypad-decimal") }
    else if usage == 0x64 { Some("non-us-backslash") }
    else if usage == 0x65 { Some("application") }
    else if usage == 0x66 { Some("power") }
    else if usage == 0x67 { Some("keypad-equal") }
    else if usage == 0xE0 { Some("left-control") }
    else if usage == 0xE1 { Some("left-shift") }
    else if usage == 0xE2 { Some("left-alt") }
    else if usage == 0xE3 { Some("left-windows") }
    else if usage == 0xE4 { Some("right-control") }
    else if usage == 0xE5 { Some("right-shift") }
    else if usage == 0xE6 { Some("right-alt") }
    else if usage == 0xE7 { Some("right-windows") }
    else { None }
}

fn fixed_usage_name_str(usage: u16) -> (name: Option<&'static str>)
    ensures
        name == fixed_usage_name(usage),
{
    match usage {
        0x28 => Some("enter"),
        0x29 => Some("escape"),
        0x2A => Some("backspace"),
        0x2B => Some("tab"),
        0x2C => Some("space"),
        0x2D => Some("minus"),
        0x2E => Some("equal"),
        0x2F => Some("left-bracket"),
        0x30 => Some("right-bracket"),
        0x31 => Some("backslash"),
        0x32 => Some("non-us-hash"),
        0x33 => Some("semicolon"),
        0x34 => Some("apostrophe"),
        0x35 => Some("grave"),
        0x36 => Some("comma"),
        0x37 => Some("period"),
        0x38 => Some("slash"),
        0x39 => Some("caps-lock"),
        0x46 => Some("print-screen"),
        0x47 => Some("scroll-lock"),
        0x48 => Some("pause"),
        0x49 => Some("insert"),
        0x4A => Some("home"),
        0x4B => Some("page-up"),
        0x4C => Some("delete"),
        0x4D => Some("end"),
        0x4E => Some("page-down"),
        0x4F => Some("arrow-right"),
        0x50 => Some("arrow-left"),
        0x51 => Some("arrow-down"),
        0x52 => Some("arrow-up"),
        0x53 => Some("num-lock"),
        0x54 => Some("keypad-divide"),
        0x55 => Some("keypad-multiply"),
        0x56 => Some("keypad-subtract"),
        0x57 => Some("keypad-add"),
        0x58 => Some("keypad-enter"),
        0x62 => Some("keypad-0"),
        0x63 => Some("keypad-decimal"),
        0x64 => Some("non-us-backslash"),
        0x65 => Some("application"),
        0x66 => Some("power"),
        0x67 => Some("keypad-equal"),
        0xE0 => Some("left-control"),
        0xE1 => Some("left-shift"),
        0xE2 => Some("left-alt"),
        0xE3 => Some("left-windows"),
        0xE4 => Some("right-control"),
        0xE5 => Some("right-shift"),
        0xE6 => Some("right-alt"),
        0xE7 => Some("right-windows"),
        _ => None,
    }
}

/// The canonical macro-file name of a HID keyboard usage, if it has one.
pub fn keyboard_usage_name(usage: u16) -> (name: Option<String>)
    ensures
        match usage_name(usage) {
            Some(n) => name matches Some(s) && s@ == n,
            None => name is None,
        },
{
    let mut text = String::new();
    if 0x04 <= usage && usage <= 0x1D {
        let c = ((97 + usage - 4) as u8) as char;
        string_push(&mut text, c);
        assert(text@ =~= seq![(97 + usage - 4) as char]);
        return Some(text);
    }
    if 0x1E <= usage && usage <= 0x26 {
        push_decimal(&mut text, (usage - 0x1E + 1) as u64);
        assert(text@ =~= decimal_chars((usage - 0x1E + 1) as nat));
        return Some(text);
    }
    if usage == 0x27 {
        string_push_str(&mut text, "0");
        return Some(text);
    }
    if 0x3A <= usage && usage <= 0x45 {
        string_push_str(&mut text, "f");
        push_decimal(&mut text, (usage - 0x3A + 1) as u64);
        return Some(text);
    }
    if 0x59 <= usage && usage <= 0x61 {
        string_push_str(&mut text, "keypad-");
        push_decimal(&mut text, (usage - 0x59 + 1) as u64);
        return Some(text);
    }
    if 0x68 <= usage && usage <= 0x73 {
        string_push_str(&mut text, "f");
        push_decimal(&mut text, (usage - 0x68 + 13) as u64);
        return Some(text);
    }
    match fixed_usage_name_str(usage) {
        Some(name) => {
            string_push_str(&mut text, name);
            Some(text)
        },
        None => None,
    }
}


/// Whether event `index` of a macro can be imported.
pub open spec fn item_importable(m: NgenuityMacroView, item: NgenuityMacroItemView) -> bool {
    &&& effective_timing(m, item) <= 65535
    &&& match decoded_action_spec(item) {
        Some(NgenuityInputAction::Keyboard { usage, pressed }) => usage_name(usage) is Some,
        Some(NgenuityInputAction::MouseButton { .. }) => true,
        None => false,
    }
}

/// The portable event imported from an importable recorded event.
pub open spec fn imported_event(m: NgenuityMacroView, item: NgenuityMacroItemView) -> MacroEventView {
    let delay_ms = effective_timing(m, item) as u16;
    match decoded_action_spec(item) {
        Some(NgenuityInputAction::Keyboard { usage, pressed }) => if pressed {
            MacroEventView::KeyDown { key: usage_name(usage)->Some_0, delay_ms }
        } else {
            MacroEventView::KeyUp { key: usage_name(usage)->Some_0, delay_ms }
        },
        Some(NgenuityInputAction::MouseButton { button, pressed }) => if pressed {
            MacroEventView::MouseButtonDown { button: mouse_button_name(button), delay_ms }
        } else {
            MacroEventView::MouseButtonUp { button: mouse_button_name(button), delay_ms }
        },
        None => MacroEventView::KeyUp { key: seq![], delay_ms },
    }
}

/// Whether `e` is the error reported for the non-importable event at
/// zero-based `index`: a timing too large for 16 bits first, then an
/// unknown keyboard usage or an unconfirmed event kind.
pub open spec fn is_item_import_error(
    m: NgenuityMacroView,
    item: NgenuityMacroItemView,
    index: int,
    e: NgenuityImportError,
) -> bool {
    if effective_timing(m, item) > 65535 {
        e matches NgenuityImportError::TimingOutOfRange { name, event, timing_ms } && name@ == m.name
            && event == index + 1 && timing_ms == effective_timing(m, item)
    } else {
        match decoded_action_spec(item) {
            Some(NgenuityInputAction::Keyboard { usage, .. }) => e matches NgenuityImportError::UnknownKeyboardUsage {
                name,
                event,
                usage: u,
            } && name@ == m.name && event == index + 1 && u == usage,
            _ => e matches NgenuityImportError::UnsupportedMacroItem {
                name,
                event,
                item_type,
                action,
                state,
            } && name@ == m.name && event == index + 1 && item_type == item.item_type && action
                == item.action && state == item.state,
        }
    }
}

fn import_macro_item(source: &NgenuityMacro, item: &NgenuityMacroItem, index: usize) -> (res: Result<
    MacroEvent,
    NgenuityImportError,
>)
    requires
        index < usize::MAX,
    ensures
        item_importable(source@, item@) ==> (res matches Ok(event) && event@ == imported_event(
            source@,
            item@,
        )),
        !item_importable(source@, item@) ==> (res matches Err(e) && is_item_import_error(
            source@,
            item@,
            index as int,
            e,
        )),
{
    let event = index + 1;
    let timing_ms = source.effective_timing_ms(item);
    if timing_ms > 65535 {
        return Err(
            NgenuityImportError::TimingOutOfRange { name: source.name.clone(), event, timing_ms },
        );
    }
    let delay_ms = timing_ms as u16;
    match item.decoded_action() {
        Some(NgenuityInputAction::Keyboard { usage, pressed }) => {
            let key = match keyboard_usage_name(usage) {
                Some(key) => key,
                None => {
                    return Err(
                        NgenuityImportError::UnknownKeyboardUsage {
                            name: source.name.clone(),
                            event,
                            usage,
                        },
                    );
                },
            };
            if pressed {
                Ok(MacroEvent::KeyDown { key, delay_ms })
            } else {
                Ok(MacroEvent::KeyUp { key, delay_ms })
            }
        },
        Some(NgenuityInputAction::MouseButton { button, pressed }) => {
            let mut name = String::new();
            string_push_str(&mut name, button.name());
            if pressed {
                Ok(MacroEvent::MouseButtonDown { button: name, delay_ms })
            } else {
                Ok(MacroEvent::MouseButtonUp { button: name, delay_ms })
            }
        },
        None => Err(
            NgenuityImportError::UnsupportedMacroItem {
                name: source.name.clone(),
                event,
                item_type: item.item_type,
                action: item.action,
                state: item.state,
            },
        ),
    }
}

/// Whether every event of a macro can be imported.
pub open spec fn macro_importable(m: NgenuityMacroView) -> bool {
    &&& m.playback_mode == 1
    &&& forall|i: int| 0 <= i < m.items.len() ==> item_importable(m, #[trigger] m.items[i])
}

/// Whether `e` is the error reported when importing macro `m` fails: an
/// unconfirmed playback mode, or the error of its first non-importable
/// event.
pub open spec fn is_macro_import_error(m: NgenuityMacroView, e: NgenuityImportError) -> bool {
    if m.playback_mode != 1 {
        e matches NgenuityImportError::UnsupportedPlayback { name, mode } && name@ == m.name && mode
            == m.playback_mode
    } else {
        exists|j: int|
            0 <= j < m.items.len() && (forall|i: int|
                0 <= i < j ==> item_importable(m, #[trigger] m.items[i])) && !item_importable(
                m,
                m.items[j],
            ) && is_item_import_error(m, m.items[j], j, e)
    }
}

/// The imported macro's fields as plain values.
pub struct NamedMacroView {
    pub source_id: Seq<char>,
    pub name: Seq<char>,
    pub playback: MacroPlayback,
    pub events: Seq<MacroEventView>,
}

pub open spec fn named_macro_view(m: NamedMacro) -> NamedMacroView {
    NamedMacroView {
        source_id: m.source_id@,
        name: m.name@,
        playback: m.definition.playback,
        events: m.definition.events@.map_values(|e: MacroEvent| e@),
    }
}

/// The portable macro imported from an importable macro.
pub open spec fn imported_macro(m: NgenuityMacroView) -> NamedMacroView {
    NamedMacroView {
        source_id: hex_lower_bytes(m.source_id),
        name: m.name,
        playback: MacroPlayback::Once,
        events: m.items.map_values(|item: NgenuityMacroItemView| imported_event(m, item)),
    }
}

fn import_macro(source: &NgenuityMacro) -> (res: Result<NamedMacro, NgenuityImportError>)
    ensures
        macro_importable(source@) ==> (res matches Ok(m) && named_macro_view(m) == imported_macro(
            source@,
        )),
        !macro_importable(source@) ==> (res matches Err(e) && is_macro_import_error(source@, e)),
{
    if source.playback_mode != 1 {
        return Err(
            NgenuityImportError::UnsupportedPlayback {
                name: source.name.clone(),
                mode: source.playback_mode,
            },
        );
    }
    let ghost m = source@;
    let mut events: Vec<MacroEvent> = Vec::new();
    let mut index: usize = 0;
    while index < source.items.len()
        invariant
            m == source@,
            m.playback_mode == 1,
            index <= source.items@.len(),
            m.items == source.items@.map_values(|i: NgenuityMacroItem| i@),
            forall|i: int| 0 <= i < index ==> item_importable(m, #[trigger] m.items[i]),
            events@.map_values(|e: MacroEvent| e@) == m.items.take(index as int).map_values(
                |item: NgenuityMacroItemView| imported_event(m, item),
            ),
        decreases source.items.len() - index,
    {
        let item = &source.items[index];
        assert(item@ == m.items[index as int]);
        match import_macro_item(source, item, index) {
            Ok(event) => {
                let ghost before = events@.map_values(|e: MacroEvent| e@);
                events.push(event);
                assert(events@.map_values(|e: MacroEvent| e@) =~= before.push(event@));
                assert(m.items.take(index + 1) =~= m.items.take(index as int).push(m.items[index as int]));
                assert(m.items.take(index + 1).map_values(|it: NgenuityMacroItemView| imported_event(m, it))
                    =~= m.items.take(index as int).map_values(|it: NgenuityMacroItemView| imported_event(m, it)).push(imported_event(m, m.items[index as int])));
            },
            Err(e) => {
                assert(is_macro_import_error(m, e)) by {
                    assert(!item_importable(m, m.items[index as int]));
                }
                return Err(e);
            },
        }
        index += 1;
    }
    assert(m.items.take(index as int) =~= m.items);
    Ok(
        NamedMacro {
            source_id: format_ngenuity_id(&source.source_id),
            name: source.name.clone(),
            definition: MacroDefinition { playback: MacroPlayback::Once, events },
        },
    )
}


/// The identifier text of a key assignment's referenced macro.
pub open spec fn macro_reference_text(id: Option<Seq<u8>>) -> Option<Seq<char>> {
    match id {
        Some(id) => Some(hex_lower_bytes(id)),
        None => None,
    }
}

impl NgenuityPreset {
    /// Convert every understood field to a portable, partial software
    /// profile for `device`. Each DPI record becomes a stage with equal X
    /// and Y; the stored active value is kept as the source value; key
    /// assignments stay unresolved. Fails with the first macro that cannot
    /// be imported.
    pub fn to_software_profile(&self, device: &str) -> (res: Result<SoftwareProfile, NgenuityImportError>)
        ensures
            (forall|i: int| 0 <= i < self@.macros.len() ==> macro_importable(#[trigger] self@.macros[i]))
                ==> (res matches Ok(p) && {
                &&& p.name@ == self.name@
                &&& p.device@ == device@
                &&& p.partial
                &&& p.source matches Some(src) && src.format@ == "ngenuity-hxp"@ && src.format_version
                    == self.version
                &&& p.dpi matches Some(dpi) && dpi.active_stage is None && dpi.source_active_stage
                    == Some(self.active_dpi_stage) && dpi.stages@.len() == self.dpi_stages@.len()
                    && forall|i: int|
                    0 <= i < dpi.stages@.len() ==> #[trigger] dpi.stages@[i] == (DpiStage {
                        x: self.dpi_stages@[i].dpi,
                        y: self.dpi_stages@[i].dpi,
                        color: self.dpi_stages@[i].color,
                    })
                &&& p.macros@.len() == self.macros@.len()
                &&& forall|i: int|
                    0 <= i < p.macros@.len() ==> named_macro_view(#[trigger] p.macros@[i])
                        == imported_macro(self@.macros[i])
                &&& p.unresolved_button_assignments@.len() == self.key_assignments@.len()
                &&& forall|i: int|
                    0 <= i < p.unresolved_button_assignments@.len() ==> {
                        let a = #[trigger] p.unresolved_button_assignments@[i];
                        &&& a.source_id@ == hex_lower_bytes(self.key_assignments@[i].source_id@)
                        &&& match a.macro_source_id {
                            Some(t) => macro_reference_text(self@.key_assignments[i].macro_source_id)
                                == Some(t@),
                            None => self.key_assignments@[i].macro_source_id is None,
                        }
                    }
            }),
            !(forall|i: int| 0 <= i < self@.macros.len() ==> macro_importable(#[trigger] self@.macros[i]))
                ==> (res matches Err(e) && exists|j: int|
                0 <= j < self@.macros.len() && (forall|i: int|
                    0 <= i < j ==> macro_importable(#[trigger] self@.macros[i]))
                    && !macro_importable(self@.macros[j]) && is_macro_import_error(
                    self@.macros[j],
                    e,
                )),
    {
        let ghost view = self@;
        let mut stages: Vec<DpiStage> = Vec::new();
        let mut i: usize = 0;
        while i < self.dpi_stages.len()
            invariant
                i <= self.dpi_stages@.len(),
                stages@.len() == i,
                forall|j: int|
                    0 <= j < i ==> #[trigger] stages@[j] == (DpiStage {
                        x: self.dpi_stages@[j].dpi,
                        y: self.dpi_stages@[j].dpi,
                        color: self.dpi_stages@[j].color,
                    }),
            decreases self.dpi_stages.len() - i,
        {
            let stage = &self.dpi_stages[i];
            stages.push(DpiStage::new(stage.dpi, stage.dpi, stage.color));
            i += 1;
        }
        let mut macros: Vec<NamedMacro> = Vec::new();
        let mut k: usize = 0;
        while k < self.macros.len()
            invariant
                view == self@,
                k <= self.macros@.len(),
                view.macros.len() == self.macros@.len(),
                forall|j: int| 0 <= j < self.macros@.len() ==> view.macros[j] == #[trigger] self.macros@[j]@,
                macros@.len() == k,
                forall|j: int| 0 <= j < k ==> macro_importable(#[trigger] view.macros[j]),
                forall|j: int|
                    0 <= j < k ==> named_macro_view(#[trigger] macros@[j]) == imported_macro(
                        view.macros[j],
                    ),
            decreases self.macros.len() - k,
        {
            match import_macro(&self.macros[k]) {
                Ok(m) => macros.push(m),
                Err(e) => {
                    assert(!macro_importable(view.macros[k as int]));
                    return Err(e);
                },
            }
            k += 1;
        }
        let mut unresolved: Vec<UnresolvedButtonAssignment> = Vec::new();
        let mut a: usize = 0;
        while a < self.key_assignments.len()
            invariant
                a <= self.key_assignments@.len(),
                unresolved@.len() == a,
                forall|j: int|
                    0 <= j < a ==> {
                        let u = #[trigger] unresolved@[j];
                        &&& u.source_id@ == hex_lower_bytes(self.key_assignments@[j].source_id@)
                        &&& match u.macro_source_id {
                            Some(t) => macro_reference_text(self.key_assignments@[j]@.macro_source_id)
                                == Some(t@),
                            None => self.key_assignments@[j].macro_source_id is None,
                        }
                    },
            decreases self.key_assignments.len() - a,
        {
            let assignment = &self.key_assignments[a];
            let macro_source_id = match &assignment.macro_source_id {
                Some(id) => Some(format_ngenuity_id(id)),
                None => None,
            };
            unresolved.push(
                UnresolvedButtonAssignment {
                    source_id: format_ngenuity_id(&assignment.source_id),
                    macro_source_id,
                },
            );
            a += 1;
        }
        let mut format = String::new();
        string_push_str(&mut format, "ngenuity-hxp");
        let mut device_name = String::new();
        string_push_str(&mut device_name, device);
        Ok(
            SoftwareProfile {
                name: self.name.clone(),
                device: device_name,
                partial: true,
                source: Some(SoftwareProfileSource { format, format_version: self.version }),
                dpi: Some(
                    SoftwareDpiProfile {
                        stages,
                        active_stage: None,
                        source_active_stage: Some(self.active_dpi_stage),
                    },
                ),
                macros,
                unresolved_button_assignments: unresolved,
            },
        )
    }
}

} // verus!
