use vstd::prelude::*;
use vstd::utf8::encode_utf8;
use crate::text::{find_char, find_from, lemma_find_from_bounds, parse_unsigned, trim};
use crate::text::{decimal_chars, is_white_space, lemma_decimal_chars_value, lemma_parse_decimal_chars};
use crate::text::{lemma_find_from_none, lemma_find_from_stops_at, lemma_trim_unchanged};

verus! {

/// What the hex digit `b` stands for, as `hex::decode` reads it: `0`-`9`,
/// `a`-`f` and `A`-`F`.
pub open spec fn hex_digit_value(b: u8) -> Option<u8> {
    if 48 <= b && b <= 57 {
        Some((b - 48) as u8)
    } else if 97 <= b && b <= 102 {
        Some((b - 97 + 10) as u8)
    } else if 65 <= b && b <= 70 {
        Some((b - 65 + 10) as u8)
    } else {
        None
    }
}

/// Whether `s` is accepted by `hex::decode`: an even number of hex digits.
pub open spec fn hex_decodable(s: Seq<u8>) -> bool {
    &&& s.len() % 2 == 0
    &&& forall|i: int| 0 <= i < s.len() ==> (#[trigger] hex_digit_value(s[i])) is Some
}

/// The bytes that `hex::decode` gives for the hex digits `s`: one byte per
/// pair, the first digit of the pair in the high half.
pub open spec fn hex_decoded(s: Seq<u8>) -> Seq<u8> {
    Seq::new(
        s.len() / 2,
        |i: int| (hex_digit_value(s[2 * i])->0 * 16 + hex_digit_value(s[2 * i + 1])->0) as u8,
    )
}

/// Sixteen zero bytes.
pub open spec fn zero_uuid() -> Seq<u8> {
    Seq::new(16, |i: int| 0u8)
}

/// What the descriptor lines read so far have given.
pub struct VmdkDescriptorModel {
    /// Each `key: value` line, both sides trimmed, in order.
    pub entries: Seq<(Seq<char>, Seq<char>)>,
    pub adapter_type: Seq<char>,
    pub cylinders: u32,
    pub heads: u32,
    pub sectors_per_track: u32,
    pub tools_version: u32,
    pub disk_id: u32,
    pub uuid_image: Seq<u8>,
    pub uuid_modification: Seq<u8>,
    pub parent_name: Option<Seq<char>>,
    pub parent_uuid: Option<Seq<u8>>,
    pub sectors: u64,
}

/// The state before any line is read.
pub open spec fn vmdk_descriptor_initial() -> VmdkDescriptorModel {
    VmdkDescriptorModel {
        entries: Seq::empty(),
        adapter_type: Seq::empty(),
        cylinders: 0,
        heads: 0,
        sectors_per_track: 0,
        tools_version: 0,
        disk_id: 0,
        uuid_image: zero_uuid(),
        uuid_modification: zero_uuid(),
        parent_name: None,
        parent_uuid: None,
        sectors: 0,
    }
}

/// A value read as a `u32`, or 0 where it is not one.
pub open spec fn u32_or_zero(v: Seq<char>) -> u32 {
    match parse_unsigned(v, u32::MAX as nat) {
        Some(x) => x as u32,
        None => 0,
    }
}

/// A value read as a `u64`, or 0 where it is not one.
pub open spec fn u64_or_zero(v: Seq<char>) -> u64 {
    match parse_unsigned(v, u64::MAX as nat) {
        Some(x) => x as u64,
        None => 0,
    }
}

/// A UUID field after a line with value `v`: unchanged when `v` is shorter
/// than 32 bytes; otherwise its first 32 bytes read as hex, or zeros where
/// they are not hex.
pub open spec fn uuid_from_value(old: Seq<u8>, v: Seq<char>) -> Seq<u8> {
    let b = encode_utf8(v);
    if b.len() >= 32 {
        let h = b.subrange(0, 32);
        if hex_decodable(h) {
            hex_decoded(h)
        } else {
            zero_uuid()
        }
    } else {
        old
    }
}

/// Whether `key` names one of the two UUIDs read as hex.
pub open spec fn is_hex_uuid_key(key: Seq<char>) -> bool {
    key == "ddb.uuid.image"@ || key == "ddb.uuid.modification"@
}

/// The effect of one `key: value` entry on the state.
pub open spec fn vmdk_apply_entry(st: VmdkDescriptorModel, key: Seq<char>, value: Seq<char>) -> VmdkDescriptorModel {
    let st = VmdkDescriptorModel { entries: st.entries.push((key, value)), ..st };
    if key == "ddb.virtualHWVersion"@ {
        VmdkDescriptorModel { tools_version: u32_or_zero(value), ..st }
    } else if key == "ddb.geometry.cylinders"@ {
        VmdkDescriptorModel { cylinders: u32_or_zero(value), ..st }
    } else if key == "ddb.geometry.heads"@ {
        VmdkDescriptorModel { heads: u32_or_zero(value), ..st }
    } else if key == "ddb.geometry.sectors"@ {
        VmdkDescriptorModel { sectors_per_track: u32_or_zero(value), ..st }
    } else if key == "ddb.adapterType"@ {
        VmdkDescriptorModel { adapter_type: value, ..st }
    } else if key == "ddb.diskId"@ {
        VmdkDescriptorModel { disk_id: u32_or_zero(value), ..st }
    } else if key == "ddb.uuid.image"@ {
        VmdkDescriptorModel { uuid_image: uuid_from_value(st.uuid_image, value), ..st }
    } else if key == "ddb.uuid.modification"@ {
        VmdkDescriptorModel { uuid_modification: uuid_from_value(st.uuid_modification, value), ..st }
    } else if key == "ddb.uuid.parent"@ {
        VmdkDescriptorModel { parent_uuid: Some(zero_uuid()), ..st }
    } else if key == "ddb.size"@ {
        VmdkDescriptorModel { sectors: u64_or_zero(value), ..st }
    } else if key == "parentName"@ {
        VmdkDescriptorModel { parent_name: Some(value), ..st }
    } else {
        st
    }
}

/// The effect of one line: trimmed, a blank line or one that starts with `#`
/// is skipped, as is one without `:`; otherwise the text before the first
/// `:` is the key and the rest the value, both trimmed.
pub open spec fn vmdk_line_step(st: VmdkDescriptorModel, raw: Seq<char>) -> VmdkDescriptorModel {
    let line = trim(raw);
    if line.len() == 0 || line[0] == '#' {
        st
    } else {
        match find_char(line, ':') {
            None => st,
            Some(p) => vmdk_apply_entry(
                st,
                trim(line.subrange(0, p)),
                trim(line.subrange(p + 1, line.len() as int)),
            ),
        }
    }
}

/// The end of the line that starts at `pos`: the next newline, or the end.
pub open spec fn line_end(s: Seq<char>, pos: int) -> int {
    match find_from(s, '\n', pos) {
        Some(i) => i,
        None => s.len() as int,
    }
}

/// The state after the lines of `s` from `pos` on are read, starting from `st`.
pub open spec fn vmdk_descriptor_from(s: Seq<char>, pos: int, st: VmdkDescriptorModel) -> VmdkDescriptorModel
    decreases s.len() - pos,
{
    if pos < 0 || pos > s.len() {
        st
    } else {
        let end = line_end(s, pos);
        let next = vmdk_line_step(st, s.subrange(pos, end));
        if end >= s.len() {
            next
        } else {
            proof {
                lemma_find_from_bounds(s, '\n', pos);
            }
            vmdk_descriptor_from(s, end + 1, next)
        }
    }
}

/// What a whole descriptor text gives.
pub open spec fn vmdk_descriptor_spec(s: Seq<char>) -> VmdkDescriptorModel {
    vmdk_descriptor_from(s, 0, vmdk_descriptor_initial())
}

/// Entries whose value is the decimal text of a number set the field that
/// their key names to that number, whatever the lines before them gave:
/// `ddb.virtualHWVersion`, `ddb.geometry.cylinders`, `ddb.geometry.heads`,
/// `ddb.geometry.sectors` and `ddb.diskId` take a `u32`, `ddb.size` a `u64`.
/// `ddb.adapterType` and `parentName` keep their value as it is.
pub proof fn lemma_vmdk_entries_set_fields(st: VmdkDescriptorModel, n: u32, m: u64, v: Seq<char>)
    ensures
        vmdk_apply_entry(st, "ddb.virtualHWVersion"@, decimal_chars(n as nat)).tools_version == n,
        vmdk_apply_entry(st, "ddb.geometry.cylinders"@, decimal_chars(n as nat)).cylinders == n,
        vmdk_apply_entry(st, "ddb.geometry.heads"@, decimal_chars(n as nat)).heads == n,
        vmdk_apply_entry(st, "ddb.geometry.sectors"@, decimal_chars(n as nat)).sectors_per_track == n,
        vmdk_apply_entry(st, "ddb.diskId"@, decimal_chars(n as nat)).disk_id == n,
        vmdk_apply_entry(st, "ddb.size"@, decimal_chars(m as nat)).sectors == m,
        vmdk_apply_entry(st, "ddb.adapterType"@, v).adapter_type == v,
        vmdk_apply_entry(st, "parentName"@, v).parent_name == Some(v),
{
    reveal_strlit("ddb.virtualHWVersion");
    reveal_strlit("ddb.geometry.cylinders");
    reveal_strlit("ddb.geometry.heads");
    reveal_strlit("ddb.geometry.sectors");
    reveal_strlit("ddb.adapterType");
    reveal_strlit("ddb.diskId");
    reveal_strlit("ddb.uuid.image");
    reveal_strlit("ddb.uuid.modification");
    reveal_strlit("ddb.uuid.parent");
    reveal_strlit("ddb.size");
    reveal_strlit("parentName");
    let hw = "ddb.virtualHWVersion"@;
    let cyl = "ddb.geometry.cylinders"@;
    let heads = "ddb.geometry.heads"@;
    let sec = "ddb.geometry.sectors"@;
    let adapter = "ddb.adapterType"@;
    let disk = "ddb.diskId"@;
    let size = "ddb.size"@;
    let parent = "parentName"@;
    assert(hw.len() == 20 && cyl.len() == 22 && heads.len() == 18 && sec.len() == 20);
    assert(adapter.len() == 15 && disk.len() == 10 && size.len() == 8 && parent.len() == 10);
    assert("ddb.uuid.image"@.len() == 14 && "ddb.uuid.modification"@.len() == 21);
    assert("ddb.uuid.parent"@.len() == 15);
    assert(hw[4] != sec[4]);
    assert(adapter[4] != "ddb.uuid.parent"@[4]);
    assert(disk[0] != parent[0]);
    lemma_parse_decimal_chars(n as nat, u32::MAX as nat);
    lemma_parse_decimal_chars(m as nat, u64::MAX as nat);
    assert(u32_or_zero(decimal_chars(n as nat)) == n);
    assert(u64_or_zero(decimal_chars(m as nat)) == m);
}

/// A line `key: value` is read as the entry `(key, value)` when the key is
/// not blank at either end, does not start with `#` and holds no `:`, and
/// the value is not blank at either end.
pub proof fn lemma_vmdk_line_is_entry(st: VmdkDescriptorModel, key: Seq<char>, value: Seq<char>)
    requires
        key.len() > 0,
        !is_white_space(key[0]),
        !is_white_space(key.last()),
        key[0] != '#',
        forall|j: int| 0 <= j < key.len() ==> key[j] != ':',
        value.len() > 0,
        !is_white_space(value[0]),
        !is_white_space(value.last()),
    ensures
        vmdk_line_step(st, key + ": "@ + value) == vmdk_apply_entry(st, key, value),
{
    reveal_strlit(": ");
    let line = key + ": "@ + value;
    let k = key.len() as int;
    assert(line[0] == key[0]);
    assert(line.last() == value.last());
    lemma_trim_unchanged(line);
    assert(line[k] == ':');
    assert forall|j: int| 0 <= j < k implies line[j] != ':' by {
        assert(line[j] == key[j]);
    }
    lemma_find_from_stops_at(line, ':', 0, k);
    assert(line.subrange(0, k) =~= key);
    lemma_trim_unchanged(key);
    let rest = line.subrange(k + 1, line.len() as int);
    assert(rest.drop_first() =~= value);
    assert(rest[0] == ' ');
    lemma_trim_unchanged(value);
    assert(trim(rest) == value);
}

/// The line `ddb.diskId: N`, with `N` the decimal text of a `u32`, sets the
/// disk id to `N`, whatever the lines before it gave.
pub proof fn lemma_vmdk_disk_id_line(st: VmdkDescriptorModel, n: u32)
    ensures
        vmdk_line_step(st, "ddb.diskId: "@ + decimal_chars(n as nat)).disk_id == n,
{
    reveal_strlit("ddb.diskId: ");
    reveal_strlit("ddb.diskId");
    reveal_strlit(": ");
    let d = decimal_chars(n as nat);
    let key = "ddb.diskId"@;
    lemma_decimal_chars_value(n as nat);
    assert(crate::text::is_decimal_digit(d[0]));
    assert(crate::text::is_decimal_digit(d[d.len() - 1]));
    assert("ddb.diskId: "@ =~= key + ": "@);
    assert(key[0] == 'd' && key.last() == 'd');
    lemma_vmdk_line_is_entry(st, key, d);
    lemma_vmdk_entries_set_fields(st, n, 0, d);
}

/// A descriptor made of the one line `ddb.diskId: N`, with `N` the decimal
/// text of a `u32`, gives the disk id `N`.
pub proof fn lemma_vmdk_disk_id_descriptor(n: u32)
    ensures
        vmdk_descriptor_spec("ddb.diskId: "@ + decimal_chars(n as nat) + "\n"@).disk_id == n,
{
    reveal_strlit("ddb.diskId: ");
    reveal_strlit("\n");
    let d = decimal_chars(n as nat);
    let line = "ddb.diskId: "@ + d;
    let s = line + "\n"@;
    lemma_decimal_chars_value(n as nat);
    assert forall|j: int| 0 <= j < line.len() implies s[j] != '\n' by {
        if j < 12 {
            assert(s[j] == "ddb.diskId: "@[j]);
        } else {
            assert(s[j] == d[j - 12]);
            assert(crate::text::is_decimal_digit(d[j - 12]));
        }
    }
    lemma_find_from_stops_at(s, '\n', 0, line.len() as int);
    assert(s.subrange(0, line.len() as int) =~= line);
    lemma_vmdk_disk_id_line(vmdk_descriptor_initial(), n);
    let next = vmdk_line_step(vmdk_descriptor_initial(), line);
    lemma_find_from_none(s, '\n', s.len() as int);
    assert(s.subrange(s.len() as int, s.len() as int) =~= Seq::<char>::empty());
    assert(vmdk_descriptor_from(s, s.len() as int, next) == next);
}

/// Whether an entry that is a hex UUID of 32 bytes or more has a character
/// boundary at byte 32 of its value, where the value is cut.
pub open spec fn entry_cut_ok(e: (Seq<char>, Seq<char>)) -> bool {
    is_hex_uuid_key(e.0) && encode_utf8(e.1).len() >= 32 ==> vstd::utf8::is_char_boundary(encode_utf8(e.1), 32)
}

/// Whether the entries from index `from` on can all be cut cleanly.
pub open spec fn entries_cut_ok(entries: Seq<(Seq<char>, Seq<char>)>, from: int) -> bool {
    forall|i: int| from <= i < entries.len() ==> entry_cut_ok(#[trigger] entries[i])
}

/// Whether every hex UUID value of the descriptor that is 32 bytes or longer
/// has a character boundary at byte 32, where it is cut.
pub open spec fn vmdk_uuid_values_cut_cleanly(s: Seq<char>) -> bool {
    entries_cut_ok(vmdk_descriptor_spec(s).entries, 0)
}

} // verus!
