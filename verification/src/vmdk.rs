use vstd::prelude::*;
use vstd::slice::slice_subrange;
use vstd::utf8::encode_utf8;
use std::collections::BTreeMap;
use std::collections::HashMap;
use std::io::Read;
use std::io::Write;
use crate::error::{VBoxError, VBoxResult};
use crate::bytes::{read_array, zeroed};
use crate::disk::{DiskFormat, DiskImageInfo, VmdkImageType, disk_type_of};
use crate::text::{
    chars_of, decimal_chars, find_char_from, find_in_range, parse_unsigned_exec, push_char,
    push_decimal, range_equals, string_of_range, sub_chars, trim_range, lemma_find_from_bounds,
};
use crate::vmdk_descriptor::{
    hex_decodable, hex_decoded, line_end, uuid_from_value, vmdk_apply_entry,
    vmdk_descriptor_from, vmdk_descriptor_initial, vmdk_descriptor_spec, vmdk_line_step,
    vmdk_uuid_values_cut_cleanly, zero_uuid, VmdkDescriptorModel, entry_cut_ok, entries_cut_ok,
};

verus! {

/// First line of a VMDK descriptor file.
pub const VMDK_DESCRIPTOR_MAGIC: &'static str = "#!/usr/bin/vmware";
/// Sector size of VMDK images.
pub const VMDK_SECTOR_SIZE: u32 = 512;
/// Grain size of new images (64 MiB).
pub const VMDK_DEFAULT_GRAIN_SIZE: u32 = 67108864;
/// Largest grain size (1 GiB).
pub const VMDK_MAX_GRAIN_SIZE: u32 = 1073741824;
/// Size of the binary VMDK header.
pub const VMDK_HEADER_SIZE: usize = 512;

/// An entry of a VMDK grain directory.
#[derive(Debug, Clone, Copy)]
pub struct VmdkGrainDirEntry {
    pub offset: u64,
    pub size: u32,
    pub grain_size: u32,
    pub flags: u32,
}

/// The bytes of one grain, possibly deflate-compressed.
#[derive(Debug, Clone)]
pub struct VmdkGrain {
    pub data: Vec<u8>,
    pub compressed: bool,
}

/// A VMDK grain directory.
#[derive(Debug, Clone)]
pub struct VmdkGrainDirectory {
    pub entries: Vec<VmdkGrainDirEntry>,
    pub total_grains: u64,
}

/// One `key: value` line of a descriptor.
#[derive(Debug, Clone)]
pub struct VmdkDescriptorLine {
    pub key: String,
    pub value: String,
}

/// What is known of a VMDK image.
pub struct VmdkHeader {
    pub descriptor: String,
    pub image_type: VmdkImageType,
    pub adapter_type: String,
    pub cylinders: u32,
    pub heads: u32,
    pub sectors_per_track: u32,
    pub geometry: String,
    pub tools_version: u32,
    pub disk_id: u32,
    pub parent_name: Option<String>,
    pub parent_uuid: Option<[u8; 16]>,
    pub uuid_image: [u8; 16],
    pub uuid_modification: [u8; 16],
    pub links: Vec<String>,
    pub sectors: u64,
    pub grain_size: u32,
    pub grain_directory: Option<VmdkGrainDirectory>,
    pub grains: BTreeMap<u64, VmdkGrain>,
}

impl Default for VmdkHeader {
    fn default() -> (h: Self)
        ensures
            h.descriptor@.len() == 0,
            h.image_type == VmdkImageType::StreamOptimized,
            h.adapter_type@ == "lsisas1068"@,
            h.cylinders == 0 && h.heads == 0 && h.sectors_per_track == 0,
            h.geometry@.len() == 0,
            h.tools_version == 0 && h.disk_id == 0,
            h.parent_name is None && h.parent_uuid is None,
            h.uuid_image@ == zero_uuid() && h.uuid_modification@ == zero_uuid(),
            h.links@.len() == 0,
            h.sectors == 0,
            h.grain_size == VMDK_DEFAULT_GRAIN_SIZE,
            h.grain_directory is None,
            h.grains@ == Map::<u64, VmdkGrain>::empty(),
    {
        let h = VmdkHeader {
            descriptor: String::new(),
            image_type: VmdkImageType::StreamOptimized,
            adapter_type: "lsisas1068".to_owned(),
            cylinders: 0,
            heads: 0,
            sectors_per_track: 0,
            geometry: String::new(),
            tools_version: 0,
            disk_id: 0,
            parent_name: None,
            parent_uuid: None,
            uuid_image: [0u8; 16],
            uuid_modification: [0u8; 16],
            links: Vec::new(),
            sectors: 0,
            grain_size: VMDK_DEFAULT_GRAIN_SIZE,
            grain_directory: None,
            grains: BTreeMap::new(),
        };
        assert(h.uuid_image@ =~= zero_uuid());
        assert(h.uuid_modification@ =~= zero_uuid());
        h
    }
}

/// Why a VMDK image was refused.
#[derive(Debug, Clone, Copy, PartialEq, Eq, Structural)]
pub enum VmdkError {
    InvalidDescriptor,
    InvalidHeader,
    CompressionError,
    GrainNotFound(u64),
    Io,
}

/// The error that `hex::decode` reports.
#[verifier::external_type_specification]
#[verifier::external_body]
pub struct ExFromHexError(hex::FromHexError);

/// The error of a failed read or write.
#[verifier::external_type_specification]
#[verifier::external_body]
pub struct ExIoError(std::io::Error);

/// `hex::decode`: succeeds exactly on an even number of hex digits (either
/// case) and then gives one byte per pair of digits, high half first.
#[verifier::external_body]
fn hex_decode(data: &[u8]) -> (r: Result<Vec<u8>, hex::FromHexError>)
    ensures
        r is Ok <==> hex_decodable(data@),
        r matches Ok(v) ==> v@ == hex_decoded(data@),
{
    hex::decode(data)
}

/// The bytes that flate2's raw deflate encoder, at the default level, writes
/// for `data`.
pub uninterp spec fn deflate_compressed(data: Seq<u8>) -> Seq<u8>;

/// What flate2's raw deflate decoder reads from `data`: the decoded bytes,
/// or nothing where `data` is not a whole deflate stream.
pub uninterp spec fn deflate_decompressed(data: Seq<u8>) -> Option<Seq<u8>>;

/// `flate2::write::DeflateEncoder` at `Compression::default()` over a `Vec`,
/// fed `data` and finished: it succeeds (the `Vec` takes every byte, and the
/// encoder reports an error only from a stream state that a fresh encoder
/// does not reach) and gives the bytes named by `deflate_compressed`.
#[verifier::external_body]
fn deflate_encode(data: &[u8]) -> (r: Result<Vec<u8>, std::io::Error>)
    ensures
        r is Ok,
        r matches Ok(v) ==> v@ == deflate_compressed(data@),
{
    let mut encoder = flate2::write::DeflateEncoder::new(Vec::new(), flate2::Compression::default());
    match encoder.write_all(data) {
        Ok(()) => encoder.finish(),
        Err(e) => Err(e),
    }
}

/// `flate2::read::DeflateDecoder` over `data`, read to the end: the decoded
/// bytes as `deflate_decompressed` names them, an error where it names none.
#[verifier::external_body]
fn deflate_decode(data: &[u8]) -> (r: Result<Vec<u8>, std::io::Error>)
    ensures
        match deflate_decompressed(data@) {
            Some(d) => r matches Ok(v) && v@ == d,
            None => r is Err,
        },
{
    let mut decoder = flate2::read::DeflateDecoder::new(data);
    let mut out = Vec::new();
    match decoder.read_to_end(&mut out) {
        Ok(_) => Ok(out),
        Err(e) => Err(e),
    }
}


/// The descriptor lines as key and value characters.
pub open spec fn descriptor_lines_view(v: Seq<VmdkDescriptorLine>) -> Seq<(Seq<char>, Seq<char>)> {
    Seq::new(v.len(), |i: int| (v[i].key@, v[i].value@))
}

/// The fields that descriptor lines fill in, as they are read.
struct DescriptorFields {
    lines: Vec<VmdkDescriptorLine>,
    adapter_type: String,
    cylinders: u32,
    heads: u32,
    sectors_per_track: u32,
    tools_version: u32,
    disk_id: u32,
    uuid_image: [u8; 16],
    uuid_modification: [u8; 16],
    parent_name: Option<String>,
    parent_uuid: Option<[u8; 16]>,
    sectors: u64,
}

/// The characters of an optional string.
pub open spec fn opt_string_chars(o: Option<String>) -> Option<Seq<char>> {
    match o {
        Some(s) => Some(s@),
        None => None,
    }
}

/// The bytes of an optional UUID.
pub open spec fn opt_uuid_bytes(o: Option<[u8; 16]>) -> Option<Seq<u8>> {
    match o {
        Some(u) => Some(u@),
        None => None,
    }
}

impl View for DescriptorFields {
    type V = VmdkDescriptorModel;

    closed spec fn view(&self) -> VmdkDescriptorModel {
        VmdkDescriptorModel {
            entries: descriptor_lines_view(self.lines@),
            adapter_type: self.adapter_type@,
            cylinders: self.cylinders,
            heads: self.heads,
            sectors_per_track: self.sectors_per_track,
            tools_version: self.tools_version,
            disk_id: self.disk_id,
            uuid_image: self.uuid_image@,
            uuid_modification: self.uuid_modification@,
            parent_name: opt_string_chars(self.parent_name),
            parent_uuid: opt_uuid_bytes(self.parent_uuid),
            sectors: self.sectors,
        }
    }
}

/// Sixteen zero bytes.
fn zero_uuid_exec() -> (u: [u8; 16])
    ensures
        u@ == zero_uuid(),
{
    let u = [0u8; 16];
    assert(u@ =~= zero_uuid());
    u
}

/// The UUID that a value `value` gives in place of `old`.
fn uuid_from_value_exec(old: [u8; 16], value: &String) -> (u: [u8; 16])
    requires
        encode_utf8(value@).len() >= 32 ==> vstd::utf8::is_char_boundary(encode_utf8(value@), 32),
    ensures
        u@ == uuid_from_value(old@, value@),
{
    let bytes = value.as_str().as_bytes();
    if bytes.len() >= 32 {
        let head = slice_subrange(bytes, 0, 32);
        match hex_decode(head) {
            Ok(b) => {
                assert(b@.len() == 16);
                let u = read_array::<16>(b.as_slice(), 0);
                assert(u@ =~= b@);
                u
            },
            Err(_) => zero_uuid_exec(),
        }
    } else {
        old
    }
}

/// Reads the characters `from..to` of `s` as an unsigned number of at most `max`, or 0.
fn number_or_zero(s: &Vec<char>, from: usize, to: usize, max: u64) -> (r: u64)
    requires
        from <= to <= s.len(),
    ensures
        r == match crate::text::parse_unsigned(s@.subrange(from as int, to as int), max as nat) {
            Some(x) => x as u64,
            None => 0u64,
        },
{
    let v = sub_chars(s, from, to);
    match parse_unsigned_exec(&v, max) {
        Some(x) => x,
        None => 0,
    }
}

impl DescriptorFields {
    fn new() -> (f: Self)
        ensures
            f@ == vmdk_descriptor_initial(),
    {
        let f = DescriptorFields {
            lines: Vec::new(),
            adapter_type: String::new(),
            cylinders: 0,
            heads: 0,
            sectors_per_track: 0,
            tools_version: 0,
            disk_id: 0,
            uuid_image: zero_uuid_exec(),
            uuid_modification: zero_uuid_exec(),
            parent_name: None,
            parent_uuid: None,
            sectors: 0,
        };
        assert(f@.entries =~= Seq::<(Seq<char>, Seq<char>)>::empty());
        f
    }

    /// Records the entry whose key and value are the characters `k0..k1` and
    /// `v0..v1` of `content`.
    fn apply_entry(&mut self, content: &str, chars: &Vec<char>, k0: usize, k1: usize, v0: usize, v1: usize)
        requires
            chars@ == content@,
            k0 <= k1 <= chars.len(),
            v0 <= v1 <= chars.len(),
            entry_cut_ok((chars@.subrange(k0 as int, k1 as int), chars@.subrange(v0 as int, v1 as int))),
        ensures
            final(self)@ == vmdk_apply_entry(
                old(self)@,
                chars@.subrange(k0 as int, k1 as int),
                chars@.subrange(v0 as int, v1 as int),
            ),
    {
        let ghost key = chars@.subrange(k0 as int, k1 as int);
        let ghost value_chars = chars@.subrange(v0 as int, v1 as int);
        let key_str = string_of_range(content, k0, k1);
        let value = string_of_range(content, v0, v1);
        let line = VmdkDescriptorLine { key: key_str, value: value.clone() };
        self.lines.push(line);
        assert(descriptor_lines_view(self.lines@) =~= descriptor_lines_view(old(self).lines@).push((key, value_chars)));
        if range_equals(chars, k0, k1, "ddb.virtualHWVersion") {
            self.tools_version = number_or_zero(chars, v0, v1, 4294967295) as u32;
        } else if range_equals(chars, k0, k1, "ddb.geometry.cylinders") {
            self.cylinders = number_or_zero(chars, v0, v1, 4294967295) as u32;
        } else if range_equals(chars, k0, k1, "ddb.geometry.heads") {
            self.heads = number_or_zero(chars, v0, v1, 4294967295) as u32;
        } else if range_equals(chars, k0, k1, "ddb.geometry.sectors") {
            self.sectors_per_track = number_or_zero(chars, v0, v1, 4294967295) as u32;
        } else if range_equals(chars, k0, k1, "ddb.adapterType") {
            self.adapter_type = value;
        } else if range_equals(chars, k0, k1, "ddb.diskId") {
            self.disk_id = number_or_zero(chars, v0, v1, 4294967295) as u32;
        } else if range_equals(chars, k0, k1, "ddb.uuid.image") {
            self.uuid_image = uuid_from_value_exec(self.uuid_image, &value);
        } else if range_equals(chars, k0, k1, "ddb.uuid.modification") {
            self.uuid_modification = uuid_from_value_exec(self.uuid_modification, &value);
        } else if range_equals(chars, k0, k1, "ddb.uuid.parent") {
            self.parent_uuid = Some(zero_uuid_exec());
        } else if range_equals(chars, k0, k1, "ddb.size") {
            self.sectors = number_or_zero(chars, v0, v1, 18446744073709551615);
        } else if range_equals(chars, k0, k1, "parentName") {
            self.parent_name = Some(value);
        }
    }

    /// Reads the line made of the characters `from..to` of `content`.
    fn apply_line(&mut self, content: &str, chars: &Vec<char>, from: usize, to: usize)
        requires
            chars@ == content@,
            from <= to <= chars.len(),
            entries_cut_ok(
                vmdk_line_step(old(self)@, chars@.subrange(from as int, to as int)).entries,
                old(self)@.entries.len() as int,
            ),
        ensures
            final(self)@ == vmdk_line_step(old(self)@, chars@.subrange(from as int, to as int)),
    {
        match line_entry(chars, from, to) {
            None => {},
            Some((k0, k1, v0, v1)) => {
                proof {
                    lemma_apply_entry_pushes(old(self)@, chars@.subrange(k0 as int, k1 as int),
                        chars@.subrange(v0 as int, v1 as int));
                    let st1 = vmdk_line_step(old(self)@, chars@.subrange(from as int, to as int));
                    assert(entry_cut_ok(st1.entries[old(self)@.entries.len() as int]));
                }
                self.apply_entry(content, chars, k0, k1, v0, v1);
            },
        }
    }
}

/// Each entry records its key and value after what came before.
proof fn lemma_apply_entry_pushes(st: VmdkDescriptorModel, key: Seq<char>, value: Seq<char>)
    ensures
        vmdk_apply_entry(st, key, value).entries == st.entries.push((key, value)),
{
}

/// The key and value bounds of the entry that the line made of the
/// characters `from..to` of `chars` holds, if it holds one.
fn line_entry(chars: &Vec<char>, from: usize, to: usize) -> (r: Option<(usize, usize, usize, usize)>)
    requires
        from <= to <= chars.len(),
    ensures
        r is None ==> forall|st: VmdkDescriptorModel|
            #[trigger] vmdk_line_step(st, chars@.subrange(from as int, to as int)) == st,
        r matches Some((k0, k1, v0, v1)) ==> {
            &&& k0 <= k1 <= chars.len()
            &&& v0 <= v1 <= chars.len()
            &&& forall|st: VmdkDescriptorModel| #[trigger] vmdk_line_step(st, chars@.subrange(from as int, to as int))
                == vmdk_apply_entry(st, chars@.subrange(k0 as int, k1 as int), chars@.subrange(v0 as int, v1 as int))
        },
{
    let (a, b) = trim_range(chars, from, to);
    let ghost line = chars@.subrange(a as int, b as int);
    if a == b || chars[a] == '#' {
        return None;
    }
    match find_in_range(chars, ':', a, b) {
        None => None,
        Some(p) => {
            let (k0, k1) = trim_range(chars, a, p);
            let (v0, v1) = trim_range(chars, p + 1, b);
            assert(line.subrange(0, p - a) =~= chars@.subrange(a as int, p as int));
            assert(line.subrange(p - a + 1, line.len() as int) =~= chars@.subrange(p + 1, b as int));
            Some((k0, k1, v0, v1))
        },
    }
}

/// Whether the entry with key `k0..k1` and value `v0..v1` of `content` can
/// be cut cleanly.
fn entry_cut_ok_exec(content: &str, chars: &Vec<char>, k0: usize, k1: usize, v0: usize, v1: usize) -> (b: bool)
    requires
        chars@ == content@,
        k0 <= k1 <= chars.len(),
        v0 <= v1 <= chars.len(),
    ensures
        b == entry_cut_ok((chars@.subrange(k0 as int, k1 as int), chars@.subrange(v0 as int, v1 as int))),
{
    if range_equals(chars, k0, k1, "ddb.uuid.image") || range_equals(chars, k0, k1, "ddb.uuid.modification") {
        let value = string_of_range(content, v0, v1);
        let v = value.as_str();
        if v.as_bytes().len() >= 32 {
            return v.is_char_boundary(32);
        }
    }
    true
}

/// Whether every hex UUID value of the descriptor `content` that is 32 bytes
/// or longer has a character boundary at byte 32: what
/// `VmdkImage::parse_descriptor` needs of its input.
pub fn vmdk_descriptor_cuts_cleanly(content: &str) -> (b: bool)
    ensures
        b == vmdk_uuid_values_cut_cleanly(content@),
{
    let chars = chars_of(content);
    let n = chars.len();
    let ghost goal = vmdk_descriptor_spec(content@);
    let ghost mut st = vmdk_descriptor_initial();
    let mut ok = true;
    let mut pos: usize = 0;
    proof {
        lemma_descriptor_entries_extend(chars@, 0, st);
    }
    loop
        invariant_except_break
            vmdk_descriptor_from(chars@, pos as int, st) == goal,
        invariant
            pos <= n,
            n == chars@.len(),
            chars@ == content@,
            goal == vmdk_descriptor_spec(content@),
            ok == entries_cut_ok(st.entries, 0),
            st.entries.len() <= goal.entries.len(),
            forall|i: int| 0 <= i < st.entries.len() ==> #[trigger] goal.entries[i] == st.entries[i],
        ensures
            st == goal,
        decreases n - pos,
    {
        let end = match find_char_from(&chars, '\n', pos) {
            Some(i) => i,
            None => n,
        };
        proof {
            lemma_find_from_bounds(chars@, '\n', pos as int);
            assert(end == line_end(chars@, pos as int));
        }
        let ghost next = vmdk_line_step(st, chars@.subrange(pos as int, end as int));
        match line_entry(&chars, pos, end) {
            None => {
                assert(next == st);
            },
            Some((k0, k1, v0, v1)) => {
                let e = entry_cut_ok_exec(content, &chars, k0, k1, v0, v1);
                proof {
                    lemma_apply_entry_pushes(st, chars@.subrange(k0 as int, k1 as int), chars@.subrange(v0 as int, v1 as int));
                    assert(next.entries == st.entries.push((chars@.subrange(k0 as int, k1 as int), chars@.subrange(v0 as int, v1 as int))));
                    assert(entries_cut_ok(next.entries, 0) == (entries_cut_ok(st.entries, 0) && e)) by {
                        if entries_cut_ok(st.entries, 0) && e {
                            assert forall|i: int| 0 <= i < next.entries.len() implies entry_cut_ok(#[trigger] next.entries[i]) by {
                                if i < st.entries.len() {
                                    assert(next.entries[i] == st.entries[i]);
                                }
                            }
                        }
                        if entries_cut_ok(next.entries, 0) {
                            assert(entry_cut_ok(next.entries[st.entries.len() as int]));
                            assert forall|i: int| 0 <= i < st.entries.len() implies entry_cut_ok(#[trigger] st.entries[i]) by {
                                assert(next.entries[i] == st.entries[i]);
                            }
                        }
                    }
                }
                ok = ok && e;
            },
        }
        proof {
            if end < n {
                lemma_descriptor_entries_extend(chars@, end + 1, next);
            }
            st = next;
        }
        if end >= n {
            break;
        }
        pos = end + 1;
    }
    ok
}

/// The geometry text `cylinders:heads:sectors`.
pub open spec fn geometry_chars(cylinders: u32, heads: u32, sectors: u32) -> Seq<char> {
    decimal_chars(cylinders as nat) + seq![':'] + decimal_chars(heads as nat) + seq![':']
        + decimal_chars(sectors as nat)
}

/// Whether `h` is the header that the descriptor text `content` gives.
pub open spec fn vmdk_header_from_descriptor(h: VmdkHeader, content: Seq<char>) -> bool {
    let m = vmdk_descriptor_spec(content);
    &&& h.descriptor@ == content
    &&& h.image_type == VmdkImageType::StreamOptimized
    &&& h.adapter_type@ == m.adapter_type
    &&& h.cylinders == m.cylinders
    &&& h.heads == m.heads
    &&& h.sectors_per_track == m.sectors_per_track
    &&& h.geometry@ == geometry_chars(m.cylinders, m.heads, m.sectors_per_track)
    &&& h.tools_version == m.tools_version
    &&& h.disk_id == m.disk_id
    &&& opt_string_chars(h.parent_name) == m.parent_name
    &&& opt_uuid_bytes(h.parent_uuid) == m.parent_uuid
    &&& h.uuid_image@ == m.uuid_image
    &&& h.uuid_modification@ == m.uuid_modification
    &&& h.links@.len() == 0
    &&& h.sectors == m.sectors
    &&& h.grain_size == VMDK_DEFAULT_GRAIN_SIZE
    &&& h.grain_directory is None
    &&& h.grains@ == Map::<u64, VmdkGrain>::empty()
}

/// The entries of the state reached from `st` extend those of `st`.
proof fn lemma_descriptor_entries_extend(s: Seq<char>, pos: int, st: VmdkDescriptorModel)
    ensures
        st.entries.len() <= vmdk_descriptor_from(s, pos, st).entries.len(),
        forall|i: int| 0 <= i < st.entries.len()
            ==> #[trigger] vmdk_descriptor_from(s, pos, st).entries[i] == st.entries[i],
    decreases s.len() - pos,
{
    if 0 <= pos <= s.len() {
        let end = line_end(s, pos);
        let next = vmdk_line_step(st, s.subrange(pos, end));
        assert(next.entries == st.entries || exists|e: (Seq<char>, Seq<char>)| next.entries == st.entries.push(e));
        if end < s.len() {
            lemma_find_from_bounds(s, '\n', pos);
            lemma_descriptor_entries_extend(s, end + 1, next);
        }
    }
}

/// The grains of an image as bytes, by grain index.
pub open spec fn grain_bytes(grains: Map<u64, VmdkGrain>) -> Map<u64, Seq<u8>> {
    Map::new(|k: u64| grains.contains_key(k), |k: u64| grains[k].data@)
}

/// The 512 bytes that a read of sector `lba` gives from grains `m` of
/// `grain_size` bytes: the bytes at the sector's place in its grain, or
/// zeros where the grain was never written.
pub open spec fn vmdk_read(m: Map<u64, Seq<u8>>, grain_size: u32, lba: u64) -> Seq<u8> {
    let per_grain = (grain_size / 512) as int;
    let g = ((lba as int) / per_grain) as u64;
    let off = ((lba as int) % per_grain) * 512;
    if m.contains_key(g) {
        m[g].subrange(off, off + 512)
    } else {
        Seq::new(512, |i: int| 0u8)
    }
}

/// Grains `m` after `d` is written at sector `lba`: the sector's grain,
/// zero-filled first where it was never written, gets `d` at the sector's place.
pub open spec fn vmdk_write(m: Map<u64, Seq<u8>>, grain_size: u32, lba: u64, d: Seq<u8>) -> Map<u64, Seq<u8>> {
    let per_grain = (grain_size / 512) as int;
    let g = ((lba as int) / per_grain) as u64;
    let off = ((lba as int) % per_grain) * 512;
    let base = if m.contains_key(g) { m[g] } else { Seq::new(grain_size as nat, |i: int| 0u8) };
    m.insert(g, Seq::new(base.len(), |i: int| if off <= i < off + d.len() { d[i - off] } else { base[i] }))
}

/// Whether every grain of `m` is `grain_size` bytes long.
pub open spec fn grains_sized(m: Map<u64, Seq<u8>>, grain_size: u32) -> bool {
    forall|k: u64| m.contains_key(k) ==> (#[trigger] m[k]).len() == grain_size
}

/// The grain and the offset in it of a sector, for grains of at least one sector.
proof fn lemma_sector_place(grain_size: u32, lba: u64)
    requires
        grain_size >= 512,
    ensures
        ({
            let per_grain = (grain_size / 512) as int;
            &&& per_grain >= 1
            &&& 0 <= (lba as int) / per_grain <= lba
            &&& 0 <= ((lba as int) % per_grain) * 512
            &&& ((lba as int) % per_grain) * 512 + 512 <= grain_size
            &&& lba == per_grain * ((lba as int) / per_grain) + (lba as int) % per_grain
        }),
{
    let per_grain = (grain_size / 512) as int;
    assert(per_grain >= 1);
    assert(lba == per_grain * ((lba as int) / per_grain) + (lba as int) % per_grain) by (nonlinear_arith)
        requires
            per_grain >= 1,
    ;
    assert(0 <= (lba as int) / per_grain <= lba) by (nonlinear_arith)
        requires
            per_grain >= 1,
            lba >= 0,
    ;
    assert(((lba as int) % per_grain) * 512 + 512 <= grain_size) by (nonlinear_arith)
        requires
            per_grain == grain_size / 512,
            per_grain >= 1,
            0 <= (lba as int) % per_grain < per_grain,
    ;
}

/// What is read back of a sector is what was last written there: after one
/// sector's worth of bytes is written at `lba`, reading `lba` gives them.
pub proof fn lemma_vmdk_read_after_write(m: Map<u64, Seq<u8>>, grain_size: u32, lba: u64, d: Seq<u8>)
    requires
        grain_size >= 512,
        grains_sized(m, grain_size),
        d.len() == 512,
    ensures
        vmdk_read(vmdk_write(m, grain_size, lba, d), grain_size, lba) == d,
{
    lemma_sector_place(grain_size, lba);
    let per_grain = (grain_size / 512) as int;
    let g = ((lba as int) / per_grain) as u64;
    let w = vmdk_write(m, grain_size, lba, d);
    assert(w.contains_key(g));
    assert(vmdk_read(w, grain_size, lba) =~= d);
}

/// A write leaves every other sector as it was.
pub proof fn lemma_vmdk_write_other_sector(m: Map<u64, Seq<u8>>, grain_size: u32, lba: u64, d: Seq<u8>, other: u64)
    requires
        grain_size >= 512,
        grains_sized(m, grain_size),
        d.len() == 512,
        other != lba,
    ensures
        vmdk_read(vmdk_write(m, grain_size, lba, d), grain_size, other) == vmdk_read(m, grain_size, other),
{
    lemma_sector_place(grain_size, lba);
    lemma_sector_place(grain_size, other);
    let per_grain = (grain_size / 512) as int;
    let g = ((lba as int) / per_grain) as u64;
    let h = ((other as int) / per_grain) as u64;
    let o1 = ((lba as int) % per_grain) * 512;
    let o2 = ((other as int) % per_grain) * 512;
    let w = vmdk_write(m, grain_size, lba, d);
    if g == h {
        assert((lba as int) % per_grain != (other as int) % per_grain);
        assert(o1 + 512 <= o2 || o2 + 512 <= o1) by (nonlinear_arith)
            requires
                o1 == ((lba as int) % per_grain) * 512,
                o2 == ((other as int) % per_grain) * 512,
                (lba as int) % per_grain != (other as int) % per_grain,
        ;
        if m.contains_key(g) {
            assert(vmdk_read(w, grain_size, other) =~= vmdk_read(m, grain_size, other));
        } else {
            assert(vmdk_read(w, grain_size, other) =~= vmdk_read(m, grain_size, other));
        }
    } else {
        assert(vmdk_read(w, grain_size, other) =~= vmdk_read(m, grain_size, other));
    }
}

/// A VMDK image: its header, whose grains hold the written sectors.
pub struct VmdkImage {
    header: VmdkHeader,
    data: HashMap<u64, Vec<u8>>,
    is_open: bool,
    info: DiskImageInfo,
}

impl VmdkImage {
    /// The image header.
    pub closed spec fn header_spec(&self) -> VmdkHeader {
        self.header
    }

    /// The written grains as bytes.
    pub closed spec fn grains(&self) -> Map<u64, Seq<u8>> {
        grain_bytes(self.header.grains@)
    }

    /// Whether the image is open.
    pub closed spec fn open_spec(&self) -> bool {
        self.is_open
    }

    /// The image record.
    pub closed spec fn info_spec(&self) -> DiskImageInfo {
        self.info
    }

    /// The invariant of an image: grains of at least one sector, each held
    /// uncompressed and exactly one grain long.
    pub closed spec fn wf(&self) -> bool {
        &&& self.header.grain_size >= 512
        &&& forall|k: u64| #[trigger] self.header.grains@.contains_key(k)
            ==> !self.header.grains@[k].compressed && self.header.grains@[k].data@.len() == self.header.grain_size
    }

    /// The grains of a well-formed image are one grain long each.
    pub proof fn lemma_wf_grains_sized(&self)
        requires
            self.wf(),
        ensures
            grains_sized(self.grains(), self.header_spec().grain_size),
            self.header_spec().grain_size >= 512,
    {
    }

    /// Parses the text of a VMDK descriptor: the header it describes and
    /// each `key: value` line.
    pub fn parse_descriptor(content: &str) -> (r: VBoxResult<(VmdkHeader, Vec<VmdkDescriptorLine>)>)
        requires
            vmdk_uuid_values_cut_cleanly(content@),
        ensures
            r matches Ok((h, lines)) && vmdk_header_from_descriptor(h, content@)
                && descriptor_lines_view(lines@) == vmdk_descriptor_spec(content@).entries,
    {
        let chars = chars_of(content);
        let n = chars.len();
        let ghost goal = vmdk_descriptor_spec(content@);
        let mut fields = DescriptorFields::new();
        let mut pos: usize = 0;
        loop
            invariant_except_break
                vmdk_descriptor_from(chars@, pos as int, fields@) == goal,
            invariant
                pos <= n,
                n == chars@.len(),
                chars@ == content@,
                goal == vmdk_descriptor_spec(content@),
                entries_cut_ok(goal.entries, 0),
            ensures
                fields@ == goal,
            decreases n - pos,
        {
            let end = match find_char_from(&chars, '\n', pos) {
                Some(i) => i,
                None => n,
            };
            proof {
                lemma_find_from_bounds(chars@, '\n', pos as int);
                assert(end == line_end(chars@, pos as int));
                let next = vmdk_line_step(fields@, chars@.subrange(pos as int, end as int));
                if end < n {
                    lemma_descriptor_entries_extend(chars@, end + 1, next);
                } else {
                    lemma_descriptor_entries_extend(chars@, n + 1, next);
                }
                assert forall|i: int| fields@.entries.len() <= i < next.entries.len()
                    implies entry_cut_ok(#[trigger] next.entries[i]) by {
                    assert(goal.entries[i] == next.entries[i]);
                }
            }
            fields.apply_line(content, &chars, pos, end);
            if end >= n {
                break;
            }
            pos = end + 1;
        }
        let DescriptorFields {
            lines,
            adapter_type,
            cylinders,
            heads,
            sectors_per_track,
            tools_version,
            disk_id,
            uuid_image,
            uuid_modification,
            parent_name,
            parent_uuid,
            sectors,
        } = fields;
        let mut geometry = String::new();
        push_decimal(&mut geometry, cylinders as u64);
        push_char(&mut geometry, ':');
        push_decimal(&mut geometry, heads as u64);
        push_char(&mut geometry, ':');
        push_decimal(&mut geometry, sectors_per_track as u64);
        assert(geometry@ =~= geometry_chars(cylinders, heads, sectors_per_track));
        let header = VmdkHeader {
            descriptor: content.to_owned(),
            image_type: VmdkImageType::StreamOptimized,
            adapter_type,
            cylinders,
            heads,
            sectors_per_track,
            geometry,
            tools_version,
            disk_id,
            parent_name,
            parent_uuid,
            uuid_image,
            uuid_modification,
            links: Vec::new(),
            sectors,
            grain_size: VMDK_DEFAULT_GRAIN_SIZE,
            grain_directory: None,
            grains: BTreeMap::new(),
        };
        Ok((header, lines))
    }

    /// Opens the image whose descriptor text, read from `path`, is `content`.
    pub fn open_descriptor(path: &str, content: &str) -> (r: VBoxResult<VmdkImage>)
        requires
            vmdk_uuid_values_cut_cleanly(content@),
        ensures
            r matches Ok(img) && img.wf() && vmdk_header_from_descriptor(img.header_spec(), content@)
                && img.open_spec() && img.info_spec().path@ == path@
                && img.info_spec().format == disk_type_of(DiskFormat::VMDK)
                && img.info_spec().size == img.header_spec().sectors
                && img.info_spec().sector_size == VMDK_SECTOR_SIZE,
    {
        let (header, _lines) = match Self::parse_descriptor(content) {
            Ok(parsed) => parsed,
            Err(e) => return Err(e),
        };
        let sectors = header.sectors;
        let info = DiskImageInfo::new(path.to_owned(), DiskFormat::VMDK, sectors, VMDK_SECTOR_SIZE);
        Ok(VmdkImage { header, data: HashMap::new(), is_open: true, info })
    }

    /// A new image of `size_bytes`, in whole sectors.
    pub fn create(path: &str, size_bytes: u64) -> (r: VBoxResult<VmdkImage>)
        ensures
            r matches Ok(img) && img.wf() && img.header_spec().sectors == size_bytes / 512
                && img.header_spec().grain_size == VMDK_DEFAULT_GRAIN_SIZE
                && img.header_spec().adapter_type@ == "lsisas1068"@
                && img.grains() == Map::<u64, Seq<u8>>::empty() && img.open_spec()
                && img.info_spec().path@ == path@ && img.info_spec().format == disk_type_of(DiskFormat::VMDK)
                && img.info_spec().size == size_bytes / 512 && img.info_spec().sector_size == VMDK_SECTOR_SIZE,
    {
        let sectors = size_bytes / (VMDK_SECTOR_SIZE as u64);
        let mut header = VmdkHeader::default();
        header.sectors = sectors;
        let info = DiskImageInfo::new(path.to_owned(), DiskFormat::VMDK, sectors, VMDK_SECTOR_SIZE);
        let img = VmdkImage { header, data: HashMap::new(), is_open: true, info };
        assert(img.grains() =~= Map::<u64, Seq<u8>>::empty());
        Ok(img)
    }

    /// Deflate-compresses grain bytes.
    pub fn compress_grain(data: &[u8]) -> (r: VBoxResult<Vec<u8>>)
        ensures
            r matches Ok(v) && v@ == deflate_compressed(data@),
    {
        match deflate_encode(data) {
            Ok(v) => Ok(v),
            Err(_) => Err(VBoxError::Io),
        }
    }

    /// Inflates deflate-compressed grain bytes; a stream that does not
    /// decode is an I/O error.
    pub fn decompress_grain(data: &[u8]) -> (r: VBoxResult<Vec<u8>>)
        ensures
            match deflate_decompressed(data@) {
                Some(d) => r matches Ok(v) && v@ == d,
                None => r == Err::<Vec<u8>, VBoxError>(VBoxError::Io),
            },
    {
        match deflate_decode(data) {
            Ok(v) => Ok(v),
            Err(_) => Err(VBoxError::Io),
        }
    }

    /// The bytes of grain `grain_index`: its data, inflated if compressed,
    /// or a grain of zeros where it was never written.
    fn get_grain(&self, grain_index: u64) -> (r: VBoxResult<Vec<u8>>)
        ensures
            self.header.grains@.contains_key(grain_index) && !self.header.grains@[grain_index].compressed
                ==> (r matches Ok(v) && v@ == self.header.grains@[grain_index].data@),
            self.header.grains@.contains_key(grain_index) && self.header.grains@[grain_index].compressed
                ==> match deflate_decompressed(self.header.grains@[grain_index].data@) {
                    Some(d) => r matches Ok(v) && v@ == d,
                    None => r == Err::<Vec<u8>, VBoxError>(VBoxError::Io),
                },
            !self.header.grains@.contains_key(grain_index)
                ==> (r matches Ok(v) && v@ == Seq::new(self.header.grain_size as nat, |i: int| 0u8)),
    {
        match self.header.grains.get(&grain_index) {
            Some(grain) => {
                if grain.compressed {
                    return Self::decompress_grain(grain.data.as_slice());
                }
                Ok(grain.data.clone())
            },
            None => Ok(zeroed(self.header.grain_size as usize)),
        }
    }

    /// Reads sector `lba` from its grain.
    pub fn read_sector(&self, lba: u64) -> (r: VBoxResult<Vec<u8>>)
        requires
            self.wf(),
        ensures
            r matches Ok(v) && v@ == vmdk_read(self.grains(), self.header_spec().grain_size, lba),
    {
        proof {
            lemma_sector_place(self.header.grain_size, lba);
        }
        let per_grain = (self.header.grain_size / VMDK_SECTOR_SIZE) as u64;
        let grain_index = lba / per_grain;
        let grain_data = match self.get_grain(grain_index) {
            Ok(d) => d,
            Err(e) => return Err(e),
        };
        let off = ((lba % per_grain) * (VMDK_SECTOR_SIZE as u64)) as usize;
        let mut out: Vec<u8> = Vec::new();
        let mut i: usize = 0;
        while i < 512
            invariant
                i <= 512,
                off + 512 <= grain_data.len(),
                out@ == grain_data@.subrange(off as int, off + i),
            decreases 512 - i,
        {
            out.push(grain_data[off + i]);
            assert(out@ =~= grain_data@.subrange(off as int, off + i + 1));
            i = i + 1;
        }
        proof {
            let m = self.grains();
            if !m.contains_key(grain_index) {
                assert(out@ =~= Seq::new(512, |j: int| 0u8));
            }
        }
        Ok(out)
    }

    /// Writes one 512-byte sector into its grain, creating the grain zero-filled
    /// where it was never written; other sizes are a bad parameter.
    pub fn write_sector(&mut self, lba: u64, data: &[u8]) -> (r: VBoxResult<()>)
        requires
            old(self).wf(),
        ensures
            final(self).wf(),
            data@.len() != 512 ==> r == Err::<(), VBoxError>(VBoxError::BadParam) && final(self).grains() == old(self).grains(),
            data@.len() == 512 ==> r is Ok && final(self).grains() == vmdk_write(
                old(self).grains(),
                old(self).header_spec().grain_size,
                lba,
                data@,
            ),
            final(self).header_spec().grain_size == old(self).header_spec().grain_size,
            final(self).header_spec().sectors == old(self).header_spec().sectors,
            final(self).open_spec() == old(self).open_spec(),
            final(self).info_spec() == old(self).info_spec(),
    {
        if data.len() != VMDK_SECTOR_SIZE as usize {
            return Err(VBoxError::BadParam);
        }
        proof {
            lemma_sector_place(self.header.grain_size, lba);
        }
        let per_grain = (self.header.grain_size / VMDK_SECTOR_SIZE) as u64;
        let grain_index = lba / per_grain;
        let off = ((lba % per_grain) * (VMDK_SECTOR_SIZE as u64)) as usize;
        let ghost before = self.grains();
        let mut grain = match self.header.grains.remove(&grain_index) {
            Some(g) => g,
            None => VmdkGrain { data: zeroed(self.header.grain_size as usize), compressed: false },
        };
        let ghost base = grain.data@;
        assert(base.len() == self.header.grain_size);
        let mut i: usize = 0;
        while i < 512
            invariant
                i <= 512,
                data@.len() == 512,
                off + 512 <= base.len(),
                grain.data.len() == base.len(),
                !grain.compressed,
                forall|j: int| 0 <= j < base.len() ==> #[trigger] grain.data@[j] == if off <= j < off + i {
                    data@[j - off]
                } else {
                    base[j]
                },
            decreases 512 - i,
        {
            grain.data.set(off + i, data[i]);
            i = i + 1;
        }
        self.header.grains.insert(grain_index, grain);
        proof {
            let after = self.grains();
            let expect = vmdk_write(before, self.header.grain_size, lba, data@);
            assert(after.dom() =~= expect.dom());
            assert forall|k: u64| after.contains_key(k) implies after[k] == expect[k] by {
                if k == grain_index {
                    assert(after[k] =~= expect[k]);
                }
            }
            assert(after =~= expect);
        }
        Ok(())
    }

    pub fn get_sector_count(&self) -> (n: u64)
        ensures
            n == self.header_spec().sectors,
    {
        self.header.sectors
    }

    pub fn get_sector_size(&self) -> (s: u32)
        ensures
            s == VMDK_SECTOR_SIZE,
    {
        VMDK_SECTOR_SIZE
    }

    pub fn get_type(&self) -> (f: DiskFormat)
        ensures
            f == DiskFormat::VMDK,
    {
        DiskFormat::VMDK
    }

    /// Closes the image, dropping its grains.
    pub fn close(self) -> (r: VBoxResult<()>)
        ensures
            r is Ok,
    {
        let mut header = self.header;
        header.grains.clear();
        Ok(())
    }

    pub fn get_info(&self) -> (i: DiskImageInfo)
        ensures
            i.path@ == self.info_spec().path@,
            i.format == self.info_spec().format,
            i.size == self.info_spec().size,
            i.sector_size == self.info_spec().sector_size,
    {
        self.info.duplicate()
    }

    pub fn is_open(&self) -> (b: bool)
        ensures
            b == self.open_spec(),
    {
        self.is_open
    }
}


} // verus!
