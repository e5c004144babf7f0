use vstd::prelude::*;
use crate::opcode::Opcode;

verus! {

/// The two bytes of a 16-bit number, the low one first.
pub open spec fn le16(v: u16) -> Seq<u8> {
    seq![(v % 0x100) as u8, (v / 0x100) as u8]
}

/// The four bytes of a 32-bit number, the lowest first.
pub open spec fn le32(v: u32) -> Seq<u8> {
    le16((v % 0x1_0000) as u16) + le16((v / 0x1_0000) as u16)
}

/// The eight bytes of a 64-bit number, the lowest first.
pub open spec fn le64(v: u64) -> Seq<u8> {
    le32((v % 0x1_0000_0000) as u32) + le32((v / 0x1_0000_0000) as u32)
}

/// The 16-bit number that two bytes hold, the low one first.
pub open spec fn from_le16(s: Seq<u8>) -> u16
    recommends
        s.len() == 2,
{
    (s[0] + s[1] * 0x100) as u16
}

/// The 32-bit number that four bytes hold, the lowest first.
pub open spec fn from_le32(s: Seq<u8>) -> u32
    recommends
        s.len() == 4,
{
    (from_le16(s.subrange(0, 2)) + from_le16(s.subrange(2, 4)) * 0x1_0000) as u32
}

/// The 64-bit number that eight bytes hold, the lowest first.
pub open spec fn from_le64(s: Seq<u8>) -> u64
    recommends
        s.len() == 8,
{
    (from_le32(s.subrange(0, 4)) + from_le32(s.subrange(4, 8)) * 0x1_0000_0000) as u64
}

/// Reading the two bytes of a number gives the number back.
pub proof fn lemma_le16_round_trip(v: u16)
    ensures
        le16(v).len() == 2,
        from_le16(le16(v)) == v,
{
}

/// Reading the four bytes of a number gives the number back.
pub proof fn lemma_le32_round_trip(v: u32)
    ensures
        le32(v).len() == 4,
        from_le32(le32(v)) == v,
{
    let low = (v % 0x1_0000) as u16;
    let high = (v / 0x1_0000) as u16;
    lemma_le16_round_trip(low);
    lemma_le16_round_trip(high);
    assert(le32(v).subrange(0, 2) =~= le16(low));
    assert(le32(v).subrange(2, 4) =~= le16(high));
}

/// Reading the eight bytes of a number gives the number back.
pub proof fn lemma_le64_round_trip(v: u64)
    ensures
        le64(v).len() == 8,
        from_le64(le64(v)) == v,
{
    let low = (v % 0x1_0000_0000) as u32;
    let high = (v / 0x1_0000_0000) as u32;
    lemma_le32_round_trip(low);
    lemma_le32_round_trip(high);
    assert(le64(v).subrange(0, 4) =~= le32(low));
    assert(le64(v).subrange(4, 8) =~= le32(high));
}

/// Appends the two bytes of a 16-bit number.
pub fn put_le16(bytes: &mut Vec<u8>, v: u16)
    ensures
        final(bytes)@ == old(bytes)@ + le16(v),
{
    bytes.push((v % 0x100) as u8);
    bytes.push((v / 0x100) as u8);
    assert(bytes@ =~= old(bytes)@ + le16(v));
}

/// Appends the four bytes of a 32-bit number.
pub fn put_le32(bytes: &mut Vec<u8>, v: u32)
    ensures
        final(bytes)@ == old(bytes)@ + le32(v),
{
    put_le16(bytes, (v % 0x1_0000) as u16);
    put_le16(bytes, (v / 0x1_0000) as u16);
    assert(bytes@ =~= old(bytes)@ + le32(v));
}

/// Appends the eight bytes of a 64-bit number.
pub fn put_le64(bytes: &mut Vec<u8>, v: u64)
    ensures
        final(bytes)@ == old(bytes)@ + le64(v),
{
    put_le32(bytes, (v % 0x1_0000_0000) as u32);
    put_le32(bytes, (v / 0x1_0000_0000) as u32);
    assert(bytes@ =~= old(bytes)@ + le64(v));
}

/// The 16-bit number in the two bytes from `at` on.
pub fn get_le16(bytes: &[u8], at: usize) -> (v: u16)
    requires
        at + 2 <= bytes.len(),
    ensures
        v == from_le16(bytes@.subrange(at as int, at + 2)),
{
    bytes[at] as u16 + bytes[at + 1] as u16 * 0x100
}

/// The 32-bit number in the four bytes from `at` on.
pub fn get_le32(bytes: &[u8], at: usize) -> (v: u32)
    requires
        at + 4 <= bytes.len(),
    ensures
        v == from_le32(bytes@.subrange(at as int, at + 4)),
{
    let low = get_le16(bytes, at);
    let high = get_le16(bytes, at + 2);
    assert(bytes@.subrange(at as int, at + 4).subrange(0, 2) =~= bytes@.subrange(
        at as int,
        at + 2,
    ));
    assert(bytes@.subrange(at as int, at + 4).subrange(2, 4) =~= bytes@.subrange(
        at + 2,
        at + 4,
    ));
    low as u32 + high as u32 * 0x1_0000
}

/// The 64-bit number in the eight bytes from `at` on.
pub fn get_le64(bytes: &[u8], at: usize) -> (v: u64)
    requires
        at + 8 <= bytes.len(),
    ensures
        v == from_le64(bytes@.subrange(at as int, at + 8)),
{
    let low = get_le32(bytes, at);
    let high = get_le32(bytes, at + 4);
    assert(bytes@.subrange(at as int, at + 8).subrange(0, 4) =~= bytes@.subrange(
        at as int,
        at + 4,
    ));
    assert(bytes@.subrange(at as int, at + 8).subrange(4, 8) =~= bytes@.subrange(
        at + 4,
        at + 8,
    ));
    low as u64 + high as u64 * 0x1_0000_0000
}

/// What an instruction holds besides its opcode.
///
/// In the image an instruction is the opcode byte; a byte with `dst` in its
/// low and `src` in its high half; `offset` in two bytes; and `imm` in four
/// bytes, all little-endian. `lddw` alone is sixteen bytes long: it holds the
/// whole of `imm` in eight bytes, and four bytes of zero behind them.
#[derive(Clone, Copy, Debug, PartialEq, Eq, Hash, Structural)]
pub struct Fields {
    pub dst: u8,
    pub src: u8,
    pub offset: i16,
    pub imm: i64,
}

/// The byte that holds the two registers.
pub open spec fn registers_byte(dst: u8, src: u8) -> u8 {
    (src << 4) | dst
}

/// The bytes of an instruction.
pub open spec fn slot_bytes(opcode: Opcode, f: Fields) -> Seq<u8>
    recommends
        opcode.bytecode() is Some,
{
    let head = seq![opcode.bytecode()->0, registers_byte(f.dst, f.src)] + le16(
        f.offset as u16,
    );
    if opcode == Opcode::Lddw {
        head + le64(f.imm as u64) + seq![0u8, 0u8, 0u8, 0u8]
    } else {
        head + le32(f.imm as u32)
    }
}

/// The register in the low half of the second byte.
pub open spec fn field_dst(bytes: Seq<u8>) -> u8 {
    bytes[1] & 0x0f
}

/// The register in the high half of the second byte.
pub open spec fn field_src(bytes: Seq<u8>) -> u8 {
    bytes[1] >> 4
}

/// The signed 16-bit offset in the third and fourth byte.
pub open spec fn field_offset(bytes: Seq<u8>) -> i16 {
    from_le16(bytes.subrange(2, 4)) as i16
}

/// The signed 32-bit immediate in the fifth to eighth byte.
pub open spec fn field_imm32(bytes: Seq<u8>) -> i32 {
    from_le32(bytes.subrange(4, 8)) as i32
}

/// The 64-bit immediate in the fifth to twelfth byte.
pub open spec fn field_imm64(bytes: Seq<u8>) -> u64 {
    from_le64(bytes.subrange(4, 12))
}

/// The fields of the instruction that `bytes` start with; `wide` for `lddw`.
pub open spec fn slot_fields(bytes: Seq<u8>, wide: bool) -> Fields {
    Fields {
        dst: field_dst(bytes),
        src: field_src(bytes),
        offset: field_offset(bytes),
        imm: if wide {
            field_imm64(bytes) as i64
        } else {
            field_imm32(bytes) as i64
        },
    }
}

/// An instruction has as many bytes as its opcode is wide.
pub proof fn lemma_slot_len(opcode: Opcode, f: Fields)
    ensures
        slot_bytes(opcode, f).len() == opcode.width(),
{
}

/// The offset of an instruction can be read back from its bytes.
pub proof fn lemma_offset_round_trip(opcode: Opcode, f: Fields)
    ensures
        field_offset(slot_bytes(opcode, f)) == f.offset,
{
    lemma_le16_round_trip(f.offset as u16);
    assert(slot_bytes(opcode, f).subrange(2, 4) =~= le16(f.offset as u16));
    let offset = f.offset;
    assert((offset as u16) as i16 == offset) by (bit_vector);
}

/// Decoding what was encoded gives the instruction back: the opcode, both
/// registers, the offset, and the immediate, which for every opcode but
/// `lddw` has to fit in 32 bits to be encoded whole.
pub proof fn lemma_decode_encode(opcode: Opcode, f: Fields)
    requires
        opcode.bytecode() is Some,
        f.dst < 16,
        f.src < 16,
        opcode == Opcode::Lddw || i32::MIN <= f.imm <= i32::MAX,
    ensures
        slot_bytes(opcode, f).len() == opcode.width(),
        Opcode::of_byte(slot_bytes(opcode, f)[0]) == Some(opcode),
        slot_fields(slot_bytes(opcode, f), opcode == Opcode::Lddw) == f,
{
    let bytes = slot_bytes(opcode, f);
    lemma_le16_round_trip(f.offset as u16);
    lemma_le32_round_trip(f.imm as u32);
    lemma_le64_round_trip(f.imm as u64);
    Opcode::lemma_byte_table(opcode.bytecode()->0);
    assert(bytes.subrange(2, 4) =~= le16(f.offset as u16));
    let dst = f.dst;
    let src = f.src;
    assert(((src << 4) | dst) & 0x0f == dst && ((src << 4) | dst) >> 4 == src) by (bit_vector)
        requires
            dst < 16,
            src < 16,
    ;
    let offset = f.offset;
    assert((offset as u16) as i16 == offset) by (bit_vector);
    let imm = f.imm;
    if opcode == Opcode::Lddw {
        assert(bytes.subrange(4, 12) =~= le64(f.imm as u64));
        assert((imm as u64) as i64 == imm) by (bit_vector);
    } else {
        assert(bytes.subrange(4, 8) =~= le32(f.imm as u32));
        assert(((imm as u32) as i32) as i64 == imm) by (bit_vector)
            requires
                -0x8000_0000 <= imm <= 0x7fff_ffff,
        ;
    }
}

/// The bytes of an instruction.
pub fn encode_slot(opcode: Opcode, f: Fields) -> (bytes: Vec<u8>)
    requires
        opcode.bytecode() is Some,
    ensures
        bytes@ == slot_bytes(opcode, f),
        bytes.len() == opcode.width(),
{
    let code = match opcode.to_bytecode() {
        Some(b) => b,
        None => 0,
    };
    let mut bytes: Vec<u8> = Vec::new();
    bytes.push(code);
    bytes.push(f.src << 4 | f.dst);
    put_le16(&mut bytes, #[verifier::truncate] (f.offset as u16));
    if opcode == Opcode::Lddw {
        put_le64(&mut bytes, #[verifier::truncate] (f.imm as u64));
        bytes.push(0);
        bytes.push(0);
        bytes.push(0);
        bytes.push(0);
    } else {
        put_le32(&mut bytes, #[verifier::truncate] (f.imm as u32));
    }
    assert(bytes@ =~= slot_bytes(opcode, f));
    bytes
}

/// The register in the low half of the second byte.
pub fn read_dst(bytes: &[u8]) -> (r: u8)
    requires
        bytes.len() >= 2,
    ensures
        r == field_dst(bytes@),
        r < 16,
{
    let b = bytes[1];
    assert(b & 0x0f < 16) by (bit_vector);
    b & 0x0f
}

/// The register in the high half of the second byte.
pub fn read_src(bytes: &[u8]) -> (r: u8)
    requires
        bytes.len() >= 2,
    ensures
        r == field_src(bytes@),
        r < 16,
{
    let b = bytes[1];
    assert(b >> 4 < 16) by (bit_vector);
    b >> 4
}

/// The signed 16-bit offset in the third and fourth byte.
pub fn read_offset(bytes: &[u8]) -> (r: i16)
    requires
        bytes.len() >= 4,
    ensures
        r == field_offset(bytes@),
{
    #[verifier::truncate]
    (get_le16(bytes, 2) as i16)
}

/// The signed 32-bit immediate in the fifth to eighth byte.
pub fn read_imm32(bytes: &[u8]) -> (r: i32)
    requires
        bytes.len() >= 8,
    ensures
        r == field_imm32(bytes@),
{
    #[verifier::truncate]
    (get_le32(bytes, 4) as i32)
}

/// The 64-bit immediate in the fifth to twelfth byte.
pub fn read_imm64(bytes: &[u8]) -> (r: u64)
    requires
        bytes.len() >= 12,
    ensures
        r == field_imm64(bytes@),
{
    get_le64(bytes, 4)
}

} // verus!
