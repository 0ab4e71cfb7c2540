use vstd::prelude::*;

verus! {

/// Tiles whose data offset lies past this are stored one byte further on.
pub const SKIP_OFFSET: usize = 65280;

/// The little-endian unsigned integer in the four bytes at `at`.
pub open spec fn le_u32(b: Seq<u8>, at: int) -> int {
    b[at] + 256 * b[at + 1] + 65536 * b[at + 2] + 16777216 * b[at + 3]
}

pub fn read_u32_le(b: &[u8], at: usize) -> (r: u32)
    requires
        at + 4 <= b@.len(),
    ensures
        r == le_u32(b@, at as int),
{
    b[at] as u32 + 256 * b[at + 1] as u32 + 65536 * b[at + 2] as u32 + 16777216 * b[at + 3] as u32
}

/// Run-length decoding from byte `pos` on, appending to `out` until it holds at least
/// `target` bytes. A control byte below 0x80 repeats the next byte (control + 3) times; any
/// other copies the next (control & 0x7F) + 1 bytes, or as many as are left. Running out of
/// bytes before `target` is reached, or in a repeat, fails.
pub open spec fn unpack_from(data: Seq<u8>, pos: int, out: Seq<u8>, target: int) -> Option<Seq<u8>>
    decreases data.len() - pos,
{
    if out.len() >= target {
        Some(out)
    } else if pos < 0 || pos >= data.len() {
        None
    } else if data[pos] < 128 {
        if pos + 1 >= data.len() {
            None
        } else {
            let run = Seq::new((data[pos] + 3) as nat, |_i: int| data[pos + 1]);
            unpack_from(data, pos + 2, out + run, target)
        }
    } else {
        let end = if pos + 1 + (data[pos] - 127) <= data.len() {
            pos + 1 + (data[pos] - 127)
        } else {
            data.len() as int
        };
        unpack_from(data, end, out + data.subrange(pos + 1, end), target)
    }
}

/// The packed sprite data decoded: a little-endian length, then runs up to that length.
pub open spec fn unpacked(data: Seq<u8>) -> Option<Seq<u8>> {
    if data.len() < 4 {
        None
    } else {
        unpack_from(data, 4, Seq::empty(), le_u32(data, 0))
    }
}

pub fn read_vga_data(data: &[u8]) -> (r: Option<Vec<u8>>)
    ensures
        (match r {
            Some(v) => unpacked(data@) == Some(v@),
            None => unpacked(data@) is None,
        }),
{
    if data.len() < 4 {
        return None;
    }
    let target = read_u32_le(data, 0);
    let mut out: Vec<u8> = Vec::new();
    let mut pos: usize = 4;
    while out.len() < target as usize
        invariant
            4 <= pos <= data@.len(),
            unpack_from(data@, pos as int, out@, target as int) == unpacked(data@),
        decreases data@.len() - pos,
    {
        if pos >= data.len() {
            return None;
        }
        let control = data[pos];
        if control < 128 {
            if pos + 1 >= data.len() {
                return None;
            }
            let value = data[pos + 1];
            let count: usize = control as usize + 3;
            let ghost start = out@;
            let mut k: usize = 0;
            while k < count
                invariant
                    k <= count,
                    out@ =~= start + Seq::new(k as nat, |_i: int| value),
                decreases count - k,
            {
                out.push(value);
                k = k + 1;
            }
            assert(out@ =~= start + Seq::new((control + 3) as nat, |_i: int| data@[pos + 1]));
            pos = pos + 2;
        } else {
            let count: usize = (control - 127) as usize;
            let end: usize = if count <= data.len() - pos - 1 {
                pos + 1 + count
            } else {
                data.len()
            };
            let ghost start = out@;
            let mut k: usize = pos + 1;
            while k < end
                invariant
                    pos + 1 <= k <= end,
                    end <= data@.len(),
                    out@ =~= start + data@.subrange(pos + 1, k as int),
                decreases end - k,
            {
                out.push(data[k]);
                k = k + 1;
            }
            pos = end;
        }
    }
    Some(out)
}

/// The tile offset table at the start of the decoded data: a little-endian count, then that
/// many little-endian offsets.
pub open spec fn tile_indices(raw: Seq<u8>) -> Option<Seq<u32>> {
    if raw.len() < 4 || raw.len() < 4 + 4 * le_u32(raw, 0) {
        None
    } else {
        Some(Seq::new(le_u32(raw, 0) as nat, |i: int| le_u32(raw, 4 + 4 * i) as u32))
    }
}

pub fn read_tile_indices(raw: &[u8]) -> (r: Option<Vec<u32>>)
    ensures
        (match r {
            Some(v) => tile_indices(raw@) == Some(v@),
            None => tile_indices(raw@) is None,
        }),
{
    if raw.len() < 4 {
        return None;
    }
    let count = read_u32_le(raw, 0) as usize;
    let n = raw.len();
    let room = (n - 4) / 4;
    proof {
        lemma_room(raw@.len() - 4, room as int, count as int);
    }
    if room < count {
        return None;
    }
    let mut indices: Vec<u32> = Vec::new();
    let mut i: usize = 0;
    while i < count
        invariant
            i <= count,
            count == le_u32(raw@, 0),
            n == raw@.len(),
            4 + 4 * count <= n,
            indices@ =~= Seq::new(i as nat, |j: int| le_u32(raw@, 4 + 4 * j) as u32),
        decreases count - i,
    {
        indices.push(read_u32_le(raw, 4 + 4 * i));
        i = i + 1;
    }
    Some(indices)
}

proof fn lemma_room(len: int, room: int, count: int)
    requires
        len >= 0,
        room == len / 4,
        count >= 0,
    ensures
        room < count <==> len < 4 * count,
{
    assert(room < count ==> len < 4 * count) by (nonlinear_arith)
        requires
            room == len / 4,
            len >= 0,
    ;
    assert(len < 4 * count ==> room < count) by (nonlinear_arith)
        requires
            room == len / 4,
            len >= 0,
    ;
}

/// A 6-bit palette component scaled to 8 bits, keeping the low byte.
pub open spec fn scaled_component(b: u8) -> u8 {
    ((b * 4) % 256) as u8
}

/// The 256-color palette from its 768 bytes, three components per color.
pub fn read_vga_palette(bytes: &[u8]) -> (r: Option<Vec<[u8; 3]>>)
    ensures
        r is Some <==> bytes@.len() >= 768,
        r matches Some(p) ==> p@.len() == 256 && forall|i: int|
            0 <= i < 256 ==> #[trigger] p@[i] == [
                scaled_component(bytes@[3 * i]),
                scaled_component(bytes@[3 * i + 1]),
                scaled_component(bytes@[3 * i + 2]),
            ],
{
    if bytes.len() < 768 {
        return None;
    }
    let mut palette: Vec<[u8; 3]> = Vec::new();
    let mut i: usize = 0;
    while i < 256
        invariant
            i <= 256,
            bytes@.len() >= 768,
            palette@.len() == i,
            forall|j: int|
                0 <= j < i ==> #[trigger] palette@[j] == [
                    scaled_component(bytes@[3 * j]),
                    scaled_component(bytes@[3 * j + 1]),
                    scaled_component(bytes@[3 * j + 2]),
                ],
        decreases 256 - i,
    {
        let r = ((bytes[3 * i] as u32 * 4) % 256) as u8;
        let g = ((bytes[3 * i + 1] as u32 * 4) % 256) as u8;
        let b = ((bytes[3 * i + 2] as u32 * 4) % 256) as u8;
        palette.push([r, g, b]);
        i = i + 1;
    }
    Some(palette)
}

/// Where a tile's pixels start, and its size. An offset past `SKIP_OFFSET` moves one byte on.
/// A header `[w, 0, h, 0]` with 0 < w < 0xbf and 0 < h < 0x64 gives the size and precedes the
/// pixels; without one the tile is 16 by 16. `None` when the four header bytes are not there.
pub open spec fn tile_layout_of(raw: Seq<u8>, index: u32) -> Option<(u32, u32, int)> {
    let at = if index > SKIP_OFFSET {
        index + 1
    } else {
        index as int
    };
    if at + 4 > raw.len() {
        None
    } else if 1 <= raw[at] < 0xbf && raw[at + 1] == 0 && 1 <= raw[at + 2] < 0x64 && raw[at + 3] == 0 {
        Some((raw[at] as u32, raw[at + 2] as u32, at + 4))
    } else {
        Some((16u32, 16u32, at))
    }
}

pub fn tile_layout(raw: &[u8], index: u32) -> (r: Option<(u32, u32, usize)>)
    ensures
        (match r {
            Some((w, h, start)) => tile_layout_of(raw@, index) == Some((w, h, start as int)),
            None => tile_layout_of(raw@, index) is None,
        }),
{
    let mut at = index as usize;
    if at > SKIP_OFFSET {
        if at >= raw.len() {
            return None;
        }
        at = at + 1;
    }
    if at > raw.len() || raw.len() - at < 4 {
        return None;
    }
    let (x, x_hi, y, y_hi) = (raw[at], raw[at + 1], raw[at + 2], raw[at + 3]);
    if 1 <= x && x < 0xbf && x_hi == 0 && 1 <= y && y < 0x64 && y_hi == 0 {
        Some((x as u32, y as u32, at + 4))
    } else {
        Some((16, 16, at))
    }
}

} // verus!
