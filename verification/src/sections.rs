//! A minimal scan of a WebAssembly binary's layout.
//!
//! A binary is an eight-byte magic/version header followed by sections,
//! each one id byte and a LEB128-encoded payload size. The harness needs
//! two facts from that layout: whether the bytes are the binary format at
//! all — only that format is accepted, so these scans see every input the
//! interpreter will parse — and whether a start section (id 8) is present.
//! The harness never runs guest code implicitly, so a module declaring its
//! own start function is refused at load instead of being instantiated.

use vstd::prelude::*;

verus! {

/// The id of the start section in the binary format.
pub const START_SECTION_ID: u8 = 8;

/// Whether the bytes begin with the binary format's magic bytes and
/// version: `\0asm` followed by version one.
pub open spec fn spec_is_binary(bytes: Seq<u8>) -> bool {
    &&& bytes.len() >= 8
    &&& bytes[0] == 0x00
    &&& bytes[1] == 0x61
    &&& bytes[2] == 0x73
    &&& bytes[3] == 0x6d
    &&& bytes[4] == 0x01
    &&& bytes[5] == 0x00
    &&& bytes[6] == 0x00
    &&& bytes[7] == 0x00
}

/// Reports whether the bytes carry the binary magic/version header.
pub fn is_binary(wasm: &[u8]) -> (b: bool)
    ensures
        b == spec_is_binary(wasm@),
{
    wasm.len() >= 8 && wasm[0] == 0x00 && wasm[1] == 0x61 && wasm[2] == 0x73 && wasm[3] == 0x6d
        && wasm[4] == 0x01 && wasm[5] == 0x00 && wasm[6] == 0x00 && wasm[7] == 0x00
}

/// An unsigned LEB128 integer of at most five bytes at the head of `s`:
/// its value and the count of bytes it occupies, or nothing when the
/// encoding is truncated or longer than five bytes.
pub open spec fn spec_leb128_u32(s: Seq<u8>) -> Option<(nat, nat)> {
    if s.len() >= 1 && s[0] < 128 {
        Some((s[0] as nat, 1nat))
    } else if s.len() >= 2 && s[1] < 128 {
        Some((((s[0] - 128) + 128 * s[1]) as nat, 2nat))
    } else if s.len() >= 3 && s[2] < 128 {
        Some((((s[0] - 128) + 128 * (s[1] - 128) + 16384 * s[2]) as nat, 3nat))
    } else if s.len() >= 4 && s[3] < 128 {
        Some(
            (((s[0] - 128) + 128 * (s[1] - 128) + 16384 * (s[2] - 128) + 2097152 * s[3]) as nat,
            4nat),
        )
    } else if s.len() >= 5 && s[4] < 128 {
        Some(
            (((s[0] - 128) + 128 * (s[1] - 128) + 16384 * (s[2] - 128) + 2097152 * (s[3] - 128)
                + 268435456 * s[4]) as nat, 5nat),
        )
    } else {
        None
    }
}

/// Whether the section list `s` holds a section with the start id.
/// Sections are scanned in order; a truncated size or payload ends the
/// scan with nothing found (a binary that validates never ends that way).
pub open spec fn spec_sections_have_start(s: Seq<u8>) -> bool
    decreases s.len(),
{
    if s.len() == 0 {
        false
    } else {
        match spec_leb128_u32(s.drop_first()) {
            None => false,
            Some((size, n)) => if s[0] == START_SECTION_ID {
                true
            } else if 1 + n + size > s.len() {
                false
            } else {
                spec_sections_have_start(s.skip(1 + n as int + size as int))
            },
        }
    }
}

/// Whether the binary declares a start function: an eight-byte header
/// followed by a section list that holds the start id.
pub open spec fn spec_has_start_section(bytes: Seq<u8>) -> bool {
    bytes.len() >= 8 && spec_sections_have_start(bytes.skip(8))
}

/// Reads the LEB128-encoded size at `wasm[pos..]`.
fn leb128_u32_at(wasm: &[u8], pos: usize) -> (r: Option<(u64, usize)>)
    requires
        pos <= wasm@.len(),
    ensures
        match r {
            Some((v, n)) => spec_leb128_u32(wasm@.skip(pos as int)) == Some((v as nat, n as nat))
                && 1 <= n <= 5,
            None => spec_leb128_u32(wasm@.skip(pos as int)) is None,
        },
{
    let len = wasm.len();
    let rem = len - pos;
    proof {
        assert forall|i: int| 0 <= i < rem implies wasm@.skip(pos as int)[i] == wasm@[pos + i] by {}
    }
    if rem >= 1 && wasm[pos] < 128 {
        Some((wasm[pos] as u64, 1))
    } else if rem >= 2 && wasm[pos + 1] < 128 {
        Some(((wasm[pos] - 128) as u64 + 128 * (wasm[pos + 1] as u64), 2))
    } else if rem >= 3 && wasm[pos + 2] < 128 {
        Some(
            ((wasm[pos] - 128) as u64 + 128 * ((wasm[pos + 1] - 128) as u64) + 16384 * (wasm[pos
                + 2] as u64), 3),
        )
    } else if rem >= 4 && wasm[pos + 3] < 128 {
        Some(
            ((wasm[pos] - 128) as u64 + 128 * ((wasm[pos + 1] - 128) as u64) + 16384 * ((wasm[pos
                + 2] - 128) as u64) + 2097152 * (wasm[pos + 3] as u64), 4),
        )
    } else if rem >= 5 && wasm[pos + 4] < 128 {
        Some(
            ((wasm[pos] - 128) as u64 + 128 * ((wasm[pos + 1] - 128) as u64) + 16384 * ((wasm[pos
                + 2] - 128) as u64) + 2097152 * ((wasm[pos + 3] - 128) as u64) + 268435456
                * (wasm[pos + 4] as u64), 5),
        )
    } else {
        None
    }
}

/// Reports whether the binary declares a start function.
#[verifier::loop_isolation(false)]
pub fn has_start_section(wasm: &[u8]) -> (b: bool)
    ensures
        b == spec_has_start_section(wasm@),
{
    let len = wasm.len();
    if len < 8 {
        return false;
    }
    let mut off: usize = 8;
    loop
        invariant
            8 <= off <= len,
            spec_has_start_section(wasm@) == spec_sections_have_start(wasm@.skip(off as int)),
        decreases len - off,
    {
        let ghost s = wasm@.skip(off as int);
        proof {
            assert forall|i: int| 0 <= i < len - off implies s[i] == wasm@[off + i] by {}
        }
        if off == len {
            return false;
        }
        proof {
            assert(s.drop_first() =~= wasm@.skip(off + 1));
        }
        let id = wasm[off];
        let (size, n) = match leb128_u32_at(wasm, off + 1) {
            Some(p) => p,
            None => {
                return false;
            },
        };
        if id == START_SECTION_ID {
            return true;
        }
        let rem = len - off;
        if size > rem as u64 || 1 + (n as u64) + size > rem as u64 {
            return false;
        }
        proof {
            assert(s.skip(1 + n as int + size as int) =~= wasm@.skip(
                off as int + 1 + n as int + size as int,
            ));
        }
        off = off + 1 + n + (size as usize);
    }
}

} // verus!
