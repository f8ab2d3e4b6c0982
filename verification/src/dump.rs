//! The diagnostic memory dump: rendering RAM in the fixed hexadecimal
//! layout (rows of 8 bytes, each row prefixed with its base address), and a
//! parser that reads such a dump back. The round-trip law at the bottom
//! shows the dump loses nothing: re-parsing it reproduces memory exactly.
//!
//! Only the rendering is here; writing the text to a console is the
//! caller's.

use vstd::prelude::*;

use crate::cpu::CPU;
use crate::model::{initial_state, load_image};

verus! {

/// The ASCII code of hex digit `d` (upper case), for `0 <= d < 16`.
pub open spec fn hexdig(d: int) -> u8 {
    if d < 10 {
        (48 + d) as u8
    } else {
        (55 + d) as u8
    }
}

/// Whether `c` is the ASCII code of an upper-case hex digit.
pub open spec fn is_hexdig(c: u8) -> bool {
    (48 <= c && c <= 57) || (65 <= c && c <= 70)
}

/// The value of the hex digit with ASCII code `c`.
pub open spec fn hexval(c: u8) -> int {
    if c <= 57 {
        c - 48
    } else {
        c - 55
    }
}

/// Column `c` of dump row `r`: a newline, two address digits, a colon and a
/// space, then eight bytes of two digits each followed by a space. Row 32
/// exists only to supply the final newline.
pub open spec fn row_char(m: Seq<u8>, r: int, c: int) -> u8 {
    if c == 0 {
        10u8
    } else if c == 1 {
        hexdig((r * 8) / 16)
    } else if c == 2 {
        hexdig((r * 8) % 16)
    } else if c == 3 {
        58u8
    } else if c == 4 {
        32u8
    } else {
        let j = (c - 5) / 3;
        let k = (c - 5) % 3;
        if k == 0 {
            hexdig((m[r * 8 + j] / 16) as int)
        } else if k == 1 {
            hexdig((m[r * 8 + j] % 16) as int)
        } else {
            32u8
        }
    }
}

/// The full dump of a 256-byte memory: 32 rows of 29 characters, and one
/// closing newline.
pub open spec fn ram_dump_spec(m: Seq<u8>) -> Seq<u8> {
    Seq::new(929, |i: int| row_char(m, i / 29, i % 29))
}

/// Where the high hex digit of memory byte `k` sits in the dump text.
pub open spec fn byte_pos(k: int) -> int {
    (k / 8) * 29 + 5 + 3 * (k % 8)
}

/// A text is a parsable dump when it has the dump's exact length and holds
/// a hex digit pair at every byte position.
pub open spec fn parse_ok(t: Seq<u8>) -> bool {
    t.len() == 929 && forall|k: int|
        0 <= k < 256 ==> is_hexdig(t[#[trigger] byte_pos(k)]) && is_hexdig(t[byte_pos(k) + 1])
}

/// The memory a dump text denotes: the 256 bytes read back from the hex
/// digit pairs, or nothing if the text is not a parsable dump.
pub open spec fn parse_dump_spec(t: Seq<u8>) -> Option<Seq<u8>> {
    if parse_ok(t) {
        Some(
            Seq::new(
                256,
                |k: int| (hexval(t[byte_pos(k)]) * 16 + hexval(t[byte_pos(k) + 1])) as u8,
            ),
        )
    } else {
        None
    }
}

/// The ASCII code of hex digit `d`.
fn hex_digit(d: u8) -> (r: u8)
    requires
        d < 16,
    ensures
        r == hexdig(d as int),
{
    if d < 10 {
        48 + d
    } else {
        55 + d
    }
}

/// The value of the hex digit with ASCII code `c`, if it is one.
fn hex_value(c: u8) -> (r: Option<u8>)
    ensures
        (r is Some) == is_hexdig(c),
        r matches Some(v) ==> v == hexval(c) && v < 16,
{
    if 48 <= c && c <= 57 {
        Some(c - 48)
    } else if 65 <= c && c <= 70 {
        Some(c - 55)
    } else {
        None
    }
}

impl CPU {
    /// Render the full RAM dump, exactly `ram_dump_spec` of this memory.
    pub fn dump_ram_text(&self) -> (t: Vec<u8>)
        requires
            self.wf(),
        ensures
            t@ == ram_dump_spec(self@.ram),
    {
        let mut t: Vec<u8> = Vec::new();
        let mut i: usize = 0;
        while i < 929
            invariant
                self.wf(),
                i <= 929,
                t@.len() == i,
                forall|x: int| 0 <= x < i ==> t@[x] == row_char(self@.ram, x / 29, x % 29),
            decreases 929 - i,
        {
            let r = i / 29;
            let c = i % 29;
            let ch: u8 = if c == 0 {
                10
            } else if c == 1 {
                hex_digit(((r * 8) / 16) as u8)
            } else if c == 2 {
                hex_digit(((r * 8) % 16) as u8)
            } else if c == 3 {
                58
            } else if c == 4 {
                32
            } else {
                let j = (c - 5) / 3;
                let k = (c - 5) % 3;
                let b = self.ram[r * 8 + j];
                if k == 0 {
                    hex_digit(b / 16)
                } else if k == 1 {
                    hex_digit(b % 16)
                } else {
                    32
                }
            };
            t.push(ch);
            i = i + 1;
        }
        proof {
            assert(t@ =~= ram_dump_spec(self@.ram));
        }
        t
    }
}

/// Parse a memory dump back into the 256 bytes it shows, exactly
/// `parse_dump_spec` of the text.
pub fn parse_ram_dump(text: &[u8]) -> (r: Option<Vec<u8>>)
    ensures
        (r is Some) == (parse_dump_spec(text@) is Some),
        r matches Some(v) ==> Some(v@) == parse_dump_spec(text@),
{
    if text.len() != 929 {
        return None;
    }
    let mut out: Vec<u8> = Vec::new();
    let mut k: usize = 0;
    while k < 256
        invariant
            text@.len() == 929,
            k <= 256,
            out@.len() == k,
            forall|x: int|
                0 <= x < k ==> is_hexdig(text@[#[trigger] byte_pos(x)])
                    && is_hexdig(text@[byte_pos(x) + 1]),
            forall|x: int|
                0 <= x < k ==> out@[x] == (hexval(text@[#[trigger] byte_pos(x)]) * 16 + hexval(
                    text@[byte_pos(x) + 1],
                )) as u8,
        decreases 256 - k,
    {
        let pos = (k / 8) * 29 + 5 + 3 * (k % 8);
        proof {
            assert(pos == byte_pos(k as int));
        }
        let hi = hex_value(text[pos]);
        let lo = hex_value(text[pos + 1]);
        match (hi, lo) {
            (Some(h), Some(l)) => {
                out.push(h * 16 + l);
            },
            _ => {
                proof {
                    assert(!parse_ok(text@));
                }
                return None;
            },
        }
        k = k + 1;
    }
    proof {
        assert(parse_ok(text@));
        assert(out@ =~= parse_dump_spec(text@).unwrap());
    }
    Some(out)
}

/// Where the hex digits of byte `k` sit inside the rendered dump, and what
/// they are.
proof fn lemma_dump_digits(m: Seq<u8>, k: int)
    requires
        m.len() == 256,
        0 <= k < 256,
    ensures
        ram_dump_spec(m)[byte_pos(k)] == hexdig((m[k] / 16) as int),
        ram_dump_spec(m)[byte_pos(k) + 1] == hexdig((m[k] % 16) as int),
        0 <= byte_pos(k) < 928,
{
    let r = k / 8;
    let c = 5 + 3 * (k % 8);
    vstd::arithmetic::div_mod::lemma_fundamental_div_mod(k, 8);
    assert(0 <= r < 32 && 5 <= c <= 26);
    vstd::arithmetic::div_mod::lemma_fundamental_div_mod_converse(r * 29 + c, 29, r, c);
    vstd::arithmetic::div_mod::lemma_fundamental_div_mod_converse(r * 29 + c + 1, 29, r, c + 1);
    assert(byte_pos(k) == r * 29 + c);
    assert((c - 5) / 3 == k % 8 && (c - 5) % 3 == 0) by {
        vstd::arithmetic::div_mod::lemma_fundamental_div_mod_converse(c - 5, 3, k % 8, 0);
    };
    assert((c + 1 - 5) / 3 == k % 8 && (c + 1 - 5) % 3 == 1) by {
        vstd::arithmetic::div_mod::lemma_fundamental_div_mod_converse(c + 1 - 5, 3, k % 8, 1);
    };
    assert(r * 8 + k % 8 == k);
}

/// Re-parsing a full memory dump reproduces the memory exactly.
pub proof fn lemma_dump_parse_roundtrip(m: Seq<u8>)
    requires
        m.len() == 256,
    ensures
        parse_dump_spec(ram_dump_spec(m)) == Some(m),
{
    let t = ram_dump_spec(m);
    assert forall|k: int| 0 <= k < 256 implies is_hexdig(t[#[trigger] byte_pos(k)]) && is_hexdig(
        t[byte_pos(k) + 1],
    ) by {
        lemma_dump_digits(m, k);
    };
    assert(parse_ok(t));
    let parsed = parse_dump_spec(t).unwrap();
    assert forall|k: int| 0 <= k < 256 implies parsed[k] == m[k] by {
        lemma_dump_digits(m, k);
        vstd::arithmetic::div_mod::lemma_fundamental_div_mod(m[k] as int, 16);
    };
    assert(parsed =~= m);
}

/// A full memory dump taken right after loading an image into a fresh
/// machine, re-parsed, reproduces the image byte-for-byte in the leading
/// bytes, and zero elsewhere.
pub proof fn load_then_dump_roundtrip(image: Seq<u8>)
    requires
        image.len() <= 256,
    ensures
        parse_dump_spec(ram_dump_spec(load_image(initial_state(), image).ram)) matches Some(m)
            && m.len() == 256
            && (forall|i: int| 0 <= i < image.len() ==> m[i] == image[i])
            && (forall|i: int| image.len() <= i < 256 ==> m[i] == 0),
{
    lemma_dump_parse_roundtrip(load_image(initial_state(), image).ram);
}

} // verus!
