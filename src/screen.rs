//! What a host needs to show the frame buffer region of the bus and to feed
//! key presses in: the palette, the frame comparison, the input byte.
use vstd::prelude::*;
use crate::cpu::Cpu;

verus! {

/// First address of the 32x32 frame buffer, one byte per pixel.
pub const FRAME_START: u16 = 0x0200;
/// Number of pixels in the frame buffer.
pub const FRAME_PIXELS: usize = 0x400;
/// Number of colors in the palette.
pub const PALETTE_SIZE: usize = 9;
/// Address a host writes the last pressed direction to.
pub const INPUT_ADDR: u16 = 0x00FF;
/// Address a host writes a random byte to before every step.
pub const RANDOM_ADDR: u16 = 0x00FE;

/// Palette slot of a pixel byte: black, white, grey, red, green, blue,
/// magenta, yellow, then cyan for every other value; 9 to 14 repeat grey to
/// yellow.
pub open spec fn palette_slot(byte: u8) -> usize {
    if byte == 0 {
        0
    } else if byte == 1 {
        1
    } else if 2 <= byte <= 8 {
        if byte == 8 { 8 } else { byte as usize }
    } else if 9 <= byte <= 14 {
        (byte - 7) as usize
    } else {
        8
    }
}

pub fn palette_index(byte: u8) -> (r: usize)
    ensures
        r == palette_slot(byte),
        r < PALETTE_SIZE,
{
    match byte {
        0 => 0,
        1 => 1,
        2 | 9 => 2,
        3 | 10 => 3,
        4 | 11 => 4,
        5 | 12 => 5,
        6 | 13 => 6,
        7 | 14 => 7,
        _ => 8,
    }
}

/// The three color bytes pixel `k` shows, under palette `rgb`.
pub open spec fn pixel_rgb(cpu: &Cpu, rgb: Seq<(u8, u8, u8)>, k: int) -> (u8, u8, u8) {
    rgb[palette_slot(cpu.memory@.read((FRAME_START + k) as u16)) as int]
}

/// The three bytes of pixel `k` in a frame.
pub open spec fn frame_pixel(frame: Seq<u8>, k: int) -> (u8, u8, u8) {
    (frame[3 * k], frame[3 * k + 1], frame[3 * k + 2])
}

/// Brings the RGB frame `state` (three bytes per pixel) up to date with the
/// frame buffer, under the palette `rgb`; returns whether any pixel changed.
pub fn screen_changed(cpu: &Cpu, state: &mut Vec<u8>, rgb: &Vec<(u8, u8, u8)>) -> (changed: bool)
    requires
        cpu.wf(),
        old(state)@.len() == 3 * FRAME_PIXELS,
        rgb@.len() == PALETTE_SIZE,
    ensures
        final(state)@.len() == 3 * FRAME_PIXELS,
        forall|k: int| 0 <= k < FRAME_PIXELS ==> #[trigger] frame_pixel(final(state)@, k) == pixel_rgb(cpu, rgb@, k),
        changed == exists|k: int|
            0 <= k < FRAME_PIXELS && #[trigger] frame_pixel(old(state)@, k) != pixel_rgb(cpu, rgb@, k),
{
    let mut changed = false;
    let mut k: usize = 0;
    while k < FRAME_PIXELS
        invariant
            cpu.wf(),
            rgb@.len() == PALETTE_SIZE,
            k <= FRAME_PIXELS,
            state@.len() == 3 * FRAME_PIXELS,
            forall|j: int| 0 <= j < k ==> #[trigger] frame_pixel(state@, j) == pixel_rgb(cpu, rgb@, j),
            forall|j: int| k <= j < FRAME_PIXELS ==> #[trigger] frame_pixel(state@, j) == frame_pixel(old(state)@, j),
            changed == exists|j: int|
                0 <= j < k && #[trigger] frame_pixel(old(state)@, j) != pixel_rgb(cpu, rgb@, j),
        decreases FRAME_PIXELS - k,
    {
        let color = cpu.memory.read(FRAME_START + k as u16);
        let (r, g, b) = rgb[palette_index(color)];
        let i = 3 * k;
        let ghost before = state@;
        assert(frame_pixel(before, k as int) == frame_pixel(old(state)@, k as int));
        assert((r, g, b) == pixel_rgb(cpu, rgb@, k as int));
        if state[i] != r || state[i + 1] != g || state[i + 2] != b {
            changed = true;
            state.set(i, r);
            state.set(i + 1, g);
            state.set(i + 2, b);
        }
        assert(frame_pixel(state@, k as int) == pixel_rgb(cpu, rgb@, k as int));
        assert forall|j: int| 0 <= j < FRAME_PIXELS && j != k implies #[trigger] frame_pixel(state@, j)
            == frame_pixel(before, j) by {
            assert(state@[3 * j] == before[3 * j]);
            assert(state@[3 * j + 1] == before[3 * j + 1]);
            assert(state@[3 * j + 2] == before[3 * j + 2]);
        }
        assert forall|j: int| 0 <= j < k + 1 implies #[trigger] frame_pixel(state@, j) == pixel_rgb(cpu, rgb@, j) by {
            if j < k {
                assert(frame_pixel(before, j) == pixel_rgb(cpu, rgb@, j));
            }
        }
        assert forall|j: int| k + 1 <= j < FRAME_PIXELS implies #[trigger] frame_pixel(state@, j) == frame_pixel(
            old(state)@,
            j,
        ) by {
            assert(frame_pixel(before, j) == frame_pixel(old(state)@, j));
        }
        k = k + 1;
    }
    changed
}

/// A direction key of the host.
#[derive(Clone, Copy, Debug, PartialEq, Eq, Structural)]
pub enum Direction {
    Up,
    Down,
    Left,
    Right,
}

/// The byte a direction is written to the input address as: the ASCII code
/// of `w`, `s`, `a` or `d`.
pub fn input_byte(direction: Direction) -> (r: u8)
    ensures
        r == match direction {
            Direction::Up => 0x77u8,
            Direction::Down => 0x73u8,
            Direction::Left => 0x61u8,
            Direction::Right => 0x64u8,
        },
{
    match direction {
        Direction::Up => 0x77,
        Direction::Down => 0x73,
        Direction::Left => 0x61,
        Direction::Right => 0x64,
    }
}

} // verus!
