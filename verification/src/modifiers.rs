//! The modifier combinations that a layout is probed under, and the
//! key-state arrays that stand for them.

use vstd::prelude::*;
use crate::vkeys::{
    VK_CAPITAL, VK_CONTROL, VK_LCONTROL, VK_LMENU, VK_LSHIFT, VK_MENU, VK_RCONTROL, VK_RMENU,
    VK_RSHIFT, VK_SHIFT,
};

verus! {

pub const SHIFT: u8 = 1;

pub const CONTROL: u8 = 2;

pub const ALT: u8 = 4;

pub const CAPS_LOCK: u8 = 8;

/// One past the largest combination of the four flags.
pub const FLAGS_END: u8 = 16;

/// A set over Shift, Control, Alt and CapsLock, one bit each.
#[derive(Clone, Copy, Debug, PartialEq, Eq, Hash, Structural)]
pub struct WindowsModifiers {
    pub bits: u8,
}

/// The "held" bit of one entry of a key-state array.
pub open spec fn is_down(state: u8) -> bool {
    state & 0x80 != 0
}

/// The "toggled" bit of one entry of a key-state array.
pub open spec fn is_toggled(state: u8) -> bool {
    state & 0x01 != 0
}

pub open spec fn shift_held(key_state: Seq<u8>) -> bool {
    is_down(key_state[VK_SHIFT as int]) || is_down(key_state[VK_LSHIFT as int]) || is_down(
        key_state[VK_RSHIFT as int],
    )
}

pub open spec fn control_held(key_state: Seq<u8>) -> bool {
    is_down(key_state[VK_CONTROL as int]) || is_down(key_state[VK_LCONTROL as int]) || is_down(
        key_state[VK_RCONTROL as int],
    )
}

pub open spec fn alt_held(key_state: Seq<u8>) -> bool {
    is_down(key_state[VK_MENU as int]) || is_down(key_state[VK_LMENU as int]) || is_down(
        key_state[VK_RMENU as int],
    )
}

pub open spec fn caps_lock_on(key_state: Seq<u8>) -> bool {
    is_toggled(key_state[VK_CAPITAL as int])
}

/// The bits of the set that holds exactly the given flags.
pub open spec fn bits_of(shift: bool, control: bool, alt: bool, caps_lock: bool) -> u8 {
    ((if shift { 1int } else { 0 }) + (if control { 2int } else { 0 }) + (if alt { 4int } else { 0 })
        + (if caps_lock { 8int } else { 0 })) as u8
}

/// What `apply_to_kbd_state` leaves at index `vk` of a key-state array:
/// the generic, left and right entries of Shift, Control and Alt get their
/// "held" bit set or cleared together, the CapsLock entry its "toggled"
/// bit, and every other bit of the array stays.
pub open spec fn applied_entry(mods: WindowsModifiers, key_state: Seq<u8>, vk: int) -> u8 {
    let state = key_state[vk];
    if vk == VK_SHIFT || vk == VK_LSHIFT || vk == VK_RSHIFT {
        if mods.shift() { state | 0x80 } else { state & 0x7f }
    } else if vk == VK_CONTROL || vk == VK_LCONTROL || vk == VK_RCONTROL {
        if mods.control() { state | 0x80 } else { state & 0x7f }
    } else if vk == VK_MENU || vk == VK_LMENU || vk == VK_RMENU {
        if mods.alt() { state | 0x80 } else { state & 0x7f }
    } else if vk == VK_CAPITAL {
        if mods.caps_lock() { state | 0x01 } else { state & 0xfe }
    } else {
        state
    }
}

pub open spec fn applied_state(mods: WindowsModifiers, key_state: Seq<u8>) -> Seq<u8> {
    Seq::new(256, |vk: int| applied_entry(mods, key_state, vk))
}

proof fn lemma_flag_bits(bits: u8)
    ensures
        (bits | 0x80) & 0x80 != 0,
        (bits & 0x7f) & 0x80 == 0,
        (bits | 0x01) & 0x01 != 0,
        (bits & 0xfe) & 0x01 == 0,
{
    assert((bits | 0x80) & 0x80 != 0 && (bits & 0x7f) & 0x80 == 0 && (bits | 0x01) & 0x01 != 0 && (
    bits & 0xfe) & 0x01 == 0) by (bit_vector);
}

proof fn lemma_bits_of(shift: bool, control: bool, alt: bool, caps_lock: bool)
    ensures
        ({
            let b = bits_of(shift, control, alt, caps_lock);
            &&& b < 16
            &&& (b & 1 != 0) == shift
            &&& (b & 2 != 0) == control
            &&& (b & 4 != 0) == alt
            &&& (b & 8 != 0) == caps_lock
        }),
{
    let b = bits_of(shift, control, alt, caps_lock);
    assert(b < 16 ==> (b == (if b & 1 != 0 { 1u8 } else { 0 }) + (if b & 2 != 0 { 2u8 } else { 0 })
        + (if b & 4 != 0 { 4u8 } else { 0 }) + (if b & 8 != 0 { 8u8 } else { 0 }))) by (bit_vector);
}

proof fn lemma_bits_split(b: u8)
    requires
        b < 16,
    ensures
        b == bits_of(b & 1 != 0, b & 2 != 0, b & 4 != 0, b & 8 != 0),
{
    assert(b < 16 ==> (b == (if b & 1 != 0 { 1u8 } else { 0 }) + (if b & 2 != 0 { 2u8 } else { 0 })
        + (if b & 4 != 0 { 4u8 } else { 0 }) + (if b & 8 != 0 { 8u8 } else { 0 }))) by (bit_vector);
}

impl WindowsModifiers {
    pub open spec fn shift(self) -> bool {
        self.bits & SHIFT != 0
    }

    pub open spec fn control(self) -> bool {
        self.bits & CONTROL != 0
    }

    pub open spec fn alt(self) -> bool {
        self.bits & ALT != 0
    }

    pub open spec fn caps_lock(self) -> bool {
        self.bits & CAPS_LOCK != 0
    }

    /// The set holds nothing but the four flags.
    pub open spec fn is_combination(self) -> bool {
        self.bits < FLAGS_END
    }

    pub fn empty() -> (r: WindowsModifiers)
        ensures
            r.bits == 0,
    {
        WindowsModifiers { bits: 0 }
    }

    pub fn from_bits(bits: u8) -> (r: WindowsModifiers)
        ensures
            r.bits == bits,
    {
        WindowsModifiers { bits }
    }

    pub fn contains_shift(&self) -> (r: bool)
        ensures
            r == self.shift(),
    {
        self.bits & SHIFT != 0
    }

    pub fn contains_control(&self) -> (r: bool)
        ensures
            r == self.control(),
    {
        self.bits & CONTROL != 0
    }

    pub fn contains_alt(&self) -> (r: bool)
        ensures
            r == self.alt(),
    {
        self.bits & ALT != 0
    }

    pub fn contains_caps_lock(&self) -> (r: bool)
        ensures
            r == self.caps_lock(),
    {
        self.bits & CAPS_LOCK != 0
    }

    /// Reads the set off a key-state array: a modifier is in it when its
    /// generic, left or right key is held; CapsLock when it is toggled on.
    pub fn active_modifiers(key_state: &[u8; 256]) -> (r: WindowsModifiers)
        ensures
            r.is_combination(),
            r.shift() == shift_held(key_state@),
            r.control() == control_held(key_state@),
            r.alt() == alt_held(key_state@),
            r.caps_lock() == caps_lock_on(key_state@),
            r.bits == bits_of(
                shift_held(key_state@),
                control_held(key_state@),
                alt_held(key_state@),
                caps_lock_on(key_state@),
            ),
    {
        let shift = key_state[VK_SHIFT as usize] & 0x80 != 0 || key_state[VK_LSHIFT as usize] & 0x80
            != 0 || key_state[VK_RSHIFT as usize] & 0x80 != 0;
        let control = key_state[VK_CONTROL as usize] & 0x80 != 0 || key_state[VK_LCONTROL as usize]
            & 0x80 != 0 || key_state[VK_RCONTROL as usize] & 0x80 != 0;
        let alt = key_state[VK_MENU as usize] & 0x80 != 0 || key_state[VK_LMENU as usize] & 0x80
            != 0 || key_state[VK_RMENU as usize] & 0x80 != 0;
        let caps = key_state[VK_CAPITAL as usize] & 0x01 != 0;
        let mut bits: u8 = 0;
        if shift {
            bits = bits + SHIFT;
        }
        if control {
            bits = bits + CONTROL;
        }
        if alt {
            bits = bits + ALT;
        }
        if caps {
            bits = bits + CAPS_LOCK;
        }
        proof {
            lemma_bits_of(shift, control, alt, caps);
        }
        WindowsModifiers { bits }
    }

    /// Writes the set into a key-state array, so that a probe of the
    /// layout sees exactly this combination.
    pub fn apply_to_kbd_state(self, key_state: &mut [u8; 256])
        ensures
            final(key_state)@ == applied_state(self, old(key_state)@),
    {
        let ghost before = key_state@;
        let shift = self.contains_shift();
        let control = self.contains_control();
        let alt = self.contains_alt();
        let caps = self.contains_caps_lock();
        set_held(key_state, VK_SHIFT as usize, shift);
        set_held(key_state, VK_LSHIFT as usize, shift);
        set_held(key_state, VK_RSHIFT as usize, shift);
        set_held(key_state, VK_CONTROL as usize, control);
        set_held(key_state, VK_LCONTROL as usize, control);
        set_held(key_state, VK_RCONTROL as usize, control);
        set_held(key_state, VK_MENU as usize, alt);
        set_held(key_state, VK_LMENU as usize, alt);
        set_held(key_state, VK_RMENU as usize, alt);
        let toggled = key_state[VK_CAPITAL as usize];
        key_state[VK_CAPITAL as usize] = if caps {
            toggled | 0x01
        } else {
            toggled & 0xfe
        };
        assert(key_state@ =~= applied_state(self, before));
    }

    /// Drops Control unless Alt is in the set too: Control with Alt is how
    /// the AltGraph modifier shows, and that state is left alone.
    pub fn remove_only_ctrl(self) -> (r: WindowsModifiers)
        ensures
            self.alt() ==> r == self,
            !self.alt() ==> r.bits == self.bits & !CONTROL,
            !self.alt() ==> !r.control() && !r.alt() && r.shift() == self.shift() && r.caps_lock()
                == self.caps_lock(),
    {
        if self.bits & ALT == 0 {
            let bits = self.bits;
            assert((bits & !2u8) & 2 == 0 && (bits & !2u8) & 1 == bits & 1 && (bits & !2u8) & 4
                == bits & 4 && (bits & !2u8) & 8 == bits & 8) by (bit_vector);
            WindowsModifiers { bits: self.bits & !CONTROL }
        } else {
            self
        }
    }
}

fn set_held(key_state: &mut [u8; 256], vk: usize, held: bool)
    requires
        vk < 256,
    ensures
        final(key_state)@ == old(key_state)@.update(
            vk as int,
            if held {
                old(key_state)@[vk as int] | 0x80
            } else {
                old(key_state)@[vk as int] & 0x7f
            },
        ),
{
    let state = key_state[vk];
    key_state[vk] = if held {
        state | 0x80
    } else {
        state & 0x7f
    };
}

/// A combination written into any key-state array is the combination read
/// back from it.
pub proof fn lemma_apply_then_read(mods: WindowsModifiers, key_state: Seq<u8>)
    requires
        mods.is_combination(),
        key_state.len() == 256,
    ensures
        shift_held(applied_state(mods, key_state)) == mods.shift(),
        control_held(applied_state(mods, key_state)) == mods.control(),
        alt_held(applied_state(mods, key_state)) == mods.alt(),
        caps_lock_on(applied_state(mods, key_state)) == mods.caps_lock(),
        bits_of(
            shift_held(applied_state(mods, key_state)),
            control_held(applied_state(mods, key_state)),
            alt_held(applied_state(mods, key_state)),
            caps_lock_on(applied_state(mods, key_state)),
        ) == mods.bits,
{
    let after = applied_state(mods, key_state);
    assert forall|vk: int| 0 <= vk < 256 implies #[trigger] after[vk] == applied_entry(
        mods,
        key_state,
        vk,
    ) by {}
    lemma_flag_bits(key_state[VK_SHIFT as int]);
    lemma_flag_bits(key_state[VK_LSHIFT as int]);
    lemma_flag_bits(key_state[VK_RSHIFT as int]);
    lemma_flag_bits(key_state[VK_CONTROL as int]);
    lemma_flag_bits(key_state[VK_LCONTROL as int]);
    lemma_flag_bits(key_state[VK_RCONTROL as int]);
    lemma_flag_bits(key_state[VK_MENU as int]);
    lemma_flag_bits(key_state[VK_LMENU as int]);
    lemma_flag_bits(key_state[VK_RMENU as int]);
    lemma_flag_bits(key_state[VK_CAPITAL as int]);
    assert(after[VK_SHIFT as int] == applied_entry(mods, key_state, VK_SHIFT as int));
    assert(after[VK_LSHIFT as int] == applied_entry(mods, key_state, VK_LSHIFT as int));
    assert(after[VK_RSHIFT as int] == applied_entry(mods, key_state, VK_RSHIFT as int));
    assert(after[VK_CONTROL as int] == applied_entry(mods, key_state, VK_CONTROL as int));
    assert(after[VK_LCONTROL as int] == applied_entry(mods, key_state, VK_LCONTROL as int));
    assert(after[VK_RCONTROL as int] == applied_entry(mods, key_state, VK_RCONTROL as int));
    assert(after[VK_MENU as int] == applied_entry(mods, key_state, VK_MENU as int));
    assert(after[VK_LMENU as int] == applied_entry(mods, key_state, VK_LMENU as int));
    assert(after[VK_RMENU as int] == applied_entry(mods, key_state, VK_RMENU as int));
    assert(after[VK_CAPITAL as int] == applied_entry(mods, key_state, VK_CAPITAL as int));
    lemma_bits_split(mods.bits);
}

} // verus!
