use vstd::prelude::*;

verus! {

/// Charge units gained per banked charge spent.
pub const CHARGE_PER_BANKED: u32 = 10;

/// Fewest bullets a release emits.
pub const MIN_BURST: u32 = 10;

/// Charges banked per level at each cleared wave.
pub const BANKED_PER_LEVEL: u64 = 4;

/// The super-bang weapon: charges banked at wave clears, turned into charge
/// units while the button is held, released as one burst of bullets.
#[derive(Clone, Copy, Debug, PartialEq, Eq, Structural)]
pub struct SuperBang {
    pub banked: u32,
    pub charging: bool,
    pub charged: u32,
}

/// `x`, or `u32::MAX` where it does not fit.
pub open spec fn sat_u32(x: int) -> int {
    if x > u32::MAX {
        u32::MAX as int
    } else {
        x
    }
}

/// The state after one frame.
pub open spec fn ticked(s: SuperBang) -> SuperBang {
    if s.charging && s.banked > 0 {
        SuperBang {
            banked: (s.banked - 1) as u32,
            charged: sat_u32(s.charged + CHARGE_PER_BANKED) as u32,
            ..s
        }
    } else {
        s
    }
}

/// The number of bullets that a release emits.
pub open spec fn burst_size(s: SuperBang) -> u32 {
    if s.charged > MIN_BURST {
        s.charged
    } else {
        MIN_BURST
    }
}

/// The state after `n` frames.
pub open spec fn ticked_n(s: SuperBang, n: nat) -> SuperBang
    decreases n,
{
    if n == 0 {
        s
    } else {
        ticked(ticked_n(s, (n - 1) as nat))
    }
}

/// Charging for `n` frames with at least `n` banked charges spends `n` of
/// them and gains ten charge units for each.
pub proof fn lemma_charging_frames(s: SuperBang, n: nat)
    requires
        s.charging,
        n <= s.banked,
        s.charged + CHARGE_PER_BANKED * n <= u32::MAX,
    ensures
        ticked_n(s, n).banked == s.banked - n,
        ticked_n(s, n).charged == s.charged + CHARGE_PER_BANKED * n,
        ticked_n(s, n).charging,
    decreases n,
{
    if n > 0 {
        lemma_charging_frames(s, (n - 1) as nat);
    }
}

/// A release emits the charge, but never fewer than `MIN_BURST` bullets.
pub proof fn lemma_release_size(s: SuperBang)
    ensures
        burst_size(s) >= MIN_BURST,
        burst_size(s) >= s.charged,
        s.charged >= MIN_BURST ==> burst_size(s) == s.charged,
        s.charged <= MIN_BURST ==> burst_size(s) == MIN_BURST,
{
}

impl SuperBang {
    /// Nothing banked, nothing charged, not charging.
    pub fn new() -> (s: SuperBang)
        ensures
            s == (SuperBang { banked: 0, charging: false, charged: 0 }),
    {
        SuperBang { banked: 0, charging: false, charged: 0 }
    }

    /// Banks the charges earned by clearing a wave at `level`.
    pub fn bank(&mut self, level: u32)
        ensures
            *final(self) == (SuperBang {
                banked: sat_u32(old(self).banked + BANKED_PER_LEVEL * level) as u32,
                ..*old(self)
            }),
    {
        let sum: u64 = (self.banked as u64) + BANKED_PER_LEVEL * (level as u64);
        self.banked = if sum > u32::MAX as u64 {
            u32::MAX
        } else {
            sum as u32
        };
    }

    /// The button is pressed: charging starts.
    pub fn press(&mut self)
        ensures
            *final(self) == (SuperBang { charging: true, ..*old(self) }),
    {
        self.charging = true;
    }

    /// One frame: while charging, one banked charge becomes ten charge units.
    pub fn tick(&mut self)
        ensures
            *final(self) == ticked(*old(self)),
    {
        if self.charging && self.banked > 0 {
            self.banked = self.banked - 1;
            self.charged = self.charged.saturating_add(CHARGE_PER_BANKED);
        }
    }

    /// The number of bullets that a release now would emit.
    pub fn pending_burst(&self) -> (n: u32)
        ensures
            n == burst_size(*self),
    {
        if self.charged > MIN_BURST {
            self.charged
        } else {
            MIN_BURST
        }
    }

    /// The button is released: charging stops, the charge is spent, and the
    /// number of bullets to emit is returned, at least `MIN_BURST`.
    pub fn release(&mut self) -> (n: u32)
        ensures
            n == burst_size(*old(self)),
            *final(self) == (SuperBang { charging: false, charged: 0, ..*old(self) }),
    {
        let n = if self.charged > MIN_BURST {
            self.charged
        } else {
            MIN_BURST
        };
        self.charging = false;
        self.charged = 0;
        n
    }
}

} // verus!
