use vstd::prelude::*;

verus! {

/// The sound events the game raises.
#[derive(Clone, Copy, Debug, PartialEq, Eq, Structural)]
pub enum SoundType {
    Fire,
    Explode,
    MultiFire,
    Wave,
    Load,
}

/// The family of sample files a sound event plays from.
#[derive(Clone, Copy, Debug, PartialEq, Eq, Structural)]
pub enum SoundFamily {
    Laser,
    Incoming,
    Part,
}

/// The numbered variants `[first, end)` an event picks from at random, if any.
pub open spec fn variants_of(t: SoundType) -> Option<(u8, u8)> {
    match t {
        SoundType::Fire => Some((7, 10)),
        SoundType::Explode => Some((3, 7)),
        SoundType::MultiFire => Some((0, 3)),
        SoundType::Wave => Some((0, 5)),
        SoundType::Load => None,
    }
}

/// The variant that a draw `draw` selects in `[first, end)`.
pub open spec fn variant_from(first: u8, end: u8, draw: u8) -> int {
    first as int + (draw as int) % (end as int - first as int)
}

impl SoundType {
    pub fn family(&self) -> (f: SoundFamily)
        ensures
            f == (match *self {
                SoundType::Wave => SoundFamily::Incoming,
                SoundType::Load => SoundFamily::Part,
                _ => SoundFamily::Laser,
            }),
    {
        match self {
            SoundType::Wave => SoundFamily::Incoming,
            SoundType::Load => SoundFamily::Part,
            _ => SoundFamily::Laser,
        }
    }

    pub fn variants(&self) -> (r: Option<(u8, u8)>)
        ensures
            r == variants_of(*self),
    {
        match self {
            SoundType::Fire => Some((7, 10)),
            SoundType::Explode => Some((3, 7)),
            SoundType::MultiFire => Some((0, 3)),
            SoundType::Wave => Some((0, 5)),
            SoundType::Load => None,
        }
    }

    /// Playback volume in decibels.
    pub fn volume_db(&self) -> (v: i8)
        ensures
            v == (match *self {
                SoundType::Fire => -6i8,
                SoundType::Explode => 1i8,
                SoundType::MultiFire => -8i8,
                SoundType::Wave => 10i8,
                SoundType::Load => -8i8,
            }),
    {
        match self {
            SoundType::Fire => -6,
            SoundType::Explode => 1,
            SoundType::MultiFire => -8,
            SoundType::Wave => 10,
            SoundType::Load => -8,
        }
    }
}

/// The variant in `[first, end)` that the draw `draw` selects.
pub fn variant_for_draw(first: u8, end: u8, draw: u8) -> (r: u8)
    requires
        first < end,
    ensures
        r == variant_from(first, end, draw),
        first <= r < end,
{
    first + draw % (end - first)
}

/// A variant in `[first, end)` drawn at random.
pub fn random_variant(first: u8, end: u8) -> (r: u8)
    requires
        first < end,
    ensures
        first <= r < end,
{
    let draw: u8 = rand::random::<u8>();
    variant_for_draw(first, end, draw)
}

} // verus!
