use vstd::prelude::*;

verus! {

/// The number of entries of every palette.
pub const PALETTE_LEN: usize = 2048;

/// A color as red, green and blue bytes.
#[derive(Clone, Copy, Debug, PartialEq, Eq, Structural)]
pub struct Color(pub u8, pub u8, pub u8);

/// The color drawn for a point whose orbit did not escape.
pub open spec fn black() -> Color {
    Color(0, 0, 0)
}

/// The palette index used for an escape after `count` iterations: the count,
/// clamped to the last entry.
pub open spec fn entry_index(count: nat) -> nat {
    if count < PALETTE_LEN {
        count
    } else {
        (PALETTE_LEN - 1) as nat
    }
}

/// The color of a pixel whose escape-time result is `escape`: black where the
/// orbit stayed bounded, else the palette entry at the clamped count.
pub open spec fn pixel_color(colors: Seq<Color>, escape: Option<usize>) -> Color {
    match escape {
        None => black(),
        Some(count) => colors[entry_index(count as nat) as int],
    }
}

/// The byte of channel `k` (0 red, 1 green, 2 blue) of `c`.
pub open spec fn channel(c: Color, k: int) -> u8 {
    if k == 0 {
        c.0
    } else if k == 1 {
        c.1
    } else {
        c.2
    }
}

/// A color lookup table of exactly `PALETTE_LEN` entries, indexed by
/// iteration count.
#[derive(Debug)]
pub struct Palette {
    colors: Vec<Color>,
}

impl View for Palette {
    type V = Seq<Color>;

    closed spec fn view(&self) -> Seq<Color> {
        self.colors@
    }
}

impl Palette {
    #[verifier::type_invariant]
    closed spec fn full(&self) -> bool {
        self.colors@.len() == PALETTE_LEN
    }

    /// The number of entries: every palette holds exactly `PALETTE_LEN`.
    pub fn len(&self) -> (n: usize)
        ensures
            n == self@.len(),
            n == PALETTE_LEN,
    {
        proof {
            use_type_invariant(self);
        }
        self.colors.len()
    }

    /// Assembles a palette from its three channels, sampled independently:
    /// entry `j` is `(red[j], green[j], blue[j])`. Gives `None` unless each
    /// channel holds exactly `PALETTE_LEN` samples.
    pub fn from_channels(red: &Vec<u8>, green: &Vec<u8>, blue: &Vec<u8>) -> (r: Option<Palette>)
        ensures
            r is Some <==> (red@.len() == PALETTE_LEN && green@.len() == PALETTE_LEN
                && blue@.len() == PALETTE_LEN),
            r matches Some(p) ==> p@.len() == PALETTE_LEN && forall|j: int|
                0 <= j < PALETTE_LEN ==> #[trigger] p@[j] == Color(red@[j], green@[j], blue@[j]),
    {
        if red.len() != PALETTE_LEN || green.len() != PALETTE_LEN || blue.len() != PALETTE_LEN {
            return None;
        }
        let mut colors: Vec<Color> = Vec::with_capacity(PALETTE_LEN);
        let mut j: usize = 0;
        while j < PALETTE_LEN
            invariant
                j <= PALETTE_LEN,
                red@.len() == PALETTE_LEN,
                green@.len() == PALETTE_LEN,
                blue@.len() == PALETTE_LEN,
                colors@.len() == j,
                forall|i: int| 0 <= i < j ==> #[trigger] colors@[i] == Color(red@[i], green@[i], blue@[i]),
            decreases PALETTE_LEN - j,
        {
            colors.push(Color(red[j], green[j], blue[j]));
            j = j + 1;
        }
        Some(Palette { colors })
    }

    /// The entry for an escape after `count` iterations: the entry at `count`,
    /// or the last entry where `count` is past the end.
    pub fn color(&self, count: usize) -> (c: Color)
        ensures
            c == self@[entry_index(count as nat) as int],
    {
        proof {
            use_type_invariant(self);
        }
        if count < PALETTE_LEN {
            self.colors[count]
        } else {
            self.colors[PALETTE_LEN - 1]
        }
    }

    /// The color of a pixel with the escape-time result `escape`: black for
    /// an orbit that stayed bounded, else the entry for its escape count.
    pub fn pixel_color(&self, escape: Option<usize>) -> (c: Color)
        ensures
            c == pixel_color(self@, escape),
    {
        match escape {
            None => Color(0, 0, 0),
            Some(count) => self.color(count),
        }
    }

    /// The colors of the palette, in order.
    pub fn colors(&self) -> (r: &[Color])
        ensures
            r@ == self@,
    {
        self.colors.as_slice()
    }
}

} // verus!
