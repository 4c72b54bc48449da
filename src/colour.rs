//! Cell colours reported by the puzzle engine and the textures that show them.
use vstd::prelude::*;

verus! {

/// Number of piece colours in the palette: `Value(0)` to `Value(6)`.
pub const PALETTE_SIZE: isize = 7;

/// The colour of one cell: the border wall, or a palette value.
#[derive(Clone, Copy, Debug, PartialEq, Eq, Structural)]
pub enum Colour {
    Wall,
    Value(isize),
}

/// Whether the colour has a texture of its own.
pub open spec fn in_palette(c: Colour) -> bool {
    match c {
        Colour::Wall => true,
        Colour::Value(n) => 0 <= n < PALETTE_SIZE,
    }
}

/// The name of the texture that shows a colour; values outside the palette
/// show the fallback texture.
pub open spec fn texture_name_spec(c: Colour) -> Seq<char> {
    match c {
        Colour::Wall => "wall.png"@,
        Colour::Value(0) => "0.png"@,
        Colour::Value(1) => "1.png"@,
        Colour::Value(2) => "2.png"@,
        Colour::Value(3) => "3.png"@,
        Colour::Value(4) => "4.png"@,
        Colour::Value(5) => "5.png"@,
        Colour::Value(6) => "6.png"@,
        _ => FALLBACK_TEXTURE@,
    }
}

/// The texture shown for colours outside the palette.
pub const FALLBACK_TEXTURE: &'static str = "none.png";

/// The name of the texture that shows colour `c`.
pub fn texture_name(c: Colour) -> (r: &'static str)
    ensures
        r@ == texture_name_spec(c),
{
    match c {
        Colour::Wall => "wall.png",
        Colour::Value(0) => "0.png",
        Colour::Value(1) => "1.png",
        Colour::Value(2) => "2.png",
        Colour::Value(3) => "3.png",
        Colour::Value(4) => "4.png",
        Colour::Value(5) => "5.png",
        Colour::Value(6) => "6.png",
        _ => FALLBACK_TEXTURE,
    }
}

/// The texture mapping is total and tells the palette apart: two different
/// colours of the palette (the wall included) have different textures, none
/// of which is the fallback, and every other colour gets the fallback.
pub proof fn lemma_texture_names_distinct(a: Colour, b: Colour)
    ensures
        in_palette(a) && in_palette(b) && a != b ==> texture_name_spec(a) != texture_name_spec(
            b,
        ),
        in_palette(a) ==> texture_name_spec(a) != FALLBACK_TEXTURE@,
        !in_palette(a) ==> texture_name_spec(a) == FALLBACK_TEXTURE@,
{
    reveal_strlit("wall.png");
    reveal_strlit("0.png");
    reveal_strlit("1.png");
    reveal_strlit("2.png");
    reveal_strlit("3.png");
    reveal_strlit("4.png");
    reveal_strlit("5.png");
    reveal_strlit("6.png");
    reveal_strlit("none.png");
    if in_palette(a) && in_palette(b) && a != b {
        let (na, nb) = (texture_name_spec(a), texture_name_spec(b));
        assert(na[0] != nb[0] || na.len() != nb.len());
    }
    if in_palette(a) {
        let na = texture_name_spec(a);
        assert(na[0] != FALLBACK_TEXTURE@[0]);
    }
}

} // verus!
