//! The texels that the relay starts from.
use rand::rngs::ThreadRng;
use rand::RngExt;
use vstd::prelude::*;

verus! {

/// Declares `rand::rngs::ThreadRng`, the random number generator of a thread.
#[verifier::external_type_specification]
#[verifier::external_body]
pub struct ExThreadRng(ThreadRng);

/// `rand::rng`: the generator of the current thread.  Nothing is claimed of its state.  It
/// panics if the system has no randomness to seed it with.
pub assume_specification[ rand::rng ]() -> (rng: ThreadRng)
;

/// `rand::RngExt::random` for a byte.  Any byte may come back.  It panics if the generator is
/// due for a new seed and the system has no randomness to offer.
#[verifier::external_body]
fn random_byte(rng: &mut ThreadRng) -> u8 {
    rng.random()
}

/// The byte is what a draw gave that went through this borrow of the generator: the borrow holds the
/// state of the generator before the draw, and the state after it.
pub closed spec fn is_draw(draw: &mut ThreadRng, byte: u8) -> bool {
    call_ensures(random_byte, (draw,), byte)
}

/// Every byte has a draw of its own, in the order of the bytes.
pub open spec fn are_draws(draws: Seq<&mut ThreadRng>, bytes: Seq<u8>) -> bool {
    &&& draws.len() == bytes.len()
    &&& forall|index: int|
        0 <= index < bytes.len() ==> is_draw(#[trigger] draws[index], bytes[index])
}

/// Nothing but a call of the generator makes a draw.
proof fn lemma_draws_are_calls_of_the_generator(draw: &mut ThreadRng, byte: u8)
    ensures
        is_draw(draw, byte) <==> call_ensures(random_byte, (draw,), byte),
{
}

/// Draws one byte.  Any byte may come back.
fn draw_byte(rng: &mut ThreadRng) -> (byte: u8)
    ensures
        exists|draw: &mut ThreadRng|
            {
                &&& #[trigger] is_draw(draw, byte)
                &&& *draw == *old(rng)
                &&& *final(draw) == *final(rng)
            },
{
    let byte = random_byte(rng);
    proof {
        let draw = choose|draw: &mut ThreadRng|
            {
                &&& #[trigger] call_ensures(random_byte, (draw,), byte)
                &&& *draw == *old(rng)
                &&& *final(draw) == *rng
            };
        lemma_draws_are_calls_of_the_generator(draw, byte);
    }
    byte
}

/// The width of the texel grid.
pub const GRID_WIDTH: u32 = 1024;

/// The height of the texel grid.
pub const GRID_HEIGHT: u32 = 1024;

/// A texel, with eight bits each of red, green, blue and opacity.
#[derive(Clone, Copy, Debug, PartialEq, Eq)]
pub struct Pixel {
    pub position: [u8; 4],
}

impl Pixel {
    /// The texel hides whatever lies behind it.
    pub open spec fn is_opaque(self) -> bool {
        self.position@[3] == 255
    }

    /// The opaque texel of the given color.
    pub fn opaque(red: u8, green: u8, blue: u8) -> (pixel: Pixel)
        ensures
            pixel.position@ == seq![red, green, blue, 255u8],
    {
        Pixel { position: [red, green, blue, 255] }
    }

    /// An opaque texel of a random color: red, green and blue are drawn one after another.
    pub fn new_random(rng: &mut ThreadRng) -> (pixel: Pixel)
        ensures
            pixel.is_opaque(),
            pixel.position@[3] == 255,
            exists|draws: Seq<&mut ThreadRng>|
                {
                    &&& #[trigger] are_draws(draws, pixel.position@.take(3))
                    &&& *draws[0] == *old(rng)
                    &&& *final(draws[0]) == *draws[1]
                    &&& *final(draws[1]) == *draws[2]
                    &&& *final(draws[2]) == *final(rng)
                },
    {
        let red = draw_byte(rng);
        let ghost after_red = *rng;
        let green = draw_byte(rng);
        let ghost after_green = *rng;
        let blue = draw_byte(rng);
        let pixel = Pixel::opaque(red, green, blue);
        proof {
            let first = choose|draw: &mut ThreadRng|
                {
                    &&& #[trigger] is_draw(draw, red)
                    &&& *draw == *old(rng)
                    &&& *final(draw) == after_red
                };
            let second = choose|draw: &mut ThreadRng|
                {
                    &&& #[trigger] is_draw(draw, green)
                    &&& *draw == after_red
                    &&& *final(draw) == after_green
                };
            let third = choose|draw: &mut ThreadRng|
                {
                    &&& #[trigger] is_draw(draw, blue)
                    &&& *draw == after_green
                    &&& *final(draw) == *rng
                };
            assert(are_draws(seq![first, second, third], pixel.position@.take(3)));
        }
        pixel
    }
}

/// `bytes` are the colors of the texels, three bytes each, texel by texel.
pub open spec fn are_colors_of(bytes: Seq<u8>, pixels: Seq<Pixel>) -> bool {
    &&& bytes.len() == 3 * pixels.len()
    &&& forall|index: int|
        0 <= index < pixels.len() ==> (#[trigger] pixels[index]).position@ == seq![
            bytes[3 * index],
            bytes[3 * index + 1],
            bytes[3 * index + 2],
            255u8,
        ]
}

/// Random colors for all texels of the grid, three bytes each, in the order in which they are drawn:
/// every byte is a draw of its own, which starts from the state that the one before it has left.  Any
/// bytes may come back.
pub fn random_colors(rng: &mut ThreadRng) -> (bytes: Vec<u8>)
    ensures
        bytes@.len() == 3 * GRID_WIDTH * GRID_HEIGHT,
        exists|draws: Seq<&mut ThreadRng>|
            {
                &&& #[trigger] are_draws(draws, bytes@)
                &&& *draws[0] == *old(rng)
                &&& forall|index: int|
                    0 < index < draws.len() ==> *final(draws[index - 1]) == *(#[trigger] draws[index])
                &&& *final(draws.last()) == *final(rng)
            },
{
    let mut bytes: Vec<u8> = Vec::new();
    let count: u32 = 3 * GRID_WIDTH * GRID_HEIGHT;
    let mut drawn: u32 = 0;
    proof {
        let draws: Seq<&mut ThreadRng> = Seq::empty();
        assert(are_draws(draws, bytes@));
    }
    while drawn < count
        invariant
            drawn <= count,
            bytes@.len() == drawn,
            drawn == 0 ==> *rng == *old(rng),
            exists|draws: Seq<&mut ThreadRng>|
                {
                    &&& #[trigger] are_draws(draws, bytes@)
                    &&& drawn > 0 ==> *draws[0] == *old(rng)
                    &&& forall|index: int|
                        0 < index < draws.len() ==> *final(draws[index - 1]) == *(
                        #[trigger] draws[index])
                    &&& drawn > 0 ==> *final(draws.last()) == *rng
                },
        decreases count - drawn,
    {
        let ghost before = *rng;
        let ghost earlier = bytes@;
        let byte = draw_byte(rng);
        bytes.push(byte);
        proof {
            let draws = choose|draws: Seq<&mut ThreadRng>|
                {
                    &&& #[trigger] are_draws(draws, earlier)
                    &&& drawn > 0 ==> *draws[0] == *old(rng)
                    &&& forall|index: int|
                        0 < index < draws.len() ==> *final(draws[index - 1]) == *(
                        #[trigger] draws[index])
                    &&& drawn > 0 ==> *final(draws.last()) == before
                };
            let draw = choose|draw: &mut ThreadRng|
                {
                    &&& #[trigger] is_draw(draw, byte)
                    &&& *draw == before
                    &&& *final(draw) == *rng
                };
            assert(are_draws(draws.push(draw), bytes@));
        }
        drawn += 1;
    }
    bytes
}

/// The opaque texels of the given colors, one for every place of the grid.
pub fn grid_of_bytes(bytes: &Vec<u8>) -> (pixels: Vec<Pixel>)
    requires
        bytes@.len() == 3 * GRID_WIDTH * GRID_HEIGHT,
    ensures
        pixels@.len() == GRID_WIDTH * GRID_HEIGHT,
        are_colors_of(bytes@, pixels@),
{
    let mut pixels: Vec<Pixel> = Vec::new();
    let count: usize = bytes.len();
    let mut read: usize = 0;
    while read < count
        invariant
            count == bytes@.len(),
            bytes@.len() == 3 * GRID_WIDTH * GRID_HEIGHT,
            read == 3 * pixels@.len(),
            read <= count,
            forall|index: int|
                0 <= index < pixels@.len() ==> (#[trigger] pixels@[index]).position@ == seq![
                    bytes@[3 * index],
                    bytes@[3 * index + 1],
                    bytes@[3 * index + 2],
                    255u8,
                ],
        decreases count - read,
    {
        pixels.push(Pixel::opaque(bytes[read], bytes[read + 1], bytes[read + 2]));
        read += 3;
    }
    pixels
}

/// Where the bytes of a picture were drawn, every texel shows three draws of its own and is opaque:
/// its red, green and blue, which come after those of all texels before it.
pub proof fn lemma_every_texel_shows_its_own_draws(
    draws: Seq<&mut ThreadRng>,
    bytes: Seq<u8>,
    pixels: Seq<Pixel>,
    index: int,
)
    requires
        are_draws(draws, bytes),
        are_colors_of(bytes, pixels),
        0 <= index < pixels.len(),
    ensures
        draws.len() == 3 * pixels.len(),
        is_draw(draws[3 * index], pixels[index].position@[0]),
        is_draw(draws[3 * index + 1], pixels[index].position@[1]),
        is_draw(draws[3 * index + 2], pixels[index].position@[2]),
        pixels[index].position@[3] == 255,
{
}

/// The colors fix the texels: pictures of the same colors are the same, texel by texel.
pub proof fn lemma_colors_fix_the_texels(bytes: Seq<u8>, pixels: Seq<Pixel>, others: Seq<Pixel>)
    requires
        are_colors_of(bytes, pixels),
        are_colors_of(bytes, others),
    ensures
        pixels.len() == others.len(),
        forall|index: int|
            0 <= index < pixels.len() ==> (#[trigger] pixels[index]).position@
                == others[index].position@,
{
}

/// A texel has as many bytes as its format says.
pub proof fn lemma_pixels_have_the_size_of_their_format(pixel: Pixel)
    ensures
        pixel.position@.len() == crate::image::src_image().format.bytes(),
        pixel.position@.len() == crate::image::dst_image().format.bytes(),
{
}

} // verus!
