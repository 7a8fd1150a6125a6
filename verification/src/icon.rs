//! The icon extractor's decision and encoding pipeline. The driver performs
//! the native steps — the four icon-handle lookups and the off-screen
//! render and pixel read-back — and this module decides which handle the
//! pipeline uses, converts the read-back buffer's channel order, and turns
//! the pixels into the encoded data URI a record carries. Any failed stage
//! degrades the whole extraction to "no icon", never to an error.

use vstd::prelude::*;
use vstd::string::StringExecFns;

verus! {

/// Width and height, in pixels, of the off-screen bitmap the icon is
/// rendered into (the small-icon size).
pub const ICON_SIZE: u32 = 16;

/// Byte length of the 32-bit-per-pixel read-back buffer for that bitmap.
pub const ICON_BUFFER_LEN: usize = 1024;

/// The handle the pipeline works on: the first of the four fallback
/// lookups — window small icon, window big icon, class small icon, class
/// big icon, in that order — that produced a non-null handle, or nothing
/// when all four came back null.
pub open spec fn chosen_icon_handle(
    window_small: isize,
    window_big: isize,
    class_small: isize,
    class_big: isize,
) -> Option<isize> {
    if window_small != 0 {
        Some(window_small)
    } else if window_big != 0 {
        Some(window_big)
    } else if class_small != 0 {
        Some(class_small)
    } else if class_big != 0 {
        Some(class_big)
    } else {
        None
    }
}

/// Resolve the icon-handle fallback chain. Nothing is returned exactly
/// when all four lookups were null, and the caller then stops before any
/// surface is created, so total lookup failure costs no rendering work and
/// leaks no resource.
pub fn pick_icon_handle(
    window_small: isize,
    window_big: isize,
    class_small: isize,
    class_big: isize,
) -> (picked: Option<isize>)
    ensures
        picked == chosen_icon_handle(window_small, window_big, class_small, class_big),
{
    if window_small != 0 {
        Some(window_small)
    } else if window_big != 0 {
        Some(window_big)
    } else if class_small != 0 {
        Some(class_small)
    } else if class_big != 0 {
        Some(class_big)
    } else {
        None
    }
}

/// Total lookup failure is decided before any rendering: the chain yields
/// nothing exactly when all four lookups returned null handles.
pub proof fn lemma_no_handle_no_icon(
    window_small: isize,
    window_big: isize,
    class_small: isize,
    class_big: isize,
)
    ensures
        chosen_icon_handle(window_small, window_big, class_small, class_big) is None
            <==> (window_small == 0 && window_big == 0 && class_small == 0 && class_big == 0),
{
}

/// The buffer with the first and third byte of every complete four-byte
/// pixel exchanged — the read-back's blue-first channel order turned into
/// the encoder's red-first order. Bytes of a trailing incomplete pixel are
/// untouched.
pub open spec fn channel_swapped(b: Seq<u8>) -> Seq<u8> {
    Seq::new(
        b.len(),
        |i: int|
            {
                if i - i % 4 + 4 <= b.len() {
                    if i % 4 == 0 {
                        b[i + 2]
                    } else if i % 4 == 2 {
                        b[i - 2]
                    } else {
                        b[i]
                    }
                } else {
                    b[i]
                }
            },
    )
}

/// Swap the blue and red channels of every complete 32-bit pixel in place.
pub fn swap_pixel_channels(buffer: &mut Vec<u8>)
    ensures
        final(buffer)@ == channel_swapped(old(buffer)@),
{
    let ghost orig: Seq<u8> = buffer@;
    let mut i: usize = 0;
    while buffer.len() - i >= 4
        invariant
            i <= buffer@.len(),
            i % 4 == 0,
            buffer@.len() == orig.len(),
            forall|k: int| 0 <= k < i ==> buffer@[k] == channel_swapped(orig)[k],
            forall|k: int| i <= k < orig.len() ==> buffer@[k] == orig[k],
        decreases buffer@.len() - i,
    {
        let blue = buffer[i];
        let red = buffer[i + 2];
        buffer.set(i, red);
        buffer.set(i + 2, blue);
        proof {
            assert forall|k: int| 0 <= k < i + 4 implies buffer@[k] == channel_swapped(orig)[k] by {
                if i <= k {
                    assert(k % 4 == k - i);
                    assert(k - k % 4 == i);
                }
            }
        }
        i += 4;
    }
    proof {
        assert forall|k: int| 0 <= k < orig.len() implies buffer@[k] == channel_swapped(orig)[k] by {
            if i <= k {
                assert(k - k % 4 >= i) by {
                    assert(k - k % 4 == 4 * (k / 4));
                    assert(i == 4 * (i / 4));
                    assert(k / 4 >= i / 4);
                }
                assert(k - k % 4 + 4 > orig.len());
            }
        }
        assert(buffer@ =~= channel_swapped(orig));
    }
}

/// The PNG encoding of a width x height image of the given RGBA bytes, as
/// the image library's encoder writes it. The bytes depend on the
/// dimensions and the pixel data alone.
pub uninterp spec fn png_bytes_of(width: u32, height: u32, rgba: Seq<u8>) -> Seq<u8>;

/// Relies on image::RgbaImage::from_raw and image::ImageBuffer::write_to
/// with the PNG format: from_raw accepts a buffer of exactly
/// width * height * 4 bytes, and the encoder's output depends only on the
/// dimensions and the pixel bytes. For nonzero dimensions the encode
/// succeeds: the only format errors of this path are zero width, zero
/// height and a buffer-length mismatch, and the in-memory writer it runs
/// against cannot fail.
#[verifier::external_body]
fn encode_png_rgba(width: u32, height: u32, rgba: Vec<u8>) -> (encoded: Option<Vec<u8>>)
    requires
        rgba@.len() == 4 * (width as nat) * (height as nat),
    ensures
        (match encoded {
            Some(png) => png@ == png_bytes_of(width, height, rgba@),
            None => true,
        }),
        width > 0 && height > 0 ==> encoded is Some,
{
    let image = match image::RgbaImage::from_raw(width, height, rgba) {
        Some(image) => image,
        None => return None,
    };
    let mut cursor = std::io::Cursor::new(Vec::new());
    match image.write_to(&mut cursor, image::ImageOutputFormat::Png) {
        Ok(()) => Some(cursor.into_inner()),
        Err(_) => None,
    }
}

/// The base-64 text of a byte sequence under the standard padded alphabet.
pub uninterp spec fn base64_standard_chars(bytes: Seq<u8>) -> Seq<char>;

/// Relies on base64::engine::general_purpose::STANDARD.encode: the padded
/// standard-alphabet text depends only on the input bytes, and it is four
/// characters for every started group of three input bytes (so empty input
/// encodes to the empty string). The length bound keeps the output size
/// computation of the encoder from overflowing.
#[verifier::external_body]
fn base64_encode(bytes: &Vec<u8>) -> (text: String)
    requires
        bytes@.len() <= 0x1000_0000,
    ensures
        text@ == base64_standard_chars(bytes@),
        text@.len() == 4 * ((bytes@.len() + 2) / 3),
{
    base64::Engine::encode(&base64::engine::general_purpose::STANDARD, bytes)
}

/// The self-describing text form of an encoded icon: the PNG bytes,
/// base-64 encoded, behind the data-URI format tag.
pub open spec fn icon_data_uri(png: Seq<u8>) -> Seq<char> {
    "data:image/png;base64,"@ + base64_standard_chars(png)
}

/// Wrap encoded PNG bytes into the data URI a record carries.
pub fn data_uri_for_png(png: &Vec<u8>) -> (uri: String)
    requires
        png@.len() <= 0x1000_0000,
    ensures
        uri@ == icon_data_uri(png@),
{
    let mut uri = String::from_str("data:image/png;base64,");
    let encoded = base64_encode(png);
    uri.append(encoded.as_str());
    uri
}

/// The encoding tail of the icon pipeline, taken once a handle was chosen
/// and the driver rendered it and read the pixels back: swap the channel
/// order of every complete pixel, encode the buffer as PNG, and wrap the
/// result into a data URI. The icon is owed for every full 16 x 16 32-bit
/// read-back whose encoding fits the base64 size guard; anything else
/// yields nothing, which the caller treats as "no icon available", not as
/// an error.
pub fn icon_from_bgra(buffer: Vec<u8>) -> (icon: Option<String>)
    ensures
        buffer@.len() != ICON_BUFFER_LEN ==> icon is None,
        buffer@.len() == ICON_BUFFER_LEN && png_bytes_of(
            ICON_SIZE,
            ICON_SIZE,
            channel_swapped(buffer@),
        ).len() <= 0x1000_0000 ==> icon is Some,
        (match icon {
            Some(uri) => uri@ == icon_data_uri(
                png_bytes_of(ICON_SIZE, ICON_SIZE, channel_swapped(buffer@)),
            ),
            None => true,
        }),
{
    if buffer.len() != ICON_BUFFER_LEN {
        return None;
    }
    let mut pixels = buffer;
    swap_pixel_channels(&mut pixels);
    match encode_png_rgba(ICON_SIZE, ICON_SIZE, pixels) {
        Some(png) => {
            if png.len() > 0x1000_0000 {
                return None;
            }
            Some(data_uri_for_png(&png))
        },
        None => None,
    }
}

/// Swapping the channels twice restores every pixel buffer exactly.
pub proof fn lemma_channel_swap_round_trip(b: Seq<u8>)
    ensures
        channel_swapped(channel_swapped(b)) == b,
{
    let once = channel_swapped(b);
    assert forall|i: int| 0 <= i < b.len() implies channel_swapped(once)[i] == b[i] by {
        if i - i % 4 + 4 <= b.len() {
            if i % 4 == 0 {
                assert((i + 2) % 4 == 2);
                assert((i + 2) - (i + 2) % 4 == i - i % 4);
            } else if i % 4 == 2 {
                assert((i - 2) % 4 == 0);
                assert((i - 2) - (i - 2) % 4 == i - i % 4);
            }
        }
    }
    assert(channel_swapped(channel_swapped(b)) =~= b);
}

} // verus!
