use vstd::prelude::*;

verus! {

/// The pixel formats an image can be created in.
#[derive(Clone, Copy, PartialEq, Eq, Structural, Debug)]
pub enum ImageFormat {
    Rgba8Unorm,
    Rgba8UnormSrgb,
    Bgra8Unorm,
    Bgra8UnormSrgb,
    /// Any format the engine does not upload decoded pictures into.
    Other,
}

/// The order of the four 8-bit channels of a pixel in memory.
#[derive(Clone, Copy, PartialEq, Eq, Structural, Debug)]
pub enum ChannelOrder {
    Rgba,
    Bgra,
}

#[derive(Clone, Copy, PartialEq, Eq, Structural, Debug)]
pub enum TextureError {
    /// Decoded pictures cannot be uploaded into this format.
    FormatNotSupported,
    /// The image holds more bytes than the machine can address.
    TooLarge,
}

/// The channel order in which a decoded picture is uploaded into an image of
/// `format`.
pub fn channel_order(format: ImageFormat) -> (r: Result<ChannelOrder, TextureError>)
    ensures
        r == (match format {
            ImageFormat::Rgba8Unorm | ImageFormat::Rgba8UnormSrgb => Ok(ChannelOrder::Rgba),
            ImageFormat::Bgra8Unorm | ImageFormat::Bgra8UnormSrgb => Ok(ChannelOrder::Bgra),
            ImageFormat::Other => Err(TextureError::FormatNotSupported),
        }),
{
    match format {
        ImageFormat::Rgba8Unorm | ImageFormat::Rgba8UnormSrgb => Ok(ChannelOrder::Rgba),
        ImageFormat::Bgra8Unorm | ImageFormat::Bgra8UnormSrgb => Ok(ChannelOrder::Bgra),
        ImageFormat::Other => Err(TextureError::FormatNotSupported),
    }
}

/// The bytes in one row of a four-byte-per-pixel image `width` wide.
pub fn bytes_per_row(width: u32) -> (r: Result<u32, TextureError>)
    ensures
        match r {
            Ok(n) => n == 4 * width,
            Err(e) => e == TextureError::TooLarge && 4 * width > u32::MAX,
        },
{
    if width > u32::MAX / 4 {
        Err(TextureError::TooLarge)
    } else {
        Ok(4 * width)
    }
}

/// The pixels of a black, fully transparent image of `width` by `height`,
/// four bytes each.
pub fn black_pixels(width: u32, height: u32) -> (r: Result<Vec<u8>, TextureError>)
    ensures
        match r {
            Ok(data) => data@.len() == 4 * width * height && forall|i: int|
                0 <= i < data@.len() ==> data@[i] == 0,
            Err(e) => e == TextureError::TooLarge && 4 * width * height > usize::MAX,
        },
{
    let w = width as usize;
    let h = height as usize;
    let n = match w.checked_mul(h) {
        Some(area) => match area.checked_mul(4) {
            Some(n) => {
                assert(n == 4 * width * height) by (nonlinear_arith)
                    requires
                        area == width * height,
                        n == area * 4,
                {
                }
                n
            },
            None => {
                assert(4 * width * height > usize::MAX) by (nonlinear_arith)
                    requires
                        area == width * height,
                        area * 4 > usize::MAX,
                {
                }
                return Err(TextureError::TooLarge);
            },
        },
        None => {
            assert(4 * width * height > usize::MAX) by (nonlinear_arith)
                requires
                    width * height > usize::MAX,
            {
            }
            return Err(TextureError::TooLarge);
        },
    };
    let mut data: Vec<u8> = Vec::new();
    let mut i: usize = 0;
    while i < n
        invariant
            0 <= i <= n,
            data@.len() == i,
            forall|k: int| 0 <= k < i ==> data@[k] == 0,
        decreases n - i,
    {
        data.push(0);
        i = i + 1;
    }
    Ok(data)
}

/// Where byte `i` of a pixel row in `order` is taken from in the same row
/// stored as RGBA: BGRA exchanges the first and third byte of each pixel.
pub open spec fn source_index(order: ChannelOrder, i: int) -> int {
    match order {
        ChannelOrder::Rgba => i,
        ChannelOrder::Bgra => if i % 4 == 0 {
            i + 2
        } else if i % 4 == 2 {
            i - 2
        } else {
            i
        },
    }
}

/// The bytes of RGBA pixels `rgba`, laid out in `order` for upload.
pub fn upload_pixels(order: ChannelOrder, rgba: Vec<u8>) -> (r: Vec<u8>)
    requires
        rgba@.len() % 4 == 0,
    ensures
        r@.len() == rgba@.len(),
        forall|i: int| 0 <= i < r@.len() ==> r@[i] == rgba@[source_index(order, i)],
{
    match order {
        ChannelOrder::Rgba => rgba,
        ChannelOrder::Bgra => {
            let mut out: Vec<u8> = Vec::new();
            let mut i: usize = 0;
            while i < rgba.len()
                invariant
                    order == ChannelOrder::Bgra,
                    rgba@.len() % 4 == 0,
                    i % 4 == 0,
                    0 <= i <= rgba@.len(),
                    out@.len() == i,
                    forall|k: int| 0 <= k < i ==> out@[k] == rgba@[source_index(order, k)],
                decreases rgba@.len() - i,
            {
                let ghost before = out@;
                out.push(rgba[i + 2]);
                out.push(rgba[i + 1]);
                out.push(rgba[i]);
                out.push(rgba[i + 3]);
                proof {
                    let j = i as int;
                    assert(out@ =~= before + seq![rgba@[j + 2], rgba@[j + 1], rgba@[j], rgba@[j + 3]]);
                    assert((j + 4) % 4 == 0);
                    assert forall|k: int| 0 <= k < j + 4 implies out@[k] == rgba@[source_index(order, k)] by {
                        if k < j {
                            assert(out@[k] == before[k]);
                        } else {
                            assert(order == ChannelOrder::Bgra);
                            if k == j {
                                assert(k % 4 == 0);
                                assert(source_index(order, k) == j + 2);
                            } else if k == j + 1 {
                                assert(k % 4 == 1);
                                assert(source_index(order, k) == j + 1);
                            } else if k == j + 2 {
                                assert(k % 4 == 2);
                                assert(source_index(order, k) == j);
                            } else {
                                assert(k % 4 == 3);
                                assert(source_index(order, k) == j + 3);
                            }
                        }
                    }
                }
                i = i + 4;
            }
            out
        },
    }
}

} // verus!
