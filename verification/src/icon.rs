//! The tray icons: PNG files turned into the pixel layout of the tray protocol.

use vstd::prelude::*;

verus! {

/// An icon as the tray protocol wants it: four bytes for each pixel, in the order alpha,
/// red, green, blue.
#[derive(Debug, PartialEq)]
pub struct Icon {
    pub width: i32,
    pub height: i32,
    pub data: Vec<u8>,
}

/// The contents of an [`Icon`].
#[verifier::ext_equal]
pub struct IconPixels {
    pub width: i32,
    pub height: i32,
    pub data: Seq<u8>,
}

impl View for Icon {
    type V = IconPixels;

    open spec fn view(&self) -> IconPixels {
        IconPixels { width: self.width, height: self.height, data: self.data@ }
    }
}

impl Clone for Icon {
    fn clone(&self) -> (result: Self)
        ensures
            result@ == self@,
    {
        Icon { width: self.width, height: self.height, data: self.data.clone() }
    }
}

/// Why an icon could not be made.
#[derive(Debug, PartialEq)]
pub enum IconError {
    /// The bytes are no PNG image that can be decoded, for the reason that the decoder gives.
    Undecodable { cause: String },
}

impl View for IconError {
    type V = Seq<char>;

    /// The reason that the decoder gives.
    open spec fn view(&self) -> Seq<char> {
        match self {
            IconError::Undecodable { cause } => cause@,
        }
    }
}

impl IconError {
    /// The message to show: what failed, then why.
    pub fn message(&self) -> (result: String)
        ensures
            result@ == "Failed to decode embedded PNG icon: "@ + self@,
    {
        match self {
            IconError::Undecodable { cause } => {
                "Failed to decode embedded PNG icon: ".to_owned().concat(cause.as_str())
            },
        }
    }
}

/// What a PNG file decodes to: width, height and pixels, four bytes each in the order red,
/// green, blue, alpha, or the reason why it does not decode.
pub uninterp spec fn png_image(bytes: Seq<u8>) -> Result<(u32, u32, Seq<u8>), Seq<char>>;

/// Calls `image::load` for the PNG format, then `DynamicImage::into_rgba8` and
/// `ImageBuffer::into_vec`; an error is written out with its causes by `anyhow::Error`. The
/// image, or the reason why there is none, depends on the bytes alone; the pixels fill the image
/// exactly, with four bytes each.
#[verifier::external_body]
fn decode_png(bytes: &[u8]) -> (result: Result<(u32, u32, Vec<u8>), String>)
    ensures
        match result {
            Ok((width, height, pixels)) => {
                &&& png_image(bytes@) == Ok::<_, Seq<char>>((width, height, pixels@))
                &&& pixels@.len() == 4 * width * height
            },
            Err(cause) => png_image(bytes@) == Err::<(u32, u32, Seq<u8>), _>(cause@),
        },
{
    let image = image::load(std::io::Cursor::new(bytes), image::ImageFormat::Png).map_err(
        |error| format!("{:#}", anyhow::Error::from(error)),
    )?;
    let (width, height) = (image.width(), image.height());
    Ok((width, height, image.into_rgba8().into_vec()))
}

/// Pixels in the order red, green, blue, alpha with each pixel turned to the order alpha,
/// red, green, blue. Bytes behind the last whole pixel stay as they are.
pub open spec fn argb(rgba: Seq<u8>) -> Seq<u8> {
    Seq::new(
        rgba.len(),
        |i: int|
            if i >= rgba.len() - rgba.len() % 4 {
                rgba[i]
            } else if i % 4 == 0 {
                rgba[i + 3]
            } else {
                rgba[i - 1]
            },
    )
}

/// Turns every pixel from the order red, green, blue, alpha to the order alpha, red,
/// green, blue.
pub fn rgba_to_argb(pixels: Vec<u8>) -> (result: Vec<u8>)
    ensures
        result@ == argb(pixels@),
{
    let mut data = pixels;
    let len: usize = data.len();
    let mut at: usize = 0;
    while len - at >= 4
        invariant
            len == pixels@.len(),
            data@.len() == len,
            at <= len,
            at % 4 == 0,
            forall|i: int| 0 <= i < at ==> #[trigger] data@[i] == argb(pixels@)[i],
            forall|i: int| at <= i < len ==> #[trigger] data@[i] == pixels@[i],
        decreases len - at,
    {
        let ghost before = data@;
        let red: u8 = data[at];
        let green: u8 = data[at + 1];
        let blue: u8 = data[at + 2];
        let alpha: u8 = data[at + 3];
        data.set(at, alpha);
        data.set(at + 1, red);
        data.set(at + 2, green);
        data.set(at + 3, blue);
        assert forall|i: int| 0 <= i < at + 4 implies #[trigger] data@[i] == argb(pixels@)[i] by {
            if i < at {
                assert(data@[i] == before[i]);
            }
        }
        at = at + 4;
    }
    assert(data@ =~= argb(pixels@));
    data
}

/// The icon of a decoded image.
pub open spec fn icon_of(width: u32, height: u32, rgba: Seq<u8>) -> IconPixels {
    IconPixels { width: width as i32, height: height as i32, data: argb(rgba) }
}

/// Makes an icon from a decoded image: the size, then the pixels in the order red, green,
/// blue, alpha.
pub fn icon_from_rgba(width: u32, height: u32, pixels: Vec<u8>) -> (result: Icon)
    ensures
        result@ == icon_of(width, height, pixels@),
{
    Icon { width: width as i32, height: height as i32, data: rgba_to_argb(pixels) }
}

/// Makes an icon from a PNG file.
pub fn png_to_ksni_icon(png_bytes: &[u8]) -> (result: Result<Icon, IconError>)
    ensures
        match result {
            Ok(icon) => {
                &&& png_image(png_bytes@) matches Ok((width, height, rgba))
                &&& icon@ == icon_of(width, height, rgba)
                &&& icon.data@.len() == 4 * width * height
            },
            Err(error) => png_image(png_bytes@) == Err::<(u32, u32, Seq<u8>), _>(error@),
        },
{
    match decode_png(png_bytes) {
        Ok((width, height, pixels)) => Ok(icon_from_rgba(width, height, pixels)),
        Err(cause) => Err(IconError::Undecodable { cause }),
    }
}

/// The icons of the three colours.
#[derive(Debug)]
pub struct Icons {
    /// Red: the daemon is stopped.
    pub stopped: Icon,
    /// Grey: the daemon is idle.
    pub idle: Icon,
    /// Green: a dictation or a meeting is under way.
    pub active: Icon,
}

/// Whether an icon is the one that a PNG file holds.
pub open spec fn is_icon_of(icon: Icon, png: Seq<u8>) -> bool {
    png_image(png) matches Ok((width, height, rgba)) && icon@ == icon_of(width, height, rgba)
}

/// The reason why the first of three images that does not decode does not.
pub open spec fn first_error(
    stopped: Result<(u32, u32, Seq<u8>), Seq<char>>,
    idle: Result<(u32, u32, Seq<u8>), Seq<char>>,
    active: Result<(u32, u32, Seq<u8>), Seq<char>>,
) -> Option<Seq<char>> {
    if stopped is Err {
        Some(stopped->Err_0)
    } else if idle is Err {
        Some(idle->Err_0)
    } else if active is Err {
        Some(active->Err_0)
    } else {
        None
    }
}

impl Icons {
    /// Makes the three icons from their PNG files.
    pub fn load(stopped_png: &[u8], idle_png: &[u8], active_png: &[u8]) -> (result: Result<
        Icons,
        IconError,
    >)
        ensures
            match result {
                Ok(icons) => {
                    &&& is_icon_of(icons.stopped, stopped_png@)
                    &&& is_icon_of(icons.idle, idle_png@)
                    &&& is_icon_of(icons.active, active_png@)
                },
                Err(error) => first_error(
                    png_image(stopped_png@),
                    png_image(idle_png@),
                    png_image(active_png@),
                ) == Some(error@),
            },
    {
        let stopped = match png_to_ksni_icon(stopped_png) {
            Ok(icon) => icon,
            Err(error) => return Err(error),
        };
        let idle = match png_to_ksni_icon(idle_png) {
            Ok(icon) => icon,
            Err(error) => return Err(error),
        };
        let active = match png_to_ksni_icon(active_png) {
            Ok(icon) => icon,
            Err(error) => return Err(error),
        };
        Ok(Icons { stopped, idle, active })
    }
}

/// Every pixel keeps its colour and its transparency: only the order of its bytes changes.
pub proof fn law_pixels_keep_their_colour(rgba: Seq<u8>, pixel: int)
    requires
        0 <= pixel,
        4 * pixel + 4 <= rgba.len(),
    ensures
        argb(rgba).len() == rgba.len(),
        argb(rgba)[4 * pixel] == rgba[4 * pixel + 3],
        argb(rgba)[4 * pixel + 1] == rgba[4 * pixel],
        argb(rgba)[4 * pixel + 2] == rgba[4 * pixel + 1],
        argb(rgba)[4 * pixel + 3] == rgba[4 * pixel + 2],
{
}

/// What an icon holds is what it says.
pub proof fn law_contents_of_an_icon(icon: Icon)
    ensures
        icon@.width == icon.width,
        icon@.height == icon.height,
        icon@.data == icon.data@,
{
}

/// An icon is as wide and as high as its image, with the pixels of the image in the order alpha,
/// red, green, blue.
pub proof fn law_icon_of_an_image(icon: Icon, png: Seq<u8>, width: u32, height: u32, rgba: Seq<u8>)
    requires
        is_icon_of(icon, png),
        png_image(png) == Ok::<_, Seq<char>>((width, height, rgba)),
    ensures
        width <= i32::MAX ==> icon.width == width,
        height <= i32::MAX ==> icon.height == height,
        icon.data@.len() == rgba.len(),
        forall|pixel: int|
            0 <= pixel && 4 * pixel + 4 <= rgba.len() ==> {
                &&& #[trigger] icon.data@[4 * pixel] == rgba[4 * pixel + 3]
                &&& icon.data@[4 * pixel + 1] == rgba[4 * pixel]
                &&& icon.data@[4 * pixel + 2] == rgba[4 * pixel + 1]
                &&& icon.data@[4 * pixel + 3] == rgba[4 * pixel + 2]
            },
{
    assert forall|pixel: int| 0 <= pixel && 4 * pixel + 4 <= rgba.len() implies {
        &&& #[trigger] icon.data@[4 * pixel] == rgba[4 * pixel + 3]
        &&& icon.data@[4 * pixel + 1] == rgba[4 * pixel]
        &&& icon.data@[4 * pixel + 2] == rgba[4 * pixel + 1]
        &&& icon.data@[4 * pixel + 3] == rgba[4 * pixel + 2]
    } by {
        law_pixels_keep_their_colour(rgba, pixel);
    }
}

/// The same for an image that is decoded already; bytes that fill no pixel stay.
pub proof fn law_icon_of_pixels(width: u32, height: u32, rgba: Seq<u8>, at: int)
    ensures
        width <= i32::MAX ==> icon_of(width, height, rgba).width == width,
        height <= i32::MAX ==> icon_of(width, height, rgba).height == height,
        icon_of(width, height, rgba).data == argb(rgba),
        rgba.len() - rgba.len() % 4 <= at < rgba.len() ==> argb(rgba)[at] == rgba[at],
{
}

/// Three images that decode give three icons, each its own; else the reason is that of the first
/// one that does not decode.
pub proof fn law_which_icon_is_blamed(
    stopped: Result<(u32, u32, Seq<u8>), Seq<char>>,
    idle: Result<(u32, u32, Seq<u8>), Seq<char>>,
    active: Result<(u32, u32, Seq<u8>), Seq<char>>,
)
    ensures
        first_error(stopped, idle, active) is None <==> stopped is Ok && idle is Ok && active is Ok,
        first_error(stopped, idle, active) matches Some(cause) ==> {
            ||| stopped == Err::<(u32, u32, Seq<u8>), _>(cause)
            ||| stopped is Ok && idle == Err::<(u32, u32, Seq<u8>), _>(cause)
            ||| stopped is Ok && idle is Ok && active == Err::<(u32, u32, Seq<u8>), _>(cause)
        },
{
}

/// An icon error holds the reason that was given.
pub proof fn law_contents_of_an_icon_error(cause: String)
    ensures
        (IconError::Undecodable { cause })@ == cause@,
{
}

} // verus!
