//! Perception of screen regions: checking regions against a monitor, cutting a
//! region out of a captured screen, and comparing a capture with a template.

pub mod service;

use crate::text::{decimal, push_decimal};
use image::ImageEncoder;
use vstd::prelude::*;
use vstd::string::*;

verus! {

/// The version of the condition file format.
pub const CONDITION_VERSION: u32 = 1;

/// The poll interval a new condition gets, in milliseconds.
pub const DEFAULT_POLL_INTERVAL_MS: u64 = 500;

/// Bytes per pixel of an RGBA image.
pub const CHANNELS: usize = 4;

/// A rectangle of a monitor in physical pixels.
#[derive(Clone, Copy, Debug, PartialEq, Eq, Structural)]
pub struct Region {
    pub x: u32,
    pub y: u32,
    pub width: u32,
    pub height: u32,
}

/// The verdict on a region of a monitor of the given size.
pub open spec fn spec_validate_region(region: Region, monitor_width: u32, monitor_height: u32) -> Result<
    (),
    Seq<char>,
> {
    if region.width == 0 || region.height == 0 {
        Err("Perception region width and height must be greater than 0"@)
    } else if region.x + region.width > u32::MAX {
        Err("Perception region horizontal bounds overflow"@)
    } else if region.y + region.height > u32::MAX {
        Err("Perception region vertical bounds overflow"@)
    } else if region.x + region.width > monitor_width || region.y + region.height > monitor_height {
        Err(
            "Perception region ("@ + decimal(region.x as nat) + ", "@ + decimal(region.y as nat)
                + ", "@ + decimal(region.width as nat) + ", "@ + decimal(region.height as nat)
                + ") exceeds monitor size "@ + decimal(monitor_width as nat) + "x"@ + decimal(
                monitor_height as nat,
            ),
        )
    } else {
        Ok(())
    }
}

/// Checks that a region is not empty and lies within the monitor.
pub fn validate_region(region: Region, monitor_width: u32, monitor_height: u32) -> (r: Result<
    (),
    String,
>)
    ensures
        match spec_validate_region(region, monitor_width, monitor_height) {
            Ok(()) => r is Ok,
            Err(m) => r matches Err(e) && e@ == m,
        },
{
    if region.width == 0 || region.height == 0 {
        return Err(String::from_str("Perception region width and height must be greater than 0"));
    }
    let right = match region.x.checked_add(region.width) {
        Some(v) => v,
        None => return Err(String::from_str("Perception region horizontal bounds overflow")),
    };
    let bottom = match region.y.checked_add(region.height) {
        Some(v) => v,
        None => return Err(String::from_str("Perception region vertical bounds overflow")),
    };
    if right > monitor_width || bottom > monitor_height {
        let mut m = String::from_str("Perception region (");
        push_decimal(&mut m, region.x as u64);
        m.append(", ");
        push_decimal(&mut m, region.y as u64);
        m.append(", ");
        push_decimal(&mut m, region.width as u64);
        m.append(", ");
        push_decimal(&mut m, region.height as u64);
        m.append(") exceeds monitor size ");
        push_decimal(&mut m, monitor_width as u64);
        m.append("x");
        push_decimal(&mut m, monitor_height as u64);
        return Err(m);
    }
    Ok(())
}

/// The first `rows` rows of a region, each `row_bytes` long, starting `left` bytes
/// into rows `top`, `top + 1`, ... of an image with `stride` bytes per row.
pub open spec fn crop_rows(
    source: Seq<u8>,
    stride: int,
    left: int,
    row_bytes: int,
    top: int,
    rows: nat,
) -> Seq<u8>
    decreases rows,
{
    if rows == 0 {
        Seq::empty()
    } else {
        let start = (top + rows - 1) * stride + left;
        crop_rows(source, stride, left, row_bytes, top, (rows - 1) as nat) + source.subrange(
            start,
            start + row_bytes,
        )
    }
}

/// The bytes of a region cut out of an RGBA screen capture, row by row; or the
/// message when the capture has the wrong size or the region is too large.
pub open spec fn spec_crop_rgba(
    source: Seq<u8>,
    source_width: u32,
    source_height: u32,
    region: Region,
) -> Result<Seq<u8>, Seq<char>> {
    let stride = source_width * 4;
    let expected = stride * source_height;
    if expected > usize::MAX {
        Err("Frozen screen dimensions exceed the supported size"@)
    } else if source.len() != expected {
        Err(
            "Frozen screen contains "@ + decimal(source.len()) + " bytes; expected "@ + decimal(
                expected as nat,
            ),
        )
    } else if region.width * 4 * region.height > usize::MAX {
        Err("Selected region dimensions exceed the supported size"@)
    } else {
        Ok(crop_rows(source, stride, region.x * 4, region.width * 4, region.y as int, region.height as nat))
    }
}

proof fn lemma_row_in_bounds(k: int, h: int, y: int, stride: int, tail: int, len: int)
    requires
        0 <= k < h,
        0 <= y,
        0 <= stride,
        0 <= tail,
        (y + h - 1) * stride + tail <= len,
    ensures
        0 <= (y + k) * stride,
        (y + k) * stride + tail <= len,
{
    assert((y + k) * stride <= (y + h - 1) * stride) by (nonlinear_arith)
        requires
            k <= h - 1,
            0 <= stride,
    ;
    assert(0 <= (y + k) * stride) by (nonlinear_arith)
        requires
            0 <= y + k,
            0 <= stride,
    ;
}

/// Every row of the region lies within a capture of `len` bytes with `stride`
/// bytes per row (trivially so for a region without rows).
pub open spec fn rows_in_bounds(len: int, stride: int, region: Region) -> bool {
    region.height == 0 || (region.y + region.height <= u32::MAX && (region.y + region.height - 1)
        * stride + region.x * 4 + region.width * 4 <= len)
}

/// Cuts a region out of an RGBA screen capture of the given size. A region whose
/// rows run past the end of the capture is left out: cutting it fails at run time.
pub fn crop_rgba(source: &[u8], source_width: u32, source_height: u32, region: Region) -> (r: Result<
    Vec<u8>,
    String,
>)
    requires
        spec_crop_rgba(source@, source_width, source_height, region) is Ok ==> rows_in_bounds(
            source@.len() as int,
            source_width * 4,
            region,
        ),
    ensures
        match spec_crop_rgba(source@, source_width, source_height, region) {
            Ok(bytes) => r matches Ok(v) && v@ == bytes,
            Err(m) => r matches Err(e) && e@ == m,
        },
        r matches Ok(v) ==> v@.len() == 4 * region.width * region.height,
{
    let stride64: u64 = (source_width as u64) * 4;
    assert(stride64 * source_height <= 0x4_0000_0000u128 * 0x1_0000_0000u128) by (nonlinear_arith)
        requires
            stride64 <= 0x4_0000_0000u128,
            source_height <= 0x1_0000_0000u128,
    ;
    let expected64: u128 = (stride64 as u128) * (source_height as u128);
    if expected64 > usize::MAX as u128 {
        return Err(String::from_str("Frozen screen dimensions exceed the supported size"));
    }
    let expected = expected64 as usize;
    if source.len() != expected {
        let mut m = String::from_str("Frozen screen contains ");
        push_decimal(&mut m, source.len() as u64);
        m.append(" bytes; expected ");
        push_decimal(&mut m, expected as u64);
        return Err(m);
    }
    assert((region.width * 4) * region.height <= 0x4_0000_0000u128 * 0x1_0000_0000u128) by (nonlinear_arith)
        requires
            region.width * 4 <= 0x4_0000_0000u128,
            region.height <= 0x1_0000_0000u128,
    ;
    let capacity: u128 = (region.width as u128) * 4 * (region.height as u128);
    if capacity > usize::MAX as u128 {
        return Err(String::from_str("Selected region dimensions exceed the supported size"));
    }
    proof {
        assert(stride64 <= expected64 || source_height == 0) by (nonlinear_arith)
            requires
                expected64 == stride64 * source_height,
        ;
    }
    let stride: u64 = stride64;
    let row_bytes: u64 = (region.width as u64) * 4;
    let left: u64 = (region.x as u64) * 4;
    let mut cropped: Vec<u8> = Vec::new();
    let mut k: u32 = 0;
    while k < region.height
        invariant
            rows_in_bounds(source@.len() as int, source_width * 4, region),
            stride == source_width * 4,
            row_bytes == region.width * 4,
            left == region.x * 4,
            source@.len() == stride * source_height,
            stride * source_height <= usize::MAX,
            k <= region.height,
            cropped@ == crop_rows(source@, stride as int, left as int, row_bytes as int, region.y as int, k as nat),
            cropped@.len() == row_bytes * k,
        decreases region.height - k,
    {
        let y: u32 = region.y + k;
        proof {
            lemma_row_in_bounds(
                k as int,
                region.height as int,
                region.y as int,
                stride as int,
                (left + row_bytes) as int,
                source@.len() as int,
            );
            assert(source@.len() <= usize::MAX);
        }
        let start: u64 = (y as u64) * stride + left;
        let mut b: u64 = 0;
        let ghost before = cropped@;
        while b < row_bytes
            invariant
                start + row_bytes <= source@.len(),
                source@.len() <= usize::MAX,
                b <= row_bytes,
                cropped@ == before + source@.subrange(start as int, start + b),
            decreases row_bytes - b,
        {
            cropped.push(source[(start + b) as usize]);
            b = b + 1;
            assert(cropped@ =~= before + source@.subrange(start as int, start + b));
        }
        k = k + 1;
        assert(cropped@.len() == row_bytes * k) by (nonlinear_arith)
            requires
                cropped@.len() == row_bytes * (k - 1) + row_bytes,
        ;
    }
    assert(row_bytes * region.height == 4 * region.width * region.height) by (nonlinear_arith)
        requires
            row_bytes == region.width * 4,
    ;
    Ok(cropped)
}

/// The differences summed over the first three channels of every pixel of two RGBA
/// images of the same size.
pub open spec fn channel_difference(a: Seq<u8>, b: Seq<u8>, pixels: nat) -> nat
    decreases pixels,
{
    if pixels == 0 {
        0
    } else {
        let p = (pixels - 1) * 4;
        channel_difference(a, b, (pixels - 1) as nat) + abs_diff(a[p], b[p]) + abs_diff(
            a[p + 1],
            b[p + 1],
        ) + abs_diff(a[p + 2], b[p + 2])
    }
}

/// The distance between two bytes.
pub open spec fn abs_diff(x: u8, y: u8) -> nat {
    if x >= y { (x - y) as nat } else { (y - x) as nat }
}

/// How far a captured frame is from a template: the summed channel differences
/// and the number of channels compared, for images of equal, non-zero size;
/// `None` when the images cannot be compared. The similarity score is
/// `1 - difference / (channels * 255)`.
pub fn similarity_counts(template: &[u8], frame: &[u8]) -> (r: Option<(u128, u128)>)
    ensures
        (template@.len() != frame@.len() || template@.len() == 0) ==> r is None,
        (template@.len() == frame@.len() && template@.len() > 0) ==> r == Some(
            (
                channel_difference(template@, frame@, template@.len() / 4) as u128,
                (3 * (template@.len() / 4)) as u128,
            ),
        ),
{
    if template.len() != frame.len() || template.len() == 0 {
        return None;
    }
    let total = template.len();
    let pixels = total / 4;
    let mut difference: u128 = 0;
    let mut channels: u128 = 0;
    let mut p: usize = 0;
    while p < pixels
        invariant
            pixels == template@.len() / 4,
            total == template@.len(),
            template@.len() == frame@.len(),
            p <= pixels,
            difference == channel_difference(template@, frame@, p as nat),
            difference <= 765 * p,
            channels == 3 * p,
        decreases pixels - p,
    {
        assert(p * 4 + 3 < template@.len()) by (nonlinear_arith)
            requires
                p < pixels,
                pixels == template@.len() / 4,
        ;
        let i = p * 4;
        let mut c: usize = 0;
        let mut sum: u128 = 0;
        while c < 3
            invariant
                i == p * 4,
                i + 3 < template@.len(),
                template@.len() == frame@.len(),
                c <= 3,
                sum == (if c > 0 { abs_diff(template@[i as int], frame@[i as int]) } else { 0 }) + (if c > 1 {
                    abs_diff(template@[i + 1], frame@[i + 1])
                } else {
                    0
                }) + (if c > 2 { abs_diff(template@[i + 2], frame@[i + 2]) } else { 0 }),
                sum <= 255 * c,
            decreases 3 - c,
        {
            let t = template[i + c];
            let f = frame[i + c];
            let d: u8 = if t >= f { t - f } else { f - t };
            sum = sum + d as u128;
            c = c + 1;
        }
        difference = difference + sum;
        channels = channels + 3;
        p = p + 1;
    }
    Some((difference, channels))
}

/// The region between two pixel edges of a finished drag: `None` when it has no
/// width or no height.
pub fn region_between(left: u32, top: u32, right: u32, bottom: u32) -> (r: Option<Region>)
    ensures
        (right <= left || bottom <= top) ==> r is None,
        !(right <= left || bottom <= top) ==> r == Some(
            Region { x: left, y: top, width: (right - left) as u32, height: (bottom - top) as u32 },
        ),
{
    if right <= left || bottom <= top {
        None
    } else {
        Some(Region { x: left, y: top, width: right - left, height: bottom - top })
    }
}

/// The verdict on a condition path: its file extension must be `json`.
pub open spec fn spec_check_condition_extension(extension: Option<Seq<char>>, display: Seq<char>) -> Result<
    (),
    Seq<char>,
> {
    match extension {
        Some(e) if e == "json"@ => Ok(()),
        _ => Err("Perception condition path must use the .json extension: "@ + display),
    }
}

/// Checks the extension of the path a condition is recorded to.
pub fn check_condition_extension(extension: Option<&str>, display: &str) -> (r: Result<(), String>)
    ensures
        match spec_check_condition_extension(
            match extension {
                Some(e) => Some(e@),
                None => None,
            },
            display@,
        ) {
            Ok(()) => r is Ok,
            Err(m) => r matches Err(e) && e@ == m,
        },
{
    if let Some(e) = extension {
        let chars = crate::text::chars_of(e);
        if crate::text::chars_eq_str(&chars, "json") {
            return Ok(());
        }
    }
    let mut m = String::from_str("Perception condition path must use the .json extension: ");
    m.append(display);
    Err(m)
}

/// The file name of the template saved beside a condition: the condition's stem
/// with the extension `png`.
pub fn template_file_name(stem: &str) -> (name: String)
    ensures
        name@ == stem@ + ".png"@,
{
    let mut name = String::from_str(stem);
    name.append(".png");
    name
}

/// The verdict on a condition read from disk: its format version, its threshold
/// (`threshold_in_range` when it is a finite number in `0..=1`), its poll
/// interval, and its template path (`template_relative` when it is a non-empty
/// relative path), checked in this order.
pub open spec fn spec_check_condition(
    version: u32,
    threshold_in_range: bool,
    poll_interval_ms: u64,
    template_relative: bool,
) -> Result<(), Seq<char>> {
    if version != CONDITION_VERSION {
        Err(
            "Unsupported perception condition version "@ + decimal(version as nat) + "; expected "@
                + decimal(CONDITION_VERSION as nat),
        )
    } else if !threshold_in_range {
        Err("Perception condition threshold must be between 0 and 1"@)
    } else if poll_interval_ms == 0 {
        Err("Perception condition pollIntervalMs must be greater than 0"@)
    } else if !template_relative {
        Err("Perception condition template must be a relative path"@)
    } else {
        Ok(())
    }
}

/// Checks a condition read from disk.
pub fn check_condition(
    version: u32,
    threshold_in_range: bool,
    poll_interval_ms: u64,
    template_relative: bool,
) -> (r: Result<(), String>)
    ensures
        match spec_check_condition(version, threshold_in_range, poll_interval_ms, template_relative) {
            Ok(()) => r is Ok,
            Err(m) => r matches Err(e) && e@ == m,
        },
{
    if version != CONDITION_VERSION {
        let mut m = String::from_str("Unsupported perception condition version ");
        push_decimal(&mut m, version as u64);
        m.append("; expected ");
        push_decimal(&mut m, CONDITION_VERSION as u64);
        return Err(m);
    }
    if !threshold_in_range {
        return Err(String::from_str("Perception condition threshold must be between 0 and 1"));
    }
    if poll_interval_ms == 0 {
        return Err(String::from_str("Perception condition pollIntervalMs must be greater than 0"));
    }
    if !template_relative {
        return Err(String::from_str("Perception condition template must be a relative path"));
    }
    Ok(())
}

/// The verdict on the monitor a condition is watched on: it must still have the
/// size the condition was recorded at.
pub open spec fn spec_check_monitor_size(
    configured_width: u32,
    configured_height: u32,
    width: u32,
    height: u32,
) -> Result<(), Seq<char>> {
    if width != configured_width || height != configured_height {
        Err(
            "Configured monitor size is "@ + decimal(configured_width as nat) + "x"@ + decimal(
                configured_height as nat,
            ) + ", but it is currently "@ + decimal(width as nat) + "x"@ + decimal(height as nat)
                + "; record the condition again"@,
        )
    } else {
        Ok(())
    }
}

/// Checks the current size of the monitor against the recorded one.
pub fn check_monitor_size(configured_width: u32, configured_height: u32, width: u32, height: u32) -> (r:
    Result<(), String>)
    ensures
        match spec_check_monitor_size(configured_width, configured_height, width, height) {
            Ok(()) => r is Ok,
            Err(m) => r matches Err(e) && e@ == m,
        },
{
    if width != configured_width || height != configured_height {
        let mut m = String::from_str("Configured monitor size is ");
        push_decimal(&mut m, configured_width as u64);
        m.append("x");
        push_decimal(&mut m, configured_height as u64);
        m.append(", but it is currently ");
        push_decimal(&mut m, width as u64);
        m.append("x");
        push_decimal(&mut m, height as u64);
        m.append("; record the condition again");
        return Err(m);
    }
    Ok(())
}

/// The verdict on a template image: it must have the size of the region.
pub open spec fn spec_check_template_size(width: u32, height: u32, region: Region) -> Result<
    (),
    Seq<char>,
> {
    if width != region.width || height != region.height {
        Err(
            "Template is "@ + decimal(width as nat) + "x"@ + decimal(height as nat)
                + ", but the configured region is "@ + decimal(region.width as nat) + "x"@
                + decimal(region.height as nat),
        )
    } else {
        Ok(())
    }
}

/// Checks the size of a loaded template against the condition's region.
pub fn check_template_size(width: u32, height: u32, region: Region) -> (r: Result<(), String>)
    ensures
        match spec_check_template_size(width, height, region) {
            Ok(()) => r is Ok,
            Err(m) => r matches Err(e) && e@ == m,
        },
{
    if width != region.width || height != region.height {
        let mut m = String::from_str("Template is ");
        push_decimal(&mut m, width as u64);
        m.append("x");
        push_decimal(&mut m, height as u64);
        m.append(", but the configured region is ");
        push_decimal(&mut m, region.width as u64);
        m.append("x");
        push_decimal(&mut m, region.height as u64);
        return Err(m);
    }
    Ok(())
}

/// The template a recording cuts out of the frozen screen: the user's selection
/// (refused when the selection was cancelled), checked against the monitor and
/// cut out of the capture.
pub open spec fn spec_condition_template(
    monitor_width: u32,
    monitor_height: u32,
    frame: Seq<u8>,
    selection: Option<Region>,
) -> Result<(Region, Seq<u8>), Seq<char>> {
    match selection {
        None => Err("Perception region selection was cancelled"@),
        Some(region) => match spec_validate_region(region, monitor_width, monitor_height) {
            Err(e) => Err(e),
            Ok(()) => match spec_crop_rgba(frame, monitor_width, monitor_height, region) {
                Err(e) => Err(e),
                Ok(bytes) => Ok((region, bytes)),
            },
        },
    }
}

/// A region that lies within the monitor has every row within a capture of the
/// monitor's size.
proof fn lemma_valid_region_rows(region: Region, width: u32, height: u32)
    requires
        spec_validate_region(region, width, height) is Ok,
    ensures
        rows_in_bounds(width * 4 * height, width * 4, region),
{
    let stride = width * 4;
    let y = region.y as int;
    let h = region.height as int;
    assert((y + h - 1) * stride + stride <= height * stride) by (nonlinear_arith)
        requires
            y + h <= height,
            0 <= stride,
    ;
    assert((y + h - 1) * stride + stride == (y + h) * stride) by (nonlinear_arith);
    assert(width * 4 * height == height * stride) by (nonlinear_arith)
        requires
            stride == width * 4,
    ;
}

/// The recording step between the capture and the files: the user's selection
/// is checked against the monitor and cut out of the frozen screen. Returns the
/// region and the template's RGBA bytes, or the message that ends the recording.
pub fn condition_template(
    monitor_width: u32,
    monitor_height: u32,
    frame: &[u8],
    selection: Option<Region>,
) -> (r: Result<(Region, Vec<u8>), String>)
    ensures
        match spec_condition_template(monitor_width, monitor_height, frame@, selection) {
            Ok((region, bytes)) => r matches Ok((q, v)) && q == region && v@ == bytes,
            Err(m) => r matches Err(e) && e@ == m,
        },
        r matches Ok((q, v)) ==> v@.len() == 4 * q.width * q.height,
{
    let region = match selection {
        None => return Err(String::from_str("Perception region selection was cancelled")),
        Some(region) => region,
    };
    match validate_region(region, monitor_width, monitor_height) {
        Err(e) => return Err(e),
        Ok(()) => {},
    }
    proof {
        lemma_valid_region_rows(region, monitor_width, monitor_height);
    }
    match crop_rgba(frame, monitor_width, monitor_height, region) {
        Err(e) => Err(e),
        Ok(bytes) => Ok((region, bytes)),
    }
}

/// The bytes of the PNG file that `image`'s `PngEncoder`, set to fast compression
/// and the Sub filter, writes for an RGBA image of the given size.
pub uninterp spec fn png_rgba8(pixels: Seq<u8>, width: u32, height: u32) -> Seq<u8>;

/// `PngEncoder::new_with_quality(.., CompressionType::Fast, FilterType::Sub)`
/// then `ImageEncoder::write_image(.., ExtendedColorType::Rgba8)` (image): encodes
/// RGBA pixels as a PNG in memory. Claimed, as the source shows: the pixels must
/// be exactly four bytes per pixel (`write_image` asserts it); an image without
/// width or height is refused (png's `Writer::init`); a PNG that is written is
/// named `png_rgba8` of the pixels and the size. Whether every other size
/// succeeds is left unsaid; the error is the encoder's message.
#[verifier::external_body]
fn encode_png_rgba8(pixels: &[u8], width: u32, height: u32) -> (r: Result<Vec<u8>, String>)
    requires
        pixels@.len() == 4 * width * height,
    ensures
        r matches Ok(b) ==> b@ == png_rgba8(pixels@, width, height),
        width == 0 || height == 0 ==> r is Err,
{
    let mut bytes = Vec::new();
    let encoder = image::codecs::png::PngEncoder::new_with_quality(
        &mut bytes,
        image::codecs::png::CompressionType::Fast,
        image::codecs::png::FilterType::Sub,
    );
    match encoder.write_image(pixels, width, height, image::ExtendedColorType::Rgba8) {
        Ok(()) => Ok(bytes),
        Err(error) => Err(error.to_string()),
    }
}

/// The template saved with a recorded condition, as a PNG file: the region's
/// RGBA bytes encoded, or the message when encoding fails.
pub fn template_png(region: Region, template: &[u8]) -> (r: Result<Vec<u8>, String>)
    requires
        template@.len() == 4 * region.width * region.height,
    ensures
        r matches Ok(b) ==> b@ == png_rgba8(template@, region.width, region.height),
        r matches Err(e) ==> exists|m: Seq<char>| e@ == "Unable to encode template as PNG: "@ + m,
        region.width == 0 || region.height == 0 ==> r is Err,
{
    match encode_png_rgba8(template, region.width, region.height) {
        Ok(bytes) => Ok(bytes),
        Err(error) => {
            let mut m = String::from_str("Unable to encode template as PNG: ");
            m.append(error.as_str());
            assert(m@ == "Unable to encode template as PNG: "@ + error@);
            Err(m)
        },
    }
}

/// The file name of a condition's template, from the condition file's stem; a
/// stem that is not UTF-8 (`None`) is refused.
pub fn template_name(stem: Option<&str>) -> (r: Result<String, String>)
    ensures
        match stem {
            Some(s) => r matches Ok(n) && n@ == s@ + ".png"@,
            None => r matches Err(e) && e@ == "Perception condition filename must be valid UTF-8"@,
        },
{
    match stem {
        Some(s) => Ok(template_file_name(s)),
        None => Err(String::from_str("Perception condition filename must be valid UTF-8")),
    }
}

/// The verdict on the monitor a condition is watched on: the recorded size
/// first, then the region against the monitor.
pub open spec fn spec_check_watch_monitor(
    configured_width: u32,
    configured_height: u32,
    width: u32,
    height: u32,
    region: Region,
) -> Result<(), Seq<char>> {
    match spec_check_monitor_size(configured_width, configured_height, width, height) {
        Err(e) => Err(e),
        Ok(()) => spec_validate_region(region, width, height),
    }
}

/// Checks the monitor a condition is about to be watched on, in the order the
/// watch does: its current size against the recorded one, then the region.
pub fn check_watch_monitor(
    configured_width: u32,
    configured_height: u32,
    width: u32,
    height: u32,
    region: Region,
) -> (r: Result<(), String>)
    ensures
        match spec_check_watch_monitor(configured_width, configured_height, width, height, region) {
            Ok(()) => r is Ok,
            Err(m) => r matches Err(e) && e@ == m,
        },
{
    match check_monitor_size(configured_width, configured_height, width, height) {
        Err(e) => Err(e),
        Ok(()) => validate_region(region, width, height),
    }
}

} // verus!
