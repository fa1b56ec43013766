//! The tag catalog: display names and semantic groups of well-known tags.
//!
//! Each table lists an identifier at most once, so every identifier has a
//! single name and a single group.
use vstd::prelude::*;
use crate::model::{ExifGroup, TagContext, TagId};
use crate::text::{decimal, lemma_decimal_nonempty, render_decimal};

verus! {

/// The display name the catalog lists for `t`, if any.
pub open spec fn catalog_name(t: TagId) -> Option<Seq<char>> {
    match t.context {
        TagContext::Tiff => match t.number {
            0x010f => Some("Camera Make"@),  // Make
            0x0110 => Some("Camera Model"@),  // Model
            0x0112 => Some("Orientation"@),  // Orientation
            0x011a => Some("X Resolution"@),  // XResolution
            0x011b => Some("Y Resolution"@),  // YResolution
            0x0128 => Some("Resolution Unit"@),  // ResolutionUnit
            0x0131 => Some("Software"@),  // Software
            0x0132 => Some("Date Time"@),  // DateTime
            _ => None,
        },
        TagContext::Exif => match t.number {
            0x829a => Some("Exposure Time"@),  // ExposureTime
            0x829d => Some("Aperture"@),  // FNumber
            0x8822 => Some("Exposure Program"@),  // ExposureProgram
            0x8824 => Some("Spectral Sensitivity"@),  // SpectralSensitivity
            0x8828 => Some("Opto-Electric Conversion Function"@),  // OECF
            0x8833 => Some("ISO Speed"@),  // ISOSpeed
            0x9000 => Some("Exif Version"@),  // ExifVersion
            0x9003 => Some("Original Date Time"@),  // DateTimeOriginal
            0x9004 => Some("Digitized Date Time"@),  // DateTimeDigitized
            0x9101 => Some("Components Configuration"@),  // ComponentsConfiguration
            0x9102 => Some("Compressed Bits Per Pixel"@),  // CompressedBitsPerPixel
            0x9201 => Some("Shutter Speed"@),  // ShutterSpeedValue
            0x9202 => Some("Aperture Value"@),  // ApertureValue
            0x9203 => Some("Brightness"@),  // BrightnessValue
            0x9204 => Some("Exposure Bias"@),  // ExposureBiasValue
            0x9205 => Some("Max Aperture"@),  // MaxApertureValue
            0x9206 => Some("Subject Distance"@),  // SubjectDistance
            0x9207 => Some("Metering Mode"@),  // MeteringMode
            0x9208 => Some("Light Source"@),  // LightSource
            0x9209 => Some("Flash"@),  // Flash
            0x920a => Some("Focal Length"@),  // FocalLength
            0x9214 => Some("Subject Area"@),  // SubjectArea
            0x927c => Some("Maker Note"@),  // MakerNote
            0x9286 => Some("User Comment"@),  // UserComment
            0x9290 => Some("Sub-second Time"@),  // SubSecTime
            0x9291 => Some("Original Sub-second Time"@),  // SubSecTimeOriginal
            0x9292 => Some("Digitized Sub-second Time"@),  // SubSecTimeDigitized
            0xa000 => Some("Flashpix Version"@),  // FlashpixVersion
            0xa001 => Some("Color Space"@),  // ColorSpace
            0xa002 => Some("Pixel X Dimension"@),  // PixelXDimension
            0xa003 => Some("Pixel Y Dimension"@),  // PixelYDimension
            0xa004 => Some("Related Sound File"@),  // RelatedSoundFile
            0xa20b => Some("Flash Energy"@),  // FlashEnergy
            0xa20c => Some("Spatial Frequency Response"@),  // SpatialFrequencyResponse
            0xa20e => Some("Focal Plane X Resolution"@),  // FocalPlaneXResolution
            0xa20f => Some("Focal Plane Y Resolution"@),  // FocalPlaneYResolution
            0xa210 => Some("Focal Plane Resolution Unit"@),  // FocalPlaneResolutionUnit
            0xa214 => Some("Subject Location"@),  // SubjectLocation
            0xa215 => Some("Exposure Index"@),  // ExposureIndex
            0xa217 => Some("Sensing Method"@),  // SensingMethod
            0xa300 => Some("File Source"@),  // FileSource
            0xa301 => Some("Scene Type"@),  // SceneType
            0xa302 => Some("CFA Pattern"@),  // CFAPattern
            0xa401 => Some("Custom Rendered"@),  // CustomRendered
            0xa402 => Some("Exposure Mode"@),  // ExposureMode
            0xa403 => Some("White Balance"@),  // WhiteBalance
            0xa404 => Some("Digital Zoom Ratio"@),  // DigitalZoomRatio
            0xa405 => Some("35mm Equivalent Focal Length"@),  // FocalLengthIn35mmFilm
            0xa406 => Some("Scene Capture Type"@),  // SceneCaptureType
            0xa407 => Some("Gain Control"@),  // GainControl
            0xa408 => Some("Contrast"@),  // Contrast
            0xa409 => Some("Saturation"@),  // Saturation
            0xa40a => Some("Sharpness"@),  // Sharpness
            0xa40b => Some("Device Setting Description"@),  // DeviceSettingDescription
            0xa40c => Some("Subject Distance Range"@),  // SubjectDistanceRange
            0xa420 => Some("Image Unique ID"@),  // ImageUniqueID
            0xa432 => Some("Lens Specification"@),  // LensSpecification
            0xa433 => Some("Lens Make"@),  // LensMake
            0xa434 => Some("Lens Model"@),  // LensModel
            _ => None,
        },
        TagContext::Gps => match t.number {
            0x0000 => Some("GPS Version ID"@),  // GPSVersionID
            0x0001 => Some("GPS Latitude Ref"@),  // GPSLatitudeRef
            0x0002 => Some("GPS Latitude"@),  // GPSLatitude
            0x0003 => Some("GPS Longitude Ref"@),  // GPSLongitudeRef
            0x0004 => Some("GPS Longitude"@),  // GPSLongitude
            0x0005 => Some("GPS Altitude Ref"@),  // GPSAltitudeRef
            0x0006 => Some("GPS Altitude"@),  // GPSAltitude
            0x0007 => Some("GPS Time Stamp"@),  // GPSTimeStamp
            0x0008 => Some("GPS Satellites"@),  // GPSSatellites
            0x0009 => Some("GPS Status"@),  // GPSStatus
            0x000a => Some("GPS Measure Mode"@),  // GPSMeasureMode
            0x000b => Some("GPS Dilution of Precision"@),  // GPSDOP
            0x000c => Some("GPS Speed Ref"@),  // GPSSpeedRef
            0x000d => Some("GPS Speed"@),  // GPSSpeed
            0x000e => Some("GPS Track Ref"@),  // GPSTrackRef
            0x000f => Some("GPS Track"@),  // GPSTrack
            0x0010 => Some("GPS Image Direction Ref"@),  // GPSImgDirectionRef
            0x0011 => Some("GPS Image Direction"@),  // GPSImgDirection
            0x0012 => Some("GPS Map Datum"@),  // GPSMapDatum
            0x0013 => Some("GPS Dest Latitude Ref"@),  // GPSDestLatitudeRef
            0x0014 => Some("GPS Dest Latitude"@),  // GPSDestLatitude
            0x0015 => Some("GPS Dest Longitude Ref"@),  // GPSDestLongitudeRef
            0x0016 => Some("GPS Dest Longitude"@),  // GPSDestLongitude
            0x0017 => Some("GPS Dest Bearing Ref"@),  // GPSDestBearingRef
            0x0018 => Some("GPS Dest Bearing"@),  // GPSDestBearing
            0x0019 => Some("GPS Dest Distance Ref"@),  // GPSDestDistanceRef
            0x001a => Some("GPS Dest Distance"@),  // GPSDestDistance
            0x001b => Some("GPS Processing Method"@),  // GPSProcessingMethod
            0x001c => Some("GPS Area Information"@),  // GPSAreaInformation
            0x001d => Some("GPS Date Stamp"@),  // GPSDateStamp
            0x001e => Some("GPS Differential"@),  // GPSDifferential
            0x001f => Some("GPS Horizontal Positioning Error"@),  // GPSHPositioningError
            _ => None,
        },
        TagContext::Interop => match t.number {
            0x0001 => Some("Interoperability Index"@),  // InteroperabilityIndex
            _ => None,
        },
    }
}

/// The group the catalog lists for `t`, if any.
pub open spec fn catalog_group(t: TagId) -> Option<ExifGroup> {
    match t.context {
        TagContext::Tiff => match t.number {
            0x010f => Some(ExifGroup::Basic),  // Make
            0x0110 => Some(ExifGroup::Basic),  // Model
            0x0131 => Some(ExifGroup::Basic),  // Software
            0x0132 => Some(ExifGroup::Basic),  // DateTime
            _ => None,
        },
        TagContext::Exif => match t.number {
            0x829a => Some(ExifGroup::Exposure),  // ExposureTime
            0x829d => Some(ExifGroup::Exposure),  // FNumber
            0x8822 => Some(ExifGroup::Exposure),  // ExposureProgram
            0x8833 => Some(ExifGroup::Exposure),  // ISOSpeed
            0x9000 => Some(ExifGroup::Basic),  // ExifVersion
            0x9003 => Some(ExifGroup::Basic),  // DateTimeOriginal
            0x9004 => Some(ExifGroup::Basic),  // DateTimeDigitized
            0x9201 => Some(ExifGroup::Exposure),  // ShutterSpeedValue
            0x9202 => Some(ExifGroup::Exposure),  // ApertureValue
            0x9203 => Some(ExifGroup::Exposure),  // BrightnessValue
            0x9204 => Some(ExifGroup::Exposure),  // ExposureBiasValue
            0x9205 => Some(ExifGroup::Camera),  // MaxApertureValue
            0x9207 => Some(ExifGroup::Exposure),  // MeteringMode
            0x9209 => Some(ExifGroup::Exposure),  // Flash
            0x920a => Some(ExifGroup::Camera),  // FocalLength
            0x9290 => Some(ExifGroup::DateTime),  // SubSecTime
            0x9291 => Some(ExifGroup::DateTime),  // SubSecTimeOriginal
            0x9292 => Some(ExifGroup::DateTime),  // SubSecTimeDigitized
            0xa405 => Some(ExifGroup::Camera),  // FocalLengthIn35mmFilm
            0xa432 => Some(ExifGroup::Camera),  // LensSpecification
            0xa433 => Some(ExifGroup::Camera),  // LensMake
            0xa434 => Some(ExifGroup::Camera),  // LensModel
            _ => None,
        },
        TagContext::Gps => match t.number {
            0x0000 => Some(ExifGroup::Gps),  // GPSVersionID
            0x0001 => Some(ExifGroup::Gps),  // GPSLatitudeRef
            0x0002 => Some(ExifGroup::Gps),  // GPSLatitude
            0x0003 => Some(ExifGroup::Gps),  // GPSLongitudeRef
            0x0004 => Some(ExifGroup::Gps),  // GPSLongitude
            0x0005 => Some(ExifGroup::Gps),  // GPSAltitudeRef
            0x0006 => Some(ExifGroup::Gps),  // GPSAltitude
            0x0007 => Some(ExifGroup::Gps),  // GPSTimeStamp
            0x001d => Some(ExifGroup::Gps),  // GPSDateStamp
            _ => None,
        },
        TagContext::Interop => None,
    }
}

/// The name of a context as its symbolic form spells it.
pub open spec fn context_text(c: TagContext) -> Seq<char> {
    match c {
        TagContext::Tiff => "Tiff"@,
        TagContext::Exif => "Exif"@,
        TagContext::Gps => "Gps"@,
        TagContext::Interop => "Interop"@,
    }
}

/// The symbolic form of an identifier: `Tag(Exif, 37500)`.
pub open spec fn symbolic_name(t: TagId) -> Seq<char> {
    "Tag("@ + context_text(t.context) + ", "@ + decimal(t.number as nat) + ")"@
}

/// The display name of a tag: the catalog's, else its symbolic form.
pub open spec fn name_of(t: TagId) -> Seq<char> {
    match catalog_name(t) {
        Some(n) => n,
        None => symbolic_name(t),
    }
}

/// The group of a tag: the catalog's, else `Other`.
pub open spec fn group_of(t: TagId) -> ExifGroup {
    match catalog_group(t) {
        Some(g) => g,
        None => ExifGroup::Other,
    }
}

fn known_name(t: TagId) -> (r: Option<&'static str>)
    ensures
        match r {
            Some(s) => catalog_name(t) == Some(s@),
            None => catalog_name(t).is_none(),
        },
{
    match t.context {
        TagContext::Tiff => match t.number {
            0x010f => Some("Camera Make"),  // Make
            0x0110 => Some("Camera Model"),  // Model
            0x0112 => Some("Orientation"),  // Orientation
            0x011a => Some("X Resolution"),  // XResolution
            0x011b => Some("Y Resolution"),  // YResolution
            0x0128 => Some("Resolution Unit"),  // ResolutionUnit
            0x0131 => Some("Software"),  // Software
            0x0132 => Some("Date Time"),  // DateTime
            _ => None,
        },
        TagContext::Exif => match t.number {
            0x829a => Some("Exposure Time"),  // ExposureTime
            0x829d => Some("Aperture"),  // FNumber
            0x8822 => Some("Exposure Program"),  // ExposureProgram
            0x8824 => Some("Spectral Sensitivity"),  // SpectralSensitivity
            0x8828 => Some("Opto-Electric Conversion Function"),  // OECF
            0x8833 => Some("ISO Speed"),  // ISOSpeed
            0x9000 => Some("Exif Version"),  // ExifVersion
            0x9003 => Some("Original Date Time"),  // DateTimeOriginal
            0x9004 => Some("Digitized Date Time"),  // DateTimeDigitized
            0x9101 => Some("Components Configuration"),  // ComponentsConfiguration
            0x9102 => Some("Compressed Bits Per Pixel"),  // CompressedBitsPerPixel
            0x9201 => Some("Shutter Speed"),  // ShutterSpeedValue
            0x9202 => Some("Aperture Value"),  // ApertureValue
            0x9203 => Some("Brightness"),  // BrightnessValue
            0x9204 => Some("Exposure Bias"),  // ExposureBiasValue
            0x9205 => Some("Max Aperture"),  // MaxApertureValue
            0x9206 => Some("Subject Distance"),  // SubjectDistance
            0x9207 => Some("Metering Mode"),  // MeteringMode
            0x9208 => Some("Light Source"),  // LightSource
            0x9209 => Some("Flash"),  // Flash
            0x920a => Some("Focal Length"),  // FocalLength
            0x9214 => Some("Subject Area"),  // SubjectArea
            0x927c => Some("Maker Note"),  // MakerNote
            0x9286 => Some("User Comment"),  // UserComment
            0x9290 => Some("Sub-second Time"),  // SubSecTime
            0x9291 => Some("Original Sub-second Time"),  // SubSecTimeOriginal
            0x9292 => Some("Digitized Sub-second Time"),  // SubSecTimeDigitized
            0xa000 => Some("Flashpix Version"),  // FlashpixVersion
            0xa001 => Some("Color Space"),  // ColorSpace
            0xa002 => Some("Pixel X Dimension"),  // PixelXDimension
            0xa003 => Some("Pixel Y Dimension"),  // PixelYDimension
            0xa004 => Some("Related Sound File"),  // RelatedSoundFile
            0xa20b => Some("Flash Energy"),  // FlashEnergy
            0xa20c => Some("Spatial Frequency Response"),  // SpatialFrequencyResponse
            0xa20e => Some("Focal Plane X Resolution"),  // FocalPlaneXResolution
            0xa20f => Some("Focal Plane Y Resolution"),  // FocalPlaneYResolution
            0xa210 => Some("Focal Plane Resolution Unit"),  // FocalPlaneResolutionUnit
            0xa214 => Some("Subject Location"),  // SubjectLocation
            0xa215 => Some("Exposure Index"),  // ExposureIndex
            0xa217 => Some("Sensing Method"),  // SensingMethod
            0xa300 => Some("File Source"),  // FileSource
            0xa301 => Some("Scene Type"),  // SceneType
            0xa302 => Some("CFA Pattern"),  // CFAPattern
            0xa401 => Some("Custom Rendered"),  // CustomRendered
            0xa402 => Some("Exposure Mode"),  // ExposureMode
            0xa403 => Some("White Balance"),  // WhiteBalance
            0xa404 => Some("Digital Zoom Ratio"),  // DigitalZoomRatio
            0xa405 => Some("35mm Equivalent Focal Length"),  // FocalLengthIn35mmFilm
            0xa406 => Some("Scene Capture Type"),  // SceneCaptureType
            0xa407 => Some("Gain Control"),  // GainControl
            0xa408 => Some("Contrast"),  // Contrast
            0xa409 => Some("Saturation"),  // Saturation
            0xa40a => Some("Sharpness"),  // Sharpness
            0xa40b => Some("Device Setting Description"),  // DeviceSettingDescription
            0xa40c => Some("Subject Distance Range"),  // SubjectDistanceRange
            0xa420 => Some("Image Unique ID"),  // ImageUniqueID
            0xa432 => Some("Lens Specification"),  // LensSpecification
            0xa433 => Some("Lens Make"),  // LensMake
            0xa434 => Some("Lens Model"),  // LensModel
            _ => None,
        },
        TagContext::Gps => match t.number {
            0x0000 => Some("GPS Version ID"),  // GPSVersionID
            0x0001 => Some("GPS Latitude Ref"),  // GPSLatitudeRef
            0x0002 => Some("GPS Latitude"),  // GPSLatitude
            0x0003 => Some("GPS Longitude Ref"),  // GPSLongitudeRef
            0x0004 => Some("GPS Longitude"),  // GPSLongitude
            0x0005 => Some("GPS Altitude Ref"),  // GPSAltitudeRef
            0x0006 => Some("GPS Altitude"),  // GPSAltitude
            0x0007 => Some("GPS Time Stamp"),  // GPSTimeStamp
            0x0008 => Some("GPS Satellites"),  // GPSSatellites
            0x0009 => Some("GPS Status"),  // GPSStatus
            0x000a => Some("GPS Measure Mode"),  // GPSMeasureMode
            0x000b => Some("GPS Dilution of Precision"),  // GPSDOP
            0x000c => Some("GPS Speed Ref"),  // GPSSpeedRef
            0x000d => Some("GPS Speed"),  // GPSSpeed
            0x000e => Some("GPS Track Ref"),  // GPSTrackRef
            0x000f => Some("GPS Track"),  // GPSTrack
            0x0010 => Some("GPS Image Direction Ref"),  // GPSImgDirectionRef
            0x0011 => Some("GPS Image Direction"),  // GPSImgDirection
            0x0012 => Some("GPS Map Datum"),  // GPSMapDatum
            0x0013 => Some("GPS Dest Latitude Ref"),  // GPSDestLatitudeRef
            0x0014 => Some("GPS Dest Latitude"),  // GPSDestLatitude
            0x0015 => Some("GPS Dest Longitude Ref"),  // GPSDestLongitudeRef
            0x0016 => Some("GPS Dest Longitude"),  // GPSDestLongitude
            0x0017 => Some("GPS Dest Bearing Ref"),  // GPSDestBearingRef
            0x0018 => Some("GPS Dest Bearing"),  // GPSDestBearing
            0x0019 => Some("GPS Dest Distance Ref"),  // GPSDestDistanceRef
            0x001a => Some("GPS Dest Distance"),  // GPSDestDistance
            0x001b => Some("GPS Processing Method"),  // GPSProcessingMethod
            0x001c => Some("GPS Area Information"),  // GPSAreaInformation
            0x001d => Some("GPS Date Stamp"),  // GPSDateStamp
            0x001e => Some("GPS Differential"),  // GPSDifferential
            0x001f => Some("GPS Horizontal Positioning Error"),  // GPSHPositioningError
            _ => None,
        },
        TagContext::Interop => match t.number {
            0x0001 => Some("Interoperability Index"),  // InteroperabilityIndex
            _ => None,
        },
    }
}

fn context_str(c: TagContext) -> (r: &'static str)
    ensures
        r@ == context_text(c),
{
    match c {
        TagContext::Tiff => "Tiff",
        TagContext::Exif => "Exif",
        TagContext::Gps => "Gps",
        TagContext::Interop => "Interop",
    }
}

/// The symbolic form of `t`, used for identifiers the catalog does not list.
pub fn symbolic_tag_name(t: TagId) -> (r: String)
    ensures
        r@ == symbolic_name(t),
{
    let mut s = String::from_str("Tag(");
    s.append(context_str(t.context));
    s.append(", ");
    let digits = render_decimal(t.number as u64);
    s.append(digits.as_str());
    s.append(")");
    s
}

/// The display name of `t`.
pub fn tag_name(t: TagId) -> (r: String)
    ensures
        r@ == name_of(t),
{
    match known_name(t) {
        Some(n) => String::from_str(n),
        None => symbolic_tag_name(t),
    }
}

/// The group of `t`.
pub fn tag_group(t: TagId) -> (r: ExifGroup)
    ensures
        r == group_of(t),
{
    match t.context {
        TagContext::Tiff => match t.number {
            0x010f => (ExifGroup::Basic),  // Make
            0x0110 => (ExifGroup::Basic),  // Model
            0x0131 => (ExifGroup::Basic),  // Software
            0x0132 => (ExifGroup::Basic),  // DateTime
            _ => ExifGroup::Other,
        },
        TagContext::Exif => match t.number {
            0x829a => (ExifGroup::Exposure),  // ExposureTime
            0x829d => (ExifGroup::Exposure),  // FNumber
            0x8822 => (ExifGroup::Exposure),  // ExposureProgram
            0x8833 => (ExifGroup::Exposure),  // ISOSpeed
            0x9000 => (ExifGroup::Basic),  // ExifVersion
            0x9003 => (ExifGroup::Basic),  // DateTimeOriginal
            0x9004 => (ExifGroup::Basic),  // DateTimeDigitized
            0x9201 => (ExifGroup::Exposure),  // ShutterSpeedValue
            0x9202 => (ExifGroup::Exposure),  // ApertureValue
            0x9203 => (ExifGroup::Exposure),  // BrightnessValue
            0x9204 => (ExifGroup::Exposure),  // ExposureBiasValue
            0x9205 => (ExifGroup::Camera),  // MaxApertureValue
            0x9207 => (ExifGroup::Exposure),  // MeteringMode
            0x9209 => (ExifGroup::Exposure),  // Flash
            0x920a => (ExifGroup::Camera),  // FocalLength
            0x9290 => (ExifGroup::DateTime),  // SubSecTime
            0x9291 => (ExifGroup::DateTime),  // SubSecTimeOriginal
            0x9292 => (ExifGroup::DateTime),  // SubSecTimeDigitized
            0xa405 => (ExifGroup::Camera),  // FocalLengthIn35mmFilm
            0xa432 => (ExifGroup::Camera),  // LensSpecification
            0xa433 => (ExifGroup::Camera),  // LensMake
            0xa434 => (ExifGroup::Camera),  // LensModel
            _ => ExifGroup::Other,
        },
        TagContext::Gps => match t.number {
            0x0000 => (ExifGroup::Gps),  // GPSVersionID
            0x0001 => (ExifGroup::Gps),  // GPSLatitudeRef
            0x0002 => (ExifGroup::Gps),  // GPSLatitude
            0x0003 => (ExifGroup::Gps),  // GPSLongitudeRef
            0x0004 => (ExifGroup::Gps),  // GPSLongitude
            0x0005 => (ExifGroup::Gps),  // GPSAltitudeRef
            0x0006 => (ExifGroup::Gps),  // GPSAltitude
            0x0007 => (ExifGroup::Gps),  // GPSTimeStamp
            0x001d => (ExifGroup::Gps),  // GPSDateStamp
            _ => ExifGroup::Other,
        },
        TagContext::Interop => ExifGroup::Other,
    }
}

/// An identifier that the catalog does not list is shown in group `Other`,
/// under a name that is never empty.
pub proof fn lemma_unlisted_tag(t: TagId)
    requires
        catalog_name(t).is_none(),
    ensures
        group_of(t) == ExifGroup::Other,
        name_of(t).len() > 0,
        name_of(t) == symbolic_name(t),
{
    reveal_strlit("Tag(");
    lemma_decimal_nonempty(t.number as nat);
}

/// Name and group are functions of the identifier alone: asking twice for
/// the same identifier gives the same answers.
pub proof fn lemma_catalog_deterministic(a: TagId, b: TagId)
    requires
        a == b,
    ensures
        name_of(a) == name_of(b),
        group_of(a) == group_of(b),
{
}

} // verus!
