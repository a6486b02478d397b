//! The two groups of settings: those of the camera and those of the image.
//!
//! Both are records of text with a default for every field. A caller who wants
//! other values names them and takes the rest from the defaults:
//!
//! ```
//! use raspicam::image::settings::CameraSettings;
//!
//! let camera_settings = CameraSettings {
//!     sharpness: "50".to_string(),
//!     ..Default::default()
//! };
//! assert_eq!(camera_settings.sharpness, "50");
//! assert_eq!(camera_settings.brightness, "60");
//! ```
//!
//! No value is ever rejected: what a field means is for the capture tool to
//! decide.

use vstd::prelude::*;
use vstd::std_specs::cmp::PartialEqSpec;

verus! {

/// What a [`CameraSettings`] holds: the text of each of its eight fields.
pub struct CameraSettingsView {
    pub contrast: Seq<char>,
    pub sharpness: Seq<char>,
    pub brightness: Seq<char>,
    pub saturation: Seq<char>,
    pub quality: Seq<char>,
    pub timeout: Seq<char>,
    pub iso: Seq<char>,
    pub output: Seq<char>,
}

/// Settings for the camera.
#[derive(Debug)]
pub struct CameraSettings {
    /// Contrast level.
    pub contrast: String,
    /// Sharpness level.
    pub sharpness: String,
    /// Brightness level.
    pub brightness: String,
    /// Saturation level.
    pub saturation: String,
    /// JPEG quality.
    pub quality: String,
    /// Delay before the shutter, in milliseconds.
    pub timeout: String,
    /// Sensor ISO.
    pub iso: String,
    /// Path of the file that the image is written to.
    pub output: String,
}

impl View for CameraSettings {
    type V = CameraSettingsView;

    open spec fn view(&self) -> CameraSettingsView {
        CameraSettingsView {
            contrast: self.contrast@,
            sharpness: self.sharpness@,
            brightness: self.brightness@,
            saturation: self.saturation@,
            quality: self.quality@,
            timeout: self.timeout@,
            iso: self.iso@,
            output: self.output@,
        }
    }
}

impl Default for CameraSettings {
    /// Initialize `CameraSettings` with the default values.
    fn default() -> (settings: CameraSettings)
        ensures
            settings@ == CameraSettings::default_view(),
    {
        CameraSettings {
            contrast: "50".to_string(),
            sharpness: "30".to_string(),
            brightness: "60".to_string(),
            saturation: "0".to_string(),
            quality: "100".to_string(),
            timeout: "3000".to_string(),
            iso: "300".to_string(),
            output: "~/raspicam.jpg".to_string(),
        }
    }
}

impl Clone for CameraSettings {
    /// An independent copy, which compares equal to `self`.
    fn clone(&self) -> (copy: CameraSettings)
        ensures
            copy == *self,
            copy.eq_spec(self),
    {
        CameraSettings {
            contrast: self.contrast.clone(),
            sharpness: self.sharpness.clone(),
            brightness: self.brightness.clone(),
            saturation: self.saturation.clone(),
            quality: self.quality.clone(),
            timeout: self.timeout.clone(),
            iso: self.iso.clone(),
            output: self.output.clone(),
        }
    }
}

impl PartialEq for CameraSettings {
    /// Two camera settings are equal when all eight fields hold the same text.
    fn eq(&self, other: &CameraSettings) -> (equal: bool) {
        self.contrast == other.contrast
            && self.sharpness == other.sharpness
            && self.brightness == other.brightness
            && self.saturation == other.saturation
            && self.quality == other.quality
            && self.timeout == other.timeout
            && self.iso == other.iso
            && self.output == other.output
    }
}

impl vstd::std_specs::cmp::PartialEqSpecImpl for CameraSettings {
    open spec fn obeys_eq_spec() -> bool {
        true
    }

    open spec fn eq_spec(&self, other: &CameraSettings) -> bool {
        self@ == other@
    }
}

impl CameraSettings {
    /// The camera settings that are used where the caller chooses nothing.
    pub open spec fn default_view() -> CameraSettingsView {
        CameraSettingsView {
            contrast: "50"@,
            sharpness: "30"@,
            brightness: "60"@,
            saturation: "0"@,
            quality: "100"@,
            timeout: "3000"@,
            iso: "300"@,
            output: "~/raspicam.jpg"@,
        }
    }

    /// Replaces the path of the file that the image is written to.
    ///
    /// Any text is taken as it is, and the other seven settings stay as they
    /// were.
    pub fn set_output(&mut self, output: String)
        ensures
            *final(self) == (CameraSettings { output: output, ..*old(self) }),
            final(self)@ == (CameraSettingsView { output: output@, ..old(self)@ }),
    {
        self.output = output;
    }

    /// Settings built from the defaults with one field set to `value` are the
    /// settings that list `value` for that field and, for each of the other
    /// seven, its default. This holds for each of the eight fields and for
    /// any text.
    pub proof fn lemma_override_keeps_other_defaults(defaults: CameraSettings, value: String)
        requires
            defaults@ == CameraSettings::default_view(),
        ensures
            (CameraSettings { contrast: value, ..defaults })@ == (CameraSettingsView {
                contrast: value@,
                sharpness: "30"@,
                brightness: "60"@,
                saturation: "0"@,
                quality: "100"@,
                timeout: "3000"@,
                iso: "300"@,
                output: "~/raspicam.jpg"@,
            }),
            (CameraSettings { sharpness: value, ..defaults })@ == (CameraSettingsView {
                contrast: "50"@,
                sharpness: value@,
                brightness: "60"@,
                saturation: "0"@,
                quality: "100"@,
                timeout: "3000"@,
                iso: "300"@,
                output: "~/raspicam.jpg"@,
            }),
            (CameraSettings { brightness: value, ..defaults })@ == (CameraSettingsView {
                contrast: "50"@,
                sharpness: "30"@,
                brightness: value@,
                saturation: "0"@,
                quality: "100"@,
                timeout: "3000"@,
                iso: "300"@,
                output: "~/raspicam.jpg"@,
            }),
            (CameraSettings { saturation: value, ..defaults })@ == (CameraSettingsView {
                contrast: "50"@,
                sharpness: "30"@,
                brightness: "60"@,
                saturation: value@,
                quality: "100"@,
                timeout: "3000"@,
                iso: "300"@,
                output: "~/raspicam.jpg"@,
            }),
            (CameraSettings { quality: value, ..defaults })@ == (CameraSettingsView {
                contrast: "50"@,
                sharpness: "30"@,
                brightness: "60"@,
                saturation: "0"@,
                quality: value@,
                timeout: "3000"@,
                iso: "300"@,
                output: "~/raspicam.jpg"@,
            }),
            (CameraSettings { timeout: value, ..defaults })@ == (CameraSettingsView {
                contrast: "50"@,
                sharpness: "30"@,
                brightness: "60"@,
                saturation: "0"@,
                quality: "100"@,
                timeout: value@,
                iso: "300"@,
                output: "~/raspicam.jpg"@,
            }),
            (CameraSettings { iso: value, ..defaults })@ == (CameraSettingsView {
                contrast: "50"@,
                sharpness: "30"@,
                brightness: "60"@,
                saturation: "0"@,
                quality: "100"@,
                timeout: "3000"@,
                iso: value@,
                output: "~/raspicam.jpg"@,
            }),
            (CameraSettings { output: value, ..defaults })@ == (CameraSettingsView {
                contrast: "50"@,
                sharpness: "30"@,
                brightness: "60"@,
                saturation: "0"@,
                quality: "100"@,
                timeout: "3000"@,
                iso: "300"@,
                output: value@,
            }),
    {
    }

    /// Equality compares field by field: two camera settings are equal
    /// exactly when each of the eight fields holds the same text in both.
    pub proof fn lemma_eq_is_fieldwise(a: CameraSettings, b: CameraSettings)
        ensures
            a.eq_spec(&b) <==> {
                &&& a.contrast@ == b.contrast@
                &&& a.sharpness@ == b.sharpness@
                &&& a.brightness@ == b.brightness@
                &&& a.saturation@ == b.saturation@
                &&& a.quality@ == b.quality@
                &&& a.timeout@ == b.timeout@
                &&& a.iso@ == b.iso@
                &&& a.output@ == b.output@
            },
    {
    }

    /// Every camera settings value is equal to itself.
    pub proof fn lemma_eq_reflexive(a: CameraSettings)
        ensures
            a.eq_spec(&a),
    {
    }

    /// Equality does not depend on the side a value stands on.
    pub proof fn lemma_eq_symmetric(a: CameraSettings, b: CameraSettings)
        ensures
            a.eq_spec(&b) <==> b.eq_spec(&a),
    {
    }

    /// Two values that are both equal to a third are equal to each other.
    pub proof fn lemma_eq_transitive(a: CameraSettings, b: CameraSettings, c: CameraSettings)
        requires
            a.eq_spec(&b),
            b.eq_spec(&c),
        ensures
            a.eq_spec(&c),
    {
    }

    /// Camera settings whose text differs in any one field are not equal,
    /// whatever the other fields hold.
    pub proof fn lemma_differing_field_breaks_eq(a: CameraSettings, b: CameraSettings)
        requires
            a.contrast@ != b.contrast@ || a.sharpness@ != b.sharpness@ || a.brightness@
                != b.brightness@ || a.saturation@ != b.saturation@ || a.quality@ != b.quality@
                || a.timeout@ != b.timeout@ || a.iso@ != b.iso@ || a.output@ != b.output@,
        ensures
            !a.eq_spec(&b),
    {
    }
}

/// What an [`ImageSettings`] holds: the text of each of its five fields.
pub struct ImageSettingsView {
    pub width: Seq<char>,
    pub height: Seq<char>,
    pub rotation: Seq<char>,
    pub horizontal_flip: Seq<char>,
    pub vertical_flip: Seq<char>,
}

/// Settings for the image.
#[derive(Debug)]
pub struct ImageSettings {
    /// Width of the image.
    pub width: String,
    /// Height of the image.
    pub height: String,
    /// Rotation, in degrees.
    pub rotation: String,
    /// Whether the image is flipped horizontally.
    pub horizontal_flip: String,
    /// Whether the image is flipped vertically.
    pub vertical_flip: String,
}

impl View for ImageSettings {
    type V = ImageSettingsView;

    open spec fn view(&self) -> ImageSettingsView {
        ImageSettingsView {
            width: self.width@,
            height: self.height@,
            rotation: self.rotation@,
            horizontal_flip: self.horizontal_flip@,
            vertical_flip: self.vertical_flip@,
        }
    }
}

impl Default for ImageSettings {
    /// Initialize `ImageSettings` with the default values.
    fn default() -> (settings: ImageSettings)
        ensures
            settings@ == ImageSettings::default_view(),
    {
        ImageSettings {
            width: "200".to_string(),
            height: "200".to_string(),
            rotation: "180".to_string(),
            horizontal_flip: "false".to_string(),
            vertical_flip: "false".to_string(),
        }
    }
}

impl Clone for ImageSettings {
    /// An independent copy, which compares equal to `self`.
    fn clone(&self) -> (copy: ImageSettings)
        ensures
            copy == *self,
            copy.eq_spec(self),
    {
        ImageSettings {
            width: self.width.clone(),
            height: self.height.clone(),
            rotation: self.rotation.clone(),
            horizontal_flip: self.horizontal_flip.clone(),
            vertical_flip: self.vertical_flip.clone(),
        }
    }
}

impl PartialEq for ImageSettings {
    /// Two image settings are equal when all five fields hold the same text.
    fn eq(&self, other: &ImageSettings) -> (equal: bool) {
        self.width == other.width
            && self.height == other.height
            && self.rotation == other.rotation
            && self.horizontal_flip == other.horizontal_flip
            && self.vertical_flip == other.vertical_flip
    }
}

impl vstd::std_specs::cmp::PartialEqSpecImpl for ImageSettings {
    open spec fn obeys_eq_spec() -> bool {
        true
    }

    open spec fn eq_spec(&self, other: &ImageSettings) -> bool {
        self@ == other@
    }
}

impl ImageSettings {
    /// The image settings that are used where the caller chooses nothing.
    pub open spec fn default_view() -> ImageSettingsView {
        ImageSettingsView {
            width: "200"@,
            height: "200"@,
            rotation: "180"@,
            horizontal_flip: "false"@,
            vertical_flip: "false"@,
        }
    }

    /// Settings built from the defaults with one field set to `value` are the
    /// settings that list `value` for that field and, for each of the other
    /// four, its default. This holds for each of the five fields and for
    /// any text.
    pub proof fn lemma_override_keeps_other_defaults(defaults: ImageSettings, value: String)
        requires
            defaults@ == ImageSettings::default_view(),
        ensures
            (ImageSettings { width: value, ..defaults })@ == (ImageSettingsView {
                width: value@,
                height: "200"@,
                rotation: "180"@,
                horizontal_flip: "false"@,
                vertical_flip: "false"@,
            }),
            (ImageSettings { height: value, ..defaults })@ == (ImageSettingsView {
                width: "200"@,
                height: value@,
                rotation: "180"@,
                horizontal_flip: "false"@,
                vertical_flip: "false"@,
            }),
            (ImageSettings { rotation: value, ..defaults })@ == (ImageSettingsView {
                width: "200"@,
                height: "200"@,
                rotation: value@,
                horizontal_flip: "false"@,
                vertical_flip: "false"@,
            }),
            (ImageSettings { horizontal_flip: value, ..defaults })@ == (ImageSettingsView {
                width: "200"@,
                height: "200"@,
                rotation: "180"@,
                horizontal_flip: value@,
                vertical_flip: "false"@,
            }),
            (ImageSettings { vertical_flip: value, ..defaults })@ == (ImageSettingsView {
                width: "200"@,
                height: "200"@,
                rotation: "180"@,
                horizontal_flip: "false"@,
                vertical_flip: value@,
            }),
    {
    }

    /// Equality compares field by field: two image settings are equal exactly
    /// when each of the five fields holds the same text in both.
    pub proof fn lemma_eq_is_fieldwise(a: ImageSettings, b: ImageSettings)
        ensures
            a.eq_spec(&b) <==> {
                &&& a.width@ == b.width@
                &&& a.height@ == b.height@
                &&& a.rotation@ == b.rotation@
                &&& a.horizontal_flip@ == b.horizontal_flip@
                &&& a.vertical_flip@ == b.vertical_flip@
            },
    {
    }

    /// Every image settings value is equal to itself.
    pub proof fn lemma_eq_reflexive(a: ImageSettings)
        ensures
            a.eq_spec(&a),
    {
    }

    /// Equality does not depend on the side a value stands on.
    pub proof fn lemma_eq_symmetric(a: ImageSettings, b: ImageSettings)
        ensures
            a.eq_spec(&b) <==> b.eq_spec(&a),
    {
    }

    /// Two values that are both equal to a third are equal to each other.
    pub proof fn lemma_eq_transitive(a: ImageSettings, b: ImageSettings, c: ImageSettings)
        requires
            a.eq_spec(&b),
            b.eq_spec(&c),
        ensures
            a.eq_spec(&c),
    {
    }

    /// Image settings whose text differs in any one field are not equal,
    /// whatever the other fields hold.
    pub proof fn lemma_differing_field_breaks_eq(a: ImageSettings, b: ImageSettings)
        requires
            a.width@ != b.width@ || a.height@ != b.height@ || a.rotation@ != b.rotation@
                || a.horizontal_flip@ != b.horizontal_flip@ || a.vertical_flip@
                != b.vertical_flip@,
        ensures
            !a.eq_spec(&b),
    {
    }
}

} // verus!
