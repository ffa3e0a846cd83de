//! Settings of the OBS video context.
use vstd::prelude::*;

use crate::enums::{ObsColorspace, ObsGraphicsModule, ObsScaleType, ObsVideoFormat, ObsVideoRange};

verus! {

/// The settings of an OBS video context, as libobs takes them in `obs_video_info`.
#[derive(Clone, Copy, Debug, PartialEq, Eq, Structural)]
pub struct ObsVideoSettings {
    pub adapter: u32,
    pub graphics_module: ObsGraphicsModule,
    pub fps_num: u32,
    pub fps_den: u32,
    pub base_width: u32,
    pub base_height: u32,
    pub output_width: u32,
    pub output_height: u32,
    pub output_format: ObsVideoFormat,
    pub gpu_conversion: bool,
    pub colorspace: ObsColorspace,
    pub range: ObsVideoRange,
    pub scale_type: ObsScaleType,
}

/// A display of the machine: whether it is the primary one, and its size.
#[derive(Clone, Copy, Debug, PartialEq, Eq, Structural)]
pub struct DisplayEntry {
    pub is_primary: bool,
    pub width: u32,
    pub height: u32,
}

/// The size of the first primary display, or 1920 by 1080 when there is none.
pub open spec fn spec_primary_size(displays: Seq<DisplayEntry>) -> (u32, u32)
    decreases displays.len(),
{
    if displays.len() == 0 {
        (1920u32, 1080u32)
    } else if displays[0].is_primary {
        (displays[0].width, displays[0].height)
    } else {
        spec_primary_size(displays.drop_first())
    }
}

/// Returns the size of the first primary display, or 1920 by 1080 when there is none.
pub fn primary_display_size(displays: &Vec<DisplayEntry>) -> (r: (u32, u32))
    ensures
        r == spec_primary_size(displays@),
{
    let mut i: usize = 0;
    assert(displays@.skip(0) =~= displays@);
    while i < displays.len()
        invariant
            i <= displays@.len(),
            spec_primary_size(displays@) == spec_primary_size(displays@.skip(i as int)),
        decreases displays@.len() - i,
    {
        assert(displays@.skip(i as int)[0] == displays@[i as int]);
        assert(displays@.skip(i as int).drop_first() =~= displays@.skip(i as int + 1));
        if displays[i].is_primary {
            return (displays[i].width, displays[i].height);
        }
        i = i + 1;
    }
    assert(displays@.skip(i as int) =~= Seq::<DisplayEntry>::empty());
    (1920, 1080)
}

impl ObsGraphicsModule {
    /// The graphics backend used by default: Direct3D 11 on Windows, OpenGL elsewhere.
    pub fn for_platform(is_windows: bool) -> (r: ObsGraphicsModule)
        ensures
            r == (if is_windows {
                ObsGraphicsModule::DirectX11
            } else {
                ObsGraphicsModule::OpenGL
            }),
    {
        if is_windows {
            ObsGraphicsModule::DirectX11
        } else {
            ObsGraphicsModule::OpenGL
        }
    }
}

/// The settings that a new builder starts from: 30 frames per second, both
/// resolutions set to the primary display's, NV12 output with GPU conversion,
/// the 709 colorspace, the default range and Lanczos scaling.
pub open spec fn spec_default_settings(
    width: u32,
    height: u32,
    graphics_module: ObsGraphicsModule,
) -> ObsVideoSettings {
    ObsVideoSettings {
        adapter: 0,
        graphics_module,
        fps_num: 30,
        fps_den: 1,
        base_width: width,
        base_height: height,
        output_width: width,
        output_height: height,
        output_format: ObsVideoFormat::NV12,
        gpu_conversion: true,
        colorspace: ObsColorspace::CS709,
        range: ObsVideoRange::Default,
        scale_type: ObsScaleType::Lanczos,
    }
}

/// A wrapper for the settings passed to libobs when the video context is
/// reset, with the name of the graphics module to load.
#[derive(Clone, Debug)]
pub struct ObsVideoInfo {
    settings: ObsVideoSettings,
}

impl View for ObsVideoInfo {
    type V = ObsVideoSettings;

    closed spec fn view(&self) -> ObsVideoSettings {
        self.settings
    }
}

impl ObsVideoInfo {
    /// Settings taken as they are.
    pub fn new(settings: ObsVideoSettings) -> (r: Self)
        ensures
            r@ == settings,
    {
        ObsVideoInfo { settings }
    }

    /// All the settings.
    pub fn settings(&self) -> (r: ObsVideoSettings)
        ensures
            r == self@,
    {
        self.settings
    }

    /// The graphics backend.
    pub fn graphics_backend(&self) -> (r: ObsGraphicsModule)
        ensures
            r == self@.graphics_module,
    {
        self.settings.graphics_module
    }

    /// The name of the graphics module that libobs loads.
    pub fn graphics_module(&self) -> (r: &'static str)
        ensures
            r@ == self@.graphics_module.spec_module_name(),
    {
        self.settings.graphics_module.module_name()
    }

    pub fn get_fps_num(&self) -> (r: u32)
        ensures
            r == self@.fps_num,
    {
        self.settings.fps_num
    }

    pub fn get_fps_den(&self) -> (r: u32)
        ensures
            r == self@.fps_den,
    {
        self.settings.fps_den
    }

    pub fn get_base_width(&self) -> (r: u32)
        ensures
            r == self@.base_width,
    {
        self.settings.base_width
    }

    pub fn get_base_height(&self) -> (r: u32)
        ensures
            r == self@.base_height,
    {
        self.settings.base_height
    }

    pub fn get_output_width(&self) -> (r: u32)
        ensures
            r == self@.output_width,
    {
        self.settings.output_width
    }

    pub fn get_output_height(&self) -> (r: u32)
        ensures
            r == self@.output_height,
    {
        self.settings.output_height
    }
}

/// A structure intended to help make creating new `ObsVideoInfo` structs easier
/// for resetting the OBS video context.
#[derive(Clone, Debug)]
pub struct ObsVideoInfoBuilder {
    settings: ObsVideoSettings,
}

impl View for ObsVideoInfoBuilder {
    type V = ObsVideoSettings;

    closed spec fn view(&self) -> ObsVideoSettings {
        self.settings
    }
}

impl ObsVideoInfoBuilder {
    /// A builder with sensible defaults, sized to the first primary display
    /// among `displays` (1920 by 1080 when there is none).
    pub fn new(displays: &Vec<DisplayEntry>, graphics_module: ObsGraphicsModule) -> (r: Self)
        ensures
            r@ == spec_default_settings(
                spec_primary_size(displays@).0,
                spec_primary_size(displays@).1,
                graphics_module,
            ),
    {
        let (width, height) = primary_display_size(displays);
        ObsVideoInfoBuilder {
            settings: ObsVideoSettings {
                adapter: 0,
                graphics_module,
                fps_num: 30,
                fps_den: 1,
                base_width: width,
                base_height: height,
                output_width: width,
                output_height: height,
                output_format: ObsVideoFormat::NV12,
                gpu_conversion: true,
                colorspace: ObsColorspace::CS709,
                range: ObsVideoRange::Default,
                scale_type: ObsScaleType::Lanczos,
            },
        }
    }

    /// Consumes the builder to create an `ObsVideoInfo` with its settings.
    pub fn build(self) -> (r: ObsVideoInfo)
        ensures
            r@ == self@,
    {
        ObsVideoInfo { settings: self.settings }
    }

    /// Sets the GPU adapter device that the video output is coming from.
    pub fn adapter(self, value: u32) -> (r: Self)
        ensures
            r@ == (ObsVideoSettings { adapter: value, ..self@ }),
    {
        let mut s = self;
        s.settings.adapter = value;
        s
    }

    /// Sets the graphics backend that libobs uses to record.
    pub fn graphics_module(self, value: ObsGraphicsModule) -> (r: Self)
        ensures
            r@ == (ObsVideoSettings { graphics_module: value, ..self@ }),
    {
        let mut s = self;
        s.settings.graphics_module = value;
        s
    }

    /// Sets the framerate of the output video. Note that this value may not
    /// reflect the final framerate if `fps_den` is not equal to 1.
    pub fn fps_num(self, value: u32) -> (r: Self)
        ensures
            r@ == (ObsVideoSettings { fps_num: value, ..self@ }),
    {
        let mut s = self;
        s.settings.fps_num = value;
        s
    }

    /// Divides the FPS numerator to allow for fractional FPS counts on output.
    pub fn fps_den(self, value: u32) -> (r: Self)
        ensures
            r@ == (ObsVideoSettings { fps_den: value, ..self@ }),
    {
        let mut s = self;
        s.settings.fps_den = value;
        s
    }

    /// Sets the width of the screen being recorded.
    pub fn base_width(self, value: u32) -> (r: Self)
        ensures
            r@ == (ObsVideoSettings { base_width: value, ..self@ }),
    {
        let mut s = self;
        s.settings.base_width = value;
        s
    }

    /// Sets the height of the screen being recorded.
    pub fn base_height(self, value: u32) -> (r: Self)
        ensures
            r@ == (ObsVideoSettings { base_height: value, ..self@ }),
    {
        let mut s = self;
        s.settings.base_height = value;
        s
    }

    /// Sets the width of the video output.
    pub fn output_width(self, value: u32) -> (r: Self)
        ensures
            r@ == (ObsVideoSettings { output_width: value, ..self@ }),
    {
        let mut s = self;
        s.settings.output_width = value;
        s
    }

    /// Sets the height of the video output.
    pub fn output_height(self, value: u32) -> (r: Self)
        ensures
            r@ == (ObsVideoSettings { output_height: value, ..self@ }),
    {
        let mut s = self;
        s.settings.output_height = value;
        s
    }

    /// Sets the format in which the video will be output.
    pub fn output_format(self, value: ObsVideoFormat) -> (r: Self)
        ensures
            r@ == (ObsVideoSettings { output_format: value, ..self@ }),
    {
        let mut s = self;
        s.settings.output_format = value;
        s
    }

    /// Sets whether the GPU will handle conversion in the video.
    pub fn gpu_conversion(self, value: bool) -> (r: Self)
        ensures
            r@ == (ObsVideoSettings { gpu_conversion: value, ..self@ }),
    {
        let mut s = self;
        s.settings.gpu_conversion = value;
        s
    }

    /// Sets the video colorspace.
    pub fn colorspace(self, value: ObsColorspace) -> (r: Self)
        ensures
            r@ == (ObsVideoSettings { colorspace: value, ..self@ }),
    {
        let mut s = self;
        s.settings.colorspace = value;
        s
    }

    /// Sets the video range.
    pub fn range(self, value: ObsVideoRange) -> (r: Self)
        ensures
            r@ == (ObsVideoSettings { range: value, ..self@ }),
    {
        let mut s = self;
        s.settings.range = value;
        s
    }

    /// Sets the video scaling type.
    pub fn scale_type(self, value: ObsScaleType) -> (r: Self)
        ensures
            r@ == (ObsVideoSettings { scale_type: value, ..self@ }),
    {
        let mut s = self;
        s.settings.scale_type = value;
        s
    }
}

} // verus!
