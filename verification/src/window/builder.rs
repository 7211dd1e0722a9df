//! The window builder: the options of a window, and the parameters that the Win32 and
//! Direct3D calls which create it are given.

use vstd::prelude::*;

use super::events::WindowMode;
use super::wide::{utf16_str, wide_string};

verus! {

/// Direct3D feature level (`D3D_FEATURE_LEVEL`).
#[allow(non_camel_case_types)]
#[derive(Debug, Clone, Copy, PartialEq, Eq, Structural)]
pub enum FeatureLevel {
    /// Direct3D 9.1
    Level_9_1,
    /// Direct3D 9.2
    Level_9_2,
    /// Direct3D 9.3
    Level_9_3,
    /// Direct3D 10.0
    Level_10_0,
    /// Direct3D 10.1
    Level_10_1,
    /// Direct3D 11.0
    Level_11_0,
    /// Direct3D 11.1
    Level_11_1,
}

impl FeatureLevel {
    /// The `D3D_FEATURE_LEVEL` value of this level: the major version in the high byte of a
    /// 16-bit number, the minor version in the next four bits.
    pub open spec fn code(self) -> u32 {
        match self {
            FeatureLevel::Level_9_1 => 0x9100,
            FeatureLevel::Level_9_2 => 0x9200,
            FeatureLevel::Level_9_3 => 0x9300,
            FeatureLevel::Level_10_0 => 0xa000,
            FeatureLevel::Level_10_1 => 0xa100,
            FeatureLevel::Level_11_0 => 0xb000,
            FeatureLevel::Level_11_1 => 0xb100,
        }
    }

    /// The `D3D_FEATURE_LEVEL` value of this level.
    pub fn value(&self) -> (value: u32)
        ensures
            value == self.code(),
            *self == FeatureLevel::Level_9_1 ==> value == 0x9100,
            *self == FeatureLevel::Level_9_2 ==> value == 0x9200,
            *self == FeatureLevel::Level_9_3 ==> value == 0x9300,
            *self == FeatureLevel::Level_10_0 ==> value == 0xa000,
            *self == FeatureLevel::Level_10_1 ==> value == 0xa100,
            *self == FeatureLevel::Level_11_0 ==> value == 0xb000,
            *self == FeatureLevel::Level_11_1 ==> value == 0xb100,
    {
        match self {
            FeatureLevel::Level_9_1 => 0x9100,
            FeatureLevel::Level_9_2 => 0x9200,
            FeatureLevel::Level_9_3 => 0x9300,
            FeatureLevel::Level_10_0 => 0xa000,
            FeatureLevel::Level_10_1 => 0xa100,
            FeatureLevel::Level_11_0 => 0xb000,
            FeatureLevel::Level_11_1 => 0xb100,
        }
    }
}

/// `CS_VREDRAW`: redraw the whole window when its height changes.
pub const CS_VREDRAW: u32 = 0x0001;
/// `CS_HREDRAW`: redraw the whole window when its width changes.
pub const CS_HREDRAW: u32 = 0x0002;
/// `CS_OWNDC`: each window of the class has a device context of its own.
pub const CS_OWNDC: u32 = 0x0020;
/// `WS_OVERLAPPEDWINDOW`: a window with a title bar, a sizing border, a window menu and
/// minimize and maximize buttons.
pub const WS_OVERLAPPEDWINDOW: u32 = 0x00CF_0000;
/// `WS_POPUP`: a window without a frame.
pub const WS_POPUP: u32 = 0x8000_0000;
/// `WS_EX_APPWINDOW`: the window has a button on the taskbar.
pub const WS_EX_APPWINDOW: u32 = 0x0004_0000;
/// `DXGI_FORMAT_R8G8B8A8_UNORM`: four 8-bit unsigned normalized channels.
pub const DXGI_FORMAT_R8G8B8A8_UNORM: u32 = 28;
/// `DXGI_USAGE_RENDER_TARGET_OUTPUT`: the buffer is used as a render target.
pub const DXGI_USAGE_RENDER_TARGET_OUTPUT: u32 = 0x0020;
/// The Win32 `FALSE`.
pub const FALSE: i32 = 0;
/// The Win32 `TRUE`.
pub const TRUE: i32 = 1;

/// A Win32 `RECT`: the left, top, right and bottom edges of a rectangle.
#[derive(Debug, Clone, Copy, PartialEq, Eq, Structural)]
pub struct Rect {
    /// x coordinate of the left edge
    pub left: i32,
    /// y coordinate of the top edge
    pub top: i32,
    /// x coordinate of the right edge
    pub right: i32,
    /// y coordinate of the bottom edge
    pub bottom: i32,
}

/// What the window class is registered with and the window is created with.
#[derive(Debug, Clone, Copy, PartialEq, Eq, Structural)]
pub struct WindowParams {
    /// Style of the window class (`WNDCLASSEXW::style`).
    pub class_style: u32,
    /// Style of the window (`dwStyle` of `CreateWindowExW`).
    pub style: u32,
    /// Extended style of the window (`dwExStyle` of `CreateWindowExW`).
    pub ex_style: u32,
    /// Style that `AdjustWindowRect` grows the client rectangle by: the window's own style.
    pub frame_style: u32,
    /// The client rectangle, before it is grown to the window's frame.
    pub client_rect: Rect,
}

/// What the Direct3D device and its swap chain are created with.
#[derive(Debug, Clone, Copy, PartialEq, Eq, Structural)]
pub struct SwapChainParams {
    /// Width of the back buffer.
    pub width: u32,
    /// Height of the back buffer.
    pub height: u32,
    /// Format of the back buffer (`DXGI_FORMAT`).
    pub format: u32,
    /// Number of samples per pixel.
    pub sample_count: u32,
    /// Quality level of the samples.
    pub sample_quality: u32,
    /// Number of back buffers.
    pub buffer_count: u32,
    /// Usage of the back buffer (`DXGI_USAGE`).
    pub buffer_usage: u32,
    /// Whether the output is in a window (`TRUE`) or full screen (`FALSE`).
    pub windowed: i32,
}

/// A `u32` passed where a C `int` is expected: the same 32 bits read as two's complement.
pub open spec fn as_c_int(value: u32) -> i32 {
    if value < 0x8000_0000 {
        value as i32
    } else {
        (value - 0x1_0000_0000) as i32
    }
}

/// A 32-bit width or height passed as a C `int` keeps its value when below 2^31, and
/// otherwise wraps around by 2^32.
pub proof fn lemma_c_int_value(value: u32)
    ensures
        as_c_int(value) as int == value as int - (if value >= 0x8000_0000 {
            0x1_0000_0000int
        } else {
            0
        }),
        value < 0x8000_0000 ==> as_c_int(value) as int == value as int,
{
}

fn to_c_int(value: u32) -> (result: i32)
    ensures
        result == as_c_int(value),
        result as int == value as int - (if value >= 0x8000_0000 { 0x1_0000_0000int } else { 0 }),
{
    let result = #[verifier::truncate] (value as i32);
    assert(result as int == if value < 0x8000_0000 {
        value as int
    } else {
        value as int - 0x1_0000_0000
    }) by (bit_vector)
        requires
            result == #[verifier::truncate] (value as i32),
    ;
    result
}

/// Window builder
#[derive(Debug)]
pub struct WindowBuilder {
    title: Vec<u16>,
    dimensions: (u32, u32),
    window_mode: WindowMode,
    feature_level: Option<FeatureLevel>,
}

impl WindowBuilder {
    /// The title, as a NUL-terminated UTF-16 string.
    pub closed spec fn spec_title(&self) -> Seq<u16> {
        self.title@
    }

    /// The width and height of the window's client area.
    pub closed spec fn spec_dimensions(&self) -> (u32, u32) {
        self.dimensions
    }

    /// The initial window mode.
    pub closed spec fn spec_window_mode(&self) -> WindowMode {
        self.window_mode
    }

    /// The Direct3D feature level asked for, if any.
    pub closed spec fn spec_feature_level(&self) -> Option<FeatureLevel> {
        self.feature_level
    }

    /// Create a new WindowBuilder with default options
    pub fn new() -> (builder: WindowBuilder)
        ensures
            builder.spec_title() == wide_string("DirectX Window"@),
            builder.spec_dimensions() == (800u32, 600u32),
            builder.spec_window_mode() == WindowMode::Windowed,
            builder.spec_feature_level() == None::<FeatureLevel>,
    {
        WindowBuilder {
            title: utf16_str("DirectX Window"),
            dimensions: (800, 600),
            window_mode: WindowMode::Windowed,
            feature_level: None,
        }
    }

    /// Specify the title of the created window
    pub fn title(self, title: &str) -> (builder: WindowBuilder)
        ensures
            builder.spec_title() == wide_string(title@),
            builder.spec_dimensions() == self.spec_dimensions(),
            builder.spec_window_mode() == self.spec_window_mode(),
            builder.spec_feature_level() == self.spec_feature_level(),
    {
        let mut builder = self;
        builder.title = utf16_str(title);
        builder
    }

    /// Specify the dimensions of the created window
    pub fn dimensions(self, width: u32, height: u32) -> (builder: WindowBuilder)
        ensures
            builder.spec_title() == self.spec_title(),
            builder.spec_dimensions() == (width, height),
            builder.spec_window_mode() == self.spec_window_mode(),
            builder.spec_feature_level() == self.spec_feature_level(),
    {
        let mut builder = self;
        builder.dimensions = (width, height);
        builder
    }

    /// Set the desired Direct3D feature level
    pub fn feature_level(self, level: FeatureLevel) -> (builder: WindowBuilder)
        ensures
            builder.spec_title() == self.spec_title(),
            builder.spec_dimensions() == self.spec_dimensions(),
            builder.spec_window_mode() == self.spec_window_mode(),
            builder.spec_feature_level() == Some(level),
    {
        let mut builder = self;
        builder.feature_level = Some(level);
        builder
    }

    /// Specify the initial window mode
    pub fn window_mode(self, window_mode: WindowMode) -> (builder: WindowBuilder)
        ensures
            builder.spec_title() == self.spec_title(),
            builder.spec_dimensions() == self.spec_dimensions(),
            builder.spec_window_mode() == window_mode,
            builder.spec_feature_level() == self.spec_feature_level(),
    {
        let mut builder = self;
        builder.window_mode = window_mode;
        builder
    }

    /// Whether the window takes the size of the screen (a borderless full-screen window),
    /// so that the screen's size must be known to create it.
    pub fn uses_screen_size(&self) -> (uses: bool)
        ensures
            uses == (self.spec_window_mode() == WindowMode::FullscreenWindowed),
    {
        match self.window_mode {
            WindowMode::FullscreenWindowed => true,
            _ => false,
        }
    }

    /// What the window class is registered with and the window is created with, given the
    /// width and height of the screen: an overlapped window whose client area has the
    /// requested size when windowed; a popup window, whose client area has the requested size
    /// in exclusive full screen and the screen's size in a borderless full-screen window. In
    /// every mode the client rectangle is then grown by the frame of the window's own style
    /// (`frame_style`): the caption and sizing border of an overlapped window, nothing for a
    /// popup window, so that a borderless full-screen window covers exactly the screen.
    pub fn window_params(&self, screen_width: u32, screen_height: u32) -> (params: WindowParams)
        ensures
            params.class_style == CS_HREDRAW | CS_VREDRAW | CS_OWNDC,
            params.style == (if self.spec_window_mode() == WindowMode::Windowed {
                WS_OVERLAPPEDWINDOW
            } else {
                WS_POPUP
            }),
            params.ex_style == WS_EX_APPWINDOW,
            params.frame_style == params.style,
            params.client_rect.left == 0,
            params.client_rect.top == 0,
            self.spec_window_mode() == WindowMode::FullscreenWindowed ==> params.client_rect.right
                == as_c_int(screen_width) && params.client_rect.bottom == as_c_int(screen_height),
            self.spec_window_mode() != WindowMode::FullscreenWindowed ==> params.client_rect.right
                == as_c_int(self.spec_dimensions().0) && params.client_rect.bottom == as_c_int(
                self.spec_dimensions().1,
            ),
            params.class_style == 0x23,
            params.style == (if self.spec_window_mode() == WindowMode::Windowed {
                0x00CF_0000u32
            } else {
                0x8000_0000u32
            }),
            params.ex_style == 0x0004_0000,
            self.spec_window_mode() == WindowMode::FullscreenWindowed ==> {
                &&& params.client_rect.right as int == screen_width as int - (if screen_width >= 0x8000_0000 { 0x1_0000_0000int } else { 0 })
                &&& params.client_rect.bottom as int == screen_height as int - (if screen_height >= 0x8000_0000 { 0x1_0000_0000int } else { 0 })
            },
            self.spec_window_mode() != WindowMode::FullscreenWindowed ==> {
                &&& params.client_rect.right as int == self.spec_dimensions().0 as int - (if self.spec_dimensions().0 >= 0x8000_0000 { 0x1_0000_0000int } else { 0 })
                &&& params.client_rect.bottom as int == self.spec_dimensions().1 as int - (if self.spec_dimensions().1 >= 0x8000_0000 { 0x1_0000_0000int } else { 0 })
            },
    {
        let style = match self.window_mode {
            WindowMode::Windowed => WS_OVERLAPPEDWINDOW,
            _ => WS_POPUP,
        };
        let dimensions = match self.window_mode {
            WindowMode::FullscreenWindowed => (screen_width, screen_height),
            _ => self.dimensions,
        };
        assert(0x0002u32 | 0x0001u32 | 0x0020u32 == 0x23u32) by (bit_vector);
        WindowParams {
            class_style: CS_HREDRAW | CS_VREDRAW | CS_OWNDC,
            style,
            ex_style: WS_EX_APPWINDOW,
            frame_style: style,
            client_rect: Rect {
                left: 0,
                top: 0,
                right: to_c_int(dimensions.0),
                bottom: to_c_int(dimensions.1),
            },
        }
    }

    /// What the swap chain is created with: one back buffer in the requested dimensions,
    /// 8-bit RGBA, one sample per pixel, used as a render target; windowed unless the window
    /// mode is exclusive full screen.
    pub fn swap_chain_params(&self) -> (params: SwapChainParams)
        ensures
            params.width == self.spec_dimensions().0,
            params.height == self.spec_dimensions().1,
            params.format == DXGI_FORMAT_R8G8B8A8_UNORM,
            params.sample_count == 1,
            params.sample_quality == 0,
            params.buffer_count == 1,
            params.buffer_usage == DXGI_USAGE_RENDER_TARGET_OUTPUT,
            params.windowed == (if self.spec_window_mode() == WindowMode::Fullscreen {
                FALSE
            } else {
                TRUE
            }),
            params.format == 28,
            params.buffer_usage == 0x20,
            params.windowed == (if self.spec_window_mode() == WindowMode::Fullscreen {
                0i32
            } else {
                1i32
            }),
    {
        let windowed = match self.window_mode {
            WindowMode::Fullscreen => FALSE,
            _ => TRUE,
        };
        SwapChainParams {
            width: self.dimensions.0,
            height: self.dimensions.1,
            format: DXGI_FORMAT_R8G8B8A8_UNORM,
            sample_count: 1,
            sample_quality: 0,
            buffer_count: 1,
            buffer_usage: DXGI_USAGE_RENDER_TARGET_OUTPUT,
            windowed,
        }
    }

    /// The Direct3D feature level that the device is created with: the one asked for, or
    /// 11.0 when none was.
    pub fn requested_feature_level(&self) -> (level: FeatureLevel)
        ensures
            level == (match self.spec_feature_level() {
                Some(level) => level,
                None => FeatureLevel::Level_11_0,
            }),
    {
        match self.feature_level {
            Some(level) => level,
            None => FeatureLevel::Level_11_0,
        }
    }

    /// The title, as a NUL-terminated UTF-16 string.
    pub fn wide_title(&self) -> (title: &Vec<u16>)
        ensures
            title@ == self.spec_title(),
    {
        &self.title
    }

    /// The requested width and height of the window's client area.
    pub fn get_dimensions(&self) -> (dimensions: (u32, u32))
        ensures
            dimensions == self.spec_dimensions(),
    {
        self.dimensions
    }

    /// The initial window mode.
    pub fn get_window_mode(&self) -> (mode: WindowMode)
        ensures
            mode == self.spec_window_mode(),
    {
        self.window_mode
    }

    /// The Direct3D feature level asked for, if any.
    pub fn get_feature_level(&self) -> (level: Option<FeatureLevel>)
        ensures
            level == self.spec_feature_level(),
    {
        self.feature_level
    }
}

/// The width and height of a window whose frame is `frame`, as `CreateWindowExW` is given
/// them.
pub fn frame_size(frame: Rect) -> (size: (i32, i32))
    requires
        i32::MIN <= frame.right - frame.left <= i32::MAX,
        i32::MIN <= frame.bottom - frame.top <= i32::MAX,
    ensures
        size.0 == frame.right - frame.left,
        size.1 == frame.bottom - frame.top,
{
    (frame.right - frame.left, frame.bottom - frame.top)
}

/// The outcome of creating the window: nothing when a window was created, otherwise the
/// error code that `GetLastError` gave.
pub fn window_creation_result(window_created: bool, last_error: u32) -> (result: Result<(), u32>)
    ensures
        window_created ==> result == Ok::<(), u32>(()),
        !window_created ==> result == Err::<(), u32>(last_error),
{
    if window_created {
        Ok(())
    } else {
        Err(last_error)
    }
}

/// The outcome of a Direct3D creation call that returned `status` (an `HRESULT`,
/// 0 on success): nothing on success, otherwise the error code that `GetLastError` gave.
pub fn creation_result(status: i32, last_error: u32) -> (result: Result<(), u32>)
    ensures
        status == 0 ==> result == Ok::<(), u32>(()),
        status != 0 ==> result == Err::<(), u32>(last_error),
{
    if status == 0 {
        Ok(())
    } else {
        Err(last_error)
    }
}

} // verus!
