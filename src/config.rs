//! The service's configuration and its defaults. Reading and writing the
//! configuration file is done outside the library.
use vstd::prelude::*;

use crate::presentation::{PresentationConfig, PresentationMode};

verus! {

/// Options of the host service.
#[derive(Debug, Clone)]
pub struct Config {
    /// Named pipe of the control channel.
    pub pipe_path: String,
    /// Name of the shared region, overriding the one given in the handshake.
    pub shmem_path: Option<String>,
    /// Adapter to render on; 0 is the default adapter.
    pub adapter_index: u32,
    /// "headless", "windowed" or "dual".
    pub presentation_mode: String,
    pub width: u32,
    pub height: u32,
    pub vsync: bool,
    /// Swapchain buffers, at least 2.
    pub buffer_count: u32,
}

pub fn default_pipe_path() -> (r: String)
    ensures
        r@ == "\\\\.\\pipe\\pvgpu"@,
{
    "\\\\.\\pipe\\pvgpu".to_owned()
}

pub fn default_presentation_mode() -> (r: String)
    ensures
        r@ == "headless"@,
{
    "headless".to_owned()
}

pub fn default_width() -> (r: u32)
    ensures
        r == 1920,
{
    1920
}

pub fn default_height() -> (r: u32)
    ensures
        r == 1080,
{
    1080
}

pub fn default_vsync() -> (r: bool)
    ensures
        r,
{
    true
}

pub fn default_buffer_count() -> (r: u32)
    ensures
        r == 2,
{
    2
}

impl Default for Config {
    fn default() -> (r: Self)
        ensures
            r.pipe_path@ == "\\\\.\\pipe\\pvgpu"@,
            r.shmem_path is None,
            r.adapter_index == 0,
            r.presentation_mode@ == "headless"@,
            r.width == 1920,
            r.height == 1080,
            r.vsync,
            r.buffer_count == 2,
    {
        Config {
            pipe_path: default_pipe_path(),
            shmem_path: None,
            adapter_index: 0,
            presentation_mode: default_presentation_mode(),
            width: default_width(),
            height: default_height(),
            vsync: default_vsync(),
            buffer_count: default_buffer_count(),
        }
    }
}

impl Config {
    /// The presentation configuration this service runs with: the mode by
    /// name, tearing allowed exactly when vsync is off, and the frame event
    /// under its global name.
    pub fn presentation_config(&self) -> (r: PresentationConfig)
        ensures
            self.presentation_mode@ == "windowed"@ ==> r.mode == PresentationMode::Windowed,
            self.presentation_mode@ == "dual"@ ==> r.mode == PresentationMode::Dual,
            self.presentation_mode@ != "windowed"@ && self.presentation_mode@ != "dual"@ ==> r.mode
                == PresentationMode::Headless,
            r.width == self.width,
            r.height == self.height,
            r.vsync == self.vsync,
            r.buffer_count == self.buffer_count,
            r.allow_tearing == !self.vsync,
            r.window_title@ == "PVGPU Output"@,
            r.frame_event_name matches Some(n) && n@ == "Global\\PVGPU_FrameEvent"@,
    {
        PresentationConfig {
            mode: PresentationMode::from_name(&self.presentation_mode),
            width: self.width,
            height: self.height,
            vsync: self.vsync,
            window_title: "PVGPU Output".to_owned(),
            frame_event_name: Some("Global\\PVGPU_FrameEvent".to_owned()),
            buffer_count: self.buffer_count,
            allow_tearing: !self.vsync,
        }
    }
}

} // verus!
