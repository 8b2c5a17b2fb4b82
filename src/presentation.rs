//! Decisions of the presentation pipeline: its configuration, the present
//! parameters for vsync and tearing, when a resize is needed, and frame timing.
//! The window, swapchain and shared texture themselves live outside the library.
use vstd::prelude::*;

verus! {

/// The present flag that allows tearing.
pub const PRESENT_ALLOW_TEARING: u32 = 0x200;

/// Frame times kept for statistics.
pub const MAX_FRAME_SAMPLES: usize = 120;

/// Where frames go.
#[derive(Debug, Clone, Copy, PartialEq, Eq, Structural)]
pub enum PresentationMode {
    /// A shared texture only, for external consumers.
    Headless,
    /// A window with a swapchain.
    Windowed,
    /// Both.
    Dual,
}

impl PresentationMode {
    pub open spec fn spec_has_window(self) -> bool {
        self == PresentationMode::Windowed || self == PresentationMode::Dual
    }

    pub open spec fn spec_has_shared_texture(self) -> bool {
        self == PresentationMode::Headless || self == PresentationMode::Dual
    }

    pub fn has_window(&self) -> (r: bool)
        ensures
            r == self.spec_has_window(),
    {
        match self {
            PresentationMode::Windowed | PresentationMode::Dual => true,
            PresentationMode::Headless => false,
        }
    }

    pub fn has_shared_texture(&self) -> (r: bool)
        ensures
            r == self.spec_has_shared_texture(),
    {
        match self {
            PresentationMode::Headless | PresentationMode::Dual => true,
            PresentationMode::Windowed => false,
        }
    }

    /// The mode named `name` in the configuration: "windowed", "dual", and
    /// headless for anything else.
    pub fn from_name(name: &String) -> (r: Self)
        ensures
            name@ == "windowed"@ ==> r == PresentationMode::Windowed,
            name@ == "dual"@ ==> r == PresentationMode::Dual,
            name@ != "windowed"@ && name@ != "dual"@ ==> r == PresentationMode::Headless,
    {
        proof {
            reveal_strlit("windowed");
            reveal_strlit("dual");
            assert("windowed"@.len() == 8);
            assert("dual"@.len() == 4);
            assert("windowed"@ != "dual"@);
        }
        let windowed = "windowed".to_owned();
        let dual = "dual".to_owned();
        if *name == windowed {
            PresentationMode::Windowed
        } else if *name == dual {
            PresentationMode::Dual
        } else {
            PresentationMode::Headless
        }
    }
}

/// Configuration of the presentation pipeline.
#[derive(Debug, Clone)]
pub struct PresentationConfig {
    pub mode: PresentationMode,
    pub width: u32,
    pub height: u32,
    pub vsync: bool,
    pub window_title: String,
    /// Name of the event signalled on every frame.
    pub frame_event_name: Option<String>,
    /// Swapchain buffers: 2 for double, 3 for triple buffering.
    pub buffer_count: u32,
    /// Allow tearing on variable-refresh displays.
    pub allow_tearing: bool,
}

impl Default for PresentationConfig {
    fn default() -> (r: Self)
        ensures
            r.mode == PresentationMode::Windowed,
            r.width == 1920,
            r.height == 1080,
            r.vsync,
            r.window_title@ == "PVGPU Output"@,
            r.frame_event_name matches Some(n) && n@ == "Global\\PVGPU_FrameEvent"@,
            r.buffer_count == 2,
            !r.allow_tearing,
    {
        PresentationConfig {
            mode: PresentationMode::Windowed,
            width: 1920,
            height: 1080,
            vsync: true,
            window_title: "PVGPU Output".to_owned(),
            frame_event_name: Some("Global\\PVGPU_FrameEvent".to_owned()),
            buffer_count: 2,
            allow_tearing: false,
        }
    }
}

/// Sync interval and present flags: vsync presents on the next blank; without
/// vsync, tearing is allowed when the display supports it and it was asked for.
pub open spec fn spec_present_params(vsync: bool, allow_tearing: bool, tearing_supported: bool) -> (
    u32,
    u32,
) {
    if vsync {
        (1, 0)
    } else if allow_tearing && tearing_supported {
        (0, PRESENT_ALLOW_TEARING)
    } else {
        (0, 0)
    }
}

pub fn present_params(vsync: bool, allow_tearing: bool, tearing_supported: bool) -> (r: (u32, u32))
    ensures
        r == spec_present_params(vsync, allow_tearing, tearing_supported),
{
    if allow_tearing && tearing_supported && !vsync {
        (0, PRESENT_ALLOW_TEARING)
    } else if vsync {
        (1, 0)
    } else {
        (0, 0)
    }
}

/// A resize from `width` x `height` to `new_width` x `new_height` rebuilds the surface.
pub open spec fn resize_needed(width: u32, height: u32, new_width: u32, new_height: u32) -> bool {
    !(new_width == width && new_height == height)
}

/// The configuration after a resize.
pub open spec fn resized(c: PresentationConfig, width: u32, height: u32) -> PresentationConfig {
    PresentationConfig { width, height, ..c }
}

/// Resizing to the size that a resize just set rebuilds nothing and changes
/// nothing.
pub proof fn lemma_resize_twice(c: PresentationConfig, width: u32, height: u32)
    ensures
        !resize_needed(resized(c, width, height).width, resized(c, width, height).height, width, height),
        resized(resized(c, width, height), width, height) == resized(c, width, height),
{
}

impl PresentationConfig {
    /// The present parameters of this configuration.
    pub fn present_params(&self, tearing_supported: bool) -> (r: (u32, u32))
        ensures
            r == spec_present_params(self.vsync, self.allow_tearing, tearing_supported),
    {
        present_params(self.vsync, self.allow_tearing, tearing_supported)
    }

    /// Takes a resize to `width` x `height`. Returns whether the surface must
    /// be rebuilt: not when the size is unchanged.
    pub fn resize(&mut self, width: u32, height: u32) -> (r: bool)
        ensures
            r == resize_needed(old(self).width, old(self).height, width, height),
            *final(self) == resized(*old(self), width, height),
    {
        if width == self.width && height == self.height {
            return false;
        }
        self.width = width;
        self.height = height;
        true
    }

    /// The current size.
    pub fn dimensions(&self) -> (r: (u32, u32))
        ensures
            r == (self.width, self.height),
    {
        (self.width, self.height)
    }

    /// Turns vsync on or off. Returns whether it changed.
    pub fn set_vsync(&mut self, enabled: bool) -> (r: bool)
        ensures
            r == (old(self).vsync != enabled),
            final(self).vsync == enabled,
            final(self).allow_tearing == old(self).allow_tearing,
            final(self).width == old(self).width && final(self).height == old(self).height,
            final(self).mode == old(self).mode,
    {
        let changed = self.vsync != enabled;
        self.vsync = enabled;
        changed
    }

    /// Turns tearing on or off; turning it on where the display does not
    /// support it is refused. Returns whether the setting changed.
    pub fn set_allow_tearing(&mut self, enabled: bool, supported: bool) -> (r: bool)
        ensures
            r == (old(self).allow_tearing != enabled && (supported || !enabled)),
            final(self).allow_tearing == if r {
                enabled
            } else {
                old(self).allow_tearing
            },
            final(self).vsync == old(self).vsync,
            final(self).width == old(self).width && final(self).height == old(self).height,
            final(self).mode == old(self).mode,
    {
        if self.allow_tearing != enabled {
            if enabled && !supported {
                false
            } else {
                self.allow_tearing = enabled;
                true
            }
        } else {
            false
        }
    }

    /// The size to resize to after the window's client area became
    /// `client_width` x `client_height`: none when it is empty or unchanged.
    pub fn window_resize_target(&self, client_width: u32, client_height: u32) -> (r: Option<
        (u32, u32),
    >)
        ensures
            r is Some <==> (client_width > 0 && client_height > 0 && (client_width != self.width
                || client_height != self.height)),
            r matches Some(s) ==> s == (client_width, client_height),
    {
        if client_width > 0 && client_height > 0 && (client_width != self.width || client_height
            != self.height) {
            Some((client_width, client_height))
        } else {
            None
        }
    }
}

/// The last frame times, in nanoseconds, oldest first, at most 120 of them.
pub struct FrameTimes {
    samples: Vec<u64>,
    frame_count: u64,
}

impl View for FrameTimes {
    type V = Seq<u64>;

    closed spec fn view(&self) -> Seq<u64> {
        self.samples@
    }
}

pub open spec fn seq_sum(s: Seq<u64>) -> int
    decreases s.len(),
{
    if s.len() == 0 {
        0
    } else {
        seq_sum(s.drop_last()) + s.last()
    }
}

proof fn lemma_seq_sum_bound(s: Seq<u64>)
    ensures
        0 <= seq_sum(s) <= s.len() * (u64::MAX as int),
    decreases s.len(),
{
    if s.len() > 0 {
        lemma_seq_sum_bound(s.drop_last());
    }
}

impl FrameTimes {
    pub closed spec fn spec_frame_count(&self) -> u64 {
        self.frame_count
    }

    pub fn new() -> (r: Self)
        ensures
            r@ == Seq::<u64>::empty(),
            r.spec_frame_count() == 0,
    {
        FrameTimes { samples: Vec::new(), frame_count: 0 }
    }

    /// Records one presented frame that took `nanos`; the oldest sample goes
    /// once there are more than 120.
    pub fn record(&mut self, nanos: u64)
        requires
            old(self)@.len() <= MAX_FRAME_SAMPLES,
        ensures
            final(self)@.len() <= MAX_FRAME_SAMPLES,
            old(self)@.len() < MAX_FRAME_SAMPLES ==> final(self)@ == old(self)@.push(nanos),
            old(self)@.len() == MAX_FRAME_SAMPLES ==> final(self)@ == old(self)@.push(
                nanos,
            ).subrange(1, MAX_FRAME_SAMPLES as int + 1),
            final(self).spec_frame_count() == if old(self).spec_frame_count() < u64::MAX {
                (old(self).spec_frame_count() + 1) as u64
            } else {
                u64::MAX
            },
    {
        self.samples.push(nanos);
        if self.samples.len() > MAX_FRAME_SAMPLES {
            self.samples.remove(0);
            assert(self.samples@ =~= old(self)@.push(nanos).subrange(1, MAX_FRAME_SAMPLES as int + 1));
        }
        if self.frame_count < u64::MAX {
            self.frame_count = self.frame_count + 1;
        }
    }

    pub fn frame_count(&self) -> (r: u64)
        ensures
            r == self.spec_frame_count(),
    {
        self.frame_count
    }

    /// The most recent frame time; `None` with no samples.
    pub fn last_nanos(&self) -> (r: Option<u64>)
        ensures
            self@.len() == 0 ==> r is None,
            self@.len() > 0 ==> r == Some(self@.last()),
    {
        let n = self.samples.len();
        if n == 0 {
            None
        } else {
            Some(self.samples[n - 1])
        }
    }

    /// Mean of the kept frame times, rounded down; 0 with no samples.
    pub fn average_nanos(&self) -> (r: u64)
        requires
            self@.len() <= MAX_FRAME_SAMPLES,
        ensures
            self@.len() == 0 ==> r == 0,
            self@.len() > 0 ==> r == seq_sum(self@) / (self@.len() as int),
    {
        let n = self.samples.len();
        if n == 0 {
            return 0;
        }
        let mut total: u128 = 0;
        let mut i: usize = 0;
        while i < n
            invariant
                n == self@.len(),
                n <= MAX_FRAME_SAMPLES,
                i <= n,
                total == seq_sum(self@.subrange(0, i as int)),
            decreases n - i,
        {
            proof {
                lemma_seq_sum_bound(self@.subrange(0, i as int));
                assert(self@.subrange(0, i as int + 1).drop_last() =~= self@.subrange(0, i as int));
            }
            total = total + self.samples[i] as u128;
            i += 1;
        }
        assert(self@.subrange(0, n as int) =~= self@);
        proof {
            lemma_seq_sum_bound(self@);
            assert(seq_sum(self@) / (n as int) <= u64::MAX) by (nonlinear_arith)
                requires
                    0 <= seq_sum(self@) <= n * (u64::MAX as int),
                    n > 0,
            ;
        }
        (total / n as u128) as u64
    }

    /// Shortest and longest kept frame time; `None` with no samples.
    pub fn min_max_nanos(&self) -> (r: Option<(u64, u64)>)
        ensures
            self@.len() == 0 <==> r is None,
            r matches Some((lo, hi)) ==> (forall|i: int|
                0 <= i < self@.len() ==> lo <= #[trigger] self@[i] <= hi) && (exists|i: int|
                0 <= i < self@.len() && self@[i] == lo) && (exists|i: int|
                0 <= i < self@.len() && self@[i] == hi),
    {
        let n = self.samples.len();
        if n == 0 {
            return None;
        }
        let mut lo = self.samples[0];
        let mut hi = self.samples[0];
        let mut i: usize = 1;
        while i < n
            invariant
                n == self@.len(),
                1 <= i <= n,
                forall|j: int| 0 <= j < i ==> lo <= #[trigger] self@[j] <= hi,
                exists|j: int| 0 <= j < i && self@[j] == lo,
                exists|j: int| 0 <= j < i && self@[j] == hi,
            decreases n - i,
        {
            let v = self.samples[i];
            if v < lo {
                lo = v;
            }
            if v > hi {
                hi = v;
            }
            i += 1;
        }
        Some((lo, hi))
    }
}

} // verus!
