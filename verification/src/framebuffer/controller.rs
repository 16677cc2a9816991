//! The settings of the display that decide what a refresh and a pixel
//! write look like.

use vstd::prelude::*;
use crate::framebuffer::dither::{ColorTransform, DitherProfile};
use crate::framebuffer::refresh::{
    command_of,
    refresh_command,
    RefreshCommand,
    RefreshQuality,
    RefreshRequest,
    UpdateMode,
};
use crate::geom::Rectangle;

verus! {

/// What is set on a display.
#[derive(Debug, Copy, Clone, PartialEq, Eq, Structural)]
pub struct Settings {
    pub monochrome: bool,
    pub inverted: bool,
    /// Software dithering is on.
    pub dithered: bool,
    pub refresh_quality: RefreshQuality,
    /// The panel shows fewer gray levels than a byte can hold.
    pub coarse: bool,
}

impl Settings {
    /// What is done to a gray level before it is written: gray levels are
    /// dithered exactly while software dithering is on and the panel is
    /// coarse.
    pub open spec fn transform(self) -> ColorTransform {
        if self.dithered && self.coarse {
            ColorTransform::DitherG16
        } else {
            ColorTransform::Identity
        }
    }
}

/// The settings of the reMarkable's display, with the transform that goes
/// with them.
#[derive(Debug)]
pub struct RemarkableFramebuffer {
    monochrome: bool,
    inverted: bool,
    transform: ColorTransform,
    dithered: bool,
    refresh_quality: RefreshQuality,
    coarse: bool,
}

impl View for RemarkableFramebuffer {
    type V = Settings;

    closed spec fn view(&self) -> Settings {
        Settings {
            monochrome: self.monochrome,
            inverted: self.inverted,
            dithered: self.dithered,
            refresh_quality: self.refresh_quality,
            coarse: self.coarse,
        }
    }
}

impl RemarkableFramebuffer {
    /// The transform is the one that goes with the settings.
    #[verifier::type_invariant]
    spec fn consistent(&self) -> bool {
        self.transform == self@.transform()
    }

    /// The settings of a display that was just opened.
    pub fn new(coarse: bool, refresh_quality: RefreshQuality) -> (fb: RemarkableFramebuffer)
        ensures
            fb@ == (Settings {
                monochrome: false,
                inverted: false,
                dithered: false,
                refresh_quality,
                coarse,
            }),
    {
        RemarkableFramebuffer {
            monochrome: false,
            inverted: false,
            dithered: false,
            transform: ColorTransform::Identity,
            refresh_quality,
            coarse,
        }
    }

    pub fn refresh_quality(&self) -> (quality: RefreshQuality)
        ensures
            quality == self@.refresh_quality,
    {
        self.refresh_quality
    }

    pub fn set_refresh_quality(&mut self, quality: RefreshQuality)
        ensures
            final(self)@ == (Settings { refresh_quality: quality, ..old(self)@ }),
    {
        proof {
            use_type_invariant(&*self);
        }
        self.refresh_quality = quality;
    }

    /// The refresh to issue for a rectangle in a mode, at the quality and
    /// with the dithering that are set. None for a rectangle that names no
    /// region of the screen.
    pub fn update(&self, rect: &Rectangle, mode: UpdateMode) -> (command: Option<RefreshCommand>)
        ensures
            command == command_of(
                RefreshRequest { rect: *rect, mode, quality: self@.refresh_quality },
                self@.dithered,
            ),
            mode == UpdateMode::Full ==> (command matches Some(c) ==> c.profile.force_full),
            mode == UpdateMode::Partial && self@.refresh_quality == RefreshQuality::Fast ==> (
            command matches Some(c) ==> !c.profile.force_full),
    {
        let request = RefreshRequest { rect: *rect, mode, quality: self.refresh_quality };
        refresh_command(&request, self.dithered)
    }

    pub fn set_inverted(&mut self, enable: bool)
        ensures
            final(self)@ == (Settings { inverted: enable, ..old(self)@ }),
    {
        proof {
            use_type_invariant(&*self);
        }
        self.inverted = enable;
    }

    pub fn inverted(&self) -> (enabled: bool)
        ensures
            enabled == self@.inverted,
    {
        self.inverted
    }

    pub fn set_monochrome(&mut self, enable: bool)
        ensures
            final(self)@ == (Settings { monochrome: enable, ..old(self)@ }),
    {
        proof {
            use_type_invariant(&*self);
        }
        self.monochrome = enable;
    }

    pub fn monochrome(&self) -> (enabled: bool)
        ensures
            enabled == self@.monochrome,
    {
        self.monochrome
    }

    /// Turns software dithering on or off. On a coarse panel the gray
    /// levels are dithered from now on, or no longer.
    pub fn set_dithered(&mut self, enable: bool)
        ensures
            final(self)@ == (Settings { dithered: enable, ..old(self)@ }),
    {
        proof {
            use_type_invariant(&*self);
        }
        if enable == self.dithered {
            return ;
        }
        let transform = if self.coarse {
            if enable {
                ColorTransform::DitherG16
            } else {
                ColorTransform::Identity
            }
        } else {
            self.transform
        };
        *self = RemarkableFramebuffer {
            monochrome: self.monochrome,
            inverted: self.inverted,
            transform,
            dithered: enable,
            refresh_quality: self.refresh_quality,
            coarse: self.coarse,
        };
    }

    pub fn dithered(&self) -> (enabled: bool)
        ensures
            enabled == self@.dithered,
    {
        self.dithered
    }

    /// What is done to a gray level before it is written.
    pub fn transform(&self) -> (transform: ColorTransform)
        ensures
            transform == self@.transform(),
    {
        proof {
            use_type_invariant(self);
        }
        self.transform
    }

    /// The gray level to write for a pixel under the settings as they are.
    pub fn transformed(&self, profile: &DitherProfile, x: u32, y: u32, color: u8) -> (out: u8)
        ensures
            out == self@.transform().applied(profile, x, y, color),
            !(self@.dithered && self@.coarse) ==> out == color,
    {
        proof {
            use_type_invariant(self);
        }
        self.transform.apply(profile, x, y, color)
    }
}

} // verus!
