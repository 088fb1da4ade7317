//! Scaling modes: how a video is fitted to the screen.
use vstd::prelude::*;

verus! {

/// How a video is fitted to the screen.
#[derive(Clone, Copy, Debug, PartialEq, Eq, Structural)]
pub enum ScalingMode {
    /// The video covers the screen, and what does not fit is cut off.
    FillScreen,
    /// The whole video is shown, with black bars where the screen is left over.
    FitToScreen,
}

/// How a media layer lays a video out in its bounds.
#[derive(Clone, Copy, Debug, PartialEq, Eq, Structural)]
pub enum VideoGravity {
    /// Keep the aspect ratio and fit within the bounds.
    ResizeAspect,
    /// Keep the aspect ratio and fill the bounds.
    ResizeAspectFill,
}

impl ScalingMode {
    /// The name under which the mode is shown and stored.
    pub open spec fn label_text(self) -> Seq<char> {
        match self {
            ScalingMode::FillScreen => "Fill Screen"@,
            ScalingMode::FitToScreen => "Fit to Screen"@,
        }
    }

    /// The media layer's layout for the mode.
    pub open spec fn gravity(self) -> VideoGravity {
        match self {
            ScalingMode::FillScreen => VideoGravity::ResizeAspectFill,
            ScalingMode::FitToScreen => VideoGravity::ResizeAspect,
        }
    }

    /// The style sheet's `object-fit` value for the mode.
    pub open spec fn object_fit_text(self) -> Seq<char> {
        match self {
            ScalingMode::FillScreen => "cover"@,
            ScalingMode::FitToScreen => "contain"@,
        }
    }

    /// The name under which the mode is shown and stored.
    pub fn label(self) -> (result: &'static str)
        ensures
            result@ == self.label_text(),
    {
        match self {
            ScalingMode::FillScreen => "Fill Screen",
            ScalingMode::FitToScreen => "Fit to Screen",
        }
    }

    /// The media layer's layout for the mode.
    pub fn video_gravity(self) -> (result: VideoGravity)
        ensures
            result == self.gravity(),
    {
        match self {
            ScalingMode::FillScreen => VideoGravity::ResizeAspectFill,
            ScalingMode::FitToScreen => VideoGravity::ResizeAspect,
        }
    }
}

/// The style sheet's `object-fit` value for a mode.
pub fn object_fit(scaling_mode: ScalingMode) -> (result: &'static str)
    ensures
        result@ == scaling_mode.object_fit_text(),
{
    if scaling_mode == ScalingMode::FillScreen {
        return "cover";
    }
    "contain"
}

/// A mode is known by its label, and by what it does to the layout and the style.
pub proof fn law_modes_are_told_apart(left: ScalingMode, right: ScalingMode)
    requires
        left != right,
    ensures
        left.label_text() != right.label_text(),
        left.gravity() != right.gravity(),
        left.object_fit_text() != right.object_fit_text(),
{
    reveal_strlit("Fill Screen");
    reveal_strlit("Fit to Screen");
    reveal_strlit("cover");
    reveal_strlit("contain");
    assert("Fill Screen"@.len() != "Fit to Screen"@.len());
    assert("cover"@.len() != "contain"@.len());
}

/// Filling the screen covers it, and fitting to it shows the whole, under the names that the user
/// chooses by.
pub proof fn law_modes_do_what_they_say()
    ensures
        ScalingMode::FillScreen.label_text() == "Fill Screen"@,
        ScalingMode::FillScreen.gravity() == VideoGravity::ResizeAspectFill,
        ScalingMode::FillScreen.object_fit_text() == "cover"@,
        ScalingMode::FitToScreen.label_text() == "Fit to Screen"@,
        ScalingMode::FitToScreen.gravity() == VideoGravity::ResizeAspect,
        ScalingMode::FitToScreen.object_fit_text() == "contain"@,
{
}

} // verus!
