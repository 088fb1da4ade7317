//! The Windows desktop: how a window is put behind the desktop's icons.
//!
//! The work is a row of stages. Each stage says what is to be asked of the window system, and
//! the reply decides the next one. A reply to something else leaves the stage as it is.
use crate::error::Error;
use crate::text;
use vstd::prelude::*;

verus! {

/// The message that makes the program manager create a window behind the icons.
pub const CREATE_WORKER_WINDOW_MESSAGE: u32 = 0x052C;

/// The first argument of that message.
pub const CREATE_WORKER_WINDOW_WPARAM: usize = 0xD;

/// The second argument of that message.
pub const CREATE_WORKER_WINDOW_LPARAM: isize = 1;

/// How long that message may take, in milliseconds.
pub const DESKTOP_MESSAGE_TIMEOUT_MS: u32 = 1000;

/// The style bits of a framed window (`WS_OVERLAPPEDWINDOW`) and of a pop-up (`WS_POPUP`).
pub const FRAME_STYLE: u32 = 0x80CF_0000;

/// The style bit of a child window, `WS_CHILD`.
pub const CHILD_STYLE: u32 = 0x4000_0000;

/// The extended style bit of a layered window, `WS_EX_LAYERED`.
pub const LAYERED_STYLE: u32 = 0x0008_0000;

/// The extended style bit of a window without a bitmap of its own, `WS_EX_NOREDIRECTIONBITMAP`.
pub const NO_REDIRECTION_STYLE: u32 = 0x0020_0000;

/// The placement flag for a changed frame, `SWP_FRAMECHANGED`.
pub const FRAME_CHANGED: u32 = 0x20;

/// The placement flag that leaves the window inactive, `SWP_NOACTIVATE`.
pub const NO_ACTIVATE: u32 = 0x10;

/// The placement flag that shows the window, `SWP_SHOWWINDOW`.
pub const SHOW_WINDOW: u32 = 0x40;

/// The place below all other windows, `HWND_BOTTOM`.
pub const BOTTOM: isize = 1;

/// The window that a wallpaper is put into, by the handles of the window system.
#[derive(Clone, Copy, Debug, PartialEq, Eq, Structural)]
pub struct DesktopParent {
    /// The window that the wallpaper is put behind.
    pub insert_after: isize,
    /// Whether the wallpaper has to be a layered window.
    pub layered: bool,
    /// The parent itself.
    pub window: isize,
}

/// The screen that a wallpaper covers: all monitors together.
#[derive(Clone, Copy, Debug, PartialEq, Eq, Structural)]
pub struct Screen {
    pub x: i32,
    pub y: i32,
    pub width: i32,
    pub height: i32,
}

/// The edges of a rectangle.
#[derive(Clone, Copy, Debug, PartialEq, Eq, Structural)]
pub struct Edges {
    pub left: i32,
    pub top: i32,
    pub right: i32,
    pub bottom: i32,
}

/// The edges of a window and of the area within its frame.
#[derive(Clone, Copy, Debug, PartialEq, Eq, Structural)]
pub struct WindowEdges {
    pub window: Edges,
    pub client: Edges,
}

/// Where and how a window is placed.
#[derive(Clone, Copy, Debug, PartialEq, Eq, Structural)]
pub struct Placement {
    pub insert_after: isize,
    pub x: i32,
    pub y: i32,
    pub width: i32,
    pub height: i32,
    pub flags: u32,
}

/// What is asked next to put a window into a parent.
#[derive(Debug)]
pub enum AttachStage {
    /// Read the window's style, and the error that reading left.
    ReadStyle,
    /// Write the window's style, and read the error that writing left.
    WriteStyle { style: isize },
    /// Read the window's extended style.
    ReadExtendedStyle,
    /// Write the window's extended style.
    WriteExtendedStyle { style: isize },
    /// Make the window opaque.
    SetAlpha,
    /// Put the window into a parent, and read the error that this left.
    SetParent { window: isize },
    /// Place the window on the screen.
    Place { placement: Placement },
    /// Read the edges of the window.
    ReadEdges,
    /// Place the window for good.
    Show { placement: Placement },
    /// Nothing: the window is in place.
    Attached,
    /// Nothing: the work has failed.
    Failed { error: Error },
}

/// The model of an `AttachStage`.
#[verifier::ext_equal]
pub enum AttachStageView {
    ReadStyle,
    WriteStyle { style: isize },
    ReadExtendedStyle,
    WriteExtendedStyle { style: isize },
    SetAlpha,
    SetParent { window: isize },
    Place { placement: Placement },
    ReadEdges,
    Show { placement: Placement },
    Attached,
    Failed { message: Seq<char> },
}

impl View for AttachStage {
    type V = AttachStageView;

    open spec fn view(&self) -> AttachStageView {
        match self {
            AttachStage::ReadStyle => AttachStageView::ReadStyle,
            AttachStage::WriteStyle { style } => AttachStageView::WriteStyle { style: *style },
            AttachStage::ReadExtendedStyle => AttachStageView::ReadExtendedStyle,
            AttachStage::WriteExtendedStyle { style } => AttachStageView::WriteExtendedStyle {
                style: *style,
            },
            AttachStage::SetAlpha => AttachStageView::SetAlpha,
            AttachStage::SetParent { window } => AttachStageView::SetParent { window: *window },
            AttachStage::Place { placement } => AttachStageView::Place { placement: *placement },
            AttachStage::ReadEdges => AttachStageView::ReadEdges,
            AttachStage::Show { placement } => AttachStageView::Show { placement: *placement },
            AttachStage::Attached => AttachStageView::Attached,
            AttachStage::Failed { error } => AttachStageView::Failed { message: error@ },
        }
    }
}

/// What the window system replied.
#[derive(Debug)]
pub enum AttachReply {
    /// The style was read. Zero may be a style or a failure, which the error tells.
    StyleRead { style: isize, error: u32 },
    /// The style was written, with this error left.
    StyleWritten { error: u32 },
    /// The extended style was read.
    ExtendedStyleRead { style: isize },
    /// The extended style was written.
    ExtendedStyleWritten,
    /// The window was made opaque, or not.
    AlphaSet { outcome: Result<(), Error> },
    /// The window was put into the parent, with this error left.
    ParentSet { error: u32 },
    /// The window was placed, or not.
    Placed { outcome: Result<(), Error> },
    /// The window's edges were read, or not.
    EdgesRead { edges: Result<WindowEdges, Error> },
}

/// The style of a window without its frame, as a child of another.
pub open spec fn frameless_child_style(style: isize) -> isize {
    (style & !(FRAME_STYLE as isize)) | CHILD_STYLE as isize
}

/// The extended style of a layered window.
pub open spec fn layered_style(style: isize) -> isize {
    style | LAYERED_STYLE as isize
}

/// A message with an error code of the window system.
pub open spec fn coded(message: Seq<char>, code: u32) -> Seq<char> {
    message + text::decimal(code as nat)
}

/// The first placement: on all of the parent, with the new frame in force.
pub open spec fn first_placement(parent: DesktopParent, screen: Screen) -> Placement {
    Placement {
        insert_after: parent.insert_after,
        x: 0,
        y: 0,
        width: screen.width,
        height: screen.height,
        flags: FRAME_CHANGED | NO_ACTIVATE,
    }
}

/// How much wider a window is than the area within its frame.
pub open spec fn frame_width(edges: WindowEdges) -> int {
    (edges.window.right - edges.window.left) - (edges.client.right - edges.client.left)
}

/// How much higher a window is than the area within its frame.
pub open spec fn frame_height(edges: WindowEdges) -> int {
    (edges.window.bottom - edges.window.top) - (edges.client.bottom - edges.client.top)
}

/// The last placement: moved and grown by the frame, so that the area within it covers the
/// parent.
pub open spec fn last_placement(
    parent: DesktopParent,
    screen: Screen,
    edges: WindowEdges,
) -> Placement {
    Placement {
        insert_after: parent.insert_after,
        x: (edges.window.left - edges.client.left) as i32,
        y: (edges.window.top - edges.client.top) as i32,
        width: (screen.width + frame_width(edges)) as i32,
        height: (screen.height + frame_height(edges)) as i32,
        flags: NO_ACTIVATE | SHOW_WINDOW,
    }
}

/// Whether a number is a machine's 32-bit integer.
pub open spec fn fits(value: int) -> bool {
    i32::MIN <= value <= i32::MAX
}

/// Whether the last placement, and all that it is computed from, are within the range of the
/// window system's coordinates.
pub open spec fn is_placeable(screen: Screen, edges: WindowEdges) -> bool {
    &&& fits(edges.client.right - edges.client.left)
    &&& fits(edges.client.bottom - edges.client.top)
    &&& fits(edges.window.right - edges.window.left)
    &&& fits(edges.window.bottom - edges.window.top)
    &&& fits(frame_width(edges))
    &&& fits(frame_height(edges))
    &&& fits(edges.window.left - edges.client.left)
    &&& fits(edges.window.top - edges.client.top)
    &&& fits(screen.width + frame_width(edges))
    &&& fits(screen.height + frame_height(edges))
}

/// Tells whether a window with these edges can be placed on a screen.
pub fn can_place(screen: Screen, edges: WindowEdges) -> (result: bool)
    ensures
        result == is_placeable(screen, edges),
{
    let client_width: i64 = edges.client.right as i64 - edges.client.left as i64;
    let client_height: i64 = edges.client.bottom as i64 - edges.client.top as i64;
    let window_width: i64 = edges.window.right as i64 - edges.window.left as i64;
    let window_height: i64 = edges.window.bottom as i64 - edges.window.top as i64;
    let x: i64 = edges.window.left as i64 - edges.client.left as i64;
    let y: i64 = edges.window.top as i64 - edges.client.top as i64;
    let low: i64 = i32::MIN as i64;
    let high: i64 = i32::MAX as i64;
    low <= client_width && client_width <= high && low <= client_height && client_height <= high
        && low <= window_width && window_width <= high && low <= window_height && window_height
        <= high && low <= window_width - client_width && window_width - client_width <= high && low
        <= window_height - client_height && window_height - client_height <= high && low <= x && x
        <= high && low <= y && y <= high && low <= screen.width as i64 + (window_width
        - client_width) && screen.width as i64 + (window_width - client_width) <= high && low
        <= screen.height as i64 + (window_height - client_height) && screen.height as i64 + (
    window_height - client_height) <= high
}

/// The stage that follows, where the window is put into `parent` to cover `screen`.
pub open spec fn next_attach_stage(
    parent: DesktopParent,
    screen: Screen,
    stage: AttachStageView,
    reply: AttachReply,
) -> AttachStageView {
    match (stage, reply) {
        (AttachStageView::ReadStyle, AttachReply::StyleRead { style, error }) => if style == 0
            && error != 0 {
            AttachStageView::Failed {
                message: coded("Reading wallpaper window style failed | code="@, error),
            }
        } else {
            AttachStageView::WriteStyle { style: frameless_child_style(style) }
        },
        (AttachStageView::WriteStyle { .. }, AttachReply::StyleWritten { error }) => if error != 0 {
            AttachStageView::Failed {
                message: coded("Updating wallpaper window style failed | code="@, error),
            }
        } else if parent.layered {
            AttachStageView::ReadExtendedStyle
        } else {
            AttachStageView::SetParent { window: parent.window }
        },
        (AttachStageView::ReadExtendedStyle, AttachReply::ExtendedStyleRead { style }) => {
            AttachStageView::WriteExtendedStyle { style: layered_style(style) }
        },
        (AttachStageView::WriteExtendedStyle { .. }, AttachReply::ExtendedStyleWritten) => {
            AttachStageView::SetAlpha
        },
        (AttachStageView::SetAlpha, AttachReply::AlphaSet { outcome }) => match outcome {
            Ok(()) => AttachStageView::SetParent { window: parent.window },
            Err(error) => AttachStageView::Failed { message: error@ },
        },
        (AttachStageView::SetParent { .. }, AttachReply::ParentSet { error }) => if error != 0 {
            AttachStageView::Failed {
                message: coded("Attaching wallpaper window failed | code="@, error),
            }
        } else {
            AttachStageView::Place { placement: first_placement(parent, screen) }
        },
        (AttachStageView::Place { .. }, AttachReply::Placed { outcome }) => match outcome {
            Ok(()) => AttachStageView::ReadEdges,
            Err(error) => AttachStageView::Failed { message: error@ },
        },
        (AttachStageView::ReadEdges, AttachReply::EdgesRead { edges }) => match edges {
            Ok(edges) => AttachStageView::Show {
                placement: last_placement(parent, screen, edges),
            },
            Err(error) => AttachStageView::Failed { message: error@ },
        },
        (AttachStageView::Show { .. }, AttachReply::Placed { outcome }) => match outcome {
            Ok(()) => AttachStageView::Attached,
            Err(error) => AttachStageView::Failed { message: error@ },
        },
        _ => stage,
    }
}

/// The failure that a message and an error code of the window system describe.
fn coded_failure(message: &str, code: u32) -> (result: AttachStage)
    ensures
        result@ == (AttachStageView::Failed { message: coded(message@, code) }),
{
    let mut message = message.to_owned();
    message.append(&text::decimal_text(code as u64));
    AttachStage::Failed { error: Error { message } }
}

/// Goes from one stage of putting a window into a parent to the next.
pub fn attach_wallpaper_window(
    parent: DesktopParent,
    screen: Screen,
    stage: AttachStage,
    reply: AttachReply,
) -> (result: AttachStage)
    requires
        stage is ReadEdges ==> (reply matches AttachReply::EdgesRead { edges: Ok(edges) }
            ==> is_placeable(screen, edges)),
    ensures
        result@ == next_attach_stage(parent, screen, stage@, reply),
{
    match (stage, reply) {
        (AttachStage::ReadStyle, AttachReply::StyleRead { style, error }) => {
            if style == 0 && error != 0 {
                return coded_failure("Reading wallpaper window style failed | code=", error);
            }
            AttachStage::WriteStyle {
                style: (style & !(FRAME_STYLE as isize)) | CHILD_STYLE as isize,
            }
        },
        (AttachStage::WriteStyle { .. }, AttachReply::StyleWritten { error }) => {
            if error != 0 {
                return coded_failure("Updating wallpaper window style failed | code=", error);
            }
            if parent.layered {
                AttachStage::ReadExtendedStyle
            } else {
                AttachStage::SetParent { window: parent.window }
            }
        },
        (AttachStage::ReadExtendedStyle, AttachReply::ExtendedStyleRead { style }) => {
            AttachStage::WriteExtendedStyle { style: style | LAYERED_STYLE as isize }
        },
        (AttachStage::WriteExtendedStyle { .. }, AttachReply::ExtendedStyleWritten) => {
            AttachStage::SetAlpha
        },
        (AttachStage::SetAlpha, AttachReply::AlphaSet { outcome }) => match outcome {
            Ok(()) => AttachStage::SetParent { window: parent.window },
            Err(error) => AttachStage::Failed { error },
        },
        (AttachStage::SetParent { .. }, AttachReply::ParentSet { error }) => {
            if error != 0 {
                return coded_failure("Attaching wallpaper window failed | code=", error);
            }
            AttachStage::Place {
                placement: Placement {
                    insert_after: parent.insert_after,
                    x: 0,
                    y: 0,
                    width: screen.width,
                    height: screen.height,
                    flags: FRAME_CHANGED | NO_ACTIVATE,
                },
            }
        },
        (AttachStage::Place { .. }, AttachReply::Placed { outcome }) => match outcome {
            Ok(()) => AttachStage::ReadEdges,
            Err(error) => AttachStage::Failed { error },
        },
        (AttachStage::ReadEdges, AttachReply::EdgesRead { edges }) => match edges {
            Ok(edges) => {
                let client_width: i32 = edges.client.right - edges.client.left;
                let client_height: i32 = edges.client.bottom - edges.client.top;
                let window_width: i32 = edges.window.right - edges.window.left;
                let window_height: i32 = edges.window.bottom - edges.window.top;
                let frame_width: i32 = window_width - client_width;
                let frame_height: i32 = window_height - client_height;
                AttachStage::Show {
                    placement: Placement {
                        insert_after: parent.insert_after,
                        x: edges.window.left - edges.client.left,
                        y: edges.window.top - edges.client.top,
                        width: screen.width + frame_width,
                        height: screen.height + frame_height,
                        flags: NO_ACTIVATE | SHOW_WINDOW,
                    },
                }
            },
            Err(error) => AttachStage::Failed { error },
        },
        (AttachStage::Show { .. }, AttachReply::Placed { outcome }) => match outcome {
            Ok(()) => AttachStage::Attached,
            Err(error) => AttachStage::Failed { error },
        },
        (stage, _) => stage,
    }
}

/// The bits of a frame are gone from the style, the bit of a child is there, and no other bit
/// has changed.
pub proof fn law_style_changes_frame_and_child(style: isize)
    ensures
        frameless_child_style(style) & (FRAME_STYLE as isize) == 0,
        frameless_child_style(style) & (CHILD_STYLE as isize) == CHILD_STYLE as isize,
        frameless_child_style(style) & !((FRAME_STYLE | CHILD_STYLE) as isize) == style & !((
        FRAME_STYLE | CHILD_STYLE) as isize),
{
    assert(((style & !(0x80CF_0000u32 as isize)) | 0x4000_0000u32 as isize) & (
    0x80CF_0000u32 as isize) == 0) by (bit_vector);
    assert(((style & !(0x80CF_0000u32 as isize)) | 0x4000_0000u32 as isize) & (
    0x4000_0000u32 as isize) == 0x4000_0000u32 as isize) by (bit_vector);
    assert(((style & !(0x80CF_0000u32 as isize)) | 0x4000_0000u32 as isize) & !((0x80CF_0000u32
        | 0x4000_0000u32) as isize) == style & !((0x80CF_0000u32 | 0x4000_0000u32) as isize))
        by (bit_vector);
}

/// The bit of a layered window is there, and no other bit has changed.
pub proof fn law_layered_style_adds_one_bit(style: isize)
    ensures
        layered_style(style) & (LAYERED_STYLE as isize) == LAYERED_STYLE as isize,
        layered_style(style) & !(LAYERED_STYLE as isize) == style & !(LAYERED_STYLE as isize),
{
    assert((style | 0x0008_0000u32 as isize) & (0x0008_0000u32 as isize)
        == 0x0008_0000u32 as isize) by (bit_vector);
    assert((style | 0x0008_0000u32 as isize) & !(0x0008_0000u32 as isize) == style & !(
    0x0008_0000u32 as isize)) by (bit_vector);
}

/// Within its frame the window is as large as the screen, and begins where its parent does.
pub proof fn law_wallpaper_covers_screen(
    parent: DesktopParent,
    screen: Screen,
    edges: WindowEdges,
)
    requires
        is_placeable(screen, edges),
    ensures
        last_placement(parent, screen, edges).width - frame_width(edges) == screen.width,
        last_placement(parent, screen, edges).height - frame_height(edges) == screen.height,
        last_placement(parent, screen, edges).x + (edges.client.left - edges.window.left) == 0,
        last_placement(parent, screen, edges).y + (edges.client.top - edges.window.top) == 0,
{
}

/// Some stages of putting a window into a parent, one for each reply.
pub open spec fn attach_stage_after(
    parent: DesktopParent,
    screen: Screen,
    replies: Seq<AttachReply>,
) -> AttachStageView
    decreases replies.len(),
{
    if replies.len() == 0 {
        AttachStageView::ReadStyle
    } else {
        next_attach_stage(
            parent,
            screen,
            attach_stage_after(parent, screen, replies.drop_last()),
            replies.last(),
        )
    }
}

/// What holds at every stage: only a parent that asks for it gets a layered window, and the
/// window is put into that parent and placed behind the window it names.
pub open spec fn serves(
    parent: DesktopParent,
    screen: Screen,
    stage: AttachStageView,
) -> bool {
    match stage {
        AttachStageView::ReadExtendedStyle => parent.layered,
        AttachStageView::WriteExtendedStyle { .. } => parent.layered,
        AttachStageView::SetAlpha => parent.layered,
        AttachStageView::SetParent { window } => window == parent.window,
        AttachStageView::Place { placement } => placement == first_placement(parent, screen),
        AttachStageView::Show { placement } => placement.insert_after == parent.insert_after
            && placement.flags == NO_ACTIVATE | SHOW_WINDOW,
        _ => true,
    }
}

/// Whatever the window system replies, every stage serves the parent.
pub proof fn law_attach_serves_parent(
    parent: DesktopParent,
    screen: Screen,
    replies: Seq<AttachReply>,
)
    ensures
        serves(parent, screen, attach_stage_after(parent, screen, replies)),
    decreases replies.len(),
{
    if replies.len() > 0 {
        law_attach_serves_parent(parent, screen, replies.drop_last());
    }
}

/// Work that is over stays over.
pub proof fn law_attach_ends(
    parent: DesktopParent,
    screen: Screen,
    stage: AttachStageView,
    reply: AttachReply,
)
    requires
        stage is Attached || stage is Failed,
    ensures
        next_attach_stage(parent, screen, stage, reply) == stage,
{
}

/// Where the window system reports no error, the window ends in place: frameless, a child of its
/// parent, layered if the parent asks for it, and shown at the last placement. Replies about
/// layers are passed over where it does not.
pub proof fn law_window_is_attached(
    parent: DesktopParent,
    screen: Screen,
    style: isize,
    extended_style: isize,
    edges: WindowEdges,
)
    requires
        is_placeable(screen, edges),
    ensures
        ({
            let read = AttachReply::StyleRead { style, error: 0 };
            let styling = next_attach_stage(parent, screen, AttachStageView::ReadStyle, read);
            let written = AttachReply::StyleWritten { error: 0 };
            let styled = next_attach_stage(parent, screen, styling, written);
            let extended_read = AttachReply::ExtendedStyleRead { style: extended_style };
            let layering = next_attach_stage(parent, screen, styled, extended_read);
            let extended_written = AttachReply::ExtendedStyleWritten;
            let layered = next_attach_stage(parent, screen, layering, extended_written);
            let alpha_set = AttachReply::AlphaSet { outcome: Ok(()) };
            let opaque = next_attach_stage(parent, screen, layered, alpha_set);
            let parent_set = AttachReply::ParentSet { error: 0 };
            let placing = next_attach_stage(parent, screen, opaque, parent_set);
            let placed = AttachReply::Placed { outcome: Ok(()) };
            let measuring = next_attach_stage(parent, screen, placing, placed);
            let edges_read = AttachReply::EdgesRead { edges: Ok(edges) };
            let showing = next_attach_stage(parent, screen, measuring, edges_read);
            &&& styling == (AttachStageView::WriteStyle { style: frameless_child_style(style) })
            &&& parent.layered ==> layering == (AttachStageView::WriteExtendedStyle {
                style: layered_style(extended_style),
            })
            &&& opaque == (AttachStageView::SetParent { window: parent.window })
            &&& placing == (AttachStageView::Place { placement: first_placement(parent, screen) })
            &&& showing == (AttachStageView::Show {
                placement: last_placement(parent, screen, edges),
            })
            &&& next_attach_stage(parent, screen, showing, placed) is Attached
        }),
{
}

/// What is asked next to find the window that a wallpaper is put into.
#[derive(Debug)]
pub enum DesktopStage {
    /// Find the program manager.
    FindProgramManager,
    /// Make the program manager create a window behind the icons.
    CreateWorkerWindow { program_manager: isize },
    /// Read the program manager's extended style.
    ReadExtendedStyle { program_manager: isize },
    /// Find the view of the icons within the program manager.
    FindShellView { program_manager: isize },
    /// Find the window behind the icons.
    FindWorkerWindow,
    /// Nothing: this is the window.
    Found { parent: DesktopParent },
    /// Nothing: the search has failed.
    Failed { error: Error },
}

/// The model of a `DesktopStage`.
#[verifier::ext_equal]
pub enum DesktopStageView {
    FindProgramManager,
    CreateWorkerWindow { program_manager: isize },
    ReadExtendedStyle { program_manager: isize },
    FindShellView { program_manager: isize },
    FindWorkerWindow,
    Found { parent: DesktopParent },
    Failed { message: Seq<char> },
}

impl View for DesktopStage {
    type V = DesktopStageView;

    open spec fn view(&self) -> DesktopStageView {
        match self {
            DesktopStage::FindProgramManager => DesktopStageView::FindProgramManager,
            DesktopStage::CreateWorkerWindow { program_manager } => {
                DesktopStageView::CreateWorkerWindow { program_manager: *program_manager }
            },
            DesktopStage::ReadExtendedStyle { program_manager } => {
                DesktopStageView::ReadExtendedStyle { program_manager: *program_manager }
            },
            DesktopStage::FindShellView { program_manager } => DesktopStageView::FindShellView {
                program_manager: *program_manager,
            },
            DesktopStage::FindWorkerWindow => DesktopStageView::FindWorkerWindow,
            DesktopStage::Found { parent } => DesktopStageView::Found { parent: *parent },
            DesktopStage::Failed { error } => DesktopStageView::Failed { message: error@ },
        }
    }
}

/// What the window system replied to the search.
#[derive(Debug)]
pub enum DesktopReply {
    /// The program manager was found, or not.
    ProgramManager { outcome: Result<isize, Error> },
    /// The message was sent, whatever came of it.
    WorkerWindowCreated,
    /// The program manager's extended style was read.
    ExtendedStyleRead { style: isize },
    /// The view of the icons was found, or not.
    ShellView { outcome: Result<isize, Error> },
    /// The window behind the icons was found, or there is none.
    WorkerWindow { window: Option<isize> },
}

/// The parent on a raised desktop: the program manager, behind the view of its icons.
pub open spec fn raised_parent(program_manager: isize, shell_view: isize) -> DesktopParent {
    DesktopParent { insert_after: shell_view, layered: true, window: program_manager }
}

/// The parent on a flat desktop: the window behind the icons, below all others.
pub open spec fn worker_parent(worker_window: isize) -> DesktopParent {
    DesktopParent { insert_after: BOTTOM, layered: false, window: worker_window }
}

/// The stage of the search that follows.
pub open spec fn next_desktop_stage(
    stage: DesktopStageView,
    reply: DesktopReply,
) -> DesktopStageView {
    match (stage, reply) {
        (DesktopStageView::FindProgramManager, DesktopReply::ProgramManager { outcome }) => {
            match outcome {
                Ok(program_manager) => DesktopStageView::CreateWorkerWindow { program_manager },
                Err(error) => DesktopStageView::Failed { message: error@ },
            }
        },
        (
            DesktopStageView::CreateWorkerWindow { program_manager },
            DesktopReply::WorkerWindowCreated,
        ) => DesktopStageView::ReadExtendedStyle { program_manager },
        (
            DesktopStageView::ReadExtendedStyle { program_manager },
            DesktopReply::ExtendedStyleRead { style },
        ) => if style & NO_REDIRECTION_STYLE as isize != 0 {
            DesktopStageView::FindShellView { program_manager }
        } else {
            DesktopStageView::FindWorkerWindow
        },
        (
            DesktopStageView::FindShellView { program_manager },
            DesktopReply::ShellView { outcome },
        ) => match outcome {
            Ok(shell_view) => DesktopStageView::Found {
                parent: raised_parent(program_manager, shell_view),
            },
            Err(error) => DesktopStageView::Failed { message: error@ },
        },
        (DesktopStageView::FindWorkerWindow, DesktopReply::WorkerWindow { window }) => {
            match window {
                Some(worker_window) => DesktopStageView::Found {
                    parent: worker_parent(worker_window),
                },
                None => DesktopStageView::Failed {
                    message: "Finding the desktop wallpaper layer failed"@,
                },
            }
        },
        _ => stage,
    }
}

/// Goes from one stage of the search for the wallpaper's parent to the next.
pub fn await_desktop_parent(stage: DesktopStage, reply: DesktopReply) -> (result: DesktopStage)
    ensures
        result@ == next_desktop_stage(stage@, reply),
{
    match (stage, reply) {
        (DesktopStage::FindProgramManager, DesktopReply::ProgramManager { outcome }) => {
            match outcome {
                Ok(program_manager) => DesktopStage::CreateWorkerWindow { program_manager },
                Err(error) => DesktopStage::Failed { error },
            }
        },
        (
            DesktopStage::CreateWorkerWindow { program_manager },
            DesktopReply::WorkerWindowCreated,
        ) => DesktopStage::ReadExtendedStyle { program_manager },
        (
            DesktopStage::ReadExtendedStyle { program_manager },
            DesktopReply::ExtendedStyleRead { style },
        ) => {
            if style & NO_REDIRECTION_STYLE as isize != 0 {
                DesktopStage::FindShellView { program_manager }
            } else {
                DesktopStage::FindWorkerWindow
            }
        },
        (DesktopStage::FindShellView { program_manager }, DesktopReply::ShellView { outcome }) => {
            match outcome {
                Ok(shell_view) => DesktopStage::Found {
                    parent: DesktopParent {
                        insert_after: shell_view,
                        layered: true,
                        window: program_manager,
                    },
                },
                Err(error) => DesktopStage::Failed { error },
            }
        },
        (DesktopStage::FindWorkerWindow, DesktopReply::WorkerWindow { window }) => match window {
            Some(worker_window) => DesktopStage::Found {
                parent: DesktopParent {
                    insert_after: BOTTOM,
                    layered: false,
                    window: worker_window,
                },
            },
            None => DesktopStage::Failed {
                error: Error::new("Finding the desktop wallpaper layer failed"),
            },
        },
        (stage, _) => stage,
    }
}

/// The stage of the search after some replies.
pub open spec fn desktop_stage_after(replies: Seq<DesktopReply>) -> DesktopStageView
    decreases replies.len(),
{
    if replies.len() == 0 {
        DesktopStageView::FindProgramManager
    } else {
        next_desktop_stage(desktop_stage_after(replies.drop_last()), replies.last())
    }
}

/// Whether the program manager was found under this handle.
pub open spec fn is_program_manager(replies: Seq<DesktopReply>, window: isize) -> bool {
    exists|i: int|
        0 <= i < replies.len() && ((#[trigger] replies[i]) matches DesktopReply::ProgramManager {
            outcome: Ok(found),
        } && found == window)
}

/// Whether some replies lead to this stage: the program manager is one that was found, a layered
/// parent is the program manager, and any other is put at the bottom.
pub open spec fn is_led_to(replies: Seq<DesktopReply>, stage: DesktopStageView) -> bool {
    match stage {
        DesktopStageView::CreateWorkerWindow { program_manager } => is_program_manager(
            replies,
            program_manager,
        ),
        DesktopStageView::ReadExtendedStyle { program_manager } => is_program_manager(
            replies,
            program_manager,
        ),
        DesktopStageView::FindShellView { program_manager } => is_program_manager(
            replies,
            program_manager,
        ),
        DesktopStageView::Found { parent } => if parent.layered {
            is_program_manager(replies, parent.window)
        } else {
            parent.insert_after == BOTTOM
        },
        _ => true,
    }
}

/// Whatever the window system replies, a layered parent is a program manager that was found,
/// and any other is put at the bottom.
pub proof fn law_parent_was_found(replies: Seq<DesktopReply>)
    ensures
        is_led_to(replies, desktop_stage_after(replies)),
    decreases replies.len(),
{
    if replies.len() > 0 {
        let earlier = replies.drop_last();
        law_parent_was_found(earlier);
        assert forall|window: isize| #[trigger]
            is_program_manager(earlier, window) implies is_program_manager(replies, window) by {
            let i = choose|i: int|
                0 <= i < earlier.len() && ((
                #[trigger] earlier[i]) matches DesktopReply::ProgramManager { outcome: Ok(found) }
                    && found == window);
            assert(replies[i] == earlier[i]);
        }
        assert(replies[replies.len() - 1] == replies.last());
    }
}

/// A desktop that has what the search looks for gives a parent: the program manager where it is
/// raised, and the window behind the icons where it is not.
pub proof fn law_desktop_gives_parent(
    program_manager: isize,
    style: isize,
    shell_view: isize,
    worker_window: isize,
)
    ensures
        ({
            let found = DesktopReply::ProgramManager { outcome: Ok(program_manager) };
            let creating = next_desktop_stage(DesktopStageView::FindProgramManager, found);
            let reading = next_desktop_stage(creating, DesktopReply::WorkerWindowCreated);
            let searching = next_desktop_stage(reading, DesktopReply::ExtendedStyleRead { style });
            if style & NO_REDIRECTION_STYLE as isize != 0 {
                next_desktop_stage(searching, DesktopReply::ShellView { outcome: Ok(shell_view) })
                    == (DesktopStageView::Found {
                    parent: raised_parent(program_manager, shell_view),
                })
            } else {
                next_desktop_stage(
                    searching,
                    DesktopReply::WorkerWindow { window: Some(worker_window) },
                ) == (DesktopStageView::Found { parent: worker_parent(worker_window) })
            }
        }),
{
}

/// What is known of a top-level window in the search for the one behind the icons.
#[derive(Clone, Copy, Debug, PartialEq, Eq, Structural)]
pub struct TopLevelWindow {
    /// Whether the window holds the view of the icons.
    pub has_shell_view: bool,
    /// The worker window that comes after it, if there is one.
    pub next_worker: Option<isize>,
}

/// The search for the window behind the icons, among the top-level windows in their order.
#[derive(Clone, Copy, Debug, PartialEq, Eq, Structural)]
pub struct WorkerSearch {
    /// The handle that was found. Zero is no window.
    pub worker_window: isize,
}

/// The handle that a top-level window gives, if the search ends with it.
pub open spec fn worker_behind(window: TopLevelWindow) -> Option<isize> {
    if window.has_shell_view {
        window.next_worker
    } else {
        None
    }
}

/// The window behind the icons among some top-level windows: the worker after the first that
/// holds the icons and has one after it.
pub open spec fn first_worker(windows: Seq<TopLevelWindow>) -> Option<isize>
    decreases windows.len(),
{
    if windows.len() == 0 {
        None
    } else {
        match worker_behind(windows[0]) {
            Some(worker) => Some(worker),
            None => first_worker(windows.skip(1)),
        }
    }
}

/// Whether a handle names a window.
pub open spec fn valid_handle(handle: isize) -> Option<isize> {
    if handle == 0 {
        None
    } else {
        Some(handle)
    }
}

impl WorkerSearch {
    /// A search that has not begun.
    pub fn new() -> (result: WorkerSearch)
        ensures
            result.worker_window == 0,
    {
        WorkerSearch { worker_window: 0 }
    }

    /// Looks at the next top-level window, and tells whether to go on.
    pub fn visit(&mut self, window: TopLevelWindow) -> (result: bool)
        ensures
            result == (worker_behind(window) is None),
            final(self).worker_window == (match worker_behind(window) {
                Some(worker) => worker,
                None => old(self).worker_window,
            }),
    {
        if window.has_shell_view {
            if let Some(worker) = window.next_worker {
                self.worker_window = worker;
                return false;
            }
        }
        true
    }

    /// The window that was found.
    pub fn finish(&self) -> (result: Option<isize>)
        ensures
            result == valid_handle(self.worker_window),
    {
        if self.worker_window == 0 {
            return None;
        }
        Some(self.worker_window)
    }
}

/// Finds the window behind the icons among the top-level windows.
pub fn find_worker_window(windows: &Vec<TopLevelWindow>) -> (result: Option<isize>)
    ensures
        result == (match first_worker(windows@) {
            Some(worker) => valid_handle(worker),
            None => None,
        }),
{
    let mut search = WorkerSearch::new();
    let mut position: usize = 0;
    assert(windows@.skip(0) =~= windows@);
    while position < windows.len()
        invariant
            position <= windows@.len(),
            search.worker_window == 0,
            first_worker(windows@) == first_worker(windows@.skip(position as int)),
        decreases windows@.len() - position,
    {
        assert(windows@.skip(position as int).skip(1) =~= windows@.skip(position + 1));
        if !search.visit(windows[position]) {
            return search.finish();
        }
        position = position + 1;
    }
    search.finish()
}

/// The numbers by which the window system knows what is asked of it.
pub proof fn law_window_system_numbers()
    ensures
        CREATE_WORKER_WINDOW_MESSAGE == 0x052C,
        CREATE_WORKER_WINDOW_WPARAM == 0xD,
        CREATE_WORKER_WINDOW_LPARAM == 1,
        DESKTOP_MESSAGE_TIMEOUT_MS == 1000,
        FRAME_STYLE == 0x80CF_0000,
        CHILD_STYLE == 0x4000_0000,
        LAYERED_STYLE == 0x0008_0000,
        NO_REDIRECTION_STYLE == 0x0020_0000,
        FRAME_CHANGED == 0x20,
        NO_ACTIVATE == 0x10,
        SHOW_WINDOW == 0x40,
        BOTTOM == 1,
        FRAME_CHANGED | NO_ACTIVATE == 0x30,
        NO_ACTIVATE | SHOW_WINDOW == 0x50,
{
    assert(0x20u32 | 0x10u32 == 0x30u32) by (bit_vector);
    assert(0x10u32 | 0x40u32 == 0x50u32) by (bit_vector);
}

/// Whether a reply is the one that a stage of attaching waits for.
pub open spec fn is_awaited(stage: AttachStageView, reply: AttachReply) -> bool {
    ||| stage is ReadStyle && reply is StyleRead
    ||| stage is WriteStyle && reply is StyleWritten
    ||| stage is ReadExtendedStyle && reply is ExtendedStyleRead
    ||| stage is WriteExtendedStyle && reply is ExtendedStyleWritten
    ||| stage is SetAlpha && reply is AlphaSet
    ||| stage is SetParent && reply is ParentSet
    ||| stage is Place && reply is Placed
    ||| stage is ReadEdges && reply is EdgesRead
    ||| stage is Show && reply is Placed
}

/// Only the reply that is waited for leads on, and it always does.
pub proof fn law_attach_goes_on_with_its_reply(
    parent: DesktopParent,
    screen: Screen,
    stage: AttachStageView,
    reply: AttachReply,
)
    ensures
        is_awaited(stage, reply) <==> next_attach_stage(parent, screen, stage, reply) != stage,
{
}

/// Whether a reply tells that something has failed. A style of zero is a failure only with an
/// error.
pub open spec fn is_failure(reply: AttachReply) -> bool {
    match reply {
        AttachReply::StyleRead { style, error } => style == 0 && error != 0,
        AttachReply::StyleWritten { error } => error != 0,
        AttachReply::ParentSet { error } => error != 0,
        AttachReply::AlphaSet { outcome } => outcome is Err,
        AttachReply::Placed { outcome } => outcome is Err,
        AttachReply::EdgesRead { edges } => edges is Err,
        AttachReply::ExtendedStyleRead { .. } => false,
        AttachReply::ExtendedStyleWritten => false,
    }
}

/// Attaching fails exactly with a reply that tells of a failure, and says what failed: an error
/// code behind what was tried, or the message of the reply.
pub proof fn law_attach_failures_are_told(
    parent: DesktopParent,
    screen: Screen,
    stage: AttachStageView,
    reply: AttachReply,
)
    requires
        is_awaited(stage, reply),
    ensures
        next_attach_stage(parent, screen, stage, reply) is Failed <==> is_failure(reply),
        is_failure(reply) ==> next_attach_stage(parent, screen, stage, reply)->message == (
        match reply {
            AttachReply::StyleRead { error, .. } => "Reading wallpaper window style failed | code="@
                + text::decimal(error as nat),
            AttachReply::StyleWritten { error } => {
                "Updating wallpaper window style failed | code="@ + text::decimal(error as nat)
            },
            AttachReply::ParentSet { error } => "Attaching wallpaper window failed | code="@
                + text::decimal(error as nat),
            AttachReply::AlphaSet { outcome } => outcome->Err_0@,
            AttachReply::Placed { outcome } => outcome->Err_0@,
            AttachReply::EdgesRead { edges } => edges->Err_0@,
            _ => Seq::empty(),
        }),
{
}

/// The style that is written is the one that was read, without the bits of a frame and of a pop-up
/// and with the bit of a child; the extended style gains the layered bit alone.
pub proof fn law_written_styles(
    parent: DesktopParent,
    screen: Screen,
    style: isize,
    error: u32,
)
    requires
        style != 0 || error == 0,
    ensures
        ({
            let read = AttachReply::StyleRead { style, error };
            let extended = AttachReply::ExtendedStyleRead { style };
            &&& next_attach_stage(parent, screen, AttachStageView::ReadStyle, read) == (
            AttachStageView::WriteStyle {
                style: (style & !(0x80CF_0000u32 as isize)) | 0x4000_0000u32 as isize,
            })
            &&& next_attach_stage(parent, screen, AttachStageView::ReadExtendedStyle, extended) == (
            AttachStageView::WriteExtendedStyle { style: style | 0x0008_0000u32 as isize })
        }),
{
}

/// A window is first placed over all of its parent, and then moved and grown by its own frame, both
/// times behind the window that the parent names.
pub proof fn law_placements(parent: DesktopParent, screen: Screen, edges: WindowEdges)
    requires
        is_placeable(screen, edges),
    ensures
        ({
            let first = first_placement(parent, screen);
            let last = last_placement(parent, screen, edges);
            let (window, client) = (edges.window, edges.client);
            &&& first.insert_after == parent.insert_after && last.insert_after
                == parent.insert_after
            &&& first.x == 0 && first.y == 0
            &&& first.width == screen.width && first.height == screen.height
            &&& first.flags == 0x30 && last.flags == 0x50
            &&& last.x == window.left - client.left && last.y == window.top - client.top
            &&& last.width == screen.width + (window.right - window.left) - (client.right
                - client.left)
            &&& last.height == screen.height + (window.bottom - window.top) - (client.bottom
                - client.top)
        }),
{
    law_window_system_numbers();
}

/// A window can be placed exactly if every size and distance on the way is a 32-bit integer.
pub proof fn law_placeable_windows(screen: Screen, edges: WindowEdges)
    ensures
        is_placeable(screen, edges) <==> ({
            let (window, client) = (edges.window, edges.client);
            let client_width = client.right - client.left;
            let client_height = client.bottom - client.top;
            let window_width = window.right - window.left;
            let window_height = window.bottom - window.top;
            let all = seq![
                client_width,
                client_height,
                window_width,
                window_height,
                window_width - client_width,
                window_height - client_height,
                window.left - client.left,
                window.top - client.top,
                screen.width + (window_width - client_width),
                screen.height + (window_height - client_height),
            ];
            forall|i: int|
                0 <= i < 10 ==> -0x8000_0000 <= (#[trigger] all[i]) <= 0x7FFF_FFFF
        }),
{
    let (window, client) = (edges.window, edges.client);
    let client_width = client.right - client.left;
    let client_height = client.bottom - client.top;
    let window_width = window.right - window.left;
    let window_height = window.bottom - window.top;
    let all = seq![
        client_width,
        client_height,
        window_width,
        window_height,
        window_width - client_width,
        window_height - client_height,
        window.left - client.left,
        window.top - client.top,
        screen.width + (window_width - client_width),
        screen.height + (window_height - client_height),
    ];
    if forall|i: int| 0 <= i < 10 ==> -0x8000_0000 <= (#[trigger] all[i]) <= 0x7FFF_FFFF {
        assert(fits(all[0]) && fits(all[1]) && fits(all[2]) && fits(all[3]) && fits(all[4]));
        assert(fits(all[5]) && fits(all[6]) && fits(all[7]) && fits(all[8]) && fits(all[9]));
    }
}

/// Whether a reply is the one that a stage of the search waits for.
pub open spec fn is_search_awaited(stage: DesktopStageView, reply: DesktopReply) -> bool {
    ||| stage is FindProgramManager && reply is ProgramManager
    ||| stage is CreateWorkerWindow && reply is WorkerWindowCreated
    ||| stage is ReadExtendedStyle && reply is ExtendedStyleRead
    ||| stage is FindShellView && reply is ShellView
    ||| stage is FindWorkerWindow && reply is WorkerWindow
}

/// The search goes on with the reply that it waits for, and with no other. It fails exactly where
/// something is not found, with the message of the reply, or with its own where there is no window
/// behind the icons.
pub proof fn law_search_goes_on_with_its_reply(stage: DesktopStageView, reply: DesktopReply)
    ensures
        is_search_awaited(stage, reply) <==> next_desktop_stage(stage, reply) != stage,
        is_search_awaited(stage, reply) ==> match reply {
            DesktopReply::ProgramManager { outcome: Err(error) } => next_desktop_stage(stage, reply)
                == (DesktopStageView::Failed { message: error@ }),
            DesktopReply::ShellView { outcome: Err(error) } => next_desktop_stage(stage, reply) == (
            DesktopStageView::Failed { message: error@ }),
            DesktopReply::WorkerWindow { window: None } => next_desktop_stage(stage, reply) == (
            DesktopStageView::Failed {
                message: "Finding the desktop wallpaper layer failed"@,
            }),
            _ => !(next_desktop_stage(stage, reply) is Failed),
        },
{
}

/// The window that is found carries the handles of the replies: on a raised desktop the program
/// manager, layered and behind the view of its icons, and else the worker window, at the bottom.
pub proof fn law_found_parents(program_manager: isize, style: isize, window: isize)
    ensures
        ({
            let reading = DesktopStageView::ReadExtendedStyle { program_manager };
            let read = DesktopReply::ExtendedStyleRead { style };
            let searching = next_desktop_stage(reading, read);
            if style & 0x0020_0000u32 as isize != 0 {
                let found = DesktopReply::ShellView { outcome: Ok(window) };
                next_desktop_stage(searching, found) == (DesktopStageView::Found {
                    parent: DesktopParent {
                        insert_after: window,
                        layered: true,
                        window: program_manager,
                    },
                })
            } else {
                let found = DesktopReply::WorkerWindow { window: Some(window) };
                next_desktop_stage(searching, found) == (DesktopStageView::Found {
                    parent: DesktopParent { insert_after: 1, layered: false, window },
                })
            }
        }),
{
}

/// Whether the top-level window at `index` holds the icons and has a worker after it, and none
/// before it does.
pub open spec fn leads_first(windows: Seq<TopLevelWindow>, index: int, worker: isize) -> bool {
    &&& 0 <= index < windows.len()
    &&& windows[index].has_shell_view && windows[index].next_worker == Some(worker)
    &&& forall|i: int|
        0 <= i < index ==> !((#[trigger] windows[i]).has_shell_view
            && windows[i].next_worker is Some)
}

/// The window behind the icons is the worker after the first top-level window that holds the icons
/// and has one after it.
pub proof fn law_first_worker_is_found(windows: Seq<TopLevelWindow>, worker: isize)
    ensures
        first_worker(windows) == Some(worker) <==> exists|index: int|
            #[trigger] leads_first(windows, index, worker),
    decreases windows.len(),
{
    if windows.len() > 0 {
        let rest = windows.skip(1);
        law_first_worker_is_found(rest, worker);
        if windows[0].has_shell_view && windows[0].next_worker is Some {
            if windows[0].next_worker == Some(worker) {
                assert(leads_first(windows, 0, worker));
            }
            assert forall|index: int| #[trigger] leads_first(windows, index, worker) implies index
                == 0 by {
                if index > 0 {
                    assert(!(windows[0].has_shell_view && windows[0].next_worker is Some));
                }
            }
        } else {
            if first_worker(rest) == Some(worker) {
                let index = choose|index: int| #[trigger] leads_first(rest, index, worker);
                assert forall|i: int| 0 <= i < index + 1 implies !((
                #[trigger] windows[i]).has_shell_view && windows[i].next_worker is Some) by {
                    if i > 0 {
                        assert(rest[i - 1] == windows[i]);
                    }
                }
                assert(windows[index + 1] == rest[index]);
                assert(leads_first(windows, index + 1, worker));
            }
            assert forall|index: int| #[trigger] leads_first(windows, index, worker) implies
                leads_first(rest, index - 1, worker) by {
                assert(index > 0);
                assert(rest[index - 1] == windows[index]);
                assert forall|i: int| 0 <= i < index - 1 implies !((
                #[trigger] rest[i]).has_shell_view && rest[i].next_worker is Some) by {
                    assert(rest[i] == windows[i + 1]);
                }
            }
        }
    }
}

/// Every handle names a window but zero.
pub proof fn law_handles(handle: isize)
    ensures
        handle == 0 ==> valid_handle(handle) is None,
        handle != 0 ==> valid_handle(handle) == Some(handle),
{
}

} // verus!
