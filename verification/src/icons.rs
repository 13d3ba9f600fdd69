//! The five frames of the tray icon, a coffee cup whose fill shows the time
//! left, and the choice of frame from the time left.

use vstd::prelude::*;

use crate::duration::Duration;
use crate::text::{decimal, push_decimal};

verus! {

/// The frames of the cup. The cup shows the time *left*: `Full` means much
/// time is left (or a session without a time limit), `Empty` means inactive
/// or expired.
#[derive(Debug, Clone, Copy, PartialEq, Eq, Hash, Structural)]
pub enum IconFrame {
    /// `cup_0`: empty cup, inactive or expired.
    Empty,
    /// `cup_1`: little time left.
    Low,
    /// `cup_2`: about half the time left.
    Mid,
    /// `cup_3`: much time left.
    High,
    /// `cup_4`: full cup, just started or no time limit.
    Full,
}

/// The number of a frame, as in the `cup_N` file names.
pub open spec fn frame_index(frame: IconFrame) -> nat {
    match frame {
        IconFrame::Empty => 0,
        IconFrame::Low => 1,
        IconFrame::Mid => 2,
        IconFrame::High => 3,
        IconFrame::Full => 4,
    }
}

/// The frame for `remaining` out of `total` (both in the same unit): with
/// `ratio = remaining / total`, above 4/5 `Full`, above 3/5 `High`, above
/// 2/5 `Mid`, above 1/5 `Low`, else `Empty`. An empty `total` (no time
/// limit) gives `Full`.
pub open spec fn frame_for(remaining: nat, total: nat) -> IconFrame {
    if total == 0 {
        IconFrame::Full
    } else if 5 * remaining > 4 * total {
        IconFrame::Full
    } else if 5 * remaining > 3 * total {
        IconFrame::High
    } else if 5 * remaining > 2 * total {
        IconFrame::Mid
    } else if 5 * remaining > total {
        IconFrame::Low
    } else {
        IconFrame::Empty
    }
}

/// The path of a frame's picture below `base_dir`.
pub open spec fn frame_path(base_dir: Seq<char>, frame: IconFrame) -> Seq<char> {
    base_dir + "/assets/cup_"@ + decimal(frame_index(frame)) + "@2x.png"@
}

impl IconFrame {
    /// The number 0..=4 of the frame, as in the `cup_N` file names.
    pub fn index(self) -> (i: usize)
        ensures
            i == frame_index(self),
    {
        match self {
            IconFrame::Empty => 0,
            IconFrame::Low => 1,
            IconFrame::Mid => 2,
            IconFrame::High => 3,
            IconFrame::Full => 4,
        }
    }

    /// All five frames, from `Empty` to `Full`.
    pub fn all() -> (frames: [IconFrame; 5])
        ensures
            frames@ == seq![
                IconFrame::Empty,
                IconFrame::Low,
                IconFrame::Mid,
                IconFrame::High,
                IconFrame::Full,
            ],
    {
        let frames = [IconFrame::Empty, IconFrame::Low, IconFrame::Mid, IconFrame::High, IconFrame::Full];
        proof {
            assert(frames@ =~= seq![
                IconFrame::Empty,
                IconFrame::Low,
                IconFrame::Mid,
                IconFrame::High,
                IconFrame::Full,
            ]);
        }
        frames
    }
}

/// Chooses the frame from the time left out of the whole time.
pub fn frame_for_remaining(remaining: Duration, total: Duration) -> (frame: IconFrame)
    ensures
        frame == frame_for(remaining@, total@),
{
    let t = total.as_nanos();
    if t == 0 {
        return IconFrame::Full;
    }
    let r5 = 5 * remaining.as_nanos();
    if r5 > 4 * t {
        IconFrame::Full
    } else if r5 > 3 * t {
        IconFrame::High
    } else if r5 > 2 * t {
        IconFrame::Mid
    } else if r5 > t {
        IconFrame::Low
    } else {
        IconFrame::Empty
    }
}

/// The path of a frame's picture: `<base_dir>/assets/cup_<N>@2x.png`, the
/// 64x64 picture for sharp display in the menu bar.
pub fn path_for_frame(base_dir: &str, frame: IconFrame) -> (path: String)
    ensures
        path@ == frame_path(base_dir@, frame),
{
    let mut path = String::from_str(base_dir);
    path.append("/assets/cup_");
    push_decimal(&mut path, frame.index() as u64);
    path.append("@2x.png");
    path
}

/// More time left never shows an emptier cup.
pub proof fn law_more_time_left_never_emptier(fewer: nat, more: nat, total: nat)
    requires
        fewer <= more,
    ensures
        frame_index(frame_for(fewer, total)) <= frame_index(frame_for(more, total)),
{
}

/// A timed session shows the full cup when it starts and the empty cup when
/// no time is left.
pub proof fn law_full_at_start_empty_at_end(total: nat)
    requires
        total > 0,
    ensures
        frame_for(total, total) == IconFrame::Full,
        frame_for(0, total) == IconFrame::Empty,
{
}

/// `all` lists each frame at the place of its number, so the frames and the
/// numbers 0..=4 correspond one to one.
pub proof fn law_frames_in_index_order()
    ensures
        ({
            let frames = seq![
                IconFrame::Empty,
                IconFrame::Low,
                IconFrame::Mid,
                IconFrame::High,
                IconFrame::Full,
            ];
            forall|i: int| 0 <= i < 5 ==> frame_index(#[trigger] frames[i]) == i
        }),
        forall|a: IconFrame, b: IconFrame| frame_index(a) == frame_index(b) ==> a == b,
{
}

} // verus!
