//! The generated tray icon, used when no icon file can be loaded.

use vstd::prelude::*;

verus! {

/// Icon files tried, relative to the working directory and to the
/// executable's directory.
pub const ICON_PATH_IN_EXAMPLES: &'static str = "examples/icon.png";
pub const ICON_FILE_NAME: &'static str = "icon.png";

/// The directory an icon file is looked for in.
#[derive(Debug, Clone, Copy, PartialEq, Eq, Structural)]
pub enum IconBase {
    /// The working directory.
    WorkingDir,
    /// The directory of the running executable.
    ExeDir,
}

/// An icon file to try: a path relative to a base directory.
#[derive(Debug, Clone, Copy)]
pub struct IconCandidate {
    pub base: IconBase,
    pub relative: &'static str,
}

/// The icon files tried, in order: `examples/icon.png` in the working
/// directory, then, where the executable's directory is known,
/// `examples/icon.png` and `icon.png` in it.
pub open spec fn icon_candidates_spec(exe_dir_known: bool) -> Seq<(IconBase, Seq<char>)> {
    if exe_dir_known {
        seq![
            (IconBase::WorkingDir, "examples/icon.png"@),
            (IconBase::ExeDir, "examples/icon.png"@),
            (IconBase::ExeDir, "icon.png"@),
        ]
    } else {
        seq![(IconBase::WorkingDir, "examples/icon.png"@)]
    }
}

/// The icon files to try, in order.
pub fn icon_candidates(exe_dir_known: bool) -> (r: Vec<IconCandidate>)
    ensures
        r@.len() == icon_candidates_spec(exe_dir_known).len(),
        forall|i: int|
            0 <= i < r@.len() ==> (#[trigger] r@[i]).base == icon_candidates_spec(exe_dir_known)[i].0
                && r@[i].relative@ == icon_candidates_spec(exe_dir_known)[i].1,
{
    let mut v: Vec<IconCandidate> = Vec::new();
    v.push(IconCandidate { base: IconBase::WorkingDir, relative: ICON_PATH_IN_EXAMPLES });
    if exe_dir_known {
        v.push(IconCandidate { base: IconBase::ExeDir, relative: ICON_PATH_IN_EXAMPLES });
        v.push(IconCandidate { base: IconBase::ExeDir, relative: ICON_FILE_NAME });
    }
    v
}

/// Width and height of the generated icon, in pixels.
pub const FALLBACK_ICON_SIZE: u32 = 32;

/// The colour of every pixel of the generated icon, as RGBA bytes.
pub open spec fn fallback_pixel() -> Seq<u8> {
    seq![70u8, 130u8, 220u8, 255u8]
}

/// The RGBA bytes of the generated icon: a blue square of
/// [`FALLBACK_ICON_SIZE`] pixels a side.
pub open spec fn fallback_icon() -> Seq<u8> {
    Seq::new(32 * 32 * 4, |i: int| fallback_pixel()[i % 4])
}

/// Builds the RGBA bytes of the generated icon.
pub fn fallback_icon_rgba() -> (v: Vec<u8>)
    ensures
        v@ == fallback_icon(),
{
    let pixels: u32 = FALLBACK_ICON_SIZE * FALLBACK_ICON_SIZE;
    let mut v: Vec<u8> = Vec::new();
    let mut k: u32 = 0;
    while k < pixels
        invariant
            pixels == 32 * 32,
            k <= pixels,
            v.len() == 4 * k,
            forall|j: int| 0 <= j < v.len() ==> #[trigger] v@[j] == fallback_pixel()[j % 4],
        decreases pixels - k,
    {
        let ghost n = v.len() as int;
        v.push(70u8);
        v.push(130u8);
        v.push(220u8);
        v.push(255u8);
        proof {
            assert(n % 4 == 0);
            assert forall|j: int| 0 <= j < v.len() implies #[trigger] v@[j] == fallback_pixel()[j % 4] by {
                if j >= n {
                    assert(j % 4 == j - n);
                }
            }
        }
        k = k + 1;
    }
    assert(v@ =~= fallback_icon());
    v
}

} // verus!
