//! Decisions of the finishing pipeline.
//!
//! When a capture session ends, the committed document is replayed onto the
//! base surface, the crop region (or its fallback) selects the output
//! rectangle, and the configured post-capture actions are resolved and run in
//! order. The pixel extraction and the actions' own effects (saving, the
//! clipboard) are I/O and live in the surrounding application; this module
//! holds what is decided: the output rectangle, the save path, and which
//! configured action identifiers resolve to which available actions.

use vstd::prelude::*;
use vstd::string::StrSliceExecFns;
use vstd::string::StringExecFns;

use crate::data::Rectangle;
use crate::display_server::Error;

verus! {

/// The rectangle of pixels extracted as the output image: the crop region
/// when one was set; otherwise the full screen rectangle reported by the
/// resolution query; and when even that query failed, a fixed 1920 x 1080
/// fallback.
pub open spec fn spec_output_rectangle(
    crop: Option<Rectangle>,
    resolution: Result<(i32, i32), Error>,
) -> Rectangle {
    match crop {
        Some(c) => c,
        None => match resolution {
            Ok(res) => Rectangle { x: 0, y: 0, w: res.0 as i64, h: res.1 as i64 },
            Err(_) => Rectangle { x: 0, y: 0, w: 1920, h: 1080 },
        },
    }
}

/// Choose the output rectangle from the document's crop region and the
/// (possibly failed) screen-resolution query. An unset crop region is a
/// recoverable default, never an error.
pub fn output_rectangle(crop: Option<Rectangle>, resolution: Result<(i32, i32), Error>) -> (r:
    Rectangle)
    ensures
        r == spec_output_rectangle(crop, resolution),
{
    match crop {
        Some(c) => c,
        None => match resolution {
            Ok((w, h)) => Rectangle { x: 0, y: 0, w: w as i64, h: h as i64 },
            Err(_) => Rectangle { x: 0, y: 0, w: 1920, h: 1080 },
        },
    }
}

/// Work out everything the finishing flow decides: replay the committed
/// document (non-live — the in-progress operation is not part of the
/// output), and choose the rectangle of pixels to extract, falling back from
/// an unset crop region to the reported screen resolution and from a failed
/// resolution query to 1920 x 1080.
pub fn finalize_output(
    stack: &crate::operations::OperationStack,
    resolution: Result<(i32, i32), Error>,
) -> (r: (Vec<crate::operations::DrawCommand>, Rectangle))
    requires
        stack@.wf(),
        stack@.committed.len() < usize::MAX,
    ensures
        r.0@.map_values(|c: crate::operations::DrawCommand| c@) == crate::operations::spec_plan(
            stack@,
            false,
        ),
        r.1 == spec_output_rectangle(stack@.crop_region, resolution),
{
    let plan = stack.execute(false);
    let rectangle = output_rectangle(stack.crop_region(), resolution);
    (plan, rectangle)
}

/// The identifier strings of a list of actions.
pub open spec fn spec_ids(v: Seq<String>) -> Seq<Seq<char>> {
    v.map_values(|s: String| s@)
}

/// The index of the first action whose identifier is `id`, if any.
pub open spec fn spec_lookup(available: Seq<Seq<char>>, id: Seq<char>) -> Option<int>
    decreases available.len(),
{
    if available.len() == 0 {
        None
    } else if available[0] == id {
        Some(0int)
    } else {
        match spec_lookup(available.drop_first(), id) {
            Some(i) => Some(i + 1),
            None => None,
        }
    }
}

/// The configured identifiers resolved against the available actions, in
/// configured order: each identifier contributes the index of its first
/// match, and an identifier with no matching action is skipped.
pub open spec fn spec_resolved(configured: Seq<Seq<char>>, available: Seq<Seq<char>>) -> Seq<
    int,
> {
    configured.filter_map(|id: Seq<char>| spec_lookup(available, id))
}

/// A first match at index `i` is what the lookup finds.
proof fn lemma_lookup_first(available: Seq<Seq<char>>, id: Seq<char>, i: int)
    requires
        0 <= i < available.len(),
        available[i] == id,
        forall|j: int| 0 <= j < i ==> available[j] != id,
    ensures
        spec_lookup(available, id) == Some(i),
    decreases i,
{
    if i > 0 {
        lemma_lookup_first(available.drop_first(), id, i - 1);
    }
}

/// Without any match the lookup finds nothing.
proof fn lemma_lookup_none(available: Seq<Seq<char>>, id: Seq<char>)
    requires
        forall|j: int| 0 <= j < available.len() ==> available[j] != id,
    ensures
        spec_lookup(available, id) is None,
    decreases available.len(),
{
    if available.len() > 0 {
        lemma_lookup_none(available.drop_first(), id);
    }
}

/// Find the first available action whose identifier equals `id`.
#[verifier::loop_isolation(false)]
fn find_action(available: &Vec<String>, id: &String) -> (r: Option<usize>)
    ensures
        (match r {
            Some(i) => 0 <= i < available@.len() && Some(i as int) == spec_lookup(
                spec_ids(available@),
                id@,
            ),
            None => spec_lookup(spec_ids(available@), id@) is None,
        }),
{
    let n = available.len();
    for j in 0..n
        invariant
            forall|j0: int| 0 <= j0 < j ==> spec_ids(available@)[j0] != id@,
    {
        let a = &available[j];
        if a.eq(id) {
            proof {
                lemma_lookup_first(spec_ids(available@), id@, j as int);
            }
            return Some(j);
        }
    }
    proof {
        lemma_lookup_none(spec_ids(available@), id@);
    }
    None
}

/// Resolve the configured post-capture action identifiers against the
/// available actions: the result holds, in configured order, the index of
/// the first available action matching each configured identifier, and an
/// identifier with no matching action is skipped — a partially configured
/// pipeline still completes.
#[verifier::loop_isolation(false)]
pub fn resolve_actions(configured: &Vec<String>, available: &Vec<String>) -> (r: Vec<usize>)
    ensures
        r@.map_values(|u: usize| u as int) == spec_resolved(
            spec_ids(configured@),
            spec_ids(available@),
        ),
        forall|k: int| 0 <= k < r@.len() ==> (#[trigger] r@[k]) < available@.len(),
{
    let ghost conf = spec_ids(configured@);
    let ghost avail = spec_ids(available@);
    let ghost f = |id: Seq<char>| spec_lookup(avail, id);
    let ghost uv = |u: usize| u as int;
    let mut r: Vec<usize> = Vec::new();
    proof {
        assert(conf.take(0int) =~= Seq::<Seq<char>>::empty());
        assert(r@.map_values(uv) =~= conf.take(0int).filter_map(f));
    }
    let n = configured.len();
    for i in 0..n
        invariant
            r@.map_values(uv) == conf.take(i as int).filter_map(f),
            forall|k: int| 0 <= k < r@.len() ==> (#[trigger] r@[k]) < available@.len(),
    {
        proof {
            conf.lemma_filter_map_take_succ(f, i as int);
            assert(conf[i as int] == configured@[i as int]@);
        }
        match find_action(available, &configured[i]) {
            Some(idx) => {
                let ghost before = r@;
                r.push(idx);
                proof {
                    assert(r@.map_values(uv) =~= before.map_values(uv).push(idx as int));
                    assert(r@.map_values(uv) =~= conf.take(i as int + 1).filter_map(f));
                }
            },
            None => {
                proof {
                    assert(r@.map_values(uv) =~= conf.take(i as int + 1).filter_map(f));
                }
            },
        }
    }
    proof {
        assert(conf.take(n as int) =~= conf);
    }
    r
}

/// The action of saving the capture to disk.
pub struct SaveToDisk;

impl SaveToDisk {
    /// The identifier the settings refer to this action by.
    pub fn id(&self) -> (r: String)
        ensures
            r@ == "SaveToDisk"@,
    {
        "SaveToDisk".to_owned()
    }

    /// The name of the post capture action.
    pub fn name(&self) -> (r: String)
        ensures
            r@ == "Save to disk"@,
    {
        "Save to disk".to_owned()
    }

    /// Short description of the post capture action.
    pub fn description(&self) -> (r: String)
        ensures
            r@ == "Saves the screenshot to the Harddrive"@,
    {
        "Saves the screenshot to the Harddrive".to_owned()
    }
}

/// The action of copying the capture to the clipboard.
pub struct CopyToClipboard;

impl CopyToClipboard {
    /// The identifier the settings refer to this action by.
    pub fn id(&self) -> (r: String)
        ensures
            r@ == "CopyToClipboard"@,
    {
        "CopyToClipboard".to_owned()
    }

    /// The name of the post capture action.
    pub fn name(&self) -> (r: String)
        ensures
            r@ == "Copy to clipboard"@,
    {
        "Copy to clipboard".to_owned()
    }

    /// Short description of the post capture action.
    pub fn description(&self) -> (r: String)
        ensures
            r@ == "Copies the picture to the clipboard"@,
    {
        "Copies the picture to the clipboard".to_owned()
    }
}

/// The identifiers of all available post capture actions, in registry order:
/// saving to disk, then copying to the clipboard.
pub fn available_action_ids() -> (r: Vec<String>)
    ensures
        r@.len() == 2,
        r@[0]@ == "SaveToDisk"@,
        r@[1]@ == "CopyToClipboard"@,
{
    let mut r: Vec<String> = Vec::new();
    r.push(SaveToDisk.id());
    r.push(CopyToClipboard.id());
    r
}

/// The path a capture is saved under: the directory, then
/// `screenshot_<timestamp>.png`, with a separating slash inserted unless the
/// directory already ends in one.
pub open spec fn spec_save_path(dir: Seq<char>, timestamp: Seq<char>) -> Seq<char> {
    let sep = if dir.len() > 0 && dir.last() == '/' {
        Seq::<char>::empty()
    } else {
        seq!['/']
    };
    dir + sep + "screenshot_"@ + timestamp + ".png"@
}

/// Build the path a capture is saved under from the configured directory and
/// the capture's timestamp.
pub fn make_save_path(dir: &str, timestamp: &str) -> (r: String)
    ensures
        r@ == spec_save_path(dir@, timestamp@),
{
    let mut r = dir.to_owned();
    let n = dir.unicode_len();
    let ends_in_slash = n > 0 && dir.get_char(n - 1) == '/';
    if !ends_in_slash {
        r.append("/");
        proof {
            reveal_strlit("/");
            assert(seq!['/'] =~= "/"@);
        }
    }
    r.append("screenshot_");
    r.append(timestamp);
    r.append(".png");
    proof {
        assert(r@ =~= spec_save_path(dir@, timestamp@));
    }
    r
}

} // verus!
