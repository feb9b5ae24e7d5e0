//! Device layer: enumeration of video device nodes and the stubbed
//! capture / verification operations. The real hardware probing lives
//! behind this surface; here enumeration walks the device nodes on disk
//! and the capture and verification calls return fixed stand-in values.
use vstd::prelude::*;
use crate::text::{all_digits, dec_val, dec_str, parse_u64_digits};

verus! {

/// One enumerated video device.
pub struct CameraInfo {
    pub path: String,
    pub name: String,
    pub index: usize,
}

/// Outcome of one verification pass.
pub struct VerificationResult {
    pub ok: bool,
    pub reason: Option<String>,
}

/// The fixed stand-in thumbnail returned while capture is stubbed.
pub open spec fn placeholder_image() -> Seq<char> {
    "iVBORw0KGgoAAAANSUhEUgAAAAUAAAAFCAYAAACNbyblAAAAHElEQVQI12P4//8/w38GIAXDIBKE0DHxgljNBAAO9TXL0Y4OHwAAAABJRU5ErkJggg=="@
}

/// Captures a thumbnail from the device at `index`. While the capture
/// backend is stubbed this always succeeds with the fixed placeholder
/// image.
pub fn capture_thumbnail(_index: usize) -> (r: Result<String, String>)
    ensures
        r matches Ok(s) && s@ == placeholder_image(),
{
    let placeholder =
        "iVBORw0KGgoAAAANSUhEUgAAAAUAAAAFCAYAAACNbyblAAAAHElEQVQI12P4//8/w38GIAXDIBKE0DHxgljNBAAO9TXL0Y4OHwAAAABJRU5ErkJggg==";
    Ok(String::from_str(placeholder))
}

/// Runs one verification pass. While the verification backend is stubbed
/// this always reports success with no reason.
pub fn verify_once(_timeout_ms: u64) -> (r: Result<VerificationResult, String>)
    ensures
        r matches Ok(v) && v.ok == true && v.reason is None,
{
    Ok(VerificationResult { ok: true, reason: None })
}

/// The path prefix shared by all video device nodes.
pub open spec fn video_prefix() -> Seq<char> {
    "/dev/video"@
}

/// The device index encoded in a device path: the decimal value of what
/// follows the `/dev/video` prefix, provided that suffix is a non-empty
/// digit string whose value fits in `usize`.
pub open spec fn cam_index_of(p: Seq<char>) -> Option<nat> {
    if p.len() > video_prefix().len() && p.take(video_prefix().len() as int) == video_prefix()
        && all_digits(p.skip(video_prefix().len() as int))
        && dec_val(p.skip(video_prefix().len() as int)) <= usize::MAX {
        Some(dec_val(p.skip(video_prefix().len() as int)))
    } else {
        None
    }
}

/// The display name given to the device with index `n`.
pub open spec fn cam_name_of(n: nat) -> Seq<char> {
    "Camera Device "@ + dec_str(n)
}

/// The enumeration derived from a list of candidate paths: one entry per
/// path that carries a device index, in the order given, as
/// (path, name, index) triples.
pub open spec fn cam_list_of(ps: Seq<Seq<char>>) -> Seq<(Seq<char>, Seq<char>, nat)>
    decreases ps.len(),
{
    if ps.len() == 0 {
        Seq::empty()
    } else {
        cam_list_of(ps.drop_last()) + (match cam_index_of(ps.last()) {
            Some(n) => seq![(ps.last(), cam_name_of(n), n)],
            None => Seq::empty(),
        })
    }
}

/// The (path, name, index) triples of an enumeration result.
pub open spec fn cam_views(cs: Seq<CameraInfo>) -> Seq<(Seq<char>, Seq<char>, nat)> {
    cs.map_values(|c: CameraInfo| (c.path@, c.name@, c.index as nat))
}

/// Relies on glob::glob with the video device pattern: every yielded path
/// begins with the pattern's literal `/dev/video` prefix. Which paths
/// exist depends on the machine, so nothing more is promised.
#[verifier::external_body]
fn video_device_paths() -> (r: Vec<String>)
    ensures
        forall|i: int| 0 <= i < r@.len() ==> #[trigger] r@[i]@.len() >= video_prefix().len()
            && r@[i]@.take(video_prefix().len() as int) == video_prefix(),
{
    let mut out: Vec<String> = Vec::new();
    if let Ok(paths) = glob::glob("/dev/video*") {
        for entry in paths {
            if let Ok(path) = entry {
                out.push(path.to_string_lossy().to_string());
            }
        }
    }
    out
}

/// Builds the enumeration from candidate device paths: exactly the paths
/// carrying a device index, each with its derived display name, in order.
pub fn cameras_from_paths(paths: Vec<String>) -> (r: Vec<CameraInfo>)
    ensures
        cam_views(r@) == cam_list_of(paths@.map_values(|p: String| p@)),
{
    proof {
        reveal_strlit("/dev/video");
    }
    let ghost pviews = paths@.map_values(|p: String| p@);
    let mut out: Vec<CameraInfo> = Vec::new();
    let mut i: usize = 0;
    while i < paths.len()
        invariant
            0 <= i <= paths.len(),
            pviews == paths@.map_values(|p: String| p@),
            pviews.len() == paths@.len(),
            cam_views(out@) == cam_list_of(pviews.take(i as int)),
        decreases paths.len() - i,
    {
        proof {
            reveal_strlit("/dev/video");
            assert(pviews.take(i + 1).drop_last() =~= pviews.take(i as int));
            assert(pviews.take(i + 1).last() == pviews[i as int]);
            assert(pviews[i as int] == paths@[i as int]@);
        }
        let p = &paths[i];
        let plen = p.as_str().unicode_len();
        if plen > 10 && str_starts_with_video(p.as_str()) {
            let suffix = extract_suffix(p.as_str());
            proof {
                assert(p@.skip(10) =~= suffix@);
            }
            if let Some(v) = parse_u64_digits(suffix.as_str()) {
                if v <= usize::MAX as u64 {
                    let idx: usize = v as usize;
                    let mut name = String::from_str("Camera Device ");
                    crate::text::append_u64_dec(&mut name, v);
                    let info = CameraInfo { path: p.clone(), name, index: idx };
                    proof {
                        assert(cam_index_of(pviews[i as int]) == Some(idx as nat));
                        assert(cam_views(out@.push(info)) =~= cam_views(out@).push(
                            (info.path@, info.name@, info.index as nat)));
                    }
                    out.push(info);
                } else {
                    proof {
                        assert(cam_index_of(pviews[i as int]) is None);
                        assert(cam_views(out@) =~= cam_list_of(pviews.take(i + 1)));
                    }
                }
            } else {
                proof {
                    assert(usize::MAX as nat <= u64::MAX as nat);
                    assert(cam_index_of(pviews[i as int]) is None);
                    assert(cam_views(out@) =~= cam_list_of(pviews.take(i + 1)));
                }
            }
        } else {
            proof {
                if plen <= 10 {
                    assert(cam_index_of(pviews[i as int]) is None);
                }
                assert(cam_views(out@) =~= cam_list_of(pviews.take(i + 1)));
            }
        }
        i += 1;
    }
    proof {
        assert(pviews.take(paths@.len() as int) =~= pviews);
    }
    out
}

/// True iff `p` begins with the `/dev/video` prefix (and is long enough).
fn str_starts_with_video(p: &str) -> (r: bool)
    ensures
        r == (p@.len() >= video_prefix().len()
            && p@.take(video_prefix().len() as int) == video_prefix()),
{
    proof {
        reveal_strlit("/dev/video");
    }
    let n = p.unicode_len();
    if n < 10 {
        return false;
    }
    let head = p.substring_char(0, 10);
    proof {
        assert(head@ =~= p@.take(10));
    }
    crate::text::str_eq(head, "/dev/video")
}

/// The characters after the `/dev/video` prefix.
fn extract_suffix(p: &str) -> (r: String)
    requires
        p@.len() >= video_prefix().len(),
    ensures
        r@ == p@.skip(video_prefix().len() as int),
{
    proof {
        reveal_strlit("/dev/video");
    }
    let n = p.unicode_len();
    let tail = p.substring_char(10, n);
    proof {
        assert(tail@ =~= p@.skip(10));
    }
    String::from_str(tail)
}

/// Enumerates the video device nodes present on this machine. Which
/// devices exist depends on the machine; whatever set the probe yields,
/// the result is exactly the enumeration of those paths, in order.
pub fn list_cameras() -> (r: Vec<CameraInfo>)
    ensures
        exists|ps: Seq<Seq<char>>| cam_views(r@) == cam_list_of(ps),
{
    let paths = video_device_paths();
    let ghost pviews = paths@.map_values(|p: String| p@);
    let r = cameras_from_paths(paths);
    proof {
        assert(cam_views(r@) == cam_list_of(pviews));
    }
    r
}

} // verus!
