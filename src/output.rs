//! Fixed frame of the generator and naming of archived output files.
use vstd::prelude::*;

verus! {

pub const GEN_WIDTH: u32 = 1920;

pub const GEN_HEIGHT: u32 = 540;

/// The field point sampled for output pixel `(x, y)`: the generator renders
/// the field at half resolution, so pixel `(x, y)` shows point `(2x, 2y)`.
pub fn field_point(x: u32, y: u32) -> (r: (i32, i32))
    requires
        x <= 0x3fff_ffff,
        y <= 0x3fff_ffff,
    ensures
        r.0 == 2 * x,
        r.1 == 2 * y,
{
    ((2 * x) as i32, (2 * y) as i32)
}

pub open spec fn archive_path_of(stamp: Seq<char>) -> Seq<char> {
    "archive/output_"@ + stamp + ".png"@
}

/// `archive/output_<stamp>.png`.
pub fn archive_path(stamp: &str) -> (r: String)
    ensures
        r@ == archive_path_of(stamp@),
{
    let mut path = String::from_str("archive/output_");
    path.append(stamp);
    path.append(".png");
    path
}

/// Relies on chrono's `Local::now` and `DateTime::format`: the local time,
/// rendered as `%Y-%m-%d_%H-%M-%S`. Which time it shows depends on the clock;
/// what holds of every outcome is its length: `%Y` is zero-padded to at least
/// four digits and each of `%m %d %H %M %S` to two, with five separators
/// between them, so the stamp has at least 19 characters.
#[verifier::external_body]
fn local_stamp() -> (r: String)
    ensures
        r@.len() >= 19,
{
    chrono::Local::now().format("%Y-%m-%d_%H-%M-%S").to_string()
}

/// A fresh timestamp of the local clock (at least 19 characters) and the
/// archive path built from it.
pub fn temp_path() -> (r: (String, String))
    ensures
        r.0@.len() >= 19,
        r.1@ == archive_path_of(r.0@),
{
    let stamp = local_stamp();
    let path = archive_path(stamp.as_str());
    (stamp, path)
}

} // verus!
