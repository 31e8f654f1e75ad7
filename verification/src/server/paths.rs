use vstd::prelude::*;

verus! {

/// `base` and `part` joined by one path separator; an empty base is no directory.
pub open spec fn spec_join(base: Seq<char>, part: Seq<char>) -> Seq<char> {
    if base.len() == 0 {
        part
    } else if base.last() == '/' {
        base + part
    } else {
        base + "/"@ + part
    }
}

/// Joins a directory and a name below it.
pub fn join(base: &str, part: &str) -> (path: String)
    ensures
        path@ == spec_join(base@, part@),
{
    let length = base.unicode_len();
    if length == 0 {
        return String::from_str(part);
    }
    if base.get_char(length - 1) == '/' {
        String::from_str(base).concat(part)
    } else {
        String::from_str(base).concat("/").concat(part)
    }
}

/// Where the uploaded original of an image is kept.
pub open spec fn spec_original_image_path(data_dir: Seq<char>, sha256: Seq<char>, extension: Seq<char>) -> Seq<char> {
    spec_join(spec_join(spec_join(data_dir, "images"@), "original"@), sha256 + "."@ + extension)
}

pub fn original_image_path(data_dir: &str, sha256: &str, extension: &str) -> (path: String)
    ensures
        path@ == spec_original_image_path(data_dir@, sha256@, extension@),
{
    let images = join(data_dir, "images");
    let original = join(images.as_str(), "original");
    let name = String::from_str(sha256).concat(".").concat(extension);
    join(original.as_str(), name.as_str())
}

/// Where the panel-ready bitmap of an image is kept.
pub open spec fn spec_display_image_path(data_dir: Seq<char>, sha256: Seq<char>) -> Seq<char> {
    spec_join(spec_join(spec_join(data_dir, "images"@), "display"@), sha256 + ".bmp"@)
}

pub fn display_image_path(data_dir: &str, sha256: &str) -> (path: String)
    ensures
        path@ == spec_display_image_path(data_dir@, sha256@),
{
    let images = join(data_dir, "images");
    let display = join(images.as_str(), "display");
    let name = String::from_str(sha256).concat(".bmp");
    join(display.as_str(), name.as_str())
}

/// Where the panel-ready bitmap of an image is written before it is moved into place.
pub open spec fn spec_display_image_temp_path(data_dir: Seq<char>, sha256: Seq<char>) -> Seq<char> {
    spec_join(spec_join(spec_join(data_dir, "images"@), "display"@), sha256 + ".tmp"@)
}

pub fn display_image_temp_path(data_dir: &str, sha256: &str) -> (path: String)
    ensures
        path@ == spec_display_image_temp_path(data_dir@, sha256@),
{
    let images = join(data_dir, "images");
    let display = join(images.as_str(), "display");
    let name = String::from_str(sha256).concat(".tmp");
    join(display.as_str(), name.as_str())
}

/// Where a rendered sprite is cached.
pub open spec fn spec_sprite_cache_path(data_dir: Seq<char>, sha256: Seq<char>) -> Seq<char> {
    spec_join(spec_join(data_dir, "sprites"@), sha256 + ".bmp"@)
}

pub fn sprite_cache_path(data_dir: &str, sha256: &str) -> (path: String)
    ensures
        path@ == spec_sprite_cache_path(data_dir@, sha256@),
{
    let sprites = join(data_dir, "sprites");
    let name = String::from_str(sha256).concat(".bmp");
    join(sprites.as_str(), name.as_str())
}

} // verus!
