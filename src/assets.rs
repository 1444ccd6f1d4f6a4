//! Where assets are looked for: an image name without an extension may be a
//! `.png` or a `.jpg`, a sound is an `.mp3`; every path is absolute.
use vstd::prelude::*;
use vstd::string::StringExecFns;

verus! {

/// `path` with a leading `/` added if it has none.
pub open spec fn absolute(path: Seq<char>) -> Seq<char> {
    if path.len() > 0 && path[0] == '/' {
        path
    } else {
        "/"@ + path
    }
}

/// The files tried, in order, for the image `path`.
pub open spec fn image_candidates(path: Seq<char>) -> Seq<Seq<char>> {
    if path.contains('.') {
        seq![absolute(path)]
    } else {
        seq![absolute(path) + ".png"@, absolute(path) + ".jpg"@]
    }
}

fn make_absolute(path: &str) -> (r: String)
    ensures
        r@ == absolute(path@),
{
    if path.unicode_len() > 0 && path.get_char(0) == '/' {
        path.to_owned()
    } else {
        "/".to_owned().concat(path)
    }
}

fn has_extension(path: &str) -> (r: bool)
    ensures
        r == path@.contains('.'),
{
    let len = path.unicode_len();
    let mut i: usize = 0;
    while i < len
        invariant
            len == path@.len(),
            i <= len,
            forall|j: int| 0 <= j < i ==> path@[j] != '.',
        decreases len - i,
    {
        if path.get_char(i) == '.' {
            return true;
        }
        i += 1;
    }
    false
}

/// The files to try, in order, for the image `path`: the path itself when
/// it has an extension, else the path with `.png`, then with `.jpg`.
pub fn image_paths(path: &str) -> (r: Vec<String>)
    ensures
        r@.len() == image_candidates(path@).len(),
        forall|i: int| 0 <= i < r@.len() ==> #[trigger] r@[i]@ == image_candidates(path@)[i],
{
    let base = make_absolute(path);
    let mut r: Vec<String> = Vec::new();
    if has_extension(path) {
        r.push(base);
    } else {
        r.push(base.clone().concat(".png"));
        r.push(base.concat(".jpg"));
    }
    r
}

/// The file of the sound `path`.
pub fn sound_file(path: &str) -> (r: String)
    ensures
        r@ == path@ + ".mp3"@,
{
    path.to_owned().concat(".mp3")
}

} // verus!
