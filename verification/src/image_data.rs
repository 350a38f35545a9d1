//! Image identities, pixel buffers and discovery: a path list is filtered to
//! the decodable extensions (case-insensitive jpg, jpeg, png, gif) and each
//! surviving entry is assigned a dense 0-based id in list order.

use vstd::prelude::*;

verus! {

/// Identity of one discovered image: a dense integer assigned in discovery
/// order, starting at 0, stable for the lifetime of one directory scan.
#[derive(Debug, Clone, Copy, PartialEq, Eq, PartialOrd, Ord, Hash, Structural)]
pub struct Id(pub u32);

/// A decoded pixel buffer: `width * height` RGBA8 pixels in row-major order,
/// four bytes each.
#[derive(Debug, Clone)]
pub struct Rgba {
    pub width: u32,
    pub height: u32,
    pub pixels: Vec<u8>,
}

/// Ghost shape of a pixel buffer.
pub ghost struct RgbaView {
    pub width: nat,
    pub height: nat,
    pub pixels: Seq<u8>,
}

impl View for Rgba {
    type V = RgbaView;

    open spec fn view(&self) -> RgbaView {
        RgbaView { width: self.width as nat, height: self.height as nat, pixels: self.pixels@ }
    }
}

impl Rgba {
    /// The byte buffer holds exactly four bytes per pixel.
    pub open spec fn wf(self) -> bool {
        self.pixels@.len() == self.width * self.height * 4
    }
}

/// The dimensions a decode resizes to: the source's own, or a bounding box
/// that the result must not exceed.
#[derive(Debug, Clone, Copy, PartialEq, Eq, Structural)]
pub enum Size {
    Original,
    Thumbnail { width: u32, height: u32 },
}

/// Why a single request failed; every failure is terminal for that request
/// only and never stops the gallery.
#[derive(Debug, Clone, Copy, PartialEq, Eq, Structural)]
pub enum Error {
    /// The directory or file could not be read.
    IOFailed,
    /// The background decode task could not be joined.
    JoinFailed,
    /// The codec rejected the bytes.
    ImageDecodingFailed,
}

/// One discovered image: its dense id and the path it was found under.
#[derive(Debug, Clone)]
pub struct Image {
    pub id: Id,
    pub path: String,
}

/// The codec's own error type, opaque to this crate; a decode failure is
/// mapped to `Error::ImageDecodingFailed` without reading it.
#[verifier::external_type_specification]
#[verifier::external_body]
pub struct ExImageError(image::ImageError);

/// What decoding a byte buffer at the source's own size yields: `None` when
/// the codec rejects the bytes. Decoding is a function of the bytes alone.
pub uninterp spec fn decoded_original(bytes: Seq<u8>) -> Option<RgbaView>;

/// What decoding a byte buffer and shrinking it to fit within a
/// `width x height` box yields: `None` when the codec rejects the bytes.
pub uninterp spec fn decoded_thumbnail(bytes: Seq<u8>, width: nat, height: nat) -> Option<RgbaView>;

/// Relies on image::load_from_memory and DynamicImage::to_rgba8: whether the
/// bytes decode, and to what, depends on the bytes alone; the converted
/// RGBA8 buffer holds exactly width * height * 4 bytes.
#[verifier::external_body]
fn decode_original_bytes(bytes: &[u8]) -> (r: Result<Rgba, image::ImageError>)
    ensures
        r is Ok <==> decoded_original(bytes@) is Some,
        r matches Ok(rgba) ==> decoded_original(bytes@) == Some(rgba@) && rgba.wf(),
{
    let img = image::load_from_memory(bytes)?.to_rgba8();
    Ok(Rgba { width: img.width(), height: img.height(), pixels: img.into_raw() })
}

/// Relies on image::load_from_memory, DynamicImage::thumbnail and
/// DynamicImage::into_rgba8: the scaled image preserves aspect ratio and its
/// dimensions stay within the requested box (and at least 1x1), since
/// `thumbnail` picks the largest fitting size; the RGBA8 buffer holds
/// exactly width * height * 4 bytes.
#[verifier::external_body]
fn decode_thumbnail_bytes(bytes: &[u8], width: u32, height: u32) -> (r: Result<
    Rgba,
    image::ImageError,
>)
    requires
        1 <= width,
        1 <= height,
    ensures
        r is Ok <==> decoded_thumbnail(bytes@, width as nat, height as nat) is Some,
        r matches Ok(rgba) ==> decoded_thumbnail(bytes@, width as nat, height as nat) == Some(rgba@)
            && rgba.wf() && 1 <= rgba.width <= width && 1 <= rgba.height <= height,
{
    let img = image::load_from_memory(bytes)?.thumbnail(width, height).into_rgba8();
    Ok(Rgba { width: img.width(), height: img.height(), pixels: img.into_raw() })
}

/// Case-insensitive equality of one path character against a lowercase
/// reference character (only ASCII letters fold).
pub open spec fn spec_char_eq_ci(a: char, lower: char) -> bool {
    a == lower || ('A' <= a <= 'Z' && a as int + 32 == lower as int)
}

/// The candidate extension is one of the four decodable ones, compared
/// against the lowercase spelling character by character.
pub open spec fn spec_is_image_ext(e: Seq<char>) -> bool {
    ||| (e.len() == 3 && spec_char_eq_ci(e[0], 'j') && spec_char_eq_ci(e[1], 'p')
        && spec_char_eq_ci(e[2], 'g'))
    ||| (e.len() == 4 && spec_char_eq_ci(e[0], 'j') && spec_char_eq_ci(e[1], 'p')
        && spec_char_eq_ci(e[2], 'e') && spec_char_eq_ci(e[3], 'g'))
    ||| (e.len() == 3 && spec_char_eq_ci(e[0], 'p') && spec_char_eq_ci(e[1], 'n')
        && spec_char_eq_ci(e[2], 'g'))
    ||| (e.len() == 3 && spec_char_eq_ci(e[0], 'g') && spec_char_eq_ci(e[1], 'i')
        && spec_char_eq_ci(e[2], 'f'))
}

/// Position `i` holds the extension dot of the path: the last dot of the
/// final path component, not leading that component and not ending the path.
pub open spec fn spec_ext_dot_at(s: Seq<char>, i: int) -> bool {
    &&& 0 < i < s.len() - 1
    &&& s[i] == '.'
    &&& s[i - 1] != '/'
    &&& forall|j: int| i < j < s.len() ==> s[j] != '.' && s[j] != '/'
}

/// The path names a file with one of the decodable image extensions.
pub open spec fn spec_has_image_ext(s: Seq<char>) -> bool {
    exists|i: int|
        spec_ext_dot_at(s, i) && spec_is_image_ext(s.subrange(i + 1, s.len() as int))
}

/// Case-insensitive comparison of one character against a lowercase
/// reference character.
fn char_eq_ci(a: char, lower: char) -> (b: bool)
    ensures
        b == spec_char_eq_ci(a, lower),
{
    a == lower || ('A' <= a && a <= 'Z' && a as u32 + 32 == lower as u32)
}

/// Whether `path` ends in one of the decodable image extensions, compared
/// without regard to ASCII case: `photo.JPG` passes, `archive.jpg.txt`,
/// `.gif` and `shots.png/raw` do not.
pub fn has_image_extension(path: &str) -> (b: bool)
    ensures
        b == spec_has_image_ext(path@),
{
    let ghost s = path@;
    let n = path.unicode_len();
    // Scan backwards for the first '.' or '/' seen from the end; `found == n`
    // means none so far.
    let mut i = n;
    let mut found: usize = n;
    while i > 0 && found == n
        invariant
            i <= n,
            found <= n,
            s == path@,
            n == s.len(),
            found == n ==> forall|j: int| i <= j < n ==> s[j] != '.' && s[j] != '/',
            found < n ==> (s[found as int] == '.' || s[found as int] == '/') && (forall|j: int|
                found < j < n ==> s[j] != '.' && s[j] != '/'),
        decreases i,
    {
        let c = path.get_char(i - 1);
        if c == '.' || c == '/' {
            found = i - 1;
        }
        i = i - 1;
    }
    if found == n {
        // No dot anywhere: no position can hold the extension dot.
        assert forall|d: int| !spec_ext_dot_at(s, d) by {
            if spec_ext_dot_at(s, d) {
                assert(s[d] == '.');
            }
        }
        return false;
    }
    let k = found;
    let c = path.get_char(k);
    if c == '/' {
        // The final component has no dot at all.
        assert forall|d: int| !spec_ext_dot_at(s, d) by {
            if spec_ext_dot_at(s, d) {
                assert(s[d] == '.');
                assert(d != k as int);
                if d < k as int {
                    assert(s[k as int] != '.' && s[k as int] != '/');
                } else {
                    assert(s[d] != '.');
                }
            }
        }
        return false;
    }
    // s[k] is the last '.' of the path, with no '/' after it: the only
    // candidate position for the extension dot.
    assert(s[k as int] == '.');
    assert forall|d: int| spec_ext_dot_at(s, d) implies d == k as int by {
        if d != k as int {
            if d < k as int {
                assert(s[k as int] != '.' && s[k as int] != '/');
            } else {
                assert(s[d] != '.');
            }
        }
    }
    if k == 0 {
        return false;
    }
    let before = path.get_char(k - 1);
    if before == '/' {
        return false;
    }
    if k + 1 >= n {
        return false;
    }
    let ghost ext = s.subrange(k as int + 1, n as int);
    let ext_len = n - (k + 1);
    let b = if ext_len == 3 {
        let c0 = path.get_char(k + 1);
        let c1 = path.get_char(k + 2);
        let c2 = path.get_char(k + 3);
        let jpg = char_eq_ci(c0, 'j') && char_eq_ci(c1, 'p') && char_eq_ci(c2, 'g');
        let png = char_eq_ci(c0, 'p') && char_eq_ci(c1, 'n') && char_eq_ci(c2, 'g');
        let gif = char_eq_ci(c0, 'g') && char_eq_ci(c1, 'i') && char_eq_ci(c2, 'f');
        proof {
            assert(ext.len() == 3);
            assert(ext[0] == s[k + 1] && ext[1] == s[k + 2] && ext[2] == s[k + 3]);
        }
        jpg || png || gif
    } else if ext_len == 4 {
        let c0 = path.get_char(k + 1);
        let c1 = path.get_char(k + 2);
        let c2 = path.get_char(k + 3);
        let c3 = path.get_char(k + 4);
        proof {
            assert(ext.len() == 4);
            assert(ext[0] == s[k + 1] && ext[1] == s[k + 2] && ext[2] == s[k + 3] && ext[3] == s[
                k + 4
            ]);
        }
        char_eq_ci(c0, 'j') && char_eq_ci(c1, 'p') && char_eq_ci(c2, 'e') && char_eq_ci(c3, 'g')
    } else {
        proof {
            assert(ext.len() != 3 && ext.len() != 4);
        }
        false
    };
    proof {
        if b {
            assert(spec_ext_dot_at(s, k as int));
            assert(spec_is_image_ext(ext));
        } else {
            assert(!spec_is_image_ext(ext));
        }
    }
    b
}

/// The paths that survive the extension filter, in their original order.
pub open spec fn spec_kept_paths(paths: Seq<String>) -> Seq<String> {
    paths.filter(|p: String| spec_has_image_ext(p@))
}

/// One step of the extension filter along a growing prefix of the path
/// list.
proof fn lemma_kept_paths_take_step(paths: Seq<String>, i: int)
    requires
        0 <= i < paths.len(),
    ensures
        spec_kept_paths(paths.take(i + 1)) == if spec_has_image_ext(paths[i]@) {
            spec_kept_paths(paths.take(i)).push(paths[i])
        } else {
            spec_kept_paths(paths.take(i))
        },
{
    reveal(Seq::filter);
    assert(paths.take(i + 1).drop_last() =~= paths.take(i));
    assert(paths.take(i + 1).last() == paths[i]);
}

impl Image {
    /// Upper bound on how many placeholder cards the rendering layer shows
    /// while discovery is still running.
    pub const LIMIT: usize = 1000;

    /// Discovery: keeps the paths with a decodable image extension, in
    /// order, and assigns each survivor the next dense 0-based id.
    pub fn list(paths: Vec<String>) -> (images: Vec<Image>)
        requires
            paths@.len() <= u32::MAX,
        ensures
            images@.len() == spec_kept_paths(paths@).len(),
            forall|i: int|
                0 <= i < images@.len() ==> (#[trigger] images@[i]).id == Id(i as u32)
                    && images@[i].path == spec_kept_paths(paths@)[i],
    {
        let mut images: Vec<Image> = Vec::new();
        let mut idx: usize = 0;
        proof {
            reveal(Seq::filter);
            assert(paths@.take(0) =~= Seq::<String>::empty());
        }
        while idx < paths.len()
            invariant
                idx <= paths@.len(),
                paths@.len() <= u32::MAX,
                images@.len() == spec_kept_paths(paths@.take(idx as int)).len(),
                images@.len() <= idx,
                forall|i: int|
                    0 <= i < images@.len() ==> (#[trigger] images@[i]).id == Id(i as u32)
                        && images@[i].path == spec_kept_paths(paths@.take(idx as int))[i],
            decreases paths@.len() - idx,
        {
            let keep = has_image_extension(paths[idx].as_str());
            proof {
                lemma_kept_paths_take_step(paths@, idx as int);
            }
            if keep {
                let image = Image { id: Id(images.len() as u32), path: paths[idx].clone() };
                images.push(image);
            }
            idx = idx + 1;
        }
        proof {
            assert(paths@.take(paths@.len() as int) =~= paths@);
        }
        images
    }

    /// Decode an in-memory byte buffer to RGBA8 pixels, either at the
    /// source's own dimensions or shrunk to fit a thumbnail box. Succeeds
    /// exactly when the codec accepts the bytes; every failure is
    /// `ImageDecodingFailed`.
    pub fn decode(bytes: &[u8], size: Size) -> (r: Result<Rgba, Error>)
        requires
            size matches Size::Thumbnail { width, height } ==> 1 <= width && 1 <= height,
        ensures
            match size {
                Size::Original => {
                    &&& (r is Ok <==> decoded_original(bytes@) is Some)
                    &&& (r matches Ok(rgba) ==> decoded_original(bytes@) == Some(rgba@)
                        && rgba.wf())
                },
                Size::Thumbnail { width, height } => {
                    &&& (r is Ok <==> decoded_thumbnail(bytes@, width as nat, height as nat)
                        is Some)
                    &&& (r matches Ok(rgba) ==> decoded_thumbnail(
                        bytes@,
                        width as nat,
                        height as nat,
                    ) == Some(rgba@) && rgba.wf() && 1 <= rgba.width <= width && 1 <= rgba.height
                        <= height)
                },
            },
            r is Err ==> r == Err::<Rgba, Error>(Error::ImageDecodingFailed),
    {
        let decoded = match size {
            Size::Original => decode_original_bytes(bytes),
            Size::Thumbnail { width, height } => decode_thumbnail_bytes(bytes, width, height),
        };
        match decoded {
            Ok(rgba) => Ok(rgba),
            Err(_) => Err(Error::ImageDecodingFailed),
        }
    }
}

} // verus!
