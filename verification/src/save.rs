//! The save pipeline, per request: read the shared slot (a save before any
//! successful load is a no-op), resolve the user path with shell-style
//! expansion (falling back to the raw path when expansion fails), and encode
//! the held bitmap in the format the path's extension selects. Writing the
//! encoded bytes to disk is the caller's I/O; a failure there, or here, never
//! touches the shared image state.

use vstd::prelude::*;

use crate::errors::WriteError;
use crate::image_data::DecodedImage;
use crate::save_format::SaveFormat;
use crate::save_format::encoder_is_deterministic;
use crate::save_format::format_for_path;
use crate::save_format::format_id;
use crate::save_format::lemma_path_extension_append;
use crate::save_format::spec_format_for_path;

verus! {

/// What a deterministic encoder yields for a format (by its number),
/// dimensions and RGBA8 samples: nothing when it rejects the bitmap,
/// otherwise the encoded file content, a function of these arguments alone —
/// so repeated saves of one image produce identical bytes. The AVIF encoder
/// is not deterministic across machines (its tiling follows the core count),
/// so nothing ties its bytes to this name.
pub uninterp spec fn encoded_image_of(
    format: int,
    width: int,
    height: int,
    pixels: Seq<u8>,
) -> Option<Seq<u8>>;

/// Relies on `image::write_buffer_with_format`: it encodes the RGBA8 buffer
/// to an in-memory writer in the given format and reports the encoder's
/// rejection as an error. For every format but AVIF the bytes are a function
/// of the arguments alone; the AVIF encoder also reads the machine's core
/// count, so its outcome is only a `Result`.
#[verifier::external_body]
fn encode_to_bytes(format: SaveFormat, width: u32, height: u32, pixels: &Vec<u8>) -> (r: Result<
    Vec<u8>,
    String,
>)
    requires
        width > 0,
        height > 0,
        pixels@.len() == 4 * width * height,
    ensures
        r matches Ok(b) ==> (encoder_is_deterministic(format) ==> encoded_image_of(
            format_id(format),
            width as int,
            height as int,
            pixels@,
        ) == Some(b@)),
        r matches Err(_) ==> (encoder_is_deterministic(format) ==> encoded_image_of(
            format_id(format),
            width as int,
            height as int,
            pixels@,
        ) is None),
{
    let fmt = match format {
        SaveFormat::Png => image::ImageFormat::Png, SaveFormat::Jpeg => image::ImageFormat::Jpeg,
        SaveFormat::Gif => image::ImageFormat::Gif, SaveFormat::Bmp => image::ImageFormat::Bmp,
        SaveFormat::Tiff => image::ImageFormat::Tiff, SaveFormat::Tga => image::ImageFormat::Tga,
        SaveFormat::WebP => image::ImageFormat::WebP, SaveFormat::Qoi => image::ImageFormat::Qoi,
        SaveFormat::Avif => image::ImageFormat::Avif, SaveFormat::Ico => image::ImageFormat::Ico,
        SaveFormat::Pnm => image::ImageFormat::Pnm,
    };
    let mut cursor = std::io::Cursor::new(Vec::new());
    let color = image::ExtendedColorType::Rgba8;
    match image::write_buffer_with_format(&mut cursor, pixels.as_slice(), width, height, color, fmt) {
        Ok(()) => Ok(cursor.into_inner()),
        Err(err) => Err(format!("{err}")),
    }
}

/// A string with no environment reference (`$`) anywhere.
pub open spec fn no_dollar(raw: Seq<char>) -> bool {
    forall|i: int| 0 <= i < raw.len() ==> raw[i] != '$'
}

/// A path that shell-style expansion provably leaves alone: it holds no
/// environment reference (`$`) anywhere and no home-directory marker (`~`)
/// at its front.
pub open spec fn plain_path(raw: Seq<char>) -> bool {
    &&& no_dollar(raw)
    &&& raw.len() == 0 || raw[0] != '~'
}

/// A path of the form `~/…` with no environment reference: expansion cannot
/// fail on it, and only the leading `~` can change.
pub open spec fn tilde_slash_path(raw: Seq<char>) -> bool {
    &&& no_dollar(raw)
    &&& raw.len() >= 2
    &&& raw[0] == '~'
    &&& raw[1] == '/'
}

/// The part of a `~/…` path after the `~`: what expansion keeps verbatim.
pub open spec fn after_tilde(raw: Seq<char>) -> Seq<char> {
    raw.subrange(1, raw.len() as int)
}

/// Relies on `shellexpand::full`: home-directory and environment-variable
/// shorthand is resolved against the process environment, so what an
/// expansion yields cannot be promised; but it fails only while looking up a
/// `$` reference, a string with no `$` and no leading `~` comes back
/// unchanged, and a `$`-free `~/…` string comes back as some prefix (the home
/// directory, or the `~` itself when none is known) followed by the rest of
/// the string verbatim. A failure is reported with its message.
#[verifier::external_body]
fn expand_full(raw: &str) -> (r: Result<String, String>)
    ensures
        r matches Err(_) ==> (exists|i: int| 0 <= i < raw@.len() && raw@[i] == '$'),
        r matches Ok(s) ==> (plain_path(raw@) ==> s@ == raw@),
        r matches Ok(s) ==> (tilde_slash_path(raw@) ==> (exists|prefix: Seq<char>|
            s@ == prefix + after_tilde(raw@))),
{
    match shellexpand::full(raw) {
        Ok(expanded) => Ok(expanded.into_owned()),
        Err(err) => Err(format!("{err}")),
    }
}

/// A save request that is ready to be written out: the resolved target path,
/// the encoded file content, and the expansion failure to log, if there was
/// one and the raw path is being used instead.
pub struct SavePlan {
    pub path: String,
    pub bytes: Vec<u8>,
    pub expansion_warning: Option<String>,
}

/// How one save request ended, short of the final write.
pub enum SaveOutcome {
    /// No image has loaded yet: nothing is written, and nothing fails.
    NothingLoaded,
    /// The held image was encoded; the caller writes `bytes` to `path`.
    Ready(SavePlan),
    /// The resolved path selects no encoder, or the encoder rejected the
    /// bitmap; the shared image state is untouched. The expansion failure to
    /// log rides along, as it does on a ready plan.
    Failed { path: String, error: WriteError, expansion_warning: Option<String> },
}

/// Resolves a user-entered save path: the expanded form when expansion
/// succeeds, the raw string unchanged when it fails, together with the
/// failure message to log in that case. A path with no shorthand to expand
/// always resolves to itself, without a warning.
pub fn resolve_save_path(raw: &String) -> (r: (String, Option<String>))
    ensures
        r.1 is Some ==> r.0@ == raw@,
        plain_path(raw@) ==> r.0@ == raw@ && r.1 is None,
        tilde_slash_path(raw@) ==> r.1 is None && (exists|prefix: Seq<char>|
            r.0@ == prefix + after_tilde(raw@)),
{
    match expand_full(raw.as_str()) {
        Ok(expanded) => (expanded, Option::None),
        Err(message) => (raw.clone(), Option::Some(message)),
    }
}

/// Encodes a loaded image for one resolved path: for every deterministic
/// format the plan's bytes are exactly what the encoder yields for the path's
/// format and the image's pixels, and each error names the step that refused.
pub fn plan_save(image: &DecodedImage, path: String, expansion_warning: Option<String>) -> (r:
    Result<SavePlan, WriteError>)
    requires
        image.wf(),
    ensures
        match r {
            Ok(plan) => {
                &&& plan.path@ == path@
                &&& plan.expansion_warning == expansion_warning
                &&& spec_format_for_path(path@) matches Some(f) && (encoder_is_deterministic(f)
                    ==> encoded_image_of(
                    format_id(f),
                    image@.width as int,
                    image@.height as int,
                    image@.pixels,
                ) == Some(plan.bytes@))
            },
            Err(WriteError::UnsupportedExtension) => spec_format_for_path(path@) is None,
            Err(WriteError::EncodingFailed(_)) => spec_format_for_path(path@) matches Some(f) && (
            encoder_is_deterministic(f) ==> encoded_image_of(
                format_id(f),
                image@.width as int,
                image@.height as int,
                image@.pixels,
            ) is None),
        },
{
    match format_for_path(path.as_str()) {
        Option::None => Err(WriteError::UnsupportedExtension),
        Option::Some(format) => {
            match encode_to_bytes(format, image.width(), image.height(), image.pixels()) {
                Ok(bytes) => Ok(SavePlan { path, bytes, expansion_warning }),
                Err(message) => Err(WriteError::EncodingFailed(message)),
            }
        },
    }
}

/// One save request, short of the write: takes the slot's current value (a
/// copy `SharedImageSlot::read` handed out, so the slot's lock need only
/// cover the read), resolves the raw path, and encodes the held image. A save
/// before any successful load returns `NothingLoaded` — no bytes, no error.
/// On a path with no shorthand to expand, the outcome is owed: `Ready` at the
/// raw path whenever its extension selects a deterministic encoder that
/// accepts the bitmap, and otherwise `Failed` at the raw path with the error
/// that names what refused. On a `$`-free `~/…` path the extension survives
/// expansion, so `Ready` is owed on the same terms.
pub fn prepare_save(held: Option<DecodedImage>, raw_path: &String) -> (out: SaveOutcome)
    requires
        held matches Some(img) ==> img.wf(),
    ensures
        out is NothingLoaded <==> held is None,
        out matches SaveOutcome::Ready(plan) ==> (plan.expansion_warning is Some ==> plan.path@
            == raw_path@),
        out matches SaveOutcome::Ready(plan) ==> held matches Some(img) && spec_format_for_path(
            plan.path@,
        ) matches Some(f) && (encoder_is_deterministic(f) ==> encoded_image_of(
            format_id(f),
            img@.width as int,
            img@.height as int,
            img@.pixels,
        ) == Some(plan.bytes@)),
        out matches SaveOutcome::Failed { path, error, expansion_warning } ==> (
        expansion_warning is Some ==> path@ == raw_path@),
        out matches SaveOutcome::Failed { path, error, expansion_warning } ==> held matches Some(
            img,
        ) && match error {
            WriteError::UnsupportedExtension => spec_format_for_path(path@) is None,
            WriteError::EncodingFailed(_) => spec_format_for_path(path@) matches Some(f) && (
            encoder_is_deterministic(f) ==> encoded_image_of(
                format_id(f),
                img@.width as int,
                img@.height as int,
                img@.pixels,
            ) is None),
        },
        plain_path(raw_path@) ==> match out {
            SaveOutcome::NothingLoaded => true,
            SaveOutcome::Ready(plan) => plan.path@ == raw_path@ && plan.expansion_warning is None,
            SaveOutcome::Failed { path, error, expansion_warning } => path@ == raw_path@
                && expansion_warning is None,
        },
        (held is Some && plain_path(raw_path@) && spec_format_for_path(raw_path@) is Some
            && encoder_is_deterministic(spec_format_for_path(raw_path@)->Some_0)
            && encoded_image_of(
            format_id(spec_format_for_path(raw_path@)->Some_0),
            (held->Some_0)@.width as int,
            (held->Some_0)@.height as int,
            (held->Some_0)@.pixels,
        ) is Some) ==> (out matches SaveOutcome::Ready(plan) && plan.path@ == raw_path@),
        (held is Some && plain_path(raw_path@) && spec_format_for_path(raw_path@) is None) ==> (out
            matches SaveOutcome::Failed { path, error, .. } && path@ == raw_path@ && error matches
        WriteError::UnsupportedExtension),
        (held is Some && plain_path(raw_path@) && spec_format_for_path(raw_path@) is Some
            && encoder_is_deterministic(spec_format_for_path(raw_path@)->Some_0)
            && encoded_image_of(
            format_id(spec_format_for_path(raw_path@)->Some_0),
            (held->Some_0)@.width as int,
            (held->Some_0)@.height as int,
            (held->Some_0)@.pixels,
        ) is None) ==> (out matches SaveOutcome::Failed { path, error, .. } && path@ == raw_path@
            && error matches WriteError::EncodingFailed(_)),
        (held is Some && tilde_slash_path(raw_path@) && spec_format_for_path(after_tilde(raw_path@))
            is Some && encoder_is_deterministic(
            spec_format_for_path(after_tilde(raw_path@))->Some_0,
        ) && encoded_image_of(
            format_id(spec_format_for_path(after_tilde(raw_path@))->Some_0),
            (held->Some_0)@.width as int,
            (held->Some_0)@.height as int,
            (held->Some_0)@.pixels,
        ) is Some) ==> out is Ready,
{
    match held {
        Option::None => SaveOutcome::NothingLoaded,
        Option::Some(image) => {
            let (path, expansion_warning) = resolve_save_path(raw_path);
            proof {
                if tilde_slash_path(raw_path@) && spec_format_for_path(after_tilde(raw_path@))
                    is Some {
                    let tail = after_tilde(raw_path@);
                    let prefix = choose|prefix: Seq<char>| path@ == prefix + tail;
                    lemma_path_extension_append(prefix, tail);
                }
            }
            let failed_path = path.clone();
            let failed_warning = match &expansion_warning {
                Option::None => Option::None,
                Option::Some(message) => Option::Some(message.clone()),
            };
            match plan_save(&image, path, expansion_warning) {
                Ok(plan) => SaveOutcome::Ready(plan),
                Err(error) => SaveOutcome::Failed {
                    path: failed_path,
                    error,
                    expansion_warning: failed_warning,
                },
            }
        },
    }
}

/// Law: given a deterministic encoder, saving one loaded image to two paths
/// that select the same format yields byte-identical file content.
pub proof fn lemma_save_deterministic(
    width: int,
    height: int,
    pixels: Seq<u8>,
    p1: Seq<char>,
    p2: Seq<char>,
    b1: Seq<u8>,
    b2: Seq<u8>,
)
    requires
        spec_format_for_path(p1) is Some,
        encoder_is_deterministic(spec_format_for_path(p1)->Some_0),
        spec_format_for_path(p1) == spec_format_for_path(p2),
        encoded_image_of(format_id(spec_format_for_path(p1)->Some_0), width, height, pixels)
            == Some(b1),
        encoded_image_of(format_id(spec_format_for_path(p2)->Some_0), width, height, pixels)
            == Some(b2),
    ensures
        b1 == b2,
{
}

} // verus!
