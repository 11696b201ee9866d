//! Files uploaded to the local gateway: their stored names, their metadata, and
//! how a message block that points at one is replaced by its content.

use vstd::prelude::*;

use base64::Engine;

use crate::paths::{join_path, path_join};
use crate::text::{chars_of, has_prefix, opt_string_view, push_char, starts_with, trim, trim_seq};

verus! {

/// The Base64 text (standard alphabet, padded) the `base64` crate writes for some bytes.
pub uninterp spec fn base64_standard(bytes: Seq<u8>) -> Seq<char>;

/// Encodes bytes as Base64. Calls `Engine::encode` of
/// `base64::engine::general_purpose::STANDARD`, a function of the bytes alone; the
/// encoding is named, not spelled out. The crate panics when the output length
/// does not fit in `usize`, so such inputs are left out.
#[verifier::external_body]
fn encode_base64(bytes: &Vec<u8>) -> (res: String)
    requires
        bytes@.len() / 3 * 4 + 4 <= usize::MAX,
    ensures
        res@ == base64_standard(bytes@),
{
    base64::engine::general_purpose::STANDARD.encode(bytes)
}

/// The text some bytes hold when they are UTF-8, as `String::from_utf8` reads them.
pub uninterp spec fn utf8_text(bytes: Seq<u8>) -> Option<Seq<char>>;

/// Reads bytes as UTF-8 text. Calls `String::from_utf8`, a function of the bytes
/// alone; the decoding is named, not spelled out.
#[verifier::external_body]
fn decode_utf8(bytes: Vec<u8>) -> (res: Option<String>)
    ensures
        opt_string_view(res) == utf8_text(bytes@),
{
    String::from_utf8(bytes).ok()
}

/// The last component of a path, as `Path::file_name` gives it under the path rules
/// of the build target (none for a path ending in `..` or naming only a root).
pub uninterp spec fn path_file_name(path: Seq<char>) -> Option<Seq<char>>;

/// The last component of a path. Calls `std::path::Path::file_name`, a function of
/// the path alone for a given build target; its result is named, not spelled out.
#[verifier::external_body]
fn file_name_text(path: &str) -> (res: Option<String>)
    ensures
        opt_string_view(res) == path_file_name(path@),
{
    std::path::Path::new(path).file_name().and_then(|name| name.to_str()).map(|name| name.to_owned())
}

/// Where the gateway keeps uploaded files, under a configuration root.
pub fn gateway_files_root_from(config_root: &str) -> (res: String)
    ensures
        res@ == path_join(path_join(config_root@, "gateway"@), "files"@),
{
    join_path(join_path(config_root, "gateway").as_str(), "files")
}

/// Whether a character cannot stand in a stored file name.
pub open spec fn unsafe_name_char(c: char) -> bool {
    c == '/' || c == '\\' || c == ':' || c == '*' || c == '?' || c == '"' || c == '<' || c == '>'
        || c == '|' || c == '\0'
}

/// `s` with every character that cannot stand in a file name turned into `_`.
pub open spec fn replace_unsafe(s: Seq<char>) -> Seq<char> {
    s.map_values(|c: char| if unsafe_name_char(c) {
        '_'
    } else {
        c
    })
}

/// The name an upload is stored under: the last component of the trimmed name
/// (`upload.bin` when there is none), with unsafe characters replaced; `upload.bin`
/// when that leaves only whitespace.
pub open spec fn sanitized_name(filename: Seq<char>) -> Seq<char> {
    let candidate = match path_file_name(trim_seq(filename)) {
        Some(n) => n,
        None => "upload.bin"@,
    };
    let sanitized = replace_unsafe(candidate);
    if trim_seq(sanitized).len() == 0 {
        "upload.bin"@
    } else {
        sanitized
    }
}

/// The name an upload is stored under.
pub fn sanitize_filename(filename: &str) -> (res: String)
    ensures
        res@ == sanitized_name(filename@),
{
    let trimmed = trim(filename);
    let candidate = match file_name_text(trimmed.as_str()) {
        Some(n) => n,
        None => "upload.bin".to_string(),
    };
    proof {
        reveal_strlit("upload.bin");
    }
    let chars = chars_of(candidate.as_str());
    let mut sanitized = String::new();
    let mut i: usize = 0;
    while i < chars.len()
        invariant
            i <= chars@.len(),
            sanitized@ == replace_unsafe(chars@.take(i as int)),
        decreases chars@.len() - i,
    {
        let c = chars[i];
        let safe = if c == '/' || c == '\\' || c == ':' || c == '*' || c == '?' || c == '"' || c
            == '<' || c == '>' || c == '|' || c == '\0' {
            '_'
        } else {
            c
        };
        push_char(&mut sanitized, safe);
        assert(replace_unsafe(chars@.take(i + 1)) =~= replace_unsafe(chars@.take(i as int)).push(safe));
        i = i + 1;
    }
    assert(chars@.take(chars@.len() as int) =~= chars@);
    if trim(sanitized.as_str()).unicode_len() == 0 {
        "upload.bin".to_string()
    } else {
        sanitized
    }
}

/// What the gateway records about an uploaded file.
#[derive(Debug)]
pub struct StoredGatewayFileMeta {
    pub id: String,
    pub purpose: Option<String>,
    pub filename: String,
    pub mime_type: Option<String>,
    pub content_type: Option<String>,
    pub size_bytes: u64,
    pub bytes: u64,
    pub created_at: u64,
    pub downloadable: bool,
}

/// An uploaded file: its metadata and its content.
#[derive(Debug)]
pub struct StoredGatewayFile {
    pub meta: StoredGatewayFileMeta,
    pub bytes: Vec<u8>,
}

/// The media type of a file: the recorded MIME type, else the content type; none
/// when the one chosen is blank.
pub open spec fn effective_mime_spec(meta: StoredGatewayFileMeta) -> Option<Seq<char>> {
    let chosen = match opt_string_view(meta.mime_type) {
        Some(m) => Some(m),
        None => opt_string_view(meta.content_type),
    };
    match chosen {
        Some(m) => if trim_seq(m).len() == 0 {
            None
        } else {
            Some(m)
        },
        None => None,
    }
}

impl StoredGatewayFileMeta {
    /// The media type of the file.
    pub fn effective_mime_type(&self) -> (res: Option<String>)
        ensures
            opt_string_view(res) == effective_mime_spec(*self),
    {
        let chosen = match &self.mime_type {
            Some(m) => Some(m.clone()),
            None => match &self.content_type {
                Some(c) => Some(c.clone()),
                None => None,
            },
        };
        match chosen {
            Some(m) => if trim(m.as_str()).unicode_len() == 0 {
                None
            } else {
                Some(m)
            },
            None => None,
        }
    }
}

/// Why a block that points at an uploaded file cannot be sent.
#[derive(Debug, PartialEq, Eq)]
pub enum GatewayFileError {
    /// The request is wrong; the message says how.
    BadRequest(String),
}

/// What an image block that points at an uploaded file becomes.
#[derive(Debug)]
pub enum ImageResolution {
    /// The reference, kept as it was.
    File { file_id: String },
    /// The file's content, in Base64.
    Base64 { media_type: String, data: String },
}

/// What a document block that points at an uploaded file becomes.
#[derive(Debug)]
pub enum DocumentResolution {
    /// The reference, kept as it was.
    File { file_id: String },
    /// The file's content, in Base64.
    Base64 { media_type: String, data: String },
    /// The file's content as text.
    Text { media_type: String, data: String },
}

/// The media type used for a file: its effective one, else a generic binary type.
pub open spec fn media_type_spec(meta: StoredGatewayFileMeta) -> Seq<char> {
    match effective_mime_spec(meta) {
        Some(m) => m,
        None => "application/octet-stream"@,
    }
}

/// The message for an unknown file id.
pub open spec fn unknown_file_message(file_id: Seq<char>) -> Seq<char> {
    "Unknown local gateway file_id `"@ + file_id + "`."@
}

/// Whether a file's content can be encoded without the length overflowing.
pub open spec fn encodable(file: StoredGatewayFile) -> bool {
    file.bytes@.len() / 3 * 4 + 4 <= usize::MAX
}

fn unknown_file(file_id: &str) -> (res: GatewayFileError)
    ensures
        res matches GatewayFileError::BadRequest(m) && m@ == unknown_file_message(file_id@),
{
    let mut m = "Unknown local gateway file_id `".to_string();
    m.append(file_id);
    m.append("`.");
    GatewayFileError::BadRequest(m)
}

fn media_type_of(meta: &StoredGatewayFileMeta) -> (res: String)
    ensures
        res@ == media_type_spec(*meta),
{
    match meta.effective_mime_type() {
        Some(m) => m,
        None => "application/octet-stream".to_string(),
    }
}

/// Resolves an image block that points at an uploaded file: an unknown file is
/// kept as a reference when that is allowed and refused otherwise; a known file
/// must have an `image/` media type and is sent as Base64.
pub fn materialize_image_file(file_id: String, stored: Option<StoredGatewayFile>, allow_unresolved: bool) -> (res:
    Result<ImageResolution, GatewayFileError>)
    requires
        stored matches Some(f) ==> encodable(f),
    ensures
        match stored {
            None => if allow_unresolved {
                res matches Ok(ImageResolution::File { file_id: f }) && f == file_id
            } else {
                res matches Err(GatewayFileError::BadRequest(m)) && m@ == unknown_file_message(file_id@)
            },
            Some(file) => {
                let media = media_type_spec(file.meta);
                if has_prefix(media, "image/"@) {
                    res matches Ok(ImageResolution::Base64 { media_type, data }) && media_type@ == media
                        && data@ == base64_standard(file.bytes@)
                } else {
                    res matches Err(GatewayFileError::BadRequest(m)) && m@ == "File `"@ + file_id@ + "` is `"@
                        + media + "` and cannot be used as an image block."@
                }
            },
        },
{
    match stored {
        None => if allow_unresolved {
            Ok(ImageResolution::File { file_id })
        } else {
            Err(unknown_file(file_id.as_str()))
        },
        Some(file) => {
            let media = media_type_of(&file.meta);
            if !starts_with(media.as_str(), "image/") {
                let mut m = "File `".to_string();
                m.append(file_id.as_str());
                m.append("` is `");
                m.append(media.as_str());
                m.append("` and cannot be used as an image block.");
                return Err(GatewayFileError::BadRequest(m));
            }
            let data = encode_base64(&file.bytes);
            Ok(ImageResolution::Base64 { media_type: media, data })
        },
    }
}

/// Resolves a document block that points at an uploaded file: an unknown file is
/// kept as a reference when that is allowed and refused otherwise; a PDF is sent
/// as Base64, plain text as text (refused when not UTF-8), anything else refused.
pub fn materialize_document_file(file_id: String, stored: Option<StoredGatewayFile>, allow_unresolved: bool) -> (res:
    Result<DocumentResolution, GatewayFileError>)
    requires
        stored matches Some(f) ==> encodable(f),
    ensures
        match stored {
            None => if allow_unresolved {
                res matches Ok(DocumentResolution::File { file_id: f }) && f == file_id
            } else {
                res matches Err(GatewayFileError::BadRequest(m)) && m@ == unknown_file_message(file_id@)
            },
            Some(file) => {
                let media = media_type_spec(file.meta);
                if media == "application/pdf"@ {
                    res matches Ok(DocumentResolution::Base64 { media_type, data }) && media_type@ == media
                        && data@ == base64_standard(file.bytes@)
                } else if media == "text/plain"@ {
                    match utf8_text(file.bytes@) {
                        Some(t) => res matches Ok(DocumentResolution::Text { media_type, data })
                            && media_type@ == media && data@ == t,
                        None => res matches Err(GatewayFileError::BadRequest(m)) && m@ == "File `"@ + file_id@
                            + "` is not valid UTF-8 text/plain content."@,
                    }
                } else {
                    res matches Err(GatewayFileError::BadRequest(m)) && m@ == "File `"@ + file_id@ + "` is `"@
                        + media
                        + "`. Document blocks currently support local `application/pdf` and `text/plain` uploads."@
                }
            },
        },
{
    match stored {
        None => if allow_unresolved {
            Ok(DocumentResolution::File { file_id })
        } else {
            Err(unknown_file(file_id.as_str()))
        },
        Some(file) => {
            let media = media_type_of(&file.meta);
            if crate::text::str_eq(media.as_str(), "application/pdf") {
                let data = encode_base64(&file.bytes);
                Ok(DocumentResolution::Base64 { media_type: media, data })
            } else if crate::text::str_eq(media.as_str(), "text/plain") {
                match decode_utf8(file.bytes) {
                    Some(text) => Ok(DocumentResolution::Text { media_type: media, data: text }),
                    None => {
                        let mut m = "File `".to_string();
                        m.append(file_id.as_str());
                        m.append("` is not valid UTF-8 text/plain content.");
                        Err(GatewayFileError::BadRequest(m))
                    },
                }
            } else {
                let mut m = "File `".to_string();
                m.append(file_id.as_str());
                m.append("` is `");
                m.append(media.as_str());
                m.append(
                    "`. Document blocks currently support local `application/pdf` and `text/plain` uploads.",
                );
                Err(GatewayFileError::BadRequest(m))
            }
        },
    }
}

} // verus!
