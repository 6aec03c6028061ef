//! Choosing the codec of an object from its headers and its key.
//!
//! Three signals are consulted in a fixed order: the `Content-Encoding`
//! header, the `Content-Type` header, and the extension of the object key.
//! The first one that names a codec wins.

use crate::text::str_eq;
use vstd::prelude::*;

verus! {

/// How an object body is encoded. `Auto` is a configuration-time marker that
/// is resolved to one of the other three before a body is decoded.
#[derive(Copy, Clone, Debug, PartialEq, Eq, Structural)]
pub enum Compression {
    Auto,
    Uncompressed,
    Gzip,
    Zstd,
}

impl Default for Compression {
    fn default() -> (c: Self)
        ensures
            c == Compression::Auto,
    {
        Compression::Auto
    }
}

impl Compression {
    /// A codec that a body can actually be decoded with.
    pub open spec fn is_concrete(self) -> bool {
        self != Compression::Auto
    }
}

/// The codec named by a `Content-Encoding` header value.
pub open spec fn content_encoding_rule(content_encoding: Seq<char>) -> Option<Compression> {
    if content_encoding == "gzip"@ {
        Some(Compression::Gzip)
    } else if content_encoding == "zstd"@ {
        Some(Compression::Zstd)
    } else {
        None
    }
}

/// The codec named by a `Content-Type` header value.
pub open spec fn content_type_rule(content_type: Seq<char>) -> Option<Compression> {
    if content_type == "application/gzip"@ || content_type == "application/x-gzip"@ {
        Some(Compression::Gzip)
    } else if content_type == "application/zstd"@ {
        Some(Compression::Zstd)
    } else {
        None
    }
}

/// The codec named by a file extension (given without its leading dot).
pub open spec fn extension_rule(extension: Option<Seq<char>>) -> Option<Compression> {
    match extension {
        Some(e) => if e == "gz"@ {
            Some(Compression::Gzip)
        } else if e == "zst"@ {
            Some(Compression::Zstd)
        } else {
            None
        },
        None => None,
    }
}

/// The codec named by an optional `Content-Encoding` header: an absent
/// header names nothing.
pub open spec fn content_encoding_header(header: Option<Seq<char>>) -> Option<Compression> {
    match header {
        Some(h) => content_encoding_rule(h),
        None => None,
    }
}

/// The codec named by an optional `Content-Type` header: an absent header
/// names nothing.
pub open spec fn content_type_header(header: Option<Seq<char>>) -> Option<Compression> {
    match header {
        Some(h) => content_type_rule(h),
        None => None,
    }
}

/// The first of `a`, `b`, `c` that is present.
pub open spec fn first_some(
    a: Option<Compression>,
    b: Option<Compression>,
    c: Option<Compression>,
) -> Option<Compression> {
    if a is Some {
        a
    } else if b is Some {
        b
    } else {
        c
    }
}

/// The characters of an optional string.
pub open spec fn opt_view(s: Option<&str>) -> Option<Seq<char>> {
    match s {
        Some(v) => Some(v@),
        None => None,
    }
}

/// What `std::path::Path::extension` finds in `key` read as a path: the part
/// of its file name after the final dot, without the dot, if there is one.
pub uninterp spec fn path_extension(key: Seq<char>) -> Option<Seq<char>>;

/// The codec detected for an object: the first of the content-encoding,
/// content-type and key-extension rules that names one.
pub open spec fn detected(
    key: Seq<char>,
    content_encoding: Option<Seq<char>>,
    content_type: Option<Seq<char>>,
) -> Option<Compression> {
    first_some(
        content_encoding_header(content_encoding),
        content_type_header(content_type),
        extension_rule(path_extension(key)),
    )
}

/// The codec a body is decoded with: the configured one, or for `Auto` the
/// detected one, falling back to no compression.
pub open spec fn resolved(
    configured: Compression,
    key: Seq<char>,
    content_encoding: Option<Seq<char>>,
    content_type: Option<Seq<char>>,
) -> Compression {
    if configured == Compression::Auto {
        match detected(key, content_encoding, content_type) {
            Some(c) => c,
            None => Compression::Uncompressed,
        }
    } else {
        configured
    }
}

/// What a body is decoded with is never `Auto`: detection names `Gzip` or
/// `Zstd` only, and where it names nothing the body is taken as it is.
pub proof fn lemma_resolved_is_concrete(
    configured: Compression,
    key: Seq<char>,
    content_encoding: Option<Seq<char>>,
    content_type: Option<Seq<char>>,
)
    ensures
        resolved(configured, key, content_encoding, content_type).is_concrete(),
        configured.is_concrete() ==> resolved(configured, key, content_encoding, content_type)
            == configured,
        detected(key, content_encoding, content_type) matches Some(c) ==> c == Compression::Gzip
            || c == Compression::Zstd,
{
}

/// Calls `std::path::Path::extension` on `key` and hands the extension back
/// as a string slice of `key`. Trusted: the result is the one that
/// `path_extension` names.
#[verifier::external_body]
fn key_extension<'a>(key: &'a str) -> (ext: Option<&'a str>)
    ensures
        opt_view(ext) == path_extension(key@),
{
    std::path::Path::new(key).extension().and_then(|e| e.to_str())
}

/// The codec that a `Content-Encoding` header value names, if any.
pub fn content_encoding_to_compression(content_encoding: &str) -> (c: Option<Compression>)
    ensures
        c == content_encoding_rule(content_encoding@),
{
    if str_eq(content_encoding, "gzip") {
        Some(Compression::Gzip)
    } else if str_eq(content_encoding, "zstd") {
        Some(Compression::Zstd)
    } else {
        None
    }
}

/// The codec that a `Content-Type` header value names, if any.
pub fn content_type_to_compression(content_type: &str) -> (c: Option<Compression>)
    ensures
        c == content_type_rule(content_type@),
{
    if str_eq(content_type, "application/gzip") || str_eq(content_type, "application/x-gzip") {
        Some(Compression::Gzip)
    } else if str_eq(content_type, "application/zstd") {
        Some(Compression::Zstd)
    } else {
        None
    }
}

/// The codec that a file extension names, if any.
pub fn extension_to_compression(extension: Option<&str>) -> (c: Option<Compression>)
    ensures
        c == extension_rule(opt_view(extension)),
{
    match extension {
        Some(e) => {
            if str_eq(e, "gz") {
                Some(Compression::Gzip)
            } else if str_eq(e, "zst") {
                Some(Compression::Zstd)
            } else {
                None
            }
        },
        None => None,
    }
}

/// The codec that the extension of an object key names, if any.
pub fn object_key_to_compression(key: &str) -> (c: Option<Compression>)
    ensures
        c == extension_rule(path_extension(key@)),
{
    extension_to_compression(key_extension(key))
}

/// Tries to determine the compression of an object from, in this order, its
/// content encoding, its content type and the extension of its key.
pub fn determine_compression(
    key: &str,
    content_encoding: Option<&str>,
    content_type: Option<&str>,
) -> (c: Option<Compression>)
    ensures
        c == detected(key@, opt_view(content_encoding), opt_view(content_type)),
        c matches Some(k) ==> k.is_concrete(),
{
    let by_encoding = match content_encoding {
        Some(e) => content_encoding_to_compression(e),
        None => None,
    };
    if by_encoding.is_some() {
        return by_encoding;
    }
    let by_type = match content_type {
        Some(t) => content_type_to_compression(t),
        None => None,
    };
    if by_type.is_some() {
        return by_type;
    }
    object_key_to_compression(key)
}

/// Resolves the configured compression against one object: anything but
/// `Auto` is taken as it is; `Auto` becomes the detected codec, or
/// `Uncompressed` where nothing is detected.
pub fn resolve_compression(
    configured: Compression,
    key: &str,
    content_encoding: Option<&str>,
    content_type: Option<&str>,
) -> (c: Compression)
    ensures
        c == resolved(configured, key@, opt_view(content_encoding), opt_view(content_type)),
        c.is_concrete(),
{
    match configured {
        Compression::Auto => match determine_compression(key, content_encoding, content_type) {
            Some(found) => found,
            None => Compression::Uncompressed,
        },
        Compression::Uncompressed => Compression::Uncompressed,
        Compression::Gzip => Compression::Gzip,
        Compression::Zstd => Compression::Zstd,
    }
}

} // verus!
