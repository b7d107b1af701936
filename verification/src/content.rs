//! What a piece of content is: its kind, and the description of one decoded frame.

use vstd::prelude::*;

verus! {

/// Kind of content an output shows.
#[derive(Debug, Clone, Copy, PartialEq, Eq, Structural)]
pub enum ContentType {
    Image,
    Video,
}

/// One decoded frame as the engine sees it: its size, its kind, and the
/// session it was decoded for. The pixels stay with the caller.
#[derive(Debug, Clone, Copy, PartialEq, Eq, Structural)]
pub struct ContentFrame {
    pub width: u32,
    pub height: u32,
    pub kind: ContentType,
    pub session_id: u64,
}

/// What is remembered of a file so that it need not be read again.
#[derive(Debug, Clone, Copy, PartialEq, Eq, Structural)]
pub struct FileMetadata {
    /// Seconds since the epoch at which the file was last modified.
    pub mtime: u64,
    pub size: u64,
    /// Kind of the content as a number: 0 for an image, 1 for a video.
    pub content_type: u8,
    /// Seconds since the epoch at which the file was found.
    pub discovered_at: u64,
}

/// A named list of files to show.
#[derive(Debug)]
pub struct Playlist {
    pub paths: Vec<String>,
    pub strategy: crate::config::SortingStrategy,
    pub enabled: bool,
}

/// Bytes of a file that are looked at to tell its kind.
pub const HEADER_LEN: usize = 16;

/// The number a kind of content is stored as.
pub open spec fn code_of(kind: ContentType) -> u8 {
    match kind {
        ContentType::Image => 0,
        ContentType::Video => 1,
    }
}

/// The kind of content a stored number stands for.
pub open spec fn kind_of_code(code: u8) -> Option<ContentType> {
    if code == 0 {
        Some(ContentType::Image)
    } else if code == 1 {
        Some(ContentType::Video)
    } else {
        None
    }
}

/// Whether `bytes` has `magic` at `offset`.
pub open spec fn has_magic(bytes: Seq<u8>, offset: int, magic: Seq<u8>) -> bool {
    offset + magic.len() <= bytes.len() && bytes.subrange(offset, offset + magic.len()) == magic
}

/// The kind of content that the first bytes of a file announce: JPEG, PNG,
/// GIF and WebP are images, Matroska (with WebM) and MP4 are video.
pub open spec fn kind_of_header(header: Seq<u8>) -> Option<ContentType> {
    if has_magic(header, 0, seq![0xFFu8, 0xD8u8, 0xFFu8]) {
        Some(ContentType::Image)
    } else if has_magic(header, 0, seq![0x89u8, 0x50u8, 0x4Eu8, 0x47u8]) {
        Some(ContentType::Image)
    } else if has_magic(header, 0, seq![0x47u8, 0x49u8, 0x46u8, 0x38u8]) {
        Some(ContentType::Image)
    } else if has_magic(header, 0, seq![0x52u8, 0x49u8, 0x46u8, 0x46u8]) && has_magic(
        header,
        8,
        seq![0x57u8, 0x45u8, 0x42u8, 0x50u8],
    ) {
        Some(ContentType::Image)
    } else if has_magic(header, 0, seq![0x1Au8, 0x45u8, 0xDFu8, 0xA3u8]) {
        Some(ContentType::Video)
    } else if has_magic(header, 4, seq![0x66u8, 0x74u8, 0x79u8, 0x70u8]) {
        Some(ContentType::Video)
    } else {
        None
    }
}

impl ContentType {
    /// The number the kind is stored as.
    pub fn code(self) -> (code: u8)
        ensures
            code == code_of(self),
            kind_of_code(code) == Some(self),
    {
        match self {
            ContentType::Image => 0,
            ContentType::Video => 1,
        }
    }

    /// The kind a stored number stands for, if any.
    pub fn from_code(code: u8) -> (kind: Option<ContentType>)
        ensures
            kind == kind_of_code(code),
            kind matches Some(k) ==> code_of(k) == code,
    {
        if code == 0 {
            Some(ContentType::Image)
        } else if code == 1 {
            Some(ContentType::Video)
        } else {
            None
        }
    }

    /// Tells the kind of a file from its first sixteen bytes. A file of
    /// another format has no kind.
    pub fn get_content_type(header: &[u8; 16]) -> (kind: Option<ContentType>)
        ensures
            kind == kind_of_header(header@),
    {
        let h = header;
        proof {
            assert forall|offset: int, magic: Seq<u8>|
                0 <= offset && offset + magic.len() <= 16 implies (#[trigger] has_magic(
                h@,
                offset,
                magic,
            ) <==> forall|i: int| 0 <= i < magic.len() ==> h@[offset + i] == magic[i]) by {
                let sub = h@.subrange(offset, offset + magic.len());
                if forall|i: int| 0 <= i < magic.len() ==> h@[offset + i] == magic[i] {
                    assert(sub =~= magic);
                }
                if sub == magic {
                    assert forall|i: int| 0 <= i < magic.len() implies h@[offset + i]
                        == magic[i] by {
                        assert(sub[i] == h@[offset + i]);
                    }
                }
            }
        }
        if h[0] == 0xFF && h[1] == 0xD8 && h[2] == 0xFF {
            Some(ContentType::Image)
        } else if h[0] == 0x89 && h[1] == 0x50 && h[2] == 0x4E && h[3] == 0x47 {
            Some(ContentType::Image)
        } else if h[0] == 0x47 && h[1] == 0x49 && h[2] == 0x46 && h[3] == 0x38 {
            Some(ContentType::Image)
        } else if h[0] == 0x52 && h[1] == 0x49 && h[2] == 0x46 && h[3] == 0x46 && h[8] == 0x57
            && h[9] == 0x45 && h[10] == 0x42 && h[11] == 0x50 {
            Some(ContentType::Image)
        } else if h[0] == 0x1A && h[1] == 0x45 && h[2] == 0xDF && h[3] == 0xA3 {
            Some(ContentType::Video)
        } else if h[4] == 0x66 && h[5] == 0x74 && h[6] == 0x79 && h[7] == 0x70 {
            Some(ContentType::Video)
        } else {
            None
        }
    }
}

impl FileMetadata {
    /// Whether what is remembered still holds of a file last modified at
    /// `mtime`: it does while the time of modification is the remembered one.
    pub fn is_file_valid(&self, mtime: u64) -> (valid: bool)
        ensures
            valid == (self.mtime == mtime),
    {
        self.mtime == mtime
    }

    /// The kind of content that is remembered of the file, if the stored number stands for one.
    pub fn kind(&self) -> (kind: Option<ContentType>)
        ensures
            kind == kind_of_code(self.content_type),
    {
        ContentType::from_code(self.content_type)
    }
}

} // verus!
