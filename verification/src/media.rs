//! What a pile of bytes actually is, sniffed from its magic number rather
//! than believed, and how large a picture is, read out of its header.
use vstd::prelude::*;

verus! {

/// Every kind of media the sniffers below can name.
#[derive(Clone, Copy, Debug, PartialEq, Eq)]
pub enum MediaKind {
    Png,
    Jpeg,
    Gif,
    Webp,
    Mp4,
    QuickTime,
    Webm,
    Matroska,
    OggVideo,
    Mpeg,
    Flac,
    Wav,
    M4a,
    OggAudio,
}

impl MediaKind {
    /// The content type a browser knows this kind by.
    pub open spec fn spec_mime(self) -> &'static str {
        match self {
            MediaKind::Png => "image/png",
            MediaKind::Jpeg => "image/jpeg",
            MediaKind::Gif => "image/gif",
            MediaKind::Webp => "image/webp",
            MediaKind::Mp4 => "video/mp4",
            MediaKind::QuickTime => "video/quicktime",
            MediaKind::Webm => "video/webm",
            MediaKind::Matroska => "video/x-matroska",
            MediaKind::OggVideo => "video/ogg",
            MediaKind::Mpeg => "audio/mpeg",
            MediaKind::Flac => "audio/flac",
            MediaKind::Wav => "audio/wav",
            MediaKind::M4a => "audio/mp4",
            MediaKind::OggAudio => "audio/ogg",
        }
    }

    #[verifier::when_used_as_spec(spec_mime)]
    pub fn mime(self) -> (r: &'static str)
        ensures
            r == self.spec_mime(),
    {
        match self {
            MediaKind::Png => "image/png",
            MediaKind::Jpeg => "image/jpeg",
            MediaKind::Gif => "image/gif",
            MediaKind::Webp => "image/webp",
            MediaKind::Mp4 => "video/mp4",
            MediaKind::QuickTime => "video/quicktime",
            MediaKind::Webm => "video/webm",
            MediaKind::Matroska => "video/x-matroska",
            MediaKind::OggVideo => "video/ogg",
            MediaKind::Mpeg => "audio/mpeg",
            MediaKind::Flac => "audio/flac",
            MediaKind::Wav => "audio/wav",
            MediaKind::M4a => "audio/mp4",
            MediaKind::OggAudio => "audio/ogg",
        }
    }
}

/// The content type of a kind, when there is one.
pub open spec fn mime_of(kind: Option<MediaKind>) -> Option<&'static str> {
    match kind {
        Some(k) => Some(k.spec_mime()),
        None => None,
    }
}

/// `word` occurs in `s` starting at offset `at`.
pub open spec fn has_at(s: Seq<u8>, at: int, word: Seq<u8>) -> bool {
    0 <= at && at + word.len() <= s.len() && s.subrange(at, at + word.len()) == word
}

/// `s` begins with `word`.
pub open spec fn has_prefix(s: Seq<u8>, word: Seq<u8>) -> bool {
    has_at(s, 0, word)
}

/// `word` occurs somewhere inside the first `limit` bytes of `s`.
pub open spec fn occurs_within(s: Seq<u8>, limit: int, word: Seq<u8>) -> bool {
    exists|i: int|
        #![trigger has_at(s, i, word)]
        0 <= i && i + word.len() <= limit && has_at(s, i, word)
}

pub open spec fn png_magic() -> Seq<u8> {
    seq![0x89u8, 0x50, 0x4E, 0x47, 0x0D, 0x0A, 0x1A, 0x0A]
}

pub open spec fn riff() -> Seq<u8> {
    seq![0x52u8, 0x49, 0x46, 0x46]
}

pub open spec fn ftyp() -> Seq<u8> {
    seq![0x66u8, 0x74, 0x79, 0x70]
}

pub open spec fn ogg_magic() -> Seq<u8> {
    seq![0x4Fu8, 0x67, 0x67, 0x53]
}

/// The image a pile of bytes is, by its magic number.
pub open spec fn image_kind(s: Seq<u8>) -> Option<MediaKind> {
    if has_prefix(s, png_magic()) {
        Some(MediaKind::Png)
    } else if has_prefix(s, seq![0xFFu8, 0xD8, 0xFF]) {
        Some(MediaKind::Jpeg)
    } else if has_prefix(s, seq![0x47u8, 0x49, 0x46, 0x38, 0x37, 0x61]) || has_prefix(
        s,
        seq![0x47u8, 0x49, 0x46, 0x38, 0x39, 0x61],
    ) {
        Some(MediaKind::Gif)
    } else if has_prefix(s, riff()) && s.len() >= 12 && has_at(
        s,
        8,
        seq![0x57u8, 0x45, 0x42, 0x50],
    ) {
        Some(MediaKind::Webp)
    } else {
        None
    }
}

/// The video container a pile of bytes is, by its magic number.
pub open spec fn video_kind(s: Seq<u8>) -> Option<MediaKind> {
    if s.len() >= 12 && has_at(s, 4, ftyp()) {
        if has_at(s, 8, seq![0x71u8, 0x74, 0x20, 0x20]) {
            Some(MediaKind::QuickTime)
        } else {
            Some(MediaKind::Mp4)
        }
    } else if has_prefix(s, seq![0x1Au8, 0x45, 0xDF, 0xA3]) {
        if occurs_within(s, 64, seq![0x77u8, 0x65, 0x62, 0x6D]) {
            Some(MediaKind::Webm)
        } else {
            Some(MediaKind::Matroska)
        }
    } else if has_prefix(s, ogg_magic()) {
        Some(MediaKind::OggVideo)
    } else {
        None
    }
}

/// The audio a pile of bytes is, by its magic number.
pub open spec fn audio_kind(s: Seq<u8>) -> Option<MediaKind> {
    if has_prefix(s, seq![0x49u8, 0x44, 0x33]) || has_prefix(s, seq![0xFFu8, 0xFB])
        || has_prefix(s, seq![0xFFu8, 0xF3]) || has_prefix(s, seq![0xFFu8, 0xF2]) {
        Some(MediaKind::Mpeg)
    } else if has_prefix(s, seq![0x66u8, 0x4C, 0x61, 0x43]) {
        Some(MediaKind::Flac)
    } else if has_prefix(s, riff()) && s.len() >= 12 && has_at(
        s,
        8,
        seq![0x57u8, 0x41, 0x56, 0x45],
    ) {
        Some(MediaKind::Wav)
    } else if s.len() >= 12 && has_at(s, 4, ftyp()) && (has_at(s, 8, seq![0x4Du8, 0x34, 0x41])
        || has_at(s, 8, seq![0x4Du8, 0x34, 0x42])) {
        Some(MediaKind::M4a)
    } else if has_prefix(s, ogg_magic()) && (occurs_within(
        s,
        64,
        seq![0x4Fu8, 0x70, 0x75, 0x73, 0x48, 0x65, 0x61, 0x64],
    ) || occurs_within(s, 64, seq![0x76u8, 0x6F, 0x72, 0x62, 0x69, 0x73])) {
        Some(MediaKind::OggAudio)
    } else {
        None
    }
}

/// Whether `word` stands in `bytes` at offset `at`.
fn holds_at(bytes: &[u8], at: usize, word: &[u8]) -> (r: bool)
    ensures
        r == has_at(bytes@, at as int, word@),
{
    if at > bytes.len() || word.len() > bytes.len() - at {
        return false;
    }
    let mut i: usize = 0;
    while i < word.len()
        invariant
            at + word.len() <= bytes.len(),
            i <= word.len(),
            forall|j: int| 0 <= j < i ==> bytes@[at + j] == word@[j],
        decreases word.len() - i,
    {
        if bytes[at + i] != word[i] {
            assert(bytes@.subrange(at as int, at + word@.len())[i as int] != word@[i as int]);
            return false;
        }
        i = i + 1;
    }
    assert(bytes@.subrange(at as int, at + word@.len()) =~= word@);
    true
}

/// Whether `bytes` begins with `word`.
fn starts_with(bytes: &[u8], word: &[u8]) -> (r: bool)
    ensures
        r == has_prefix(bytes@, word@),
{
    holds_at(bytes, 0, word)
}

/// Whether `word` occurs anywhere in the first `limit` bytes.
fn found_within(bytes: &[u8], limit: usize, word: &[u8]) -> (r: bool)
    requires
        word@.len() > 0,
    ensures
        r == occurs_within(bytes@, if bytes@.len() < limit { bytes@.len() as int } else { limit as int }, word@),
{
    let head = if bytes.len() < limit { bytes.len() } else { limit };
    let ghost s = bytes@;
    let ghost w = word@;
    if word.len() > head {
        assert forall|i: int| 0 <= i && i + w.len() <= head implies !has_at(s, i, w) by {}
        return false;
    }
    let mut i: usize = 0;
    while i <= head - word.len()
        invariant
            head == (if bytes.len() < limit { bytes.len() } else { limit }),
            0 < word.len() <= head,
            i <= head - word.len() + 1,
            forall|j: int| 0 <= j < i && j + w.len() <= head ==> !#[trigger] has_at(s, j, w),
            s == bytes@,
            w == word@,
        decreases head - i,
    {
        if holds_at(bytes, i, word) {
            assert(has_at(s, i as int, w));
            return true;
        }
        i = i + 1;
    }
    false
}

fn image_kind_of(bytes: &[u8]) -> (r: Option<MediaKind>)
    ensures
        r == image_kind(bytes@),
{
    if starts_with(bytes, &[0x89, 0x50, 0x4E, 0x47, 0x0D, 0x0A, 0x1A, 0x0A]) {
        return Some(MediaKind::Png);
    }
    if starts_with(bytes, &[0xFF, 0xD8, 0xFF]) {
        return Some(MediaKind::Jpeg);
    }
    if starts_with(bytes, &[0x47, 0x49, 0x46, 0x38, 0x37, 0x61]) || starts_with(
        bytes,
        &[0x47, 0x49, 0x46, 0x38, 0x39, 0x61],
    ) {
        return Some(MediaKind::Gif);
    }
    // RIFF is a container. Only the ones whose fourth chunk word is WEBP are
    // images; the rest are audio and video that no browser will draw.
    if starts_with(bytes, &[0x52, 0x49, 0x46, 0x46]) && bytes.len() >= 12 && holds_at(
        bytes,
        8,
        &[0x57, 0x45, 0x42, 0x50],
    ) {
        return Some(MediaKind::Webp);
    }
    None
}

/// What kind of image these bytes are, by their magic number: PNG, JPEG,
/// GIF or WebP, and nothing else.
pub fn image_type(bytes: &[u8]) -> (r: Option<&'static str>)
    ensures
        r == mime_of(image_kind(bytes@)),
{
    match image_kind_of(bytes) {
        Some(kind) => Some(kind.mime()),
        None => None,
    }
}

/// What kind of video these bytes are, by their magic number: ISO base
/// media (mp4 or QuickTime), Matroska (WebM or not) and Ogg.
pub fn video_type(bytes: &[u8]) -> (r: Option<&'static str>)
    ensures
        r == mime_of(video_kind(bytes@)),
{
    // ISO base media: the box length comes first, so the name is at four.
    if bytes.len() >= 12 && holds_at(bytes, 4, &[0x66, 0x74, 0x79, 0x70]) {
        return Some(
            if holds_at(bytes, 8, &[0x71, 0x74, 0x20, 0x20]) {
                "video/quicktime"
            } else {
                "video/mp4"
            },
        );
    }
    // Matroska, of which WebM is a profile, named by a DocType that sits
    // somewhere in the first 64 bytes.
    if starts_with(bytes, &[0x1A, 0x45, 0xDF, 0xA3]) {
        return Some(
            if found_within(bytes, 64, &[0x77, 0x65, 0x62, 0x6D]) {
                "video/webm"
            } else {
                "video/x-matroska"
            },
        );
    }
    if starts_with(bytes, &[0x4F, 0x67, 0x67, 0x53]) {
        return Some("video/ogg");
    }
    None
}

/// What kind of audio these bytes are, by their magic number. Asked before
/// [`video_type`], because two of these containers are the same containers
/// a video uses and only their contents tell them apart.
pub fn audio_type(bytes: &[u8]) -> (r: Option<&'static str>)
    ensures
        r == mime_of(audio_kind(bytes@)),
{
    // A tagged MP3, and an untagged one by its frame sync.
    if starts_with(bytes, &[0x49, 0x44, 0x33]) || starts_with(bytes, &[0xFF, 0xFB])
        || starts_with(bytes, &[0xFF, 0xF3]) || starts_with(bytes, &[0xFF, 0xF2]) {
        return Some("audio/mpeg");
    }
    if starts_with(bytes, &[0x66, 0x4C, 0x61, 0x43]) {
        return Some("audio/flac");
    }
    if starts_with(bytes, &[0x52, 0x49, 0x46, 0x46]) && bytes.len() >= 12 && holds_at(
        bytes,
        8,
        &[0x57, 0x41, 0x56, 0x45],
    ) {
        return Some("audio/wav");
    }
    // ISO base media again, told apart from a clip by its brand.
    if bytes.len() >= 12 && holds_at(bytes, 4, &[0x66, 0x74, 0x79, 0x70]) && (holds_at(
        bytes,
        8,
        &[0x4D, 0x34, 0x41],
    ) || holds_at(bytes, 8, &[0x4D, 0x34, 0x42])) {
        return Some("audio/mp4");
    }
    // Ogg carries audio and video both; Opus and Vorbis name themselves in
    // the first page, and Theora falls through to `video_type`.
    if starts_with(bytes, &[0x4F, 0x67, 0x67, 0x53]) {
        if found_within(bytes, 64, &[0x4F, 0x70, 0x75, 0x73, 0x48, 0x65, 0x61, 0x64]) {
            return Some("audio/ogg");
        }
        if found_within(bytes, 64, &[0x76, 0x6F, 0x72, 0x62, 0x69, 0x73]) {
            return Some("audio/ogg");
        }
    }
    None
}

/// A big-endian 16-bit number from the first two bytes.
pub open spec fn be16_of(s: Seq<u8>) -> int {
    s[0] * 256 + s[1]
}

/// A big-endian 32-bit number from the first four bytes.
pub open spec fn be32_of(s: Seq<u8>) -> int {
    s[0] * 0x100_0000 + s[1] * 0x1_0000 + s[2] * 0x100 + s[3]
}

/// A little-endian 16-bit number from the first two bytes.
pub open spec fn le16_of(s: Seq<u8>) -> int {
    s[0] + s[1] * 0x100
}

/// A little-endian 24-bit number from the first three bytes.
pub open spec fn le24_of(s: Seq<u8>) -> int {
    s[0] + s[1] * 0x100 + s[2] * 0x1_0000
}

/// A little-endian 32-bit number from the first four bytes.
pub open spec fn le32_of(s: Seq<u8>) -> int {
    s[0] + s[1] * 0x100 + s[2] * 0x1_0000 + s[3] * 0x100_0000
}

/// A PNG's IHDR, which the format requires to be the first chunk.
pub open spec fn png_dims(s: Seq<u8>) -> Option<(u32, u32)> {
    if s.len() < 24 || !has_at(s, 12, seq![0x49u8, 0x48, 0x44, 0x52]) {
        None
    } else {
        Some((be32_of(s.subrange(16, 20)) as u32, be32_of(s.subrange(20, 24)) as u32))
    }
}

/// A GIF's logical screen.
pub open spec fn gif_dims(s: Seq<u8>) -> Option<(u32, u32)> {
    if s.len() < 10 {
        None
    } else {
        Some((le16_of(s.subrange(6, 8)) as u32, le16_of(s.subrange(8, 10)) as u32))
    }
}

/// A marker that opens a JPEG frame header: every SOFn, which leaves out
/// DHT (0xC4), JPG (0xC8) and DAC (0xCC) from the 0xC0..=0xCF range.
pub open spec fn is_frame_marker(m: u8) -> bool {
    0xC0 <= m <= 0xCF && m != 0xC4 && m != 0xC8 && m != 0xCC
}

/// How much of `s` lies at or after `at`.
pub open spec fn left_from(s: Seq<u8>, at: int) -> int {
    if at < s.len() {
        s.len() - at
    } else {
        0
    }
}

/// The walk through a JPEG's segments from offset `at` to the first frame
/// header: padding bytes are stepped over one at a time, every other
/// segment by its own length, and the walk gives up on anything that is not
/// a marker, on a start of scan, on a length below two, and on running out
/// of bytes.
pub open spec fn jpeg_walk(s: Seq<u8>, at: int) -> Option<(u32, u32)>
    decreases left_from(s, at),
{
    if at < 0 || !(at + 3 < s.len()) {
        None
    } else if s[at] != 0xFF {
        None
    } else if s[at + 1] == 0xFF {
        jpeg_walk(s, at + 1)
    } else if is_frame_marker(s[at + 1]) {
        if at + 9 > s.len() {
            None
        } else {
            Some(
                (
                    be16_of(s.subrange(at + 7, at + 9)) as u32,
                    be16_of(s.subrange(at + 5, at + 7)) as u32,
                ),
            )
        }
    } else if s[at + 1] == 0xDA {
        None
    } else {
        let length = be16_of(s.subrange(at + 2, at + 4));
        if length < 2 {
            None
        } else {
            jpeg_walk(s, at + 2 + length)
        }
    }
}

/// A JPEG's frame header, found by walking the segments after its SOI.
pub open spec fn jpeg_dims(s: Seq<u8>) -> Option<(u32, u32)> {
    jpeg_walk(s, 2)
}

/// A WebP's canvas, in whichever of its three codings it is written.
pub open spec fn webp_dims(s: Seq<u8>) -> Option<(u32, u32)> {
    if s.len() < 16 {
        None
    } else if has_at(s, 12, seq![0x56u8, 0x50, 0x38, 0x20]) {
        if s.len() < 30 || !has_at(s, 23, seq![0x9Du8, 0x01, 0x2A]) {
            None
        } else {
            Some(
                (
                    (le16_of(s.subrange(26, 28)) % 0x4000) as u32,
                    (le16_of(s.subrange(28, 30)) % 0x4000) as u32,
                ),
            )
        }
    } else if has_at(s, 12, seq![0x56u8, 0x50, 0x38, 0x4C]) {
        if s.len() < 25 || s[20] != 0x2F {
            None
        } else {
            let packed = le32_of(s.subrange(21, 25));
            Some(((packed % 0x4000 + 1) as u32, ((packed / 0x4000) % 0x4000 + 1) as u32))
        }
    } else if has_at(s, 12, seq![0x56u8, 0x50, 0x38, 0x58]) {
        if s.len() < 30 {
            None
        } else {
            Some(
                (
                    (le24_of(s.subrange(24, 27)) + 1) as u32,
                    (le24_of(s.subrange(27, 30)) + 1) as u32,
                ),
            )
        }
    } else {
        None
    }
}

/// How wide and how tall a picture is, read out of the header of whichever
/// of the four formats `image_kind` names it as.
pub open spec fn picture_dims(s: Seq<u8>) -> Option<(u32, u32)> {
    match image_kind(s) {
        Some(MediaKind::Png) => png_dims(s),
        Some(MediaKind::Jpeg) => jpeg_dims(s),
        Some(MediaKind::Gif) => gif_dims(s),
        Some(_) => webp_dims(s),
        None => None,
    }
}

fn be32(bytes: &[u8]) -> (r: u32)
    requires
        bytes@.len() >= 4,
    ensures
        r as int == be32_of(bytes@),
{
    (bytes[0] as u32) * 0x100_0000 + (bytes[1] as u32) * 0x1_0000 + (bytes[2] as u32) * 0x100
        + bytes[3] as u32
}

fn be16(bytes: &[u8]) -> (r: u16)
    requires
        bytes@.len() >= 2,
    ensures
        r as int == be16_of(bytes@),
{
    (bytes[0] as u16) * 0x100 + bytes[1] as u16
}

fn le16(bytes: &[u8]) -> (r: u16)
    requires
        bytes@.len() >= 2,
    ensures
        r as int == le16_of(bytes@),
{
    bytes[0] as u16 + (bytes[1] as u16) * 0x100
}

fn le24(bytes: &[u8]) -> (r: u32)
    requires
        bytes@.len() >= 3,
    ensures
        r as int == le24_of(bytes@),
{
    bytes[0] as u32 + (bytes[1] as u32) * 0x100 + (bytes[2] as u32) * 0x1_0000
}

fn le32(bytes: &[u8]) -> (r: u32)
    requires
        bytes@.len() >= 4,
    ensures
        r as int == le32_of(bytes@),
{
    bytes[0] as u32 + (bytes[1] as u32) * 0x100 + (bytes[2] as u32) * 0x1_0000 + (bytes[3] as u32)
        * 0x100_0000
}

fn png_size(bytes: &[u8]) -> (r: Option<(u32, u32)>)
    ensures
        r == png_dims(bytes@),
{
    if bytes.len() < 24 || !holds_at(bytes, 12, &[0x49, 0x48, 0x44, 0x52]) {
        return None;
    }
    Some((be32(&bytes[16..20]), be32(&bytes[20..24])))
}

fn gif_size(bytes: &[u8]) -> (r: Option<(u32, u32)>)
    ensures
        r == gif_dims(bytes@),
{
    if bytes.len() < 10 {
        return None;
    }
    Some((le16(&bytes[6..8]) as u32, le16(&bytes[8..10]) as u32))
}

fn jpeg_size(bytes: &[u8]) -> (r: Option<(u32, u32)>)
    ensures
        r == jpeg_dims(bytes@),
{
    let ghost s = bytes@;
    let mut at: usize = 2;
    while at + 3 < bytes.len()
        invariant
            s == bytes@,
            at == 2 || at + 3 <= bytes.len(),
            jpeg_walk(s, at as int) == jpeg_dims(s),
        decreases bytes.len() - at,
    {
        if bytes[at] != 0xFF {
            return None;
        }
        let marker = bytes[at + 1];
        // Padding before a marker is allowed and is written by real encoders.
        if marker == 0xFF {
            at = at + 1;
            continue;
        }
        // A frame header: precision, then height, then width.
        if 0xC0 <= marker && marker <= 0xCF && marker != 0xC4 && marker != 0xC8 && marker
            != 0xCC {
            if bytes.len() - at < 9 {
                return None;
            }
            return Some((be16(&bytes[at + 7..at + 9]) as u32, be16(&bytes[at + 5..at + 7]) as u32));
        }
        // Start of scan: past here is entropy-coded data, not segments.
        if marker == 0xDA {
            return None;
        }
        let length = be16(&bytes[at + 2..at + 4]) as usize;
        if length < 2 {
            return None;
        }
        if length + 5 >= bytes.len() - at {
            // The next segment would start where no marker fits.
            assert(jpeg_walk(s, at + 2 + length) == None::<(u32, u32)>);
            return None;
        }
        at = at + 2 + length;
    }
    None
}

fn webp_size(bytes: &[u8]) -> (r: Option<(u32, u32)>)
    ensures
        r == webp_dims(bytes@),
{
    if bytes.len() < 16 {
        return None;
    }
    if holds_at(bytes, 12, &[0x56, 0x50, 0x38, 0x20]) {
        // A three-byte start code, then two dimensions whose top two bits
        // are a scale rather than part of the number.
        if bytes.len() < 30 || !holds_at(bytes, 23, &[0x9D, 0x01, 0x2A]) {
            return None;
        }
        let w = le16(&bytes[26..28]);
        let h = le16(&bytes[28..30]);
        proof {
            lemma_low_fourteen_bits_16(w);
            lemma_low_fourteen_bits_16(h);
        }
        return Some(((w & 0x3FFF) as u32, (h & 0x3FFF) as u32));
    }
    if holds_at(bytes, 12, &[0x56, 0x50, 0x38, 0x4C]) {
        if bytes.len() < 25 || bytes[20] != 0x2F {
            return None;
        }
        let packed = le32(&bytes[21..25]);
        proof {
            lemma_packed_pair(packed);
        }
        return Some(((packed & 0x3FFF) + 1, ((packed >> 14) & 0x3FFF) + 1));
    }
    if holds_at(bytes, 12, &[0x56, 0x50, 0x38, 0x58]) {
        if bytes.len() < 30 {
            return None;
        }
        return Some((le24(&bytes[24..27]) + 1, le24(&bytes[27..30]) + 1));
    }
    None
}

proof fn lemma_low_fourteen_bits_16(x: u16)
    ensures
        (x & 0x3FFF) as int == x % 0x4000,
{
    assert(x & 0x3FFF == x % 0x4000) by (bit_vector);
}

proof fn lemma_packed_pair(x: u32)
    ensures
        (x & 0x3FFF) as int == x % 0x4000,
        ((x >> 14) & 0x3FFF) as int == (x / 0x4000) % 0x4000,
{
    assert(x & 0x3FFF == x % 0x4000) by (bit_vector);
    assert((x >> 14) & 0x3FFF == (x / 0x4000) % 0x4000) by (bit_vector);
}

/// How wide and how tall a picture is, read out of its header: only for the
/// four formats [`image_type`] names, and `None` for a header that is
/// truncated or malformed.
pub fn pixel_size(bytes: &[u8]) -> (r: Option<(u32, u32)>)
    ensures
        r == picture_dims(bytes@),
{
    match image_kind_of(bytes) {
        Some(MediaKind::Png) => png_size(bytes),
        Some(MediaKind::Jpeg) => jpeg_size(bytes),
        Some(MediaKind::Gif) => gif_size(bytes),
        Some(_) => webp_size(bytes),
        None => None,
    }
}

proof fn lemma_has_at_extends(s: Seq<u8>, t: Seq<u8>, i: int, w: Seq<u8>)
    requires
        0 <= i,
        i + w.len() <= s.len(),
    ensures
        has_at(s + t, i, w) == has_at(s, i, w),
{
    assert((s + t).subrange(i, i + w.len()) =~= s.subrange(i, i + w.len()));
}

proof fn lemma_has_at_first(s: Seq<u8>, i: int, w: Seq<u8>)
    requires
        has_at(s, i, w),
        w.len() > 0,
    ensures
        s[i] == w[0],
{
    assert(s.subrange(i, i + w.len())[0] == s[i]);
}

proof fn lemma_subrange_extends(s: Seq<u8>, t: Seq<u8>, i: int, j: int)
    requires
        0 <= i <= j <= s.len(),
    ensures
        (s + t).subrange(i, j) == s.subrange(i, j),
{
    assert((s + t).subrange(i, j) =~= s.subrange(i, j));
}

proof fn lemma_image_kind_extends(s: Seq<u8>, t: Seq<u8>)
    requires
        image_kind(s) is Some,
    ensures
        image_kind(s + t) == image_kind(s),
{
    let x = s + t;
    assert(s.len() > 0) by {
        if s.len() == 0 {
            assert(!has_prefix(s, png_magic()));
        }
    }
    assert(x[0] == s[0]);
    let jpeg = seq![0xFFu8, 0xD8, 0xFF];
    let gif7 = seq![0x47u8, 0x49, 0x46, 0x38, 0x37, 0x61];
    let gif9 = seq![0x47u8, 0x49, 0x46, 0x38, 0x39, 0x61];
    let webp = seq![0x57u8, 0x45, 0x42, 0x50];
    if has_prefix(s, png_magic()) {
        lemma_has_at_extends(s, t, 0, png_magic());
    } else if has_prefix(s, jpeg) {
        lemma_has_at_first(s, 0, jpeg);
        if has_prefix(x, png_magic()) {
            lemma_has_at_first(x, 0, png_magic());
        }
        lemma_has_at_extends(s, t, 0, jpeg);
    } else if has_prefix(s, gif7) || has_prefix(s, gif9) {
        if has_prefix(s, gif7) {
            lemma_has_at_first(s, 0, gif7);
        } else {
            lemma_has_at_first(s, 0, gif9);
        }
        if has_prefix(x, png_magic()) {
            lemma_has_at_first(x, 0, png_magic());
        }
        if has_prefix(x, jpeg) {
            lemma_has_at_first(x, 0, jpeg);
        }
        lemma_has_at_extends(s, t, 0, gif7);
        lemma_has_at_extends(s, t, 0, gif9);
    } else {
        lemma_has_at_first(s, 0, riff());
        if has_prefix(x, png_magic()) {
            lemma_has_at_first(x, 0, png_magic());
        }
        if has_prefix(x, jpeg) {
            lemma_has_at_first(x, 0, jpeg);
        }
        if has_prefix(x, gif7) {
            lemma_has_at_first(x, 0, gif7);
        }
        if has_prefix(x, gif9) {
            lemma_has_at_first(x, 0, gif9);
        }
        lemma_has_at_extends(s, t, 0, riff());
        lemma_has_at_extends(s, t, 8, webp);
    }
}

proof fn lemma_jpeg_walk_extends(s: Seq<u8>, t: Seq<u8>, at: int)
    requires
        jpeg_walk(s, at) is Some,
    ensures
        jpeg_walk(s + t, at) == jpeg_walk(s, at),
    decreases left_from(s, at),
{
    let x = s + t;
    assert(x[at] == s[at]);
    assert(x[at + 1] == s[at + 1]);
    if s[at + 1] == 0xFF {
        lemma_jpeg_walk_extends(s, t, at + 1);
    } else if is_frame_marker(s[at + 1]) {
        lemma_subrange_extends(s, t, at + 7, at + 9);
        lemma_subrange_extends(s, t, at + 5, at + 7);
    } else {
        lemma_subrange_extends(s, t, at + 2, at + 4);
        let length = be16_of(s.subrange(at + 2, at + 4));
        lemma_jpeg_walk_extends(s, t, at + 2 + length);
    }
}

proof fn lemma_webp_dims_extends(s: Seq<u8>, t: Seq<u8>)
    requires
        webp_dims(s) is Some,
    ensures
        webp_dims(s + t) == webp_dims(s),
{
    let x = s + t;
    let vp8 = seq![0x56u8, 0x50, 0x38, 0x20];
    let vp8l = seq![0x56u8, 0x50, 0x38, 0x4C];
    let vp8x = seq![0x56u8, 0x50, 0x38, 0x58];
    lemma_has_at_extends(s, t, 12, vp8);
    lemma_has_at_extends(s, t, 12, vp8l);
    lemma_has_at_extends(s, t, 12, vp8x);
    if has_at(s, 12, vp8) {
        lemma_has_at_extends(s, t, 23, seq![0x9Du8, 0x01, 0x2A]);
        lemma_subrange_extends(s, t, 26, 28);
        lemma_subrange_extends(s, t, 28, 30);
    } else if has_at(s, 12, vp8l) {
        assert(x[20] == s[20]);
        lemma_subrange_extends(s, t, 21, 25);
    } else {
        lemma_subrange_extends(s, t, 24, 27);
        lemma_subrange_extends(s, t, 27, 30);
    }
}

/// A measurement is never taken wrong from a truncated file: whenever the
/// first bytes of a file are enough to measure it, the whole file measures
/// the same, whatever follows those bytes. The same holds of what kind of
/// picture the first bytes are named as.
pub proof fn law_measuring_a_prefix_is_final(s: Seq<u8>, rest: Seq<u8>)
    ensures
        image_kind(s) is Some ==> image_kind(s + rest) == image_kind(s),
        picture_dims(s) is Some ==> picture_dims(s + rest) == picture_dims(s),
{
    if image_kind(s) is Some {
        lemma_image_kind_extends(s, rest);
        if picture_dims(s) is Some {
            let x = s + rest;
            match image_kind(s) {
                Some(MediaKind::Png) => {
                    lemma_has_at_extends(s, rest, 12, seq![0x49u8, 0x48, 0x44, 0x52]);
                    lemma_subrange_extends(s, rest, 16, 20);
                    lemma_subrange_extends(s, rest, 20, 24);
                },
                Some(MediaKind::Jpeg) => {
                    lemma_jpeg_walk_extends(s, rest, 2);
                },
                Some(MediaKind::Gif) => {
                    lemma_subrange_extends(s, rest, 6, 8);
                    lemma_subrange_extends(s, rest, 8, 10);
                },
                _ => {
                    lemma_webp_dims_extends(s, rest);
                },
            }
        }
    }
}

/// A WebP canvas is never zero pixels wide or tall in the two codings
/// that store each side one less than it is, and never more than the
/// fourteen bits (lossless) or twenty-four bits (extended) it is stored in
/// allow; the lossy coding's sides fit in fourteen bits.
pub proof fn law_webp_sides_fit_their_fields(s: Seq<u8>)
    ensures
        has_at(s, 12, seq![0x56u8, 0x50, 0x38, 0x4C]) ==> (webp_dims(s) matches Some((w, h)) ==> 1
            <= w <= 0x4000 && 1 <= h <= 0x4000),
        has_at(s, 12, seq![0x56u8, 0x50, 0x38, 0x58]) ==> (webp_dims(s) matches Some((w, h)) ==> 1
            <= w <= 0x100_0000 && 1 <= h <= 0x100_0000),
        has_at(s, 12, seq![0x56u8, 0x50, 0x38, 0x20]) ==> (webp_dims(s) matches Some((w, h)) ==> w
            < 0x4000 && h < 0x4000),
{
}

/// A GIF's logical screen is two little-endian 16-bit words, the width at
/// offset 6 and the height at offset 8: both bytes of each count, so a
/// GIF 256 pixels or more on a side measures as large as it is.
pub proof fn law_gif_sides_are_little_endian_words(s: Seq<u8>)
    ensures
        image_kind(s) == Some(MediaKind::Gif) && s.len() >= 10 ==> (picture_dims(s) matches Some(
            (w, h),
        ) && w == s[6] + 256 * s[7] && h == s[8] + 256 * s[9]),
        image_kind(s) == Some(MediaKind::Gif) && s.len() < 10 ==> picture_dims(s) is None,
{
}

/// An ISO base media file, one whose second box word is `ftyp`, is a video
/// whatever brand it carries, and it is QuickTime exactly when the brand
/// at offset 8 is `qt  `: every other brand (`isom`, `mp42`, `mp41`,
/// `avc1`, ...) is MP4.
pub proof fn law_only_the_qt_brand_is_quicktime(s: Seq<u8>)
    ensures
        s.len() >= 12 && s[4] == 0x66 && s[5] == 0x74 && s[6] == 0x79 && s[7] == 0x70 ==> {
            &&& video_kind(s) is Some
            &&& (video_kind(s) == Some(MediaKind::QuickTime) <==> (s[8] == 0x71 && s[9] == 0x74
                && s[10] == 0x20 && s[11] == 0x20))
            &&& (!(s[8] == 0x71 && s[9] == 0x74 && s[10] == 0x20 && s[11] == 0x20) ==> video_kind(s)
                == Some(MediaKind::Mp4))
        },
{
    if s.len() >= 12 && s[4] == 0x66 && s[5] == 0x74 && s[6] == 0x79 && s[7] == 0x70 {
        assert(s.subrange(4, 8) =~= ftyp());
        let qt = seq![0x71u8, 0x74, 0x20, 0x20];
        if s[8] == 0x71 && s[9] == 0x74 && s[10] == 0x20 && s[11] == 0x20 {
            assert(s.subrange(8, 12) =~= qt);
        } else {
            assert(s.subrange(8, 12) != qt) by {
                if s.subrange(8, 12) == qt {
                    assert(s.subrange(8, 12)[0] == s[8]);
                    assert(s.subrange(8, 12)[1] == s[9]);
                    assert(s.subrange(8, 12)[2] == s[10]);
                    assert(s.subrange(8, 12)[3] == s[11]);
                }
            }
        }
    }
}

/// Only a picture that [`image_type`] names is ever measured.
pub proof fn law_only_named_pictures_are_measured(s: Seq<u8>)
    ensures
        picture_dims(s) is Some ==> mime_of(image_kind(s)) is Some,
{
}

} // verus!
