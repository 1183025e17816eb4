//! Putting a picture, a clip, a file or a voice note into a room: what the
//! bytes are, what rides beside them, and what is refused before anything
//! is uploaded.
use vstd::prelude::*;

use matrix_sdk::ruma::events::room::message::FormattedBody;
use matrix_sdk::ruma::UInt;

use crate::error::Error;
use crate::ids::{event_id_accepted, parse_event_id};
use crate::media::{
    audio_kind, audio_type, image_kind, image_type, picture_dims, pixel_size, video_kind,
    video_type, MediaKind,
};
use crate::text::{opt_text, same_text};

verus! {

#[verifier::external_type_specification]
#[verifier::external_body]
pub struct ExMime(mime::Mime);

/// A character that may stand in the name of a media type without being
/// quoted: a lower-case ASCII letter, a digit, `-`, `.` or `+`.
pub open spec fn media_type_char(c: char) -> bool {
    let v = c as int;
    (0x61 <= v <= 0x7A) || (0x30 <= v <= 0x39) || v == 0x2D || v == 0x2E || v == 0x2B
}

/// A bare `type/subtype`: one `/`, not at the start, and nothing else but
/// characters that may stand in a media type's name.
pub open spec fn is_plain_media_type(s: Seq<char>) -> bool {
    exists|i: int|
        #![trigger s[i]]
        0 < i < s.len() && s[i] == '/' && forall|j: int|
            0 <= j < s.len() && j != i ==> #[trigger] media_type_char(s[j])
}

/// The `Mime` the mime crate parses `text` into, or `None` when it
/// refuses the text.
pub uninterp spec fn parsed_media_type(text: Seq<char>) -> Option<mime::Mime>;

/// `str::parse` into the mime crate's `Mime`. What it gives for a text is
/// named by `parsed_media_type`. The crate takes a type, a `/` and a
/// subtype made of token characters, which every bare `type/subtype` of
/// the characters above is, so such a text parses; which `Mime` it becomes
/// is not written out.
#[verifier::external_body]
fn parse_mime(content_type: &str) -> (r: Option<mime::Mime>)
    ensures
        r == parsed_media_type(content_type@),
        is_plain_media_type(content_type@) ==> r is Some,
{
    match content_type.parse::<mime::Mime>() {
        Ok(parsed) => Some(parsed),
        Err(_) => None,
    }
}

/// What goes out as `m.file` when the bytes answer to nothing else.
pub const ANYTHING: &'static str = "application/octet-stream";

/// The most bytes this build holds at once for one attachment: half a
/// gigabyte.
pub const MAX_BYTES: usize = 536870912;

/// One attachment on its way out.
#[derive(Clone, Debug, Default, PartialEq, Eq)]
pub struct Attaching {
    /// What to call it in the room.
    pub filename: String,
    /// The whole of it, held once.
    pub bytes: Vec<u8>,
    /// What was typed beside it, if anything.
    pub caption: Option<String>,
    /// The message it answers, when it is answering one.
    pub reply_to: Option<String>,
}

/// The content type an attachment goes out under: the picture, then the
/// audio, then the video these bytes are, or `application/octet-stream`.
pub open spec fn content_type(s: Seq<u8>) -> &'static str {
    match image_kind(s) {
        Some(k) => k.spec_mime(),
        None => match audio_kind(s) {
            Some(k) => k.spec_mime(),
            None => match video_kind(s) {
                Some(k) => k.spec_mime(),
                None => ANYTHING,
            },
        },
    }
}

/// What these bytes are, or `application/octet-stream` when they are
/// nothing this build recognises. Audio is asked before video, because an
/// m4a and an mp4 share a container and so do the two kinds of Ogg.
pub fn content_type_of(bytes: &[u8]) -> (r: &'static str)
    ensures
        r == content_type(bytes@),
{
    if let Some(t) = image_type(bytes) {
        return t;
    }
    if let Some(t) = audio_type(bytes) {
        return t;
    }
    if let Some(t) = video_type(bytes) {
        return t;
    }
    ANYTHING
}

/// An integer the homeserver can take: one that a JSON number holds
/// exactly, up to 2^53 - 1.
pub open spec fn safe_integer(v: u64) -> Option<u64> {
    if v <= 0x1F_FFFF_FFFF_FFFF {
        Some(v)
    } else {
        None
    }
}

/// `UInt::new` from matrix-sdk's ruma (js_int): it gives the number itself
/// when it is at most 2^53 - 1, and nothing otherwise.
#[verifier::external_body]
fn uint_of(v: u64) -> (r: Option<u64>)
    ensures
        r == safe_integer(v),
{
    match UInt::new(v) {
        Some(n) => Some(u64::from(n)),
        None => None,
    }
}

/// The metadata a picture carries.
#[derive(Clone, Debug, PartialEq, Eq)]
pub struct BaseImageInfo {
    pub width: Option<u64>,
    pub height: Option<u64>,
    pub size: Option<u64>,
}

/// The metadata a clip carries.
#[derive(Clone, Debug, PartialEq, Eq)]
pub struct BaseVideoInfo {
    pub width: Option<u64>,
    pub height: Option<u64>,
    pub size: Option<u64>,
}

/// The metadata a file or a voice note carries.
#[derive(Clone, Debug, PartialEq, Eq)]
pub struct BaseFileInfo {
    pub size: Option<u64>,
}

/// The metadata that rides beside an upload.
#[derive(Clone, Debug, PartialEq, Eq)]
pub enum AttachmentInfo {
    Image(BaseImageInfo),
    Video(BaseVideoInfo),
    File(BaseFileInfo),
}

/// The part of a content type before its first `/`.
pub open spec fn major_type(s: Seq<char>) -> Seq<char>
    decreases s.len(),
{
    if s.len() == 0 {
        s
    } else if s[0] == '/' {
        Seq::<char>::empty()
    } else {
        seq![s[0]] + major_type(s.drop_first())
    }
}

/// The metadata for bytes going out under `content_type`: a picture is
/// measured, a clip carries its size and no dimensions, and anything else
/// carries its size.
pub open spec fn info_for(content_type: Seq<char>, s: Seq<u8>) -> AttachmentInfo {
    let size = safe_integer(s.len() as u64);
    if major_type(content_type) == "image"@ {
        match picture_dims(s) {
            Some((w, h)) => AttachmentInfo::Image(
                BaseImageInfo {
                    width: safe_integer(w as u64),
                    height: safe_integer(h as u64),
                    size,
                },
            ),
            None => AttachmentInfo::Image(BaseImageInfo { width: None, height: None, size }),
        }
    } else if major_type(content_type) == "video"@ {
        AttachmentInfo::Video(BaseVideoInfo { width: None, height: None, size })
    } else {
        AttachmentInfo::File(BaseFileInfo { size })
    }
}

/// The part of `content_type` before its first `/`.
fn major_of(content_type: &str) -> (r: &str)
    ensures
        r@ == major_type(content_type@),
{
    let n = content_type.unicode_len();
    let ghost s = content_type@;
    let mut i: usize = 0;
    assert(s.skip(0) =~= s);
    assert(s.subrange(0, 0) + major_type(s) =~= major_type(s));
    while i < n
        invariant
            n == s.len(),
            s == content_type@,
            i <= n,
            forall|j: int| 0 <= j < i ==> s[j] != '/',
            major_type(s) == s.subrange(0, i as int) + major_type(s.skip(i as int)),
        decreases n - i,
    {
        assert(s.skip(i as int)[0] == s[i as int]);
        if content_type.get_char(i) == '/' {
            assert(major_type(s.skip(i as int)) =~= Seq::<char>::empty());
            assert(s.subrange(0, i as int) + Seq::<char>::empty() =~= s.subrange(0, i as int));
            return content_type.substring_char(0, i);
        }
        assert(s.skip(i as int).drop_first() =~= s.skip(i + 1));
        assert(s.subrange(0, i as int) + seq![s[i as int]] =~= s.subrange(0, i + 1));
        i = i + 1;
    }
    assert(s.skip(n as int) =~= Seq::<char>::empty());
    assert(s.subrange(0, n as int) =~= s);
    content_type.substring_char(0, n)
}

/// The metadata that rides beside the upload. A picture is measured, which
/// is what lets a receiving room hold the space before the bytes land;
/// nothing else is, because measuring a clip needs a decoder.
pub fn info_of(content_type: &str, bytes: &[u8]) -> (r: AttachmentInfo)
    ensures
        r == info_for(content_type@, bytes@),
{
    let size = uint_of(bytes.len() as u64);
    let major = major_of(content_type);
    if same_text(major, "image") {
        let (width, height) = match pixel_size(bytes) {
            Some((w, h)) => (uint_of(w as u64), uint_of(h as u64)),
            None => (None, None),
        };
        AttachmentInfo::Image(BaseImageInfo { width, height, size })
    } else if same_text(major, "video") {
        AttachmentInfo::Video(BaseVideoInfo { width: None, height: None, size })
    } else {
        AttachmentInfo::File(BaseFileInfo { size })
    }
}

/// A character with the Unicode White_Space property, which is what
/// `char::is_whitespace` and `str::trim` go by.
pub open spec fn is_white_space(c: char) -> bool {
    let v = c as int;
    (0x09 <= v <= 0x0D) || v == 0x20 || v == 0x85 || v == 0xA0 || v == 0x1680 || (0x2000 <= v
        <= 0x200A) || v == 0x2028 || v == 0x2029 || v == 0x202F || v == 0x205F || v == 0x3000
}

/// Text that trims down to nothing.
pub open spec fn is_blank(s: Seq<char>) -> bool {
    forall|i: int| 0 <= i < s.len() ==> #[trigger] is_white_space(s[i])
}

fn white_space(c: char) -> (r: bool)
    ensures
        r == is_white_space(c),
{
    let v = c as u32;
    (0x09 <= v && v <= 0x0D) || v == 0x20 || v == 0x85 || v == 0xA0 || v == 0x1680 || (0x2000
        <= v && v <= 0x200A) || v == 0x2028 || v == 0x2029 || v == 0x202F || v == 0x205F || v
        == 0x3000
}

fn blank(s: &str) -> (r: bool)
    ensures
        r == is_blank(s@),
{
    let n = s.unicode_len();
    let mut i: usize = 0;
    while i < n
        invariant
            n == s@.len(),
            i <= n,
            forall|j: int| 0 <= j < i ==> #[trigger] is_white_space(s@[j]),
        decreases n - i,
    {
        if !white_space(s.get_char(i)) {
            return false;
        }
        i = i + 1;
    }
    true
}

/// The HTML that ruma's Markdown conversion makes of `body`, or `None`
/// when it finds no Markdown formatting in it.
pub uninterp spec fn markdown_html(body: Seq<char>) -> Option<Seq<char>>;

/// `FormattedBody::markdown` from matrix-sdk's ruma, taken to the HTML it
/// holds. What the conversion makes of a text is named by `markdown_html`
/// and not written out: it is a Markdown parser.
#[verifier::external_body]
fn markdown(body: &str) -> (r: Option<String>)
    ensures
        opt_text(r) == markdown_html(body@),
{
    match FormattedBody::markdown(body) {
        Some(formatted) => Some(formatted.body),
        None => None,
    }
}

/// A caption as it goes out: the text as typed, and its HTML when the
/// Markdown in it formats anything.
#[derive(Clone, Debug, PartialEq, Eq)]
pub struct CaptionContent {
    pub body: String,
    pub formatted: Option<String>,
}

/// The caption, as something to send, or `None` when nobody typed one. A
/// caption that is only white space is none: a box somebody tabbed through
/// does not put an empty line under their picture.
pub fn caption(typed: Option<&str>) -> (r: Option<CaptionContent>)
    ensures
        match typed {
            None => r is None,
            Some(c) => if is_blank(c@) {
                r is None
            } else {
                r matches Some(k) && k.body@ == c@ && opt_text(k.formatted) == markdown_html(c@)
            },
        },
{
    let text = match typed {
        None => return None,
        Some(c) => c,
    };
    if blank(text) {
        return None;
    }
    Some(CaptionContent { body: text.to_owned(), formatted: markdown(text) })
}

/// Whether a reply is forced in or out of a thread.
#[derive(Clone, Copy, Debug, PartialEq, Eq)]
pub enum EnforceThread {
    /// In the thread the answered message is in, if any.
    MaybeThreaded,
    /// In the room, never in a thread.
    Unthreaded,
}

/// Whether a reply mentions the author of what it answers.
#[derive(Clone, Copy, Debug, PartialEq, Eq)]
pub enum AddMentions {
    Yes,
    No,
}

/// The relation that makes an attachment an answer to a message.
#[derive(Clone, Debug, PartialEq, Eq)]
pub struct Reply {
    pub event_id: String,
    pub enforce_thread: EnforceThread,
    pub add_mentions: AddMentions,
}

/// `reply` is the relation to the event `event_id`: in the room rather
/// than a thread, mentioning its author.
pub open spec fn answers(reply: Reply, event_id: Seq<char>) -> bool {
    reply.event_id@ == event_id && reply.enforce_thread == EnforceThread::Unthreaded
        && reply.add_mentions == AddMentions::Yes
}

/// The refusal for naming `event_id` as the message answered.
pub open spec fn no_such_event(r: Error, event_id: Seq<char>) -> bool {
    r matches Error::NoSuchEvent { event_id: named } && named@ == event_id
}

/// The reply relation, or `None` when this is not answering anything. An
/// event ID the SDK will not parse is refused.
pub fn reply_to(event_id: Option<&str>) -> (r: Result<Option<Reply>, Error>)
    ensures
        match event_id {
            None => r == Ok::<Option<Reply>, Error>(None),
            Some(id) => if event_id_accepted(id@) {
                r matches Ok(Some(reply)) && answers(reply, id@)
            } else {
                r matches Err(e) && no_such_event(e, id@)
            },
        },
{
    let event_id = match event_id {
        None => return Ok(None),
        Some(id) => id,
    };
    match parse_event_id(event_id) {
        Some(id) => Ok(
            Some(
                Reply {
                    event_id: id,
                    enforce_thread: EnforceThread::Unthreaded,
                    add_mentions: AddMentions::Yes,
                },
            ),
        ),
        None => Err(Error::NoSuchEvent { event_id: event_id.to_owned() }),
    }
}

/// Whether this many bytes is more than this build will hold at once.
pub fn within_the_ceiling(bytes: usize) -> (r: Result<(), Error>)
    ensures
        bytes <= MAX_BYTES ==> r == Ok::<(), Error>(()),
        bytes > MAX_BYTES ==> r == Err::<(), Error>(Error::MediaTooLarge { bytes, limit: MAX_BYTES }),
{
    if bytes <= MAX_BYTES {
        return Ok(());
    }
    Err(Error::MediaTooLarge { bytes, limit: MAX_BYTES })
}

/// Refuse an upload the homeserver would refuse, before it is attempted.
/// `limit` is what the homeserver said its limit is; a homeserver that
/// would not say is left to the SDK rather than refused here.
pub fn within_the_servers_limit(bytes: usize, limit: Option<u64>) -> (r: Result<(), Error>)
    ensures
        match limit {
            None => r == Ok::<(), Error>(()),
            Some(l) => if bytes > l {
                r == Err::<(), Error>(Error::UploadTooLarge { bytes, limit: #[verifier::truncate] (l as usize) })
            } else {
                r == Ok::<(), Error>(())
            },
        },
{
    let limit = match limit {
        None => return Ok(()),
        Some(l) => l,
    };
    if bytes as u64 > limit {
        return Err(Error::UploadTooLarge { bytes, limit: #[verifier::truncate] (limit as usize) });
    }
    Ok(())
}

/// What is refused before anything is uploaded, in the order it is asked:
/// a reply to something that is not an event ID, an attachment with no
/// bytes, and one past this build's own ceiling. Otherwise the reply
/// relation, if it answers a message.
pub fn vet(attaching: &Attaching) -> (r: Result<Option<Reply>, Error>)
    ensures
        match attaching.reply_to {
            Some(id) if !event_id_accepted(id@) => r matches Err(e) && no_such_event(e, id@),
            _ => if attaching.bytes@.len() == 0 {
                r == Err::<Option<Reply>, Error>(Error::EmptyMessage)
            } else if attaching.bytes@.len() > MAX_BYTES {
                r == Err::<Option<Reply>, Error>(
                    Error::MediaTooLarge { bytes: attaching.bytes@.len() as usize, limit: MAX_BYTES },
                )
            } else {
                r matches Ok(reply) && match attaching.reply_to {
                    None => reply is None,
                    Some(id) => reply matches Some(rep) && answers(rep, id@),
                }
            },
        },
{
    let reply = match &attaching.reply_to {
        None => reply_to(None),
        Some(id) => reply_to(Some(id.as_str())),
    };
    let reply = match reply {
        Ok(reply) => reply,
        Err(e) => return Err(e),
    };
    if attaching.bytes.len() == 0 {
        return Err(Error::EmptyMessage);
    }
    match within_the_ceiling(attaching.bytes.len()) {
        Ok(()) => Ok(reply),
        Err(e) => Err(e),
    }
}

/// Everything that rides out with an attachment's bytes.
#[derive(Clone, Debug, PartialEq, Eq)]
pub struct Outgoing {
    /// The content type it goes out under.
    pub content_type: &'static str,
    /// The same, parsed as the media type the upload is labelled with.
    pub mime: Option<mime::Mime>,
    /// The metadata beside it.
    pub info: AttachmentInfo,
    /// What was typed beside it.
    pub caption: Option<CaptionContent>,
}

/// Every type the sniffers name is a bare `type/subtype`.
proof fn lemma_sniffed_types_are_plain(s: Seq<u8>)
    ensures
        is_plain_media_type(content_type(s)@),
{
    match image_kind(s) {
        Some(k) => lemma_kind_type_is_plain(k),
        None => match audio_kind(s) {
            Some(k) => lemma_kind_type_is_plain(k),
            None => match video_kind(s) {
                Some(k) => lemma_kind_type_is_plain(k),
                None => {
                    let t = ANYTHING@;
                    reveal_strlit("application/octet-stream");
                    assert(t[11] == '/');
                    assert(is_plain_media_type(t));
                },
            },
        },
    }
}

proof fn lemma_kind_type_is_plain(k: MediaKind)
    ensures
        is_plain_media_type(k.spec_mime()@),
{
    let t = k.spec_mime()@;
    match k {
        MediaKind::Png => {
            reveal_strlit("image/png");
            assert(t[5] == '/');
        },
        MediaKind::Jpeg => {
            reveal_strlit("image/jpeg");
            assert(t[5] == '/');
        },
        MediaKind::Gif => {
            reveal_strlit("image/gif");
            assert(t[5] == '/');
        },
        MediaKind::Webp => {
            reveal_strlit("image/webp");
            assert(t[5] == '/');
        },
        MediaKind::Mp4 => {
            reveal_strlit("video/mp4");
            assert(t[5] == '/');
        },
        MediaKind::QuickTime => {
            reveal_strlit("video/quicktime");
            assert(t[5] == '/');
        },
        MediaKind::Webm => {
            reveal_strlit("video/webm");
            assert(t[5] == '/');
        },
        MediaKind::Matroska => {
            reveal_strlit("video/x-matroska");
            assert(t[5] == '/');
        },
        MediaKind::OggVideo => {
            reveal_strlit("video/ogg");
            assert(t[5] == '/');
        },
        MediaKind::Mpeg => {
            reveal_strlit("audio/mpeg");
            assert(t[5] == '/');
        },
        MediaKind::Flac => {
            reveal_strlit("audio/flac");
            assert(t[5] == '/');
        },
        MediaKind::Wav => {
            reveal_strlit("audio/wav");
            assert(t[5] == '/');
        },
        MediaKind::M4a => {
            reveal_strlit("audio/mp4");
            assert(t[5] == '/');
        },
        MediaKind::OggAudio => {
            reveal_strlit("audio/ogg");
            assert(t[5] == '/');
        },
    }
    assert(is_plain_media_type(t));
}

/// What rides out with these bytes: the content type they are sniffed as,
/// the metadata for that type, and the caption.
pub fn outgoing(attaching: &Attaching) -> (r: Outgoing)
    ensures
        r.content_type == content_type(attaching.bytes@),
        r.mime == parsed_media_type(r.content_type@),
        r.mime is Some,
        r.info == info_for(content_type(attaching.bytes@)@, attaching.bytes@),
        match attaching.caption {
            None => r.caption is None,
            Some(c) => if is_blank(c@) {
                r.caption is None
            } else {
                r.caption matches Some(k) && k.body@ == c@ && opt_text(k.formatted)
                    == markdown_html(c@)
            },
        },
{
    let content_type = content_type_of(attaching.bytes.as_slice());
    proof {
        lemma_sniffed_types_are_plain(attaching.bytes@);
    }
    let info = info_of(content_type, attaching.bytes.as_slice());
    let caption = match &attaching.caption {
        None => caption(None),
        Some(c) => caption(Some(c.as_str())),
    };
    Outgoing { content_type, mime: parse_mime(content_type), info, caption }
}

/// Audio before video: a voice note is never sent as a clip. Whatever the
/// audio sniffer names goes out under that audio type unless the bytes are
/// a picture, even when the same bytes are also a video container, and
/// bytes that no sniffer names go out as `application/octet-stream`.
pub proof fn law_voice_notes_go_as_audio(s: Seq<u8>)
    ensures
        image_kind(s) is None && audio_kind(s) is Some ==> content_type(s) == audio_kind(
            s,
        )->0.spec_mime(),
        image_kind(s) is None && audio_kind(s) is None && video_kind(s) is None ==> content_type(s)
            == ANYTHING,
{
}

/// Every picture this build can measure goes out with its measurements,
/// whichever of the four formats it is: under an `image` type the width
/// and height beside the upload are exactly the ones its header states.
pub proof fn law_measured_pictures_carry_their_size(content_type: Seq<char>, s: Seq<u8>)
    ensures
        major_type(content_type) == "image"@ ==> (picture_dims(s) matches Some((w, h))
            ==> info_for(content_type, s) == AttachmentInfo::Image(
            BaseImageInfo { width: Some(w as u64), height: Some(h as u64), size: safe_integer(s.len() as u64) },
        )),
{
}

/// A picture this build cannot measure still goes out as a picture, with
/// no dimensions rather than guessed ones.
pub proof fn law_unmeasured_pictures_still_go(content_type: Seq<char>, s: Seq<u8>)
    requires
        major_type(content_type) == "image"@,
    ensures
        info_for(content_type, s) is Image,
        picture_dims(s) is None ==> info_for(content_type, s) == AttachmentInfo::Image(
            BaseImageInfo { width: None, height: None, size: safe_integer(s.len() as u64) },
        ),
{
}

} // verus!
