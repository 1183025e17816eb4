use consort::edits::Edits;
use consort::error::Error;
use consort::media::{image_type, pixel_size};
use consort::notifications::{
    notification_of, worth_saying, Message, PushAction, PushTweak, Received, Step, Watching,
};
use consort::notify::{click_steps, ClickStep, CLICKED};
use consort::receipts::read_receipts;
use consort::sending::{
    caption, content_type_of, info_of, outgoing, reply_to, vet, within_the_servers_limit,
    AttachmentInfo, Attaching, BaseFileInfo, BaseImageInfo, ANYTHING,
};
use consort::text::{comes_before, same_text};

fn png(width: u32, height: u32) -> Vec<u8> {
    let mut bytes = vec![0x89, b'P', b'N', b'G', 0x0D, 0x0A, 0x1A, 0x0A];
    bytes.extend_from_slice(&[0, 0, 0, 0x0D]);
    bytes.extend_from_slice(b"IHDR");
    bytes.extend_from_slice(&width.to_be_bytes());
    bytes.extend_from_slice(&height.to_be_bytes());
    bytes
}

fn message(sender: &str) -> Message {
    Message {
        id: "$said:example.org".to_owned(),
        sender: sender.to_owned(),
        body: "are you about?".to_owned(),
    }
}

#[test]
fn what_follows_a_measured_header_does_not_change_the_measurement() {
    let mut whole = png(640, 480);
    assert_eq!(pixel_size(&whole), Some((640, 480)));
    whole.extend_from_slice(&[0xAB; 100]);
    assert_eq!(pixel_size(&whole), Some((640, 480)));
    assert_eq!(image_type(&whole), Some("image/png"));
    assert_eq!(pixel_size(&whole[..23]), None);
}

#[test]
fn a_jpeg_walk_that_runs_past_the_end_is_not_measured() {
    // A segment length pointing past the last byte.
    let jpeg = vec![0xFF, 0xD8, 0xFF, 0xE0, 0xFF, 0xFF, 0, 0, 0, 0];
    assert_eq!(pixel_size(&jpeg), None);
}

#[test]
fn a_lossy_webp_drops_the_scale_bits() {
    let mut webp = b"RIFF\0\0\0\0WEBPVP8 \0\0\0\0".to_vec();
    webp.extend_from_slice(&[0x30, 0x01, 0x00, 0x9D, 0x01, 0x2A]);
    webp.extend_from_slice(&(0xC000u16 | 320).to_le_bytes());
    webp.extend_from_slice(&(0x4000u16 | 240).to_le_bytes());
    assert_eq!(pixel_size(&webp), Some((320, 240)));
}

#[test]
fn redacting_an_edit_just_added_puts_everything_back() {
    let mut edits = Edits::new();
    edits.added("$a", "$said", "@ada:example.org", 2_000, "first".to_owned(), None);
    assert!(edits.added("$b", "$said", "@ada:example.org", 3_000, "second".to_owned(), None));
    assert!(edits.redacted("$b"));
    assert!(!edits.redacted("$b"));
    assert_eq!(
        edits.latest_on("$said", "@ada:example.org").map(|e| e.body.as_str()),
        Some("first")
    );
}

#[test]
fn a_tie_is_broken_by_the_later_event_id() {
    let mut edits = Edits::new();
    edits.added("$b", "$said", "@ada:example.org", 2_000, "from b".to_owned(), None);
    edits.added("$a", "$said", "@ada:example.org", 2_000, "from a".to_owned(), None);
    assert_eq!(
        edits.latest_on("$said", "@ada:example.org").map(|e| e.body.as_str()),
        Some("from b")
    );
}

#[test]
fn the_first_batch_is_skipped_and_the_rest_announced() {
    let mut watching = Watching::new();
    assert_eq!(watching.step(Received::Lagged(3)), Step::Skip);
    assert_eq!(watching.step(Received::Update), Step::Skip);
    assert_eq!(watching.step(Received::Update), Step::Announce);
    assert_eq!(watching.step(Received::Lagged(1)), Step::Skip);
    assert_eq!(watching.step(Received::Update), Step::Announce);
    assert_eq!(watching.step(Received::Closed), Step::Stop);
}

#[test]
fn what_you_said_yourself_is_not_worth_saying() {
    let actions = [PushAction::Notify];
    let one = message("@ada:example.org");
    assert!(!worth_saying(&one, Some("@ada:example.org"), false, Some(&actions)));
    assert!(worth_saying(&one, Some("@bob:example.org"), false, Some(&actions)));
    assert!(worth_saying(&one, None, false, Some(&actions)));
}

#[test]
fn an_undecryptable_or_unruled_message_is_not_worth_saying() {
    let actions = [PushAction::Notify];
    let one = message("@ada:example.org");
    assert!(!worth_saying(&one, None, true, Some(&actions)));
    assert!(!worth_saying(&one, None, false, None));
    assert!(!worth_saying(&one, None, false, Some(&[PushAction::Other])));
}

#[test]
fn a_notification_falls_back_to_the_user_id_for_a_name() {
    let actions = [
        PushAction::Notify,
        PushAction::SetTweak(PushTweak::Highlight(true)),
    ];
    let named = notification_of(
        "!general:example.org".to_owned(),
        "general".to_owned(),
        message("@ada:example.org"),
        Some("Ada".to_owned()),
        &actions,
    );
    assert_eq!(named.sender_name, "Ada");
    assert!(named.mention);
    assert!(!named.sound);
    let unnamed = notification_of(
        "!general:example.org".to_owned(),
        "general".to_owned(),
        message("@ada:example.org"),
        None,
        &[PushAction::SetTweak(PushTweak::Sound("ping".to_owned()))],
    );
    assert_eq!(unnamed.sender_name, "@ada:example.org");
    assert_eq!(unnamed.event_id, "$said:example.org");
    assert!(!unnamed.mention);
    assert!(unnamed.sound);
}

#[test]
fn a_sound_tweak_is_named() {
    let action = PushAction::SetTweak(PushTweak::Sound("ping".to_owned()));
    assert_eq!(action.sound().map(|s| s.as_str()), Some("ping"));
    assert_eq!(PushAction::Notify.sound(), None);
}

#[test]
fn a_click_is_two_steps_in_order_and_anything_else_none() {
    assert_eq!(
        click_steps(CLICKED, "!r:example.org".to_owned()),
        vec![ClickStep::Raise, ClickStep::Show("!r:example.org".to_owned())]
    );
    assert!(click_steps("__closed", "!r:example.org".to_owned()).is_empty());
}

#[test]
fn a_read_of_something_that_is_not_an_event_is_refused() {
    assert_eq!(
        read_receipts("not an event", true),
        Err(Error::NoSuchEvent { event_id: "not an event".to_owned() })
    );
    let sent = read_receipts("$said:example.org", true).expect("a valid event ID");
    assert_eq!(sent.public_read_receipt.as_deref(), Some("$said:example.org"));
    assert_eq!(sent.private_read_receipt, None);
}

#[test]
fn an_event_id_without_a_server_needs_only_its_sigil() {
    assert!(reply_to(Some("$opaque")).expect("a sigil is enough").is_some());
    assert!(reply_to(Some("opaque")).is_err());
}

#[test]
fn nothing_to_send_is_refused_and_so_is_a_bad_reply() {
    let empty = Attaching::default();
    assert_eq!(vet(&empty), Err(Error::EmptyMessage));

    let bad_reply = Attaching {
        bytes: png(1, 1),
        reply_to: Some("not an event".to_owned()),
        ..Attaching::default()
    };
    assert!(matches!(vet(&bad_reply), Err(Error::NoSuchEvent { .. })));

    let reply = Attaching {
        bytes: png(1, 1),
        reply_to: Some("$said:example.org".to_owned()),
        ..Attaching::default()
    };
    let relation = vet(&reply).expect("a sendable reply").expect("a reply");
    assert_eq!(relation.event_id, "$said:example.org");
}

#[test]
fn the_servers_limit_is_inclusive_and_an_unknown_one_refuses_nothing() {
    assert_eq!(within_the_servers_limit(100, Some(100)), Ok(()));
    assert_eq!(
        within_the_servers_limit(101, Some(100)),
        Err(Error::UploadTooLarge { bytes: 101, limit: 100 })
    );
    assert_eq!(within_the_servers_limit(usize::MAX, None), Ok(()));
}

#[test]
fn an_attachment_goes_out_under_what_its_bytes_are() {
    let attaching = Attaching {
        filename: "holiday.mp4".to_owned(),
        bytes: png(3, 2),
        caption: Some("**look**".to_owned()),
        reply_to: None,
    };
    let out = outgoing(&attaching);
    assert_eq!(out.content_type, "image/png");
    assert_eq!(out.mime.map(|m| m.to_string()), Some("image/png".to_owned()));
    assert_eq!(
        out.info,
        AttachmentInfo::Image(BaseImageInfo {
            width: Some(3),
            height: Some(2),
            size: Some(24),
        })
    );
    let caption = out.caption.expect("a caption");
    assert_eq!(caption.body, "**look**");
    assert!(caption.formatted.expect("formatted").contains("<strong>"));
}

#[test]
fn a_content_type_with_no_slash_is_judged_whole() {
    assert_eq!(
        info_of("image", &png(5, 7)),
        AttachmentInfo::Image(BaseImageInfo {
            width: Some(5),
            height: Some(7),
            size: Some(24),
        })
    );
    assert_eq!(
        info_of("imagery/png", &png(5, 7)),
        AttachmentInfo::File(BaseFileInfo { size: Some(24) })
    );
    assert_eq!(content_type_of(b""), ANYTHING);
}

#[test]
fn a_caption_of_unicode_space_is_no_caption() {
    assert!(caption(Some("\u{3000}\u{00A0}\t")).is_none());
    let plain = caption(Some("just words")).expect("a caption");
    assert_eq!(plain.formatted, None);
}

#[test]
fn text_compares_as_str_does() {
    for (a, b) in [("$a", "$b"), ("$a", "$ab"), ("", "x"), ("é", "z"), ("z", "é")] {
        assert_eq!(comes_before(a, b), a < b, "{a} {b}");
        assert_eq!(comes_before(b, a), b < a, "{b} {a}");
    }
    assert!(same_text("écrit", "écrit"));
    assert!(!same_text("écrit", "ecrit"));
}

#[test]
fn bytes_nobody_recognises_still_go_out_under_a_media_type() {
    let attaching = Attaching {
        filename: "notes.bin".to_owned(),
        bytes: b"just some bytes".to_vec(),
        caption: None,
        reply_to: None,
    };
    let out = outgoing(&attaching);
    assert_eq!(out.content_type, ANYTHING);
    assert_eq!(
        out.mime.map(|m| m.to_string()),
        Some("application/octet-stream".to_owned())
    );
    assert_eq!(out.caption, None);
}

#[test]
fn an_edit_of_another_message_or_by_another_author_leaves_the_correction_shown() {
    let ada = "@ada:example.org";
    let bob = "@bob:example.org";
    let mut edits = Edits::new();
    edits.added("$a", "$said", ada, 2_000, "corrected".to_owned(), None);

    edits.added("$b", "$other", ada, 9_000, "elsewhere".to_owned(), None);
    edits.added("$c", "$said", bob, 9_000, "forged".to_owned(), None);

    assert_eq!(
        edits.latest_on("$said", ada).map(|edit| edit.body.as_str()),
        Some("corrected")
    );
}
