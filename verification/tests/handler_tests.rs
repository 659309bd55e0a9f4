use std::io::Cursor;

use image::{DynamicImage, ImageFormat, Rgb, RgbImage};
use webp_service::error::AppError;
use webp_service::handler::{
    advance, on_chunk, on_field, require_supported, step, Action, Event, Reply, State,
};
use webp_service::health::health_check;
use webp_service::ingest::{IngestedPayload, MAX_FILE_SIZE};

fn field(name: &str, filename: Option<&str>) -> Event {
    Event::Field { name: name.to_string(), filename: filename.map(|f| f.to_string()) }
}

fn png_bytes(width: u32, height: u32) -> Vec<u8> {
    let image = DynamicImage::ImageRgb8(RgbImage::from_pixel(width, height, Rgb([1, 2, 3])));
    let mut bytes = Vec::new();
    image.write_to(&mut Cursor::new(&mut bytes), ImageFormat::Png).unwrap();
    bytes
}

fn status_of_reply(state: State) -> u16 {
    match state.into_reply() {
        Some(Reply::Image { status, .. }) => status,
        Some(Reply::Error(response)) => response.status,
        None => panic!("the request is not answered yet"),
    }
}

#[test]
fn test_health_check() {
    let report = health_check();
    assert_eq!(report.status, 200);
    assert_eq!(report.body, "{\"status\":\"healthy\"}");
}

#[test]
fn health_check_does_not_depend_on_earlier_requests() {
    let before = health_check();
    let (failed, _) = advance(State::new(), Event::EndOfFields);
    assert_eq!(status_of_reply(failed), 400);
    assert_eq!(health_check(), before);
}

#[test]
fn test_unsupported_mime_type() {
    let (state, action) = advance(State::new(), field("image", Some("test.heic")));
    assert_eq!(action, Action::SendError);
    match &state {
        State::Failed(e) => {
            assert_eq!(e, &AppError::UnsupportedMediaType("image/heic".to_string()))
        }
        other => panic!("expected a failure, got {:?}", other),
    }
    assert_eq!(status_of_reply(state), 415);
}

#[test]
fn test_invalid_image_format() {
    let (state, action) = advance(State::new(), field("image", Some("test.png")));
    assert_eq!(action, Action::ReadChunk);
    let (state, action) = advance(state, Event::Chunk(b"this_is_not_a_valid_png".to_vec()));
    assert_eq!(action, Action::ReadChunk);
    let (state, action) = advance(state, Event::EndOfChunks);
    assert_eq!(action, Action::SendError);
    assert!(matches!(&state, State::Failed(AppError::DecodeFailure(_))));
    assert_eq!(status_of_reply(state), 400);
}

#[test]
fn malformed_bytes_fail_to_decode_whatever_the_extension() {
    for name in ["test.png", "test.jpg", "test.bmp", "test.gif"] {
        let (state, _) = advance(State::new(), field("image", Some(name)));
        let (state, _) = advance(state, Event::Chunk(vec![0, 1, 2, 3, 4, 5, 6, 7]));
        let (state, _) = advance(state, Event::EndOfChunks);
        assert!(matches!(&state, State::Failed(AppError::DecodeFailure(_))));
        assert_eq!(status_of_reply(state), 400);
    }
}

#[test]
fn a_png_upload_is_answered_with_webp() {
    let png = png_bytes(12, 7);
    let (state, action) = advance(State::new(), field("image", Some("picture.png")));
    assert_eq!(action, Action::ReadChunk);
    let (head, tail) = png.split_at(png.len() / 2);
    let (state, _) = advance(state, Event::Chunk(head.to_vec()));
    let (state, _) = advance(state, Event::Chunk(tail.to_vec()));
    let (state, action) = advance(state, Event::EndOfChunks);
    assert_eq!(action, Action::SendImage);
    match state.into_reply() {
        Some(Reply::Image { status, content_type, body }) => {
            assert_eq!(status, 200);
            assert_eq!(content_type, "image/webp");
            assert_eq!(&body[0..4], b"RIFF");
            assert_eq!(&body[8..12], b"WEBP");
            let back = image::load_from_memory(&body).unwrap();
            assert_eq!((back.width(), back.height()), (12, 7));
        }
        other => panic!("expected an image, got {:?}", other),
    }
}

#[test]
fn the_extension_decides_not_the_content() {
    let (state, action) = advance(State::new(), field("image", Some("picture.webp")));
    assert_eq!(action, Action::SendError);
    assert!(
        matches!(&state, State::Failed(AppError::UnsupportedMediaType(t)) if t == "image/webp")
    );
    let response = match state.into_reply() {
        Some(Reply::Error(response)) => response,
        other => panic!("expected an error, got {:?}", other),
    };
    assert_eq!(response.status, 415);
    assert_eq!(
        response.hint.as_deref(),
        Some("サポートされている画像形式（PNG, JPEG, BMP, GIF）を使用してください。")
    );
}

#[test]
fn an_image_part_without_file_name_is_refused() {
    let (state, _) = advance(State::new(), field("image", None));
    assert!(matches!(
        &state,
        State::Failed(AppError::UnsupportedMediaType(t)) if t == "application/octet-stream"
    ));
    assert_eq!(status_of_reply(state), 415);
}

#[test]
fn a_form_without_image_part_is_an_invalid_file_format() {
    let (state, action) = advance(State::new(), field("file", Some("test.png")));
    assert_eq!(action, Action::ReadField);
    assert!(matches!(state, State::AwaitingField));
    let (state, action) = advance(state, field("Image", Some("test.png")));
    assert_eq!(action, Action::ReadField);
    let (state, action) = advance(state, Event::EndOfFields);
    assert_eq!(action, Action::SendError);
    assert!(matches!(&state, State::Failed(AppError::InvalidFileFormat)));
    assert_eq!(status_of_reply(state), 400);
}

#[test]
fn an_empty_form_is_an_invalid_file_format() {
    let (state, _) = step(State::new(), Event::EndOfFields);
    assert!(matches!(&state, State::Failed(AppError::InvalidFileFormat)));
}

#[test]
fn a_body_over_the_limit_is_refused_at_the_chunk_that_passes_it() {
    let (mut state, _) = advance(State::new(), field("image", Some("big.png")));
    for _ in 0..10 {
        let (next, action) = advance(state, Event::Chunk(vec![0u8; 1024 * 1024]));
        assert_eq!(action, Action::ReadChunk);
        state = next;
    }
    match &state {
        State::Ingesting(payload) => assert_eq!(payload.size(), MAX_FILE_SIZE),
        other => panic!("expected to be reading, got {:?}", other),
    }
    let (state, action) = advance(state, Event::Chunk(vec![0u8; 1]));
    assert_eq!(action, Action::SendError);
    assert!(matches!(&state, State::Failed(AppError::PayloadTooLarge(n)) if *n == 10 * 1024 * 1024));
    assert_eq!(status_of_reply(state), 413);
}

#[test]
fn a_chunk_that_cannot_be_read_is_a_decode_failure() {
    let (state, _) = advance(State::new(), field("image", Some("a.gif")));
    let (state, _) = advance(state, Event::Chunk(vec![1, 2, 3]));
    let (state, action) = advance(state, Event::ChunkError("stream broke".to_string()));
    assert_eq!(action, Action::SendError);
    assert!(matches!(&state, State::Failed(AppError::DecodeFailure(d)) if d == "stream broke"));
    assert_eq!(status_of_reply(state), 400);
}

#[test]
fn an_answered_request_stays_answered() {
    let (state, _) = advance(State::new(), field("image", Some("test.heic")));
    let (state, action) = advance(state, field("image", Some("test.png")));
    assert_eq!(action, Action::SendError);
    let (state, _) = advance(state, Event::Chunk(png_bytes(1, 1)));
    let (state, action) = advance(state, Event::EndOfChunks);
    assert_eq!(action, Action::SendError);
    assert!(matches!(&state, State::Failed(AppError::UnsupportedMediaType(t)) if t == "image/heic"));
}

#[test]
fn an_event_out_of_turn_is_an_internal_error() {
    let (state, action) = advance(State::new(), Event::Chunk(vec![1]));
    assert_eq!(action, Action::SendError);
    assert!(matches!(&state, State::Failed(AppError::InternalError(d)) if d == "unexpected event"));
    assert_eq!(status_of_reply(state), 500);
    let (state, _) = advance(State::new(), field("image", Some("a.png")));
    let (state, _) = advance(state, Event::EndOfFields);
    assert!(matches!(&state, State::Failed(AppError::InternalError(_))));
}

#[test]
fn step_leaves_the_codec_work_to_the_caller() {
    let (state, _) = step(State::new(), field("image", Some("a.png")));
    let (state, _) = step(state, Event::Chunk(png_bytes(2, 2)));
    let (state, action) = step(state, Event::EndOfChunks);
    assert_eq!(action, Action::Decode);
    let bytes = match &state {
        State::Ingested(bytes) => bytes.clone(),
        other => panic!("expected the whole body, got {:?}", other),
    };
    let (state, action) = step(state, Event::Decoded(webp_service::codec::decode(&bytes)));
    assert_eq!(action, Action::Encode);
    let encoded = match &state {
        State::Decoded(image) => webp_service::codec::encode_lossless(image),
        other => panic!("expected a decoded image, got {:?}", other),
    };
    let (state, action) = step(state, Event::Encoded(encoded));
    assert_eq!(action, Action::SendImage);
    assert_eq!(state.action(), Action::SendImage);
    assert_eq!(status_of_reply(state), 200);
}

#[test]
fn step_passes_codec_failures_on() {
    let (state, action) = step(
        State::Ingested(vec![1, 2, 3]),
        Event::Decoded(Err(AppError::DecodeFailure("bad".to_string()))),
    );
    assert_eq!(action, Action::SendError);
    assert!(matches!(&state, State::Failed(AppError::DecodeFailure(d)) if d == "bad"));
    let image = webp_service::codec::DecodedImage::new(DynamicImage::new_rgb8(1, 1));
    let (state, action) = step(
        State::Decoded(image),
        Event::Encoded(Err(AppError::ConversionFailed("worse".to_string()))),
    );
    assert_eq!(action, Action::SendError);
    assert!(matches!(&state, State::Failed(AppError::ConversionFailed(d)) if d == "worse"));
    assert_eq!(status_of_reply(state), 500);
}

#[test]
fn a_request_that_is_not_answered_has_no_reply() {
    assert!(State::new().into_reply().is_none());
    assert!(State::Ingesting(IngestedPayload::new(1)).into_reply().is_none());
    assert!(State::Ingested(Vec::new()).into_reply().is_none());
}

#[test]
fn on_field_passes_over_other_names() {
    assert!(matches!(on_field("file", Some("a.png")), State::AwaitingField));
    assert!(matches!(on_field("", Some("a.png")), State::AwaitingField));
    assert!(matches!(on_field("image", Some("a.png")), State::Ingesting(_)));
    assert!(matches!(on_field("image", Some("a.txt")), State::Failed(_)));
}

#[test]
fn on_chunk_adds_or_refuses() {
    let mut payload = IngestedPayload::new(3);
    payload.push_chunk(&[1]).unwrap();
    match on_chunk(payload, &[2, 3]) {
        State::Ingesting(p) => assert_eq!(p.into_bytes(), vec![1, 2, 3]),
        other => panic!("expected to go on reading, got {:?}", other),
    }
    let payload = IngestedPayload::new(3);
    assert!(matches!(
        on_chunk(payload, &[1, 2, 3, 4]),
        State::Failed(AppError::PayloadTooLarge(3))
    ));
}

#[test]
fn require_supported_lets_only_the_four_formats_pass() {
    for t in ["image/png", "image/jpeg", "image/bmp", "image/gif"] {
        assert_eq!(require_supported(t.to_string()), Ok(()));
    }
    for t in ["image/heic", "image/webp", "text/plain", "application/octet-stream", ""] {
        assert_eq!(
            require_supported(t.to_string()),
            Err(AppError::UnsupportedMediaType(t.to_string()))
        );
    }
}

#[test]
fn advance_encodes_a_decoded_image_or_says_why_not() {
    let small = webp_service::codec::DecodedImage::new(DynamicImage::new_rgb8(2, 2));
    let (state, action) = advance(State::Ingested(Vec::new()), Event::Decoded(Ok(small)));
    assert_eq!(action, Action::SendImage);
    assert_eq!(status_of_reply(state), 200);
    let wide = webp_service::codec::DecodedImage::new(DynamicImage::new_rgb8(16384, 1));
    let (state, action) = advance(State::Ingested(Vec::new()), Event::Decoded(Ok(wide)));
    assert_eq!(action, Action::SendError);
    assert!(matches!(
        &state,
        State::Failed(AppError::ConversionFailed(d))
            if d == "image dimensions are outside the range that WebP supports"
    ));
    assert_eq!(status_of_reply(state), 500);
}

#[test]
fn reading_chunk_by_chunk_agrees_with_reading_the_stream_at_once() {
    let streams: Vec<Vec<Result<Vec<u8>, String>>> = vec![
        vec![],
        vec![Ok(vec![1, 2]), Ok(vec![]), Ok(vec![3])],
        vec![Ok(vec![1, 2]), Err("broken".to_string()), Ok(vec![3])],
        vec![Err("at once".to_string())],
    ];
    for chunks in streams {
        let (mut state, _) = step(State::new(), field("image", Some("a.png")));
        for chunk in &chunks {
            let event = match chunk {
                Ok(data) => Event::Chunk(data.clone()),
                Err(detail) => Event::ChunkError(detail.clone()),
            };
            state = step(state, event).0;
        }
        let (state, _) = step(state, Event::EndOfChunks);
        match (webp_service::ingest::read_bounded(&chunks, MAX_FILE_SIZE), state) {
            (Ok(all), State::Ingested(bytes)) => assert_eq!(all, bytes),
            (Err(e), State::Failed(failure)) => assert_eq!(e, failure),
            (expected, reached) => panic!("expected {:?}, reached {:?}", expected, reached),
        }
    }
}
