use voicenote::capture::CaptureSession;
use voicenote::models::{model_file_name, model_for_selection, model_url, DEFAULT_MODEL_TIER};
use voicenote::notes::{note_body, note_file_name};
use voicenote::resample::{begin_resample, Resampling, TARGET_SAMPLE_RATE};
use voicenote::transcript::{
    collect_segments, join_segments, keep_segment, transcript_text, EngineSegment,
};
use voicenote::Config;

fn seg(text: &str, t0: i64, t1: i64) -> EngineSegment {
    EngineSegment { text: Some(text.to_string()), t0: Some(t0), t1: Some(t1) }
}

#[test]
fn blank_segments_are_dropped() {
    let raw = vec![seg("", 0, 100), seg("Hello", 100, 300), seg("  ", 300, 400), seg("world", 400, 600)];
    let segs = collect_segments(&raw);
    assert_eq!(segs.len(), 2);
    assert_eq!(segs[0].text, "Hello");
    assert_eq!(segs[0].start_centis as f64 / 100.0, 1.0);
    assert_eq!(segs[0].end_centis as f64 / 100.0, 3.0);
    assert_eq!(segs[1].text, "world");
    assert_eq!(segs[1].start_centis as f64 / 100.0, 4.0);
    assert_eq!(segs[1].end_centis as f64 / 100.0, 6.0);
    assert_eq!(join_segments(&segs), "Hello\n\nworld");
    assert_eq!(transcript_text(&raw), "Hello\n\nworld");
}

#[test]
fn segment_text_is_trimmed() {
    let raw = vec![seg("  こんにちは \n", 5, 9), seg("\tend ", 9, 12)];
    let segs = collect_segments(&raw);
    assert_eq!(segs[0].text, "こんにちは");
    assert_eq!(segs[1].text, "end");
    assert_eq!(transcript_text(&raw), "こんにちは\n\nend");
}

#[test]
fn unreadable_lookups() {
    let raw = vec![
        EngineSegment { text: None, t0: Some(0), t1: Some(10) },
        EngineSegment { text: Some(" kept ".to_string()), t0: None, t1: None },
    ];
    let segs = collect_segments(&raw);
    assert_eq!(segs.len(), 1);
    assert_eq!(segs[0].text, "kept");
    assert_eq!(segs[0].start_centis, 0);
    assert_eq!(segs[0].end_centis, 0);
}

#[test]
fn no_segments_give_empty_transcript() {
    assert_eq!(transcript_text(&Vec::new()), "");
    assert_eq!(transcript_text(&vec![seg(" ", 0, 1)]), "");
    assert_eq!(transcript_text(&vec![seg("one", 0, 1)]), "one");
}

#[test]
fn sine_tone_round_trip_with_echo_engine() {
    let rate = TARGET_SAMPLE_RATE;
    let tone: Vec<f32> = (0..1600)
        .map(|i| (2.0 * std::f32::consts::PI * 440.0 * i as f32 / rate as f32).sin() * 0.5)
        .collect();
    let mut session: CaptureSession<f32> = CaptureSession::new(rate, 1).unwrap();
    for chunk in tone.chunks(256) {
        session.deliver(chunk);
    }
    session.raise_stop();
    session.close_stream();
    let rec = session.finish().unwrap();
    assert_eq!(rec.data, tone);
    let audio = match begin_resample(rec.data, rec.sample_rate, TARGET_SAMPLE_RATE) {
        Ok(Resampling::Done(v)) => v,
        _ => panic!("already at the target rate"),
    };
    let echo = vec![seg(" fixed phrase ", 0, (audio.len() / 160) as i64)];
    let segs = collect_segments(&echo);
    assert!(!segs.is_empty());
    assert_eq!(segs[0].text, "fixed phrase");
    assert_eq!(segs[0].end_centis, 10);
}

#[test]
fn model_names_and_urls() {
    assert_eq!(model_file_name("small"), "ggml-small.bin");
    assert_eq!(
        model_url("base"),
        "https://huggingface.co/ggerganov/whisper.cpp/resolve/main/ggml-base.bin"
    );
    assert_eq!(model_for_selection(0).as_deref(), Some("tiny"));
    assert_eq!(model_for_selection(DEFAULT_MODEL_TIER).as_deref(), Some("small"));
    assert_eq!(model_for_selection(4).as_deref(), Some("large"));
    assert_eq!(model_for_selection(5), None);
}

#[test]
fn note_naming_and_body() {
    assert_eq!(note_file_name("2024-01-02_030405"), "2024-01-02_030405_raw.md");
    assert_eq!(
        note_body("2024-01-02T03:04:05+09:00", "Hello\n\nworld"),
        "---\ncreated: 2024-01-02T03:04:05+09:00\ntype: transcription\ntags:\n  - recording\n  - raw\n---\nHello\n\nworld"
    );
}

#[test]
fn config_clones() {
    let c = Config {
        vault_path: "/vault".to_string(),
        save_folder: "recordings".to_string(),
        whisper_model: "small".to_string(),
    };
    let d = c.clone();
    assert_eq!(d.vault_path, "/vault");
    assert_eq!(d.save_folder, "recordings");
    assert_eq!(d.whisper_model, "small");
}

#[test]
fn keep_segment_after_trim() {
    assert!(keep_segment(String::new(), Some(1), Some(2)).is_none());
    let s = keep_segment("Hello".to_string(), Some(100), None).unwrap();
    assert_eq!(s.text, "Hello");
    assert_eq!(s.start_centis, 100);
    assert_eq!(s.end_centis, 0);
}
